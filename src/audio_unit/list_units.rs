use vstd::prelude::*;

use crate::error::Error;

pub use super::list::AudioUnitVersion;
use super::list::{first_failure, info_of, list_unit_info, unpacked, AudioUnitInfo, ComponentDescription, ComponentQuery};

verus! {

/// The name, version and description of one audio unit found by `list_units`.
pub struct AudioUnitDescription {
    pub name: String,
    pub version: AudioUnitVersion,
    pub description: ComponentDescription,
}

/// `d` holds what query `q` answered.
pub open spec fn description_of(q: ComponentQuery, d: AudioUnitDescription) -> bool {
    &&& d.name@ == q.name@
    &&& unpacked(q.version, d.version)
    &&& d.description == q.description
}

/// Gathers the descriptions of the units that the host found, in order.
///
/// Where a query of some component failed, the first such status, in the
/// order of the components and of their queries, is the error.
pub fn list_units(components: &Vec<ComponentQuery>) -> (r: Result<Vec<AudioUnitDescription>, Error>)
    ensures
        match first_failure(components@) {
            Some(status) => r == Err::<Vec<AudioUnitDescription>, Error>(Error::HostStatus(status)),
            None => r matches Ok(ds) && ds@.len() == components@.len() && forall|i: int|
                0 <= i < components@.len() ==> description_of(components@[i], #[trigger] ds@[i]),
        },
{
    let infos = match list_unit_info(components) {
        Ok(infos) => infos,
        Err(e) => return Err(e),
    };
    let mut ret: Vec<AudioUnitDescription> = Vec::new();
    let mut rest = infos;
    let ghost all = rest@;
    let n = rest.len();
    let mut i: usize = 0;
    while i < n
        invariant
            n == all.len(),
            i <= n,
            ret@.len() == i,
            rest@ == all.subrange(i as int, n as int),
            forall|k: int| 0 <= k < i ==> #[trigger] ret@[k].name@ == all[k].name@
                && ret@[k].version == all[k].version && ret@[k].description == all[k].description,
        decreases n - i,
    {
        let info: AudioUnitInfo = rest.remove(0);
        ret.push(AudioUnitDescription {
            name: info.name,
            version: info.version,
            description: info.description,
        });
        proof {
            assert(rest@ =~= all.subrange(i + 1, n as int));
        }
        i = i + 1;
    }
    proof {
        assert forall|k: int| 0 <= k < components@.len() implies description_of(components@[k], #[trigger] ret@[k]) by {
            assert(info_of(components@[k], all[k]));
        }
    }
    Ok(ret)
}

} // verus!
