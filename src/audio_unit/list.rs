use vstd::prelude::*;
use vstd::string::StringExecFns;

use crate::error::{Error, OSStatus};

verus! {

/// The version of an audio unit, unpacked from the host's 32-bit form
/// `0xMMmmbbss`.
#[derive(Debug, Clone, Copy, PartialEq, Eq, Structural)]
pub struct AudioUnitVersion {
    pub major: u8,
    pub minor: u8,
    pub bugfix: u8,
    pub stage: u8,
}

/// The character of a decimal digit.
pub open spec fn digit_char(d: nat) -> char {
    if d == 0 { '0' }
    else if d == 1 { '1' }
    else if d == 2 { '2' }
    else if d == 3 { '3' }
    else if d == 4 { '4' }
    else if d == 5 { '5' }
    else if d == 6 { '6' }
    else if d == 7 { '7' }
    else if d == 8 { '8' }
    else { '9' }
}

/// The decimal digits of `n`, without leading zeros.
pub open spec fn decimal(n: nat) -> Seq<char>
    decreases n,
{
    if n < 10 {
        seq![digit_char(n)]
    } else {
        decimal(n / 10).push(digit_char(n % 10))
    }
}

/// The text of a version: its four parts in decimal, joined by dots.
pub open spec fn version_text(v: AudioUnitVersion) -> Seq<char> {
    decimal(v.major as nat) + seq!['.'] + decimal(v.minor as nat) + seq!['.']
        + decimal(v.bugfix as nat) + seq!['.'] + decimal(v.stage as nat)
}

/// Appends the character of digit `d` to `s`.
fn push_digit(s: &mut String, d: u8)
    requires
        d < 10,
    ensures
        final(s)@ == old(s)@.push(digit_char(d as nat)),
{
    let t = match d {
        0 => "0",
        1 => "1",
        2 => "2",
        3 => "3",
        4 => "4",
        5 => "5",
        6 => "6",
        7 => "7",
        8 => "8",
        _ => "9",
    };
    proof {
        reveal_strlit("0");
        reveal_strlit("1");
        reveal_strlit("2");
        reveal_strlit("3");
        reveal_strlit("4");
        reveal_strlit("5");
        reveal_strlit("6");
        reveal_strlit("7");
        reveal_strlit("8");
        reveal_strlit("9");
    }
    s.append(t);
    proof {
        assert(s@ =~= old(s)@.push(digit_char(d as nat)));
    }
}

/// Appends the decimal digits of `n` to `s`.
fn push_decimal(s: &mut String, n: u8)
    ensures
        final(s)@ == old(s)@ + decimal(n as nat),
{
    proof {
        reveal_with_fuel(decimal, 3);
    }
    if n >= 100 {
        push_digit(s, n / 100);
        push_digit(s, (n / 10) % 10);
        push_digit(s, n % 10);
        proof {
            assert((n / 10) as nat / 10 == n as nat / 100);
            assert(s@ =~= old(s)@ + decimal(n as nat));
        }
    } else if n >= 10 {
        push_digit(s, n / 10);
        push_digit(s, n % 10);
        proof {
            assert(s@ =~= old(s)@ + decimal(n as nat));
        }
    } else {
        push_digit(s, n);
        proof {
            assert(s@ =~= old(s)@ + decimal(n as nat));
        }
    }
}

/// Appends a dot to `s`.
fn push_dot(s: &mut String)
    ensures
        final(s)@ == old(s)@ + seq!['.'],
{
    proof {
        reveal_strlit(".");
    }
    s.append(".");
}

impl AudioUnitVersion {
    /// Unpacks the host's 32-bit version: the major part in the top byte,
    /// then the minor part, the bugfix part, and the stage in the low byte.
    pub fn from_packed(version: u32) -> (r: Self)
        ensures
            unpacked(version, r),
    {
        proof {
            assert((version >> 24u32) & 0xffu32 < 256u32) by (bit_vector);
            assert((version >> 16u32) & 0xffu32 < 256u32) by (bit_vector);
            assert((version >> 8u32) & 0xffu32 < 256u32) by (bit_vector);
            assert(version & 0xffu32 < 256u32) by (bit_vector);
        }
        AudioUnitVersion {
            major: ((version >> 24) & 0xff) as u8,
            minor: ((version >> 16) & 0xff) as u8,
            bugfix: ((version >> 8) & 0xff) as u8,
            stage: (version & 0xff) as u8,
        }
    }

    /// The version as text, such as `1.2.0.3`.
    pub fn to_string(&self) -> (r: String)
        ensures
            r@ == version_text(*self),
    {
        let mut s = String::new();
        push_decimal(&mut s, self.major);
        push_dot(&mut s);
        push_decimal(&mut s, self.minor);
        push_dot(&mut s);
        push_decimal(&mut s, self.bugfix);
        push_dot(&mut s);
        push_decimal(&mut s, self.stage);
        proof {
            assert(s@ =~= version_text(*self));
        }
        s
    }
}

/// What identifies a kind of audio component to the host.
#[derive(Debug, Clone, Copy, PartialEq, Eq, Structural)]
pub struct ComponentDescription {
    pub component_type: u32,
    pub component_sub_type: u32,
    pub component_manufacturer: u32,
    pub component_flags: u32,
    pub component_flags_mask: u32,
}

/// The description to search the host with for units of one type: the
/// type's code, its subtype code or zero for a type without one, and zero
/// for everything else.
pub fn search_description(component_type: u32, sub_type: Option<u32>) -> (r: ComponentDescription)
    ensures
        r.component_type == component_type,
        r.component_sub_type == match sub_type {
            Some(u) => u,
            None => 0u32,
        },
        r.component_manufacturer == 0,
        r.component_flags == 0,
        r.component_flags_mask == 0,
{
    let component_sub_type = match sub_type {
        Some(u) => u,
        None => 0,
    };
    ComponentDescription {
        component_type,
        component_sub_type,
        component_manufacturer: 0,
        component_flags: 0,
        component_flags_mask: 0,
    }
}

/// What the host answered about one component it found: for its name, its
/// packed version and its description, the status of the query and the
/// value it gave.
pub struct ComponentQuery {
    pub name_status: OSStatus,
    pub name: String,
    pub version_status: OSStatus,
    pub version: u32,
    pub description_status: OSStatus,
    pub description: ComponentDescription,
}

/// The name, version and description of one audio unit.
pub struct AudioUnitInfo {
    pub name: String,
    pub version: AudioUnitVersion,
    pub description: ComponentDescription,
}

/// The first failing status among the three queries of a component, in the
/// order name, version, description; zero when all succeeded.
pub open spec fn query_status(q: ComponentQuery) -> OSStatus {
    if q.name_status != 0 {
        q.name_status
    } else if q.version_status != 0 {
        q.version_status
    } else {
        q.description_status
    }
}

/// The first failing status over the components in order, if any.
pub open spec fn first_failure(qs: Seq<ComponentQuery>) -> Option<OSStatus>
    decreases qs.len(),
{
    if qs.len() == 0 {
        None
    } else if query_status(qs[0]) != 0 {
        Some(query_status(qs[0]))
    } else {
        first_failure(qs.drop_first())
    }
}

/// `v` is the unpacked form of `packed`.
pub open spec fn unpacked(packed: u32, v: AudioUnitVersion) -> bool {
    &&& v.major as u32 == (packed >> 24u32) & 0xffu32
    &&& v.minor as u32 == (packed >> 16u32) & 0xffu32
    &&& v.bugfix as u32 == (packed >> 8u32) & 0xffu32
    &&& v.stage as u32 == packed & 0xffu32
}

/// `info` holds what query `q` answered.
pub open spec fn info_of(q: ComponentQuery, info: AudioUnitInfo) -> bool {
    &&& info.name@ == q.name@
    &&& unpacked(q.version, info.version)
    &&& info.description == q.description
}

/// Where the suffix of `qs` from `i` on starts with a component whose
/// queries all succeeded, its first failure is that of the suffix from `i + 1`.
proof fn lemma_first_failure_step(qs: Seq<ComponentQuery>, i: int)
    requires
        0 <= i < qs.len(),
        query_status(qs[i]) == 0,
    ensures
        first_failure(qs.subrange(i, qs.len() as int)) == first_failure(qs.subrange(i + 1, qs.len() as int)),
{
    assert(qs.subrange(i, qs.len() as int).drop_first() =~= qs.subrange(i + 1, qs.len() as int));
}

/// Gathers the information of the units that the host found, in order.
///
/// Where a query of some component failed, the first such status, in the
/// order of the components and of their queries, is the error.
pub fn list_unit_info(components: &Vec<ComponentQuery>) -> (r: Result<Vec<AudioUnitInfo>, Error>)
    ensures
        match first_failure(components@) {
            Some(status) => r == Err::<Vec<AudioUnitInfo>, Error>(Error::HostStatus(status)),
            None => r matches Ok(infos) && infos@.len() == components@.len() && forall|i: int|
                0 <= i < components@.len() ==> info_of(components@[i], #[trigger] infos@[i]),
        },
{
    let mut ret: Vec<AudioUnitInfo> = Vec::new();
    let mut i: usize = 0;
    proof {
        assert(components@.subrange(0, components@.len() as int) =~= components@);
    }
    while i < components.len()
        invariant
            i <= components@.len(),
            ret@.len() == i,
            first_failure(components@) == first_failure(components@.subrange(i as int, components@.len() as int)),
            forall|k: int| 0 <= k < i ==> info_of(components@[k], #[trigger] ret@[k]),
        decreases components@.len() - i,
    {
        let q = &components[i];
        if q.name_status != 0 {
            return Err(Error::HostStatus(q.name_status));
        }
        if q.version_status != 0 {
            return Err(Error::HostStatus(q.version_status));
        }
        if q.description_status != 0 {
            return Err(Error::HostStatus(q.description_status));
        }
        proof {
            lemma_first_failure_step(components@, i as int);
        }
        ret.push(AudioUnitInfo {
            name: q.name.clone(),
            version: AudioUnitVersion::from_packed(q.version),
            description: q.description,
        });
        i = i + 1;
    }
    proof {
        assert(components@.subrange(i as int, components@.len() as int).len() == 0);
    }
    Ok(ret)
}

} // verus!
