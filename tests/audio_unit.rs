use coreaudio::audio_unit::list::{
    list_unit_info, search_description, AudioUnitVersion, ComponentDescription, ComponentQuery,
};
use coreaudio::audio_unit::list_units::list_units;
use coreaudio::Error;

/// The host's code for effect units.
const EFFECT: u32 = 0x6175_6678;

fn query(name: &str, version: u32) -> ComponentQuery {
    ComponentQuery {
        name_status: 0,
        name: name.to_string(),
        version_status: 0,
        version,
        description_status: 0,
        description: ComponentDescription {
            component_type: EFFECT,
            component_sub_type: 0x6465_6c79,
            component_manufacturer: 0x6170_706c,
            component_flags: 2,
            component_flags_mask: 0,
        },
    }
}

#[test]
fn list_list_units_test() {
    let units = list_unit_info(&vec![]).unwrap();
    assert!(units.is_empty());
    let search = search_description(EFFECT, None);
    assert_eq!(search.component_sub_type, 0);
    println!("{:?}", units.len());
}

#[test]
fn list_units_list_units_test() {
    let units = list_units(&vec![]).unwrap();
    assert!(units.is_empty());
    println!("{:?}", units.len());
}

#[test]
fn version_unpacks_bytes() {
    let v = AudioUnitVersion::from_packed(0x0102_0304);
    assert_eq!((v.major, v.minor, v.bugfix, v.stage), (1, 2, 3, 4));
    let w = AudioUnitVersion::from_packed(0xff00_a00b);
    assert_eq!((w.major, w.minor, w.bugfix, w.stage), (255, 0, 160, 11));
}

#[test]
fn version_text_is_dotted_decimal() {
    assert_eq!(AudioUnitVersion::from_packed(0x0102_0304).to_string(), "1.2.3.4");
    assert_eq!(AudioUnitVersion::from_packed(0xff00_a00b).to_string(), "255.0.160.11");
}

#[test]
fn search_description_keeps_subtype() {
    let d = search_description(EFFECT, Some(0x6465_6c79));
    assert_eq!(
        d,
        ComponentDescription {
            component_type: EFFECT,
            component_sub_type: 0x6465_6c79,
            component_manufacturer: 0,
            component_flags: 0,
            component_flags_mask: 0,
        }
    );
}

#[test]
fn unit_info_in_order() {
    let infos = list_unit_info(&vec![query("AUDelay", 0x0001_0000), query("AUReverb", 0x0002_0103)]).unwrap();
    assert_eq!(infos.len(), 2);
    assert_eq!(infos[0].name, "AUDelay");
    assert_eq!(infos[0].version.to_string(), "0.1.0.0");
    assert_eq!(infos[1].name, "AUReverb");
    assert_eq!(infos[1].version.to_string(), "0.2.1.3");
    assert_eq!(infos[1].description.component_flags, 2);
    let ds = list_units(&vec![query("AUDelay", 0x0001_0000)]).unwrap();
    assert_eq!(ds[0].name, "AUDelay");
    assert_eq!(ds[0].version.minor, 1);
}

#[test]
fn first_failing_query_is_the_error() {
    let mut a = query("A", 1);
    a.version_status = -10;
    a.description_status = -20;
    let mut b = query("B", 1);
    b.name_status = -30;
    let ok = query("C", 1);
    let r = list_unit_info(&vec![ok, a, b]);
    assert!(matches!(r, Err(Error::HostStatus(-10))));
    let mut c = query("C", 1);
    c.description_status = 5;
    let r = list_units(&vec![c, query("D", 2)]);
    assert!(matches!(r, Err(Error::HostStatus(5))));
}
