use nictagadm::bootparams::{
    get_bootparams, prop_type_guess, read_prop, read_root_node, BootparamsError, DiNode, DiProp,
    Resolution, DI_PROP_TYPE_BOOLEAN, DI_PROP_TYPE_BYTE, DI_PROP_TYPE_INT, DI_PROP_TYPE_INT64,
    DI_PROP_TYPE_STRING, DI_PROP_TYPE_UNDEF_IT, DI_PROP_TYPE_UNKNOWN,
};
use nictagadm::strmap::StrMap;

fn prop(name: &str, declared: i32, strings: Option<Vec<&str>>, ints: i32, raw: i32) -> DiProp {
    DiProp {
        name: name.to_string(),
        declared_type: declared,
        strings: strings.map(|v| v.into_iter().map(|s| s.to_string()).collect()),
        ints,
        int64s: -1,
        bytes: -1,
        rawdata: raw,
    }
}

#[test]
fn boolean_prop_yields_no_value() {
    let p = prop("some-flag", DI_PROP_TYPE_BOOLEAN, None, -1, -1);
    assert_eq!(
        prop_type_guess(&p),
        Resolution::Resolved { ptype: DI_PROP_TYPE_BOOLEAN, count: 0 }
    );
    assert!(read_prop(&p).is_none());
}

#[test]
fn undef_it_prop_yields_no_value() {
    let p = prop("weird", DI_PROP_TYPE_UNDEF_IT, None, -1, -1);
    assert_eq!(
        prop_type_guess(&p),
        Resolution::Resolved { ptype: DI_PROP_TYPE_UNDEF_IT, count: 0 }
    );
    assert!(read_prop(&p).is_none());
}

#[test]
fn string_prop_single_element_decodes() {
    let p = prop("headnode", DI_PROP_TYPE_STRING, Some(vec!["true"]), -1, -1);
    let decoded = read_prop(&p).expect("single string element should decode");
    assert_eq!(decoded.0, "headnode");
    assert_eq!(decoded.1, "true");
}

#[test]
fn string_prop_two_elements_is_omitted() {
    let p = prop("multi", DI_PROP_TYPE_STRING, Some(vec!["a", "b"]), -1, -1);
    assert!(read_prop(&p).is_none());
}

#[test]
fn unknown_prop_with_nonempty_string_resolves_as_string() {
    let p = prop("guessme", DI_PROP_TYPE_UNKNOWN, Some(vec!["value"]), 3, -1);
    assert_eq!(
        prop_type_guess(&p),
        Resolution::Resolved { ptype: DI_PROP_TYPE_STRING, count: 1 }
    );
    let decoded = read_prop(&p).expect("heuristic should resolve as string");
    assert_eq!(decoded.0, "guessme");
    assert_eq!(decoded.1, "value");
}

#[test]
fn unknown_prop_in_mapping_end_to_end() {
    let node = DiNode {
        name: "i86pc".to_string(),
        props: vec![prop("guessme", DI_PROP_TYPE_UNKNOWN, Some(vec!["value"]), -1, -1)],
    };
    let map = get_bootparams(Some(&node)).unwrap();
    assert_eq!(map.get(&"guessme".to_string()), Some(&"value".to_string()));
}

#[test]
fn unknown_prop_with_empty_string_falls_back_to_int() {
    let p = prop("empty", DI_PROP_TYPE_UNKNOWN, Some(vec![""]), 7, -1);
    assert_eq!(prop_type_guess(&p), Resolution::Resolved { ptype: DI_PROP_TYPE_INT, count: 7 });
    assert!(read_prop(&p).is_none());
}

#[test]
fn unknown_prop_with_no_strings_records_failed_int_attempt() {
    let p = prop("hopeless", DI_PROP_TYPE_UNKNOWN, None, -1, 5);
    assert_eq!(prop_type_guess(&p), Resolution::Resolved { ptype: DI_PROP_TYPE_INT, count: -1 });
    assert!(read_prop(&p).is_none());
}

#[test]
fn negative_accessor_yields_no_value() {
    for declared in [
        DI_PROP_TYPE_INT,
        DI_PROP_TYPE_INT64,
        DI_PROP_TYPE_BYTE,
        DI_PROP_TYPE_STRING,
    ] {
        let p = prop("broken", declared, None, -1, -1);
        assert!(read_prop(&p).is_none());
    }
}

#[test]
fn negative_accessor_does_not_stop_enumeration() {
    let node = DiNode {
        name: "i86pc".to_string(),
        props: vec![
            prop("broken", DI_PROP_TYPE_INT, None, -1, -1),
            prop("headnode", DI_PROP_TYPE_STRING, Some(vec!["true"]), -1, -1),
        ],
    };
    let map = get_bootparams(Some(&node)).unwrap();
    assert_eq!(map.get(&"broken".to_string()), None);
    assert_eq!(map.get(&"headnode".to_string()), Some(&"true".to_string()));
}

#[test]
fn zero_count_falls_through_to_raw_resolution() {
    let p = prop("rawish", DI_PROP_TYPE_INT, None, 0, 3);
    assert_eq!(
        prop_type_guess(&p),
        Resolution::Resolved { ptype: DI_PROP_TYPE_UNKNOWN, count: 3 }
    );
    let q = prop("flagish", DI_PROP_TYPE_INT, None, 0, 0);
    assert_eq!(
        prop_type_guess(&q),
        Resolution::Resolved { ptype: DI_PROP_TYPE_BOOLEAN, count: 0 }
    );
}

#[test]
fn unrecognized_declared_type_uses_raw_attempt() {
    let p = prop("odd", 99, None, -1, 4);
    assert_eq!(
        prop_type_guess(&p),
        Resolution::Resolved { ptype: DI_PROP_TYPE_UNKNOWN, count: 4 }
    );
    let q = prop("odd", 99, None, -1, -1);
    assert_eq!(prop_type_guess(&q), Resolution::Unresolved);
    assert!(read_prop(&q).is_none());
}

#[test]
fn wrong_root_name_gives_empty_mapping() {
    let node = DiNode {
        name: "sun4v".to_string(),
        props: vec![prop("headnode", DI_PROP_TYPE_STRING, Some(vec!["true"]), -1, -1)],
    };
    let map = get_bootparams(Some(&node)).unwrap();
    assert_eq!(map.get(&"headnode".to_string()), None);
    let direct = read_root_node(&node);
    assert_eq!(direct, StrMap::new());
}

#[test]
fn init_failure_is_the_fatal_error() {
    let r = get_bootparams(None);
    assert_eq!(r, Err(BootparamsError::InitFailed));
    assert_eq!(BootparamsError::InitFailed.message(), "di_init() failed");
}

#[test]
fn mixed_root_node_keeps_only_single_string_props() {
    let node = DiNode {
        name: "i86pc".to_string(),
        props: vec![
            prop("headnode", DI_PROP_TYPE_STRING, Some(vec!["true"]), -1, -1),
            prop("some-flag", DI_PROP_TYPE_BOOLEAN, None, -1, -1),
            prop("bsdsize", DI_PROP_TYPE_INT, None, 2, -1),
        ],
    };
    let map = get_bootparams(Some(&node)).unwrap();
    assert_eq!(map.get(&"headnode".to_string()), Some(&"true".to_string()));
    assert_eq!(map.get(&"some-flag".to_string()), None);
    assert_eq!(map.get(&"bsdsize".to_string()), None);
}

#[test]
fn repeated_enumeration_is_idempotent() {
    let build = || DiNode {
        name: "i86pc".to_string(),
        props: vec![
            prop("headnode", DI_PROP_TYPE_STRING, Some(vec!["true"]), -1, -1),
            prop("smartos", DI_PROP_TYPE_UNKNOWN, Some(vec!["false"]), -1, -1),
        ],
    };
    let first = get_bootparams(Some(&build())).unwrap();
    let second = get_bootparams(Some(&build())).unwrap();
    assert_eq!(first, second);
}

#[test]
fn later_property_overwrites_earlier_binding() {
    let node = DiNode {
        name: "i86pc".to_string(),
        props: vec![
            prop("key", DI_PROP_TYPE_STRING, Some(vec!["old"]), -1, -1),
            prop("key", DI_PROP_TYPE_STRING, Some(vec!["new"]), -1, -1),
        ],
    };
    let map = get_bootparams(Some(&node)).unwrap();
    assert_eq!(map.get(&"key".to_string()), Some(&"new".to_string()));
}

#[test]
fn strmap_insert_get_and_overwrite() {
    let mut map = StrMap::new();
    assert_eq!(map.get(&"a".to_string()), None);
    map.insert("a".to_string(), "1".to_string());
    map.insert("b".to_string(), "2".to_string());
    assert_eq!(map.get(&"a".to_string()), Some(&"1".to_string()));
    assert_eq!(map.get(&"b".to_string()), Some(&"2".to_string()));
    map.insert("a".to_string(), "3".to_string());
    assert_eq!(map.get(&"a".to_string()), Some(&"3".to_string()));
}
