use nictagadm::config::{
    get_sdc_config_filename, load_sdc_config, parent_or_dot, sdc_config_to_map, PathProbe,
    SdcConfigPaths,
};
use nictagadm::errors::SdcConfigError;
use nictagadm::strmap::StrMap;
use nictagadm::utils::parse_config_file;

fn lines(ls: &[&str]) -> Vec<String> {
    ls.iter().map(|l| l.to_string()).collect()
}

const NO_PROBE: PathProbe = PathProbe {
    usb_copy_config_exists: false,
    mnt_config_exists: false,
    default_exists: false,
    cn_exists: false,
};

#[test]
fn parse_keeps_filtered_key_value_lines() {
    let mut map = StrMap::new();
    let input = lines(&[
        "foo=bar",
        "# comment=ignored",
        "  baz=qux  ",
        "noequals",
        "lower=a=b",
        "",
    ]);
    let r = parse_config_file(&input, Some("^[a-zA-Z].*$"), &mut map);
    assert!(r.is_ok());
    assert_eq!(map.get(&"foo".to_string()), Some(&"bar".to_string()));
    assert_eq!(map.get(&"# comment".to_string()), None);
    assert_eq!(map.get(&"baz".to_string()), Some(&"qux".to_string()));
    assert_eq!(map.get(&"noequals".to_string()), None);
    assert_eq!(map.get(&"lower".to_string()), Some(&"a=b".to_string()));
}

#[test]
fn parse_without_filter_keeps_every_key_value_line() {
    let mut map = StrMap::new();
    let input = lines(&["1x=2", "#y=3"]);
    let r = parse_config_file(&input, None, &mut map);
    assert!(r.is_ok());
    assert_eq!(map.get(&"1x".to_string()), Some(&"2".to_string()));
    assert_eq!(map.get(&"#y".to_string()), Some(&"3".to_string()));
}

#[test]
fn parse_last_line_wins_on_duplicate_keys() {
    let mut map = StrMap::new();
    let input = lines(&["k=first", "k=second"]);
    parse_config_file(&input, None, &mut map).unwrap();
    assert_eq!(map.get(&"k".to_string()), Some(&"second".to_string()));
}

#[test]
fn parse_rejects_invalid_filter_expression() {
    let mut map = StrMap::new();
    map.insert("kept".to_string(), "yes".to_string());
    let input = lines(&["foo=bar"]);
    let r = parse_config_file(&input, Some("("), &mut map);
    assert_eq!(r, Err(SdcConfigError::BadFilter));
    assert_eq!(map.get(&"foo".to_string()), None);
    assert_eq!(map.get(&"kept".to_string()), Some(&"yes".to_string()));
}

#[test]
fn parent_or_dot_follows_path_shape() {
    assert_eq!(parent_or_dot("/usbkey/config"), "/usbkey");
    assert_eq!(parent_or_dot("/config"), "/");
    assert_eq!(parent_or_dot("config"), "");
    assert_eq!(parent_or_dot(""), ".");
}

#[test]
fn config_filename_prefers_usb_copy_path() {
    let probe = PathProbe { usb_copy_config_exists: true, ..NO_PROBE };
    let paths = get_sdc_config_filename(&"/usbkey".to_string(), &"usb".to_string(), &probe);
    assert_eq!(
        paths,
        SdcConfigPaths {
            config_file: "/usbkey/config".to_string(),
            config_inc_dir: "/usbkey/config.inc".to_string(),
        }
    );
}

#[test]
fn config_filename_falls_back_to_mountpoint() {
    let probe = PathProbe { mnt_config_exists: true, ..NO_PROBE };
    let paths = get_sdc_config_filename(&"/usbkey".to_string(), &"usb".to_string(), &probe);
    assert_eq!(
        paths,
        SdcConfigPaths {
            config_file: "/mnt/usb/config".to_string(),
            config_inc_dir: "/mnt/usb/config.inc".to_string(),
        }
    );
}

#[test]
fn config_filename_uses_compute_node_fallback() {
    let probe = PathProbe { cn_exists: true, ..NO_PROBE };
    let paths = get_sdc_config_filename(&"/usbkey".to_string(), &"usb".to_string(), &probe);
    assert_eq!(
        paths,
        SdcConfigPaths {
            config_file: "/var/tmp/node.config/node.config".to_string(),
            config_inc_dir: "/var/tmp/node.config".to_string(),
        }
    );
}

#[test]
fn config_filename_with_nothing_found_keeps_candidate() {
    let probe = PathProbe { default_exists: true, cn_exists: true, ..NO_PROBE };
    let paths = get_sdc_config_filename(&"/usbkey".to_string(), &"usb".to_string(), &probe);
    assert_eq!(
        paths,
        SdcConfigPaths {
            config_file: "/mnt/usb/config".to_string(),
            config_inc_dir: "".to_string(),
        }
    );
}

#[test]
fn missing_config_file_is_fatal_on_headnode() {
    let paths = SdcConfigPaths {
        config_file: "/mnt/usb/config".to_string(),
        config_inc_dir: "/mnt/usb".to_string(),
    };
    let r = sdc_config_to_map(&paths, None, true);
    assert_eq!(r, Err(SdcConfigError::HeadnodeConfigMissing));
}

#[test]
fn missing_config_file_is_plain_error_off_headnode() {
    let paths = SdcConfigPaths {
        config_file: "/mnt/usb/config".to_string(),
        config_inc_dir: "/mnt/usb".to_string(),
    };
    let r = sdc_config_to_map(&paths, None, false);
    assert_eq!(r, Err(SdcConfigError::IOError));
}

#[test]
fn load_sdc_config_builds_full_mapping() {
    let probe = PathProbe { usb_copy_config_exists: true, ..NO_PROBE };
    let content = lines(&["admin_nic=00:0c:29:aa:bb:cc", "# generated", "headnode=true"]);
    let config = load_sdc_config(
        true,
        &"/usbkey".to_string(),
        &"usb".to_string(),
        &probe,
        Some(&content),
    )
    .unwrap();
    assert_eq!(
        config.get(&"admin_nic".to_string()),
        Some(&"00:0c:29:aa:bb:cc".to_string())
    );
    assert_eq!(config.get(&"headnode".to_string()), Some(&"true".to_string()));
    assert_eq!(config.get(&"# generated".to_string()), None);
    assert_eq!(
        config.get(&"config_inc_dir".to_string()),
        Some(&"/usbkey/config.inc".to_string())
    );
}

#[test]
fn load_sdc_config_without_file_reports_error() {
    let r = load_sdc_config(
        false,
        &"/usbkey".to_string(),
        &"usb".to_string(),
        &NO_PROBE,
        None,
    );
    assert_eq!(r, Err(SdcConfigError::IOError));
}
