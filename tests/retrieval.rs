use doc_index_updater::retrieval::{missing_setting_message, remote_path, SentinelSettings};

#[test]
fn remote_path_drops_leading_separators() {
    assert_eq!(remote_path("/docs/a.pdf"), "docs/a.pdf");
    assert_eq!(remote_path("//docs/a.pdf"), "docs/a.pdf");
    assert_eq!(remote_path("docs/a.pdf"), "docs/a.pdf");
    assert_eq!(remote_path("docs/"), "docs/");
    assert_eq!(remote_path("/"), "");
    assert_eq!(remote_path(""), "");
}

#[test]
fn missing_setting_message_names_it() {
    assert_eq!(missing_setting_message("X"), "Set env variable X first!");
}

#[test]
fn settings_need_all_three_values() {
    let s = SentinelSettings::from_values(Some("host".to_string()), Some("u".to_string()), Some("p".to_string())).unwrap();
    assert_eq!(s.server, "host");
    assert_eq!(s.username, "u");
    assert_eq!(s.password, "p");
    assert_eq!(s.address(), "host:22");
}

#[test]
fn settings_name_the_first_missing_value() {
    let e = SentinelSettings::from_values(None, None, Some("p".to_string())).err().unwrap();
    assert_eq!(e, "Set env variable SENTINEL_SFTP_SERVER first!");
    let e = SentinelSettings::from_values(Some("h".to_string()), None, None).err().unwrap();
    assert_eq!(e, "Set env variable SENTINEL_SFTP_USERNAME first!");
    let e = SentinelSettings::from_values(Some("h".to_string()), Some("u".to_string()), None).err().unwrap();
    assert_eq!(e, "Set env variable SENTINEL_SFTP_PASSWORD first!");
}
