use fefix::tagvalue::{Config, Configure};

#[test]
fn config_separator_is_soh_by_default() {
    assert_eq!(Config::default().separator(), 0x1);
}

#[test]
fn config_separator_can_be_changed() {
    let config = &mut Config::default();
    config.set_separator(b'|');
    assert_eq!(config.separator(), b'|');
    config.set_separator(b'^');
    assert_eq!(config.separator(), b'^');
    config.set_separator(0x1);
    assert_eq!(config.separator(), 0x1);
}

#[test]
fn config_verifies_checksum_by_default() {
    assert_eq!(Config::default().verify_checksum(), true);
}

#[test]
fn config_checksum_verification_can_be_changed() {
    let config = &mut Config::default();
    config.set_verify_checksum(false);
    assert_eq!(config.verify_checksum(), false);
    config.set_verify_checksum(true);
    assert_eq!(config.verify_checksum(), true);
}

#[test]
fn config_max_message_size_is_64k_by_default() {
    assert_eq!(Config::default().max_message_size(), Some(65536));
}

#[test]
fn config_builders_change_one_setting_each() {
    let config = Config::default().with_separator(b'|');
    assert_eq!(config.separator(), b'|');
    assert_eq!(config.verify_checksum(), true);
    let config = config.with_checksum_verification(false);
    assert_eq!(config.separator(), b'|');
    assert_eq!(config.verify_checksum(), false);
}
