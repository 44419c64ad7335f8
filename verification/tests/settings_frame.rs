use http3_rs::config::{Config, Settings, VARINT_MAX};
use http3_rs::frame::{
    self, SettingId, SettingsError, ENABLE_CONNECT_PROTOCOL, ENABLE_WEBTRANSPORT, H3_DATAGRAM,
    MAX_HEADER_LIST_SIZE, QPACK_MAX_BLOCKED_STREAMS, QPACK_MAX_TABLE_CAPACITY, SETTINGS_LEN,
    WEBTRANSPORT_MAX_SESSIONS,
};

fn id(code: u64) -> SettingId {
    SettingId(code)
}

fn is_grease(id: SettingId) -> bool {
    id.0 >= 0x21 && (id.0 - 0x21) % 0x1f == 0 && (id.0 - 0x21) / 0x1f <= u32::MAX as u64
}

#[test]
fn insert_then_get_reads_back_the_value() {
    let mut s = frame::Settings::new();
    assert_eq!(s.insert(id(0x6), 100), Ok(()));
    assert_eq!(s.insert(id(0x33), 1), Ok(()));
    assert_eq!(s.get(id(0x6)), Some(100));
    assert_eq!(s.get(id(0x33)), Some(1));
    assert_eq!(s.get(id(0x8)), None);
    assert_eq!(s.len(), 2);
    assert_eq!(s.entries(), &[(id(0x6), 100), (id(0x33), 1)]);
}

#[test]
fn insert_of_a_present_identifier_is_refused() {
    let mut s = frame::Settings::new();
    s.insert(id(0x6), 100).unwrap();
    assert_eq!(s.insert(id(0x6), 5), Err(SettingsError::Repeated(id(0x6))));
    assert_eq!(s.get(id(0x6)), Some(100));
    assert_eq!(s.len(), 1);
}

#[test]
fn insert_into_a_full_frame_is_refused() {
    let mut s = frame::Settings::new();
    for i in 0..SETTINGS_LEN as u64 {
        s.insert(id(0x1000 + i), i).unwrap();
    }
    assert_eq!(s.insert(id(0x1), 1), Err(SettingsError::Exceeded));
    // a full frame reports Exceeded even for an identifier it holds
    assert_eq!(s.insert(id(0x1000), 1), Err(SettingsError::Exceeded));
    assert_eq!(s.len(), SETTINGS_LEN);
}

#[test]
fn grease_identifiers_have_the_reserved_form() {
    assert_eq!(SettingId::grease_from(0), id(0x21));
    assert_eq!(SettingId::grease_from(1), id(0x40));
    assert_eq!(SettingId::grease_from(u32::MAX), id(0x1f * u32::MAX as u64 + 0x21));
    for _ in 0..100 {
        assert!(is_grease(SettingId::grease()));
    }
}

#[test]
fn default_settings() {
    let s = Settings::default();
    assert_eq!(s.max_field_section_size, 4611686018427387903);
    assert_eq!(s.max_field_section_size, VARINT_MAX);
    assert!(!s.enable_webtransport());
    assert!(!s.enable_datagram());
    assert!(!s.enable_extended_connect());
    assert_eq!(s.max_webtransport_sessions, 0);
    assert_eq!(s.qpack_max_table_capacity, None);
    assert_eq!(s.qpack_blocked_streams, None);
}

#[test]
fn default_config() {
    let c = Config::default();
    assert!(c.send_grease);
    assert!(c.send_settings);
    assert!(c.settings_order.is_none());
    assert!(c.extra_settings.is_empty());
    assert_eq!(c.settings, Settings::default());
}

#[test]
fn empty_frame_gives_default_settings() {
    let f = frame::Settings::new();
    assert_eq!(Settings::from_frame(&f), Settings::default());
    assert_eq!(Settings::from(&f), Settings::default());
}

#[test]
fn received_frame_is_read_into_settings() {
    let mut f = frame::Settings::new();
    f.insert(id(MAX_HEADER_LIST_SIZE), 8192).unwrap();
    f.insert(id(ENABLE_WEBTRANSPORT), 7).unwrap();
    f.insert(id(H3_DATAGRAM), 0).unwrap();
    f.insert(id(ENABLE_CONNECT_PROTOCOL), 1).unwrap();
    f.insert(id(WEBTRANSPORT_MAX_SESSIONS), 3).unwrap();
    f.insert(id(QPACK_MAX_TABLE_CAPACITY), 0).unwrap();
    f.insert(id(0x21), 99).unwrap();
    let s = Settings::from(&f);
    assert_eq!(s.max_field_section_size, 8192);
    assert!(s.enable_webtransport());
    assert!(!s.enable_datagram());
    assert!(s.enable_extended_connect());
    assert_eq!(s.max_webtransport_sessions, 3);
    assert_eq!(s.qpack_max_table_capacity, Some(0));
    assert_eq!(s.qpack_blocked_streams, None);
}

#[test]
fn resolve_known_and_extra_settings() {
    let mut c = Config::default();
    c.settings.max_field_section_size = 4096;
    c.settings.enable_datagram = true;
    c.settings.qpack_blocked_streams = Some(16);
    c.extra_settings.push((id(0x4d44), 7));
    c.extra_settings.push((id(0x4d44), 8));
    c.extra_settings.push((id(0x6), 1));
    assert_eq!(c.resolve_setting_value(&id(MAX_HEADER_LIST_SIZE)), Some(4096));
    assert_eq!(c.resolve_setting_value(&id(H3_DATAGRAM)), Some(1));
    assert_eq!(c.resolve_setting_value(&id(ENABLE_WEBTRANSPORT)), Some(0));
    assert_eq!(c.resolve_setting_value(&id(ENABLE_CONNECT_PROTOCOL)), Some(0));
    assert_eq!(c.resolve_setting_value(&id(WEBTRANSPORT_MAX_SESSIONS)), Some(0));
    assert_eq!(c.resolve_setting_value(&id(QPACK_MAX_TABLE_CAPACITY)), None);
    assert_eq!(c.resolve_setting_value(&id(QPACK_MAX_BLOCKED_STREAMS)), Some(16));
    assert_eq!(c.resolve_setting_value(&id(0x4d44)), Some(7));
    assert_eq!(c.resolve_setting_value(&id(0x4d45)), None);
}

#[test]
fn default_mode_frame_has_known_then_extra_then_grease() {
    let mut c = Config::default();
    c.settings.max_field_section_size = 16384;
    c.settings.enable_extended_connect = true;
    c.settings.qpack_max_table_capacity = Some(65536);
    c.extra_settings.push((id(0x4d44), 7));
    let g = SettingId::grease_from(5);
    let f = c.settings_with_grease(g).unwrap();
    assert_eq!(
        f.entries(),
        &[
            (id(MAX_HEADER_LIST_SIZE), 16384),
            (id(ENABLE_CONNECT_PROTOCOL), 1),
            (id(ENABLE_WEBTRANSPORT), 0),
            (id(H3_DATAGRAM), 0),
            (id(WEBTRANSPORT_MAX_SESSIONS), 0),
            (id(QPACK_MAX_TABLE_CAPACITY), 65536),
            (id(0x4d44), 7),
            (g, 0),
        ]
    );
}

#[test]
fn no_grease_when_disabled() {
    let mut c = Config::default();
    c.send_grease = false;
    let f = c.settings_with_grease(SettingId::grease_from(5)).unwrap();
    assert_eq!(f.len(), 5);
    assert_eq!(f.entries()[4], (id(WEBTRANSPORT_MAX_SESSIONS), 0));
}

#[test]
fn grease_colliding_with_an_extra_setting_is_left_out() {
    let mut c = Config::default();
    let g = SettingId::grease_from(3);
    c.extra_settings.push((g, 42));
    let f = c.settings_with_grease(g).unwrap();
    assert_eq!(f.len(), 6);
    assert_eq!(f.get(g), Some(42));
}

#[test]
fn ordered_mode_follows_the_order() {
    let mut c = Config::default();
    c.settings.max_field_section_size = 262144;
    c.settings.qpack_max_table_capacity = Some(65536);
    c.extra_settings.push((id(0x4d44), 7));
    c.settings_order = Some(vec![
        id(QPACK_MAX_TABLE_CAPACITY),
        id(MAX_HEADER_LIST_SIZE),
        id(QPACK_MAX_BLOCKED_STREAMS),
        id(0x4d44),
        id(0x9999),
        id(H3_DATAGRAM),
    ]);
    let g = SettingId::grease_from(0);
    let f = c.settings_with_grease(g).unwrap();
    assert_eq!(
        f.entries(),
        &[
            (id(QPACK_MAX_TABLE_CAPACITY), 65536),
            (id(MAX_HEADER_LIST_SIZE), 262144),
            (id(0x4d44), 7),
            (id(H3_DATAGRAM), 0),
            (g, 0),
        ]
    );
}

#[test]
fn extra_setting_repeating_a_known_one_is_refused() {
    let mut c = Config::default();
    c.extra_settings.push((id(H3_DATAGRAM), 1));
    assert_eq!(
        c.settings_with_grease(SettingId::grease_from(0)).err(),
        Some(SettingsError::Repeated(id(H3_DATAGRAM)))
    );
    assert_eq!(
        frame::Settings::try_from_config(c).err(),
        Some(SettingsError::Repeated(id(H3_DATAGRAM)))
    );
}

#[test]
fn repeated_identifier_in_the_order_is_refused() {
    let mut c = Config::default();
    c.settings_order = Some(vec![id(MAX_HEADER_LIST_SIZE), id(MAX_HEADER_LIST_SIZE)]);
    assert_eq!(
        c.settings_with_grease(SettingId::grease_from(0)).err(),
        Some(SettingsError::Repeated(id(MAX_HEADER_LIST_SIZE)))
    );
}

#[test]
fn too_many_settings_are_refused() {
    let mut c = Config::default();
    for i in 0..12u64 {
        c.extra_settings.push((id(0x5000 + i), i));
    }
    assert_eq!(
        c.settings_with_grease(SettingId::grease_from(0)).err(),
        Some(SettingsError::Exceeded)
    );
}

#[test]
fn full_frame_drops_the_grease_entry() {
    let mut c = Config::default();
    for i in 0..11u64 {
        c.extra_settings.push((id(0x5000 + i), i));
    }
    let f = c.settings_with_grease(SettingId::grease_from(0)).unwrap();
    assert_eq!(f.len(), SETTINGS_LEN);
    assert_eq!(f.get(SettingId::grease_from(0)), None);
}

#[test]
fn announced_settings_read_back_as_configured() {
    let mut c = Config::default();
    c.settings.max_field_section_size = 8192;
    c.settings.enable_webtransport = true;
    c.settings.enable_datagram = true;
    c.settings.max_webtransport_sessions = 4;
    c.settings.qpack_blocked_streams = Some(0);
    c.extra_settings.push((id(0x4d44), 7));
    let expected = c.settings;
    let f = frame::Settings::try_from_config(c).unwrap();
    assert_eq!(Settings::from(&f), expected);
    assert_eq!(f.len(), 8);
    assert!(is_grease(f.entries()[7].0));
    assert_eq!(f.entries()[7].1, 0);
}
