use waft::config::{
    parse_port, Config, ConfigError, EnvValues, Setting, DEFAULT_RTMP_SERVER_PORT,
    DEFAULT_SERVER_PORT,
};

fn values(port: &str, rtmp: &str) -> EnvValues {
    EnvValues {
        port: Some(port.to_string()),
        room_key: Some("secret".to_string()),
        rtmp_port: Some(rtmp.to_string()),
        stream_key: Some("stream".to_string()),
        title: Some("My stream".to_string()),
    }
}

#[test]
fn default_config_falls_back_to_the_default_ports() {
    let config = Config::default();
    assert_eq!(DEFAULT_SERVER_PORT, 3000);
    assert_eq!(DEFAULT_RTMP_SERVER_PORT, 1935);
    assert_eq!(config.port(), 3000);
    assert_eq!(config.rtmp_port(), 1935);
    assert_eq!(config.stream_key(), "");
    assert_eq!(config.key(), None);
    assert_eq!(config.title(), None);
}

#[test]
fn config_gives_back_what_it_was_made_of() {
    let config = Config::new(
        Some(8080),
        Some("secret".to_string()),
        Some(1),
        "stream".to_string(),
        Some("title".to_string()),
    );
    assert_eq!(config.port(), 8080);
    assert_eq!(config.rtmp_port(), 1);
    assert_eq!(config.stream_key(), "stream");
    assert_eq!(config.key(), Some("secret"));
    assert_eq!(config.title(), Some("title".to_string()));
}

#[test]
fn set_key_replaces_the_key_only() {
    let mut config = Config::new(Some(8080), None, None, "stream".to_string(), None);
    config._set_key(Some("secret".to_string()));
    assert_eq!(config.key(), Some("secret"));
    assert_eq!(config.port(), 8080);
    assert_eq!(config.rtmp_port(), 1935);
    assert_eq!(config.stream_key(), "stream");
    assert_eq!(config.title(), None);
    config._set_key(None);
    assert_eq!(config.key(), None);
}

#[test]
fn ports_are_read_as_decimal_numbers() {
    assert_eq!(parse_port("8080"), Some(8080));
    assert_eq!(parse_port("0"), Some(0));
    assert_eq!(parse_port("+80"), Some(80));
    assert_eq!(parse_port("00080"), Some(80));
    assert_eq!(parse_port("65535"), Some(65535));
    assert_eq!(parse_port("0000000000000000000065535"), Some(65535));
}

#[test]
fn what_is_no_port_is_rejected() {
    assert_eq!(parse_port(""), None);
    assert_eq!(parse_port("+"), None);
    assert_eq!(parse_port("65536"), None);
    assert_eq!(parse_port("99999999999999999999999"), None);
    assert_eq!(parse_port("-1"), None);
    assert_eq!(parse_port("-0"), None);
    assert_eq!(parse_port(" 80"), None);
    assert_eq!(parse_port("80 "), None);
    assert_eq!(parse_port("8_0"), None);
    assert_eq!(parse_port("++80"), None);
    assert_eq!(parse_port("80+"), None);
    assert_eq!(parse_port("0x50"), None);
    assert_eq!(parse_port("\u{661}\u{662}"), None);
    assert_eq!(parse_port("8\u{e9}"), None);
}

#[test]
fn ports_are_read_as_std_reads_them() {
    let texts = [
        "", "+", "-", "0", "+0", "-0", "1", "80", "+80", "080", "65535", "65536", "070000",
        "1e3", " 1", "1 ", "12a", "a12", "4294967296", "+65535", "+65536", "١٢",
    ];
    for text in texts {
        assert_eq!(parse_port(text), text.parse::<u16>().ok(), "{:?}", text);
    }
}

#[test]
fn settings_are_loaded_when_all_are_there() {
    let config = Config::from_env_values(values("8080", "+1936")).unwrap();
    assert_eq!(config.port(), 8080);
    assert_eq!(config.rtmp_port(), 1936);
    assert_eq!(config.key(), Some("secret"));
    assert_eq!(config.stream_key(), "stream");
    assert_eq!(config.title(), Some("My stream".to_string()));
}

#[test]
fn a_missing_setting_is_named() {
    let mut v = values("1", "2");
    v.title = None;
    assert_eq!(Config::from_env_values(v.clone()), Err(ConfigError::Missing(Setting::Title)));
    v.stream_key = None;
    assert_eq!(Config::from_env_values(v.clone()), Err(ConfigError::Missing(Setting::StreamKey)));
    v.rtmp_port = None;
    assert_eq!(Config::from_env_values(v.clone()), Err(ConfigError::Missing(Setting::RtmpPort)));
    v.room_key = None;
    assert_eq!(Config::from_env_values(v.clone()), Err(ConfigError::Missing(Setting::RoomKey)));
    v.port = None;
    assert_eq!(Config::from_env_values(v), Err(ConfigError::Missing(Setting::Port)));
}

#[test]
fn a_bad_port_is_named() {
    assert_eq!(Config::from_env_values(values("http", "2")), Err(ConfigError::Invalid(Setting::Port)));
    assert_eq!(Config::from_env_values(values("1", "70000")), Err(ConfigError::Invalid(Setting::RtmpPort)));
    assert_eq!(Config::from_env_values(values("", "")), Err(ConfigError::Invalid(Setting::Port)));
}

#[test]
fn the_first_fault_wins() {
    let mut v = values("bad", "bad");
    v.room_key = None;
    assert_eq!(Config::from_env_values(v.clone()), Err(ConfigError::Invalid(Setting::Port)));
    v.port = Some("1".to_string());
    assert_eq!(Config::from_env_values(v.clone()), Err(ConfigError::Missing(Setting::RoomKey)));
    v.room_key = Some("k".to_string());
    v.title = None;
    assert_eq!(Config::from_env_values(v), Err(ConfigError::Invalid(Setting::RtmpPort)));
}

#[test]
fn settings_name_their_variables() {
    assert_eq!(Setting::Port.variable(), "WAFT_PORT");
    assert_eq!(Setting::RoomKey.variable(), "WAFT_ROOM_KEY");
    assert_eq!(Setting::RtmpPort.variable(), "WAFT_RTMP_PORT");
    assert_eq!(Setting::StreamKey.variable(), "WAFT_STREAM_KEY");
    assert_eq!(Setting::Title.variable(), "WAFT_TITLE");
}
