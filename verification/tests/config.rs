use twitchbrite::config::{
    Bridge, BridgeConfig, ClientError, ClientErrorKind, Config, IpAddress, TwitchConfig,
    UnauthBridge, ValidatedBridge, DEVICE_SUFFIX_LEN, LINK_BUTTON_NOT_PRESSED,
};
use twitchbrite::random::random_token;
use twitchbrite::text::push_decimal;

fn bridge() -> Bridge {
    UnauthBridge { ip: IpAddress::V4(0x0A00_0001) }.with_user("user-1".to_string())
}

#[test]
fn device_type_with_suffix_is_prefix_plus_suffix() {
    assert_eq!(BridgeConfig::device_type_with_suffix("aB3xZ"), "twitchbrite#aB3xZ");
    assert_eq!(BridgeConfig::device_type_with_suffix(""), "twitchbrite#");
}

#[test]
fn generated_device_type_has_five_alphanumerics_after_prefix() {
    let d = BridgeConfig::generate_device_type();
    assert_eq!(d.len(), "twitchbrite#".len() + DEVICE_SUFFIX_LEN);
    assert!(d.starts_with("twitchbrite#"));
    assert!(d["twitchbrite#".len()..].chars().all(|c| c.is_ascii_alphanumeric()));
}

#[test]
fn random_token_has_requested_length() {
    for len in [0usize, 1, 5, 6, 40] {
        let t = random_token(len);
        assert_eq!(t.chars().count(), len);
        assert!(t.chars().all(|c| c.is_ascii_alphanumeric()));
    }
}

#[test]
fn validated_bridge_needs_a_successful_probe() {
    let ok = ValidatedBridge::from_bridge(bridge(), Ok(4)).unwrap();
    assert_eq!(ok.ip(), IpAddress::V4(0x0A00_0001));
    assert_eq!(ok.username(), "user-1");
    let err = ValidatedBridge::from_bridge(
        bridge(),
        Err(ClientError::new(ClientErrorKind::Bridge { code: 1 }, "unauthorized user".to_string())),
    )
    .unwrap_err();
    assert_eq!(err.kind, ClientErrorKind::Bridge { code: 1 });
    assert_eq!(err.cause, "unauthorized user");
}

#[test]
fn bridge_config_from_bridge_copies_address_and_credential() {
    let validated = ValidatedBridge::from_listing(bridge(), 0);
    let config = BridgeConfig::from_bridge("twitchbrite#abcde".to_string(), &validated);
    assert_eq!(config.device_type(), "twitchbrite#abcde");
    assert_eq!(config.bridge_ip(), IpAddress::V4(0x0A00_0001));
    assert_eq!(config.bridge_username(), "user-1");
    let handle = config.bridge();
    assert_eq!(handle.ip, IpAddress::V4(0x0A00_0001));
    assert_eq!(handle.username, "user-1");
}

#[test]
fn bridge_config_parts_round_trip() {
    let config = BridgeConfig::from_parts(
        "twitchbrite#Zz9aa".to_string(),
        IpAddress::V6(1),
        "cred".to_string(),
    );
    let again = BridgeConfig::from_parts(
        config.device_type().clone(),
        config.bridge_ip(),
        config.bridge_username().clone(),
    );
    assert_eq!(again.device_type(), config.device_type());
    assert_eq!(again.bridge_ip(), config.bridge_ip());
    assert_eq!(again.bridge_username(), config.bridge_username());
    let copy = config.clone();
    assert_eq!(copy.device_type(), "twitchbrite#Zz9aa");
    assert_eq!(copy.bridge_ip(), IpAddress::V6(1));
    assert_eq!(copy.bridge_username(), "cred");
}

#[test]
fn new_config_is_empty() {
    let config = Config::new();
    assert!(config.bridge_config().is_none());
    assert!(config.twitch_config().is_none());
}

#[test]
fn config_from_parts_keeps_parts() {
    let bridge_config =
        BridgeConfig::from_parts("d".to_string(), IpAddress::V4(7), "u".to_string());
    let config = Config::from_parts(Some(bridge_config), Some(TwitchConfig {}));
    assert_eq!(config.bridge_config().as_ref().unwrap().bridge_username(), "u");
    assert_eq!(config.twitch_config(), Some(TwitchConfig {}));
}

#[test]
fn only_link_button_and_transport_failures_are_pending() {
    let e = |kind| ClientError::new(kind, String::new());
    assert_eq!(LINK_BUTTON_NOT_PRESSED, 101);
    assert!(e(ClientErrorKind::Bridge { code: 101 }).is_pending());
    assert!(e(ClientErrorKind::Transport).is_pending());
    assert!(!e(ClientErrorKind::Bridge { code: 1 }).is_pending());
    assert!(!e(ClientErrorKind::Bridge { code: 100 }).is_pending());
    assert!(!e(ClientErrorKind::Malformed).is_pending());
}

#[test]
fn decimal_digits_are_appended() {
    for (n, expected) in
        [(0usize, "n=0"), (7, "n=7"), (10, "n=10"), (99, "n=99"), (100, "n=100"), (65535, "n=65535")]
    {
        let mut s = "n=".to_string();
        push_decimal(&mut s, n);
        assert_eq!(s, expected);
    }
    let mut s = String::new();
    push_decimal(&mut s, usize::MAX);
    assert_eq!(s, usize::MAX.to_string());
}

fn dotted(address: IpAddress) -> String {
    match address {
        IpAddress::V4(bits) => format!(
            "{}.{}.{}.{}",
            (bits >> 24) & 0xff,
            (bits >> 16) & 0xff,
            (bits >> 8) & 0xff,
            bits & 0xff
        ),
        IpAddress::V6(bits) => format!("{:x}", bits),
    }
}

fn undotted(text: &str) -> IpAddress {
    let mut bits: u32 = 0;
    for part in text.split('.') {
        bits = (bits << 8) | part.parse::<u32>().unwrap();
    }
    IpAddress::V4(bits)
}

fn written(config: &Config) -> String {
    let mut root = toml::value::Table::new();
    if let Some(bridge) = config.bridge_config() {
        let mut table = toml::value::Table::new();
        table.insert("device_type".to_string(), toml::Value::String(bridge.device_type().clone()));
        table.insert("bridge_ip".to_string(), toml::Value::String(dotted(bridge.bridge_ip())));
        table.insert(
            "bridge_username".to_string(),
            toml::Value::String(bridge.bridge_username().clone()),
        );
        root.insert("bridge_config".to_string(), toml::Value::Table(table));
    }
    if config.twitch_config().is_some() {
        root.insert("twitch_config".to_string(), toml::Value::Table(toml::value::Table::new()));
    }
    toml::to_string(&toml::Value::Table(root)).unwrap()
}

fn read(text: &str) -> Config {
    let root: toml::Value = text.parse().unwrap();
    let bridge_config = root.get("bridge_config").map(|table| {
        BridgeConfig::from_parts(
            table["device_type"].as_str().unwrap().to_string(),
            undotted(table["bridge_ip"].as_str().unwrap()),
            table["bridge_username"].as_str().unwrap().to_string(),
        )
    });
    let twitch_config = root.get("twitch_config").map(|_| TwitchConfig {});
    Config::from_parts(bridge_config, twitch_config)
}

#[test]
fn config_survives_being_written_and_read() {
    let validated = ValidatedBridge::from_listing(
        UnauthBridge { ip: IpAddress::V4(0xC0A8_0117) }.with_user("k3y-\"quoted\" \\ ü".to_string()),
        5,
    );
    let bridge_config =
        BridgeConfig::from_bridge(BridgeConfig::generate_device_type(), &validated);
    let config = Config::from_parts(Some(bridge_config.clone()), Some(TwitchConfig {}));
    let text = written(&config);
    let again = read(&text);
    let got = again.bridge_config().as_ref().unwrap();
    assert_eq!(got.device_type(), bridge_config.device_type());
    assert_eq!(got.bridge_ip(), IpAddress::V4(0xC0A8_0117));
    assert_eq!(got.bridge_username(), "k3y-\"quoted\" \\ ü");
    assert_eq!(again.twitch_config(), Some(TwitchConfig {}));
    assert_eq!(written(&again), text);

    let empty = read(&written(&Config::new()));
    assert!(empty.bridge_config().is_none());
    assert!(empty.twitch_config().is_none());
}
