use gree::{
    BindResponsePack, Device, Error, GenericMessage, GreeClientConfig, GreeConfig, GreeState,
    IpAddress, ScanReply, ScanResponsePack, SocketAddress,
};

fn reply(ip: u32, mac: &str, name: &str) -> ScanReply {
    let pack = ScanResponsePack {
        t: String::from("dev"),
        mac: String::from(mac),
        name: String::from(name),
        ..Default::default()
    };
    (IpAddress::V4(ip), GenericMessage::default(), pack)
}

fn bindok(mac: &str, key: &str) -> BindResponsePack {
    BindResponsePack {
        t: String::from("bindok"),
        mac: String::from(mac),
        key: String::from(key),
        r: 200,
    }
}

#[test]
fn default_client_configuration() {
    let cfg = GreeClientConfig::default();
    assert_eq!(cfg.buffer_size, 2048);
    assert_eq!(cfg.recv_timeout, 3_000);
    assert_eq!(cfg.bind_addr, SocketAddress { ip: IpAddress::V4(0), port: 0 });
    assert_eq!(cfg.max_count, 10);
    assert_eq!(cfg.bcast_addr, IpAddress::V4(0x0a00_00ff));
    assert_eq!(GreeClientConfig::DEFAULT_BUFFER_SIZE, 2048);
    assert_eq!(GreeClientConfig::DEFAULT_MAX_COUNT, 10);
    assert_eq!(GreeClientConfig::DEFAULT_BROADCAST_ADDR, u32::from_be_bytes([10, 0, 0, 255]));
    assert_eq!(GreeClientConfig::DEFAULT_RECV_TIMEOUT, 3 * 1000);
}

#[test]
fn default_configuration() {
    let cfg = GreeConfig::default();
    assert_eq!(cfg.client_config, GreeClientConfig::default());
    assert_eq!(cfg.min_scan_age, 60 * 1000);
    assert_eq!(cfg.max_scan_age, 24 * 3600 * 1000);
    assert!(cfg.aliases.is_empty());
    assert_eq!(GreeConfig::DEFAULT_MIN_SCAN_AGE, 60_000);
    assert_eq!(GreeConfig::DEFAULT_MAX_SCAN_AGE, 86_400_000);
}

#[test]
fn aliases_are_rewritten_and_other_targets_kept() {
    let mut cfg = GreeConfig::default();
    cfg.aliases.push((String::from("living"), String::from("f4911e000001")));
    cfg.aliases.push((String::from("bedroom"), String::from("f4911e000002")));
    cfg.aliases.push((String::from("living"), String::from("f4911e000003")));
    assert_eq!(cfg.resolve("living"), "f4911e000001");
    assert_eq!(cfg.resolve("bedroom"), "f4911e000002");
    assert_eq!(cfg.resolve("f4911e000002"), "f4911e000002");
    assert_eq!(cfg.resolve("Living"), "Living");
    assert_eq!(cfg.resolve(""), "");
    // rewriting is one step: the result is not looked up again
    cfg.aliases.push((String::from("f4911e000002"), String::from("f4911e000009")));
    assert_eq!(cfg.resolve("bedroom"), "f4911e000002");
    assert_eq!(GreeConfig::default().resolve("living"), "living");
}

#[test]
fn a_new_state_knows_no_device() {
    let s = GreeState::new();
    assert!(s.devices.is_empty());
    assert_eq!(s.find("f4911e000001"), None);
    assert_eq!(s.get("f4911e000001"), Err(Error::NotFound(String::from("f4911e000001"))));
}

#[test]
fn a_scan_replaces_the_devices() {
    let mut s = GreeState::new();
    s.scan_ind(vec![reply(1, "aa", "one"), reply(2, "bb", "two")]);
    assert_eq!(s.devices.len(), 2);
    assert_eq!(s.get("aa").unwrap().ip, IpAddress::V4(1));
    assert_eq!(s.get("bb").unwrap().ip, IpAddress::V4(2));
    assert_eq!(s.get("aa").unwrap().scan_result.name, "one");
    assert_eq!(s.get("aa").unwrap().key, None);

    s.scan_ind(vec![reply(3, "cc", "three")]);
    assert_eq!(s.devices.len(), 1);
    assert_eq!(s.get("cc").unwrap().ip, IpAddress::V4(3));
    assert_eq!(s.get("aa"), Err(Error::NotFound(String::from("aa"))));

    s.scan_ind(Vec::new());
    assert!(s.devices.is_empty());
}

#[test]
fn of_two_replies_from_one_device_the_later_counts() {
    let mut s = GreeState::new();
    s.scan_ind(vec![
        reply(1, "aa", "first"),
        reply(2, "bb", "other"),
        reply(3, "aa", "second"),
    ]);
    assert_eq!(s.devices.len(), 2);
    let d = s.get("aa").unwrap();
    assert_eq!(d.ip, IpAddress::V4(3));
    assert_eq!(d.scan_result.name, "second");
    assert_eq!(s.get("bb").unwrap().ip, IpAddress::V4(2));
}

#[test]
fn mac_addresses_are_compared_as_they_are_spelled() {
    let mut s = GreeState::new();
    s.scan_ind(vec![reply(1, "AA", "upper"), reply(2, "aa", "lower")]);
    assert_eq!(s.devices.len(), 2);
    assert_eq!(s.get("AA").unwrap().scan_result.name, "upper");
    assert_eq!(s.get("aa").unwrap().scan_result.name, "lower");
    assert!(s.get("Aa").is_err());
}

#[test]
fn a_scan_forgets_the_keys() {
    let mut s = GreeState::new();
    s.scan_ind(vec![reply(1, "aa", "one")]);
    s.record_bind("aa", bindok("aa", "0123456789abcdef")).unwrap();
    assert_eq!(s.get("aa").unwrap().key, Some(String::from("0123456789abcdef")));
    s.scan_ind(vec![reply(1, "aa", "one")]);
    assert_eq!(s.get("aa").unwrap().key, None);
}

#[test]
fn binding_stores_the_key_with_the_device() {
    let mut s = GreeState::new();
    s.scan_ind(vec![reply(1, "aa", "one"), reply(2, "bb", "two")]);
    assert_eq!(s.record_bind("bb", bindok("bb", "0123456789abcdef")), Ok(()));
    let d = s.get("bb").unwrap();
    assert_eq!(d.key, Some(String::from("0123456789abcdef")));
    assert_eq!(d.ip, IpAddress::V4(2));
    assert_eq!(d.scan_result.name, "two");
    assert_eq!(s.get("aa").unwrap().key, None);
    assert_eq!(s.devices.len(), 2);
}

#[test]
fn binding_a_device_that_is_not_known_fails() {
    let mut s = GreeState::new();
    s.scan_ind(vec![reply(1, "aa", "one")]);
    let before = s.clone();
    assert_eq!(
        s.record_bind("zz", bindok("zz", "0123456789abcdef")),
        Err(Error::NotFound(String::from("zz")))
    );
    assert_eq!(s, before);
}

#[test]
fn a_device_takes_the_key_of_a_bind_response() {
    let mut d = Device {
        ip: IpAddress::V4(7),
        scan_result: ScanResponsePack::default(),
        key: None,
    };
    d.bind_ind(bindok("aa", "k1"));
    assert_eq!(d.key, Some(String::from("k1")));
    d.bind_ind(bindok("aa", "k2"));
    assert_eq!(d.key, Some(String::from("k2")));
    assert_eq!(d.ip, IpAddress::V4(7));
}
