use gree::{
    decode_response, encode_request, Error, GenericMessage, GreeClient, GreeClientConfig,
    IpAddress, Received, ScanReceived, ScanResponsePack, SocketAddress, Value, GENERIC_KEY, PORT,
};

const MAC: &str = "f4911e000001";
const KEY: &str = "0123456789abcdef";
const DEVICE: IpAddress = IpAddress::V4(0x0a00_0005);
const START: u64 = 10_000;
const TIMEOUT: u64 = 3_000;

fn client(max_count: usize) -> GreeClient {
    let mut cfg = GreeClientConfig::default();
    cfg.max_count = max_count;
    cfg.bcast_addr = IpAddress::V4(0xc0a8_00ff);
    GreeClient::new(cfg)
}

fn message(text: &str, key: &str) -> GenericMessage {
    GenericMessage {
        pack: encode_request(text.as_bytes().to_vec(), key.as_bytes()),
        t: String::from("pack"),
        ..Default::default()
    }
}

fn field<'a>(v: &'a serde_json::Value, name: &str) -> &'a str {
    v.get(name).unwrap().as_str().unwrap()
}

#[test]
fn the_port_and_the_generic_key() {
    assert_eq!(PORT, 7000);
    assert_eq!(GENERIC_KEY, "a3K8Bx%2r8Y7#xDh");
    assert_eq!(GENERIC_KEY.len(), 16);
}

#[test]
fn a_bind_exchange_goes_to_the_device_under_the_generic_key() {
    let ex = client(3).bind(DEVICE, MAC, START).unwrap();
    assert_eq!(ex.to(), SocketAddress { ip: DEVICE, port: 7000 });
    assert_eq!(ex.key(), GENERIC_KEY);
    let datagram: serde_json::Value = serde_json::from_slice(ex.datagram()).unwrap();
    assert_eq!(field(&datagram, "cid"), "app");
    assert_eq!(datagram.get("i").unwrap().as_i64(), Some(1));
    assert_eq!(field(&datagram, "t"), "pack");
    assert_eq!(field(&datagram, "tcid"), MAC);
    assert_eq!(datagram.get("uid").unwrap().as_i64(), Some(0));
    assert_eq!(
        decode_response(field(&datagram, "pack"), GENERIC_KEY).unwrap(),
        "{\"mac\":\"f4911e000001\",\"t\":\"bind\",\"uid\":0}"
    );
    assert_eq!(
        String::from_utf8(ex.datagram().to_vec()).unwrap(),
        "{\"cid\":\"app\",\"i\":1,\
         \"pack\":\"wQf9S7800vtjI4/LFXYqkYDub543PyG7VQUvN65CVRmj9mrs/0p7GUTdWxmNaBUt\",\
         \"t\":\"pack\",\"tcid\":\"f4911e000001\",\"uid\":0}"
    );
}

#[test]
fn a_status_exchange_goes_to_the_device_under_its_key() {
    let ex = client(3).getvars(DEVICE, MAC, KEY, &["Pow", "Mod"], START).unwrap();
    assert_eq!(ex.to(), SocketAddress { ip: DEVICE, port: 7000 });
    assert_eq!(ex.key(), KEY);
    let datagram: serde_json::Value = serde_json::from_slice(ex.datagram()).unwrap();
    assert_eq!(datagram.get("i").unwrap().as_i64(), Some(0));
    assert_eq!(field(&datagram, "tcid"), MAC);
    assert_eq!(
        decode_response(field(&datagram, "pack"), KEY).unwrap(),
        "{\"cols\":[\"Pow\",\"Mod\"],\"mac\":\"f4911e000001\",\"t\":\"status\"}"
    );
}

#[test]
fn a_command_exchange_goes_to_the_device_under_its_key() {
    let values = [Value::Number(0), Value::Number(27)];
    let ex = client(3).setvars(DEVICE, MAC, KEY, &["TemUn", "SetTem"], &values, START).unwrap();
    assert_eq!(ex.to(), SocketAddress { ip: DEVICE, port: 7000 });
    assert_eq!(ex.key(), KEY);
    let datagram: serde_json::Value = serde_json::from_slice(ex.datagram()).unwrap();
    assert_eq!(datagram.get("i").unwrap().as_i64(), Some(0));
    assert_eq!(
        decode_response(field(&datagram, "pack"), KEY).unwrap(),
        "{\"opt\":[\"TemUn\",\"SetTem\"],\"p\":[0,27],\"t\":\"cmd\"}"
    );
}

#[test]
fn an_exchange_takes_the_answer_of_its_device() {
    let ex = client(3).getvars(DEVICE, MAC, KEY, &["Pow"], START).unwrap();
    let r = ex.receive_at(START + 1, Ok((DEVICE, message("{\"t\":\"dat\"}", KEY))));
    assert_eq!(r, Received::Answer(String::from("{\"t\":\"dat\"}")));
}

#[test]
fn an_exchange_ignores_other_senders() {
    let ex = client(3).getvars(DEVICE, MAC, KEY, &["Pow"], START).unwrap();
    let r = ex.receive_at(START + 1, Ok((IpAddress::V4(0x0a00_0006), message("{\"t\":\"dat\"}", KEY))));
    assert_eq!(r, Received::Ignored);
    let r = ex.receive_at(START + 1, Ok((IpAddress::V6(0x0a00_0005), message("{\"t\":\"dat\"}", KEY))));
    assert_eq!(r, Received::Ignored);
    // not even what cannot be read is a failure, from another sender
    let broken = GenericMessage { pack: String::from("???"), ..Default::default() };
    assert_eq!(ex.receive_at(START + 1, Ok((IpAddress::V4(1), broken))), Received::Ignored);
}

#[test]
fn an_exchange_fails_as_the_receiving_fails() {
    let ex = client(3).bind(DEVICE, MAC, START).unwrap();
    assert_eq!(ex.receive_at(START + 1, Err(Error::ResponseTimeout)), Received::Failed(Error::ResponseTimeout));
    assert_eq!(ex.receive_at(START + 1, Err(Error::RecvTimeout)), Received::Failed(Error::RecvTimeout));
    assert_eq!(
        ex.receive_at(START + 1, Err(Error::Io(String::from("down")))),
        Received::Failed(Error::Io(String::from("down")))
    );
}

#[test]
fn an_exchange_fails_on_an_answer_that_cannot_be_read() {
    let ex = client(3).bind(DEVICE, MAC, START).unwrap();
    let broken = GenericMessage { pack: String::from("???"), ..Default::default() };
    assert!(matches!(
        ex.receive_at(START + 1, Ok((DEVICE, broken))),
        Received::Failed(Error::Base64Decode(_))
    ));
    let partial = GenericMessage { pack: String::from("AAAA"), ..Default::default() };
    assert_eq!(ex.receive_at(START + 1, Ok((DEVICE, partial))), Received::Failed(Error::BlockLength(3)));
}

#[test]
fn a_scan_goes_to_the_broadcast_address() {
    let run = client(3).scan();
    assert_eq!(run.to(), SocketAddress { ip: IpAddress::V4(0xc0a8_00ff), port: 7000 });
    assert_eq!(run.datagram(), b"{\n  \"t\": \"scan\"\n}");
    assert!(run.wants_more());
    assert!(run.finish().is_empty());
}

#[test]
fn a_scan_takes_as_many_replies_as_it_is_configured_for() {
    let mut run = client(2).scan();
    for i in 0..4u32 {
        let pack = ScanResponsePack { mac: format!("m{}", i), ..Default::default() };
        assert_eq!(run.wants_more(), i < 2);
        run = run.push(IpAddress::V4(i), GenericMessage::default(), pack);
    }
    assert!(!run.wants_more());
    let found = run.finish();
    assert_eq!(found.len(), 2);
    assert_eq!(found[0].0, IpAddress::V4(0));
    assert_eq!(found[0].2.mac, "m0");
    assert_eq!(found[1].0, IpAddress::V4(1));
    assert_eq!(found[1].2.mac, "m1");
}

#[test]
fn a_scan_for_no_device_wants_no_reply() {
    let run = client(0).scan();
    assert!(!run.wants_more());
    let run = run.push(IpAddress::V4(1), GenericMessage::default(), ScanResponsePack::default());
    assert!(run.finish().is_empty());
}

#[test]
fn a_scan_reads_replies_under_the_generic_key() {
    let run = client(3).scan();
    let gm = message("{\"t\":\"dev\",\"mac\":\"f4911e000001\"}", GENERIC_KEY);
    let r = run.receive(Ok((DEVICE, gm.clone())));
    assert_eq!(
        r,
        ScanReceived::Reply(DEVICE, gm, String::from("{\"t\":\"dev\",\"mac\":\"f4911e000001\"}"))
    );
}

#[test]
fn a_scan_ends_when_nothing_comes() {
    let run = client(3).scan();
    assert_eq!(run.receive(Err(Error::ResponseTimeout)), ScanReceived::End);
    assert_eq!(run.receive(Err(Error::RecvTimeout)), ScanReceived::End);
    assert_eq!(run.receive(Err(Error::Io(String::from("down")))), ScanReceived::End);
}

#[test]
fn a_scan_fails_on_a_reply_that_cannot_be_read() {
    let run = client(3).scan();
    let broken = GenericMessage { pack: String::from("???"), ..Default::default() };
    assert!(matches!(
        run.receive(Ok((DEVICE, broken))),
        ScanReceived::Failed(Error::Base64Decode(_))
    ));
    let partial = GenericMessage { pack: String::from("AAAAAAAA"), ..Default::default() };
    assert_eq!(run.receive(Ok((DEVICE, partial))), ScanReceived::Failed(Error::BlockLength(6)));
}

#[test]
fn an_exchange_is_over_a_timeout_after_its_start() {
    let c = client(3);
    assert_eq!(c.cfg.recv_timeout, TIMEOUT);
    assert_eq!(c.deadline(START), START + TIMEOUT);
    assert_eq!(c.deadline(0), TIMEOUT);
    assert_eq!(c.deadline(u64::MAX - 1), u64::MAX);
    assert_eq!(c.bind(DEVICE, MAC, START).unwrap().deadline(), START + TIMEOUT);
    assert_eq!(c.getvars(DEVICE, MAC, KEY, &["Pow"], 7).unwrap().deadline(), 7 + TIMEOUT);
    let values = [Value::Number(1)];
    let ex = c.setvars(DEVICE, MAC, KEY, &["Pow"], &values, u64::MAX).unwrap();
    assert_eq!(ex.deadline(), u64::MAX);
}

#[test]
fn an_exchange_waits_for_the_time_that_is_left() {
    let ex = client(3).bind(DEVICE, MAC, START).unwrap();
    assert_eq!(ex.remaining(START), TIMEOUT);
    assert_eq!(ex.remaining(START + 1), TIMEOUT - 1);
    assert_eq!(ex.remaining(START + TIMEOUT - 1), 1);
    assert_eq!(ex.remaining(START + TIMEOUT), 0);
    assert_eq!(ex.remaining(START + TIMEOUT + 1), 0);
    assert_eq!(ex.remaining(u64::MAX), 0);
    // a clock that went back
    assert_eq!(ex.remaining(0), START + TIMEOUT);
}

#[test]
fn an_exchange_that_is_over_has_timed_out() {
    let ex = client(3).getvars(DEVICE, MAC, KEY, &["Pow"], START).unwrap();
    let other = IpAddress::V4(0x0a00_0006);
    // other senders are ignored up to the deadline, and no longer
    assert_eq!(
        ex.receive_at(START + TIMEOUT - 1, Ok((other, message("{}", KEY)))),
        Received::Ignored
    );
    assert_eq!(
        ex.receive_at(START + TIMEOUT, Ok((other, message("{}", KEY)))),
        Received::Failed(Error::ResponseTimeout)
    );
    assert_eq!(
        ex.receive_at(u64::MAX, Ok((other, message("{}", KEY)))),
        Received::Failed(Error::ResponseTimeout)
    );
    // whatever comes then comes too late
    assert_eq!(
        ex.receive_at(START + TIMEOUT, Ok((DEVICE, message("{\"t\":\"dat\"}", KEY)))),
        Received::Failed(Error::ResponseTimeout)
    );
    assert_eq!(
        ex.receive_at(START + TIMEOUT, Err(Error::RecvTimeout)),
        Received::Failed(Error::ResponseTimeout)
    );
    assert_eq!(
        ex.receive_at(START + TIMEOUT + 5, Err(Error::Io(String::from("down")))),
        Received::Failed(Error::ResponseTimeout)
    );
    // the answer that comes in time is the answer
    assert_eq!(
        ex.receive_at(START + TIMEOUT - 1, Ok((DEVICE, message("{\"t\":\"dat\"}", KEY)))),
        Received::Answer(String::from("{\"t\":\"dat\"}"))
    );
}

#[test]
fn an_exchange_ends_though_other_senders_never_pause() {
    let ex = client(3).getvars(DEVICE, MAC, KEY, &["Pow"], START).unwrap();
    let other = IpAddress::V4(0x0a00_0006);
    let mut now = START;
    let mut received = 0;
    let end = loop {
        // another sender's datagram arrives every 100 ms, well within the timeout
        now += 100;
        received += 1;
        match ex.receive_at(now, Ok((other, message("{}", KEY)))) {
            Received::Ignored => assert!(ex.remaining(now) > 0),
            r => break r,
        }
    };
    assert_eq!(end, Received::Failed(Error::ResponseTimeout));
    assert_eq!(now, START + TIMEOUT);
    assert_eq!(received, 30);
}

#[test]
fn a_scan_waits_the_receive_timeout_for_each_reply() {
    let run = client(3).scan();
    assert_eq!(run.timeout(), TIMEOUT);
}
