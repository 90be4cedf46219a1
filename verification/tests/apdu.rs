use gree::{
    bind_request, decode_response, scan_request, setvar_request, status_request, BindRequestPack,
    CommandPack, GenericOutMessage, StatusRequestPack, Value, GENERIC_KEY,
};
use serde_json::Number;

const MAC: &str = "f4911e000001";
const KEY: &str = "0123456789abcdef";

fn object(fields: Vec<(&str, serde_json::Value)>) -> serde_json::Value {
    let mut m = serde_json::Map::new();
    for (k, v) in fields {
        m.insert(String::from(k), v);
    }
    serde_json::Value::Object(m)
}

fn text(s: &str) -> serde_json::Value {
    serde_json::Value::String(String::from(s))
}

fn number(n: i64) -> serde_json::Value {
    serde_json::Value::Number(Number::from(n))
}

fn texts(items: &[&str]) -> serde_json::Value {
    serde_json::Value::Array(items.iter().map(|s| text(s)).collect())
}

#[test]
fn the_scan_request_is_the_fixed_text() {
    assert_eq!(scan_request(), b"{\n  \"t\": \"scan\"\n}");
    assert_eq!(scan_request().len(), 17);
    let parsed: serde_json::Value = serde_json::from_slice(scan_request()).unwrap();
    assert_eq!(parsed, object(vec![("t", text("scan"))]));
}

#[test]
fn the_bind_payload_as_json() {
    let pack = BindRequestPack { mac: MAC, t: "bind", uid: 0 };
    assert_eq!(
        String::from_utf8(pack.to_json().unwrap()).unwrap(),
        "{\"mac\":\"f4911e000001\",\"t\":\"bind\",\"uid\":0}"
    );
    let pack = BindRequestPack { mac: "", t: "x", uid: -12 };
    assert_eq!(
        String::from_utf8(pack.to_json().unwrap()).unwrap(),
        "{\"mac\":\"\",\"t\":\"x\",\"uid\":-12}"
    );
}

#[test]
fn the_status_payload_as_json() {
    let pack = StatusRequestPack { cols: &["Pow", "Mod", "SetTem"], mac: MAC, t: "status" };
    assert_eq!(
        String::from_utf8(pack.to_json().unwrap()).unwrap(),
        "{\"cols\":[\"Pow\",\"Mod\",\"SetTem\"],\"mac\":\"f4911e000001\",\"t\":\"status\"}"
    );
    let pack = StatusRequestPack { cols: &["Pow"], mac: MAC, t: "status" };
    assert_eq!(
        String::from_utf8(pack.to_json().unwrap()).unwrap(),
        "{\"cols\":[\"Pow\"],\"mac\":\"f4911e000001\",\"t\":\"status\"}"
    );
    let pack = StatusRequestPack { cols: &[], mac: MAC, t: "status" };
    assert_eq!(
        String::from_utf8(pack.to_json().unwrap()).unwrap(),
        "{\"cols\":[],\"mac\":\"f4911e000001\",\"t\":\"status\"}"
    );
}

#[test]
fn the_command_payload_as_json() {
    let values = [
        Value::Number(0),
        Value::Number(27),
        Value::Text(String::from("2018-05-11 19:42:01")),
        Value::Null,
        Value::Bool(true),
        Value::Bool(false),
        Value::Number(-5),
    ];
    let pack = CommandPack {
        opt: &["TemUn", "SetTem", "time", "a", "b", "c", "d"],
        p: &values,
        t: "cmd",
    };
    assert_eq!(
        String::from_utf8(pack.to_json().unwrap()).unwrap(),
        "{\"opt\":[\"TemUn\",\"SetTem\",\"time\",\"a\",\"b\",\"c\",\"d\"],\
         \"p\":[0,27,\"2018-05-11 19:42:01\",null,true,false,-5],\"t\":\"cmd\"}"
    );
}

#[test]
fn payloads_are_written_as_the_json_library_writes_them() {
    let mac = "a\"b\\c\n\t\u{1}é❤/";
    let pack = BindRequestPack { mac, t: "bind", uid: 0 };
    let expected = object(vec![("mac", text(mac)), ("t", text("bind")), ("uid", number(0))]);
    assert_eq!(pack.to_json().unwrap(), serde_json::to_vec(&expected).unwrap());

    let names = ["Pow", "q\"uote"];
    let pack = StatusRequestPack { cols: &names, mac, t: "status" };
    let expected =
        object(vec![("cols", texts(&names)), ("mac", text(mac)), ("t", text("status"))]);
    assert_eq!(pack.to_json().unwrap(), serde_json::to_vec(&expected).unwrap());

    let values = [Value::Number(i64::MAX), Value::Text(String::from(mac))];
    let pack = CommandPack { opt: &names, p: &values, t: "cmd" };
    let expected = object(vec![
        ("opt", texts(&names)),
        ("p", serde_json::Value::Array(vec![number(i64::MAX), text(mac)])),
        ("t", text("cmd")),
    ]);
    assert_eq!(pack.to_json().unwrap(), serde_json::to_vec(&expected).unwrap());
}

#[test]
fn the_envelope_as_json() {
    let m = GenericOutMessage {
        cid: "app",
        i: 1,
        pack: String::from("cGFjaw=="),
        t: "pack",
        tcid: MAC,
        uid: 0,
    };
    assert_eq!(
        String::from_utf8(m.to_json().unwrap()).unwrap(),
        "{\"cid\":\"app\",\"i\":1,\"pack\":\"cGFjaw==\",\"t\":\"pack\",\
         \"tcid\":\"f4911e000001\",\"uid\":0}"
    );
    let expected = object(vec![
        ("cid", text("app")),
        ("i", number(1)),
        ("pack", text("cGFjaw==")),
        ("t", text("pack")),
        ("tcid", text(MAC)),
        ("uid", number(0)),
    ]);
    assert_eq!(m.to_json().unwrap(), serde_json::to_vec(&expected).unwrap());
}

#[test]
fn the_bind_request() {
    let m = bind_request(MAC, GENERIC_KEY).unwrap();
    assert_eq!(m.cid, "app");
    assert_eq!(m.i, 1);
    assert_eq!(m.t, "pack");
    assert_eq!(m.tcid, MAC);
    assert_eq!(m.uid, 0);
    assert_eq!(m.pack, "wQf9S7800vtjI4/LFXYqkYDub543PyG7VQUvN65CVRmj9mrs/0p7GUTdWxmNaBUt");
    assert_eq!(
        decode_response(&m.pack, GENERIC_KEY).unwrap(),
        "{\"mac\":\"f4911e000001\",\"t\":\"bind\",\"uid\":0}"
    );
}

#[test]
fn the_status_request() {
    let m = status_request(MAC, KEY, &["Pow", "Mod"]).unwrap();
    assert_eq!(m.cid, "app");
    assert_eq!(m.i, 0);
    assert_eq!(m.t, "pack");
    assert_eq!(m.tcid, MAC);
    assert_eq!(m.uid, 0);
    assert_eq!(
        m.pack,
        "cwi6Q5YqNSPVAdlr324cNtPErE4xtD8hGUj+sjhbmPje8ofgzl9dna7fqFmYICipe0xVwFH3tPGtIwAMdVNz6g=="
    );
    assert_eq!(
        decode_response(&m.pack, KEY).unwrap(),
        "{\"cols\":[\"Pow\",\"Mod\"],\"mac\":\"f4911e000001\",\"t\":\"status\"}"
    );
}

#[test]
fn the_command_request() {
    let values = [Value::Number(1), Value::Text(String::from("2018-05-11 19:42:01"))];
    let m = setvar_request(MAC, KEY, &["Pow", "time"], &values).unwrap();
    assert_eq!(m.cid, "app");
    assert_eq!(m.i, 0);
    assert_eq!(m.t, "pack");
    assert_eq!(m.tcid, MAC);
    assert_eq!(m.uid, 0);
    assert_eq!(
        m.pack,
        "J+CaWS7jZOEGVYbblX4mpRDT2hKxhxu7SDaJI9dzwmQCHax77EaQn5v+h61kc4sPNhr+cTiMkqqB0I6YINdfDQ=="
    );
    assert_eq!(
        decode_response(&m.pack, KEY).unwrap(),
        "{\"opt\":[\"Pow\",\"time\"],\"p\":[1,\"2018-05-11 19:42:01\"],\"t\":\"cmd\"}"
    );
}

#[test]
fn a_request_under_another_key_has_another_pack() {
    let a = status_request(MAC, KEY, &["Pow"]).unwrap();
    let b = status_request(MAC, GENERIC_KEY, &["Pow"]).unwrap();
    assert_ne!(a.pack, b.pack);
    assert_eq!(
        decode_response(&a.pack, KEY).unwrap(),
        decode_response(&b.pack, GENERIC_KEY).unwrap()
    );
}
