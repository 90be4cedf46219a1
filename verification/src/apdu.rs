//! Application protocol data units: the messages that go to a device and
//! come back from it.

use vstd::prelude::*;
use vstd::string::{StrSliceExecFns, StringSliceAdditionalSpecFns};
use crate::codec::{encode_request, encoded_request, fits, payload_fits, BLOCK};
use crate::error::Error;
use crate::value::{Value, ValueView};

verus! {

/// The integers of the protocol.
pub type Int = i32;

/// The text of the scan request, which travels as it is.
pub const SCAN_TEXT: &'static str = "{\n  \"t\": \"scan\"\n}";

/// The bytes of the scan request: an object with the one member `"t": "scan"`,
/// on three lines, the member indented by two spaces.
pub open spec fn scan_bytes() -> Seq<u8> {
    seq![
        0x7bu8, 0x0a, 0x20, 0x20, 0x22, 0x74, 0x22, 0x3a, 0x20, 0x22, 0x73, 0x63, 0x61, 0x6e, 0x22,
        0x0a, 0x7d,
    ]
}

/// The datagram that asks every device on the network to report itself. It
/// is the one message that travels without an envelope.
pub fn scan_request() -> (r: &'static [u8])
    ensures
        r@ == SCAN_TEXT.spec_bytes(),
        r@ == scan_bytes(),
{
    proof {
        reveal_strlit("{\n  \"t\": \"scan\"\n}");
        assert(vstd::utf8::is_ascii_chars(SCAN_TEXT@));
        vstd::utf8::is_ascii_chars_encode_utf8(SCAN_TEXT@);
        assert(SCAN_TEXT.spec_bytes() =~= scan_bytes());
    }
    SCAN_TEXT.as_bytes()
}

/// The compact JSON text of a value, as `serde_json` writes it, or `None`
/// where it refuses to.
pub uninterp spec fn json_text(value: ValueView) -> Option<Seq<u8>>;

/// `serde_json::to_vec`, on the `serde_json::Value` of the same variant and
/// content: the named text, or the text of the crate's error.
#[verifier::external_body]
fn json_bytes(value: &Value) -> (r: Result<Vec<u8>, String>)
    ensures
        match r {
            Ok(bytes) => json_text(value@) == Some(bytes@),
            Err(_) => json_text(value@) is None,
        },
{
    let json = match value {
        Value::Null => serde_json::Value::Null,
        Value::Bool(b) => serde_json::Value::Bool(*b),
        Value::Number(n) => serde_json::Value::Number((*n).into()),
        Value::Text(s) => serde_json::Value::String(s.clone()),
    };
    match serde_json::to_vec(&json) {
        Ok(bytes) => Ok(bytes),
        Err(e) => Err(e.to_string()),
    }
}

/// Appends the bytes of `s`.
fn push_text(out: &mut Vec<u8>, s: &str)
    ensures
        final(out)@ == old(out)@ + s.spec_bytes(),
{
    let mut bytes = s.as_bytes_vec();
    out.append(&mut bytes);
}

/// Appends the JSON text of `value`.
fn push_json(out: &mut Vec<u8>, value: &Value) -> (r: Result<(), Error>)
    ensures
        match r {
            Ok(_) => json_text(value@) matches Some(t) && final(out)@ == old(out)@ + t,
            Err(e) => json_text(value@) is None && e is SerDe,
        },
{
    match json_bytes(value) {
        Ok(mut bytes) => {
            out.append(&mut bytes);
            Ok(())
        },
        Err(msg) => Err(Error::SerDe(msg)),
    }
}

/// The bytes of a fixed piece of a message.
pub open spec fn piece(s: &str) -> Option<Seq<u8>> {
    Some(s.spec_bytes())
}

/// The JSON text of a string.
pub open spec fn json_str(s: Seq<char>) -> Option<Seq<u8>> {
    json_text(ValueView::Text(s))
}

/// The JSON text of an integer.
pub open spec fn json_int(i: Int) -> Option<Seq<u8>> {
    json_text(ValueView::Number(i as i64))
}

/// `a` followed by `b`, where both are there.
pub open spec fn join(a: Option<Seq<u8>>, b: Option<Seq<u8>>) -> Option<Seq<u8>> {
    match (a, b) {
        (Some(x), Some(y)) => Some(x + y),
        _ => None,
    }
}

/// The JSON texts of `items`, with a comma between each two.
pub open spec fn json_items(items: Seq<ValueView>) -> Option<Seq<u8>>
    decreases items.len(),
{
    if items.len() == 0 {
        Some(Seq::empty())
    } else if items.len() == 1 {
        json_text(items[0])
    } else {
        join(join(json_items(items.drop_last()), piece(",")), json_text(items.last()))
    }
}

/// The JSON array of `items`.
pub open spec fn json_list(items: Seq<ValueView>) -> Option<Seq<u8>> {
    join(join(piece("["), json_items(items)), piece("]"))
}

/// The characters of each of `names`.
pub open spec fn strs(names: Seq<&str>) -> Seq<Seq<char>> {
    Seq::new(names.len(), |i: int| names[i]@)
}

/// The strings `names` as values.
pub open spec fn texts(names: Seq<Seq<char>>) -> Seq<ValueView> {
    Seq::new(names.len(), |i: int| ValueView::Text(names[i]))
}

/// The views of `values`.
pub open spec fn views(values: Seq<Value>) -> Seq<ValueView> {
    Seq::new(values.len(), |i: int| values[i]@)
}

/// A list has a JSON text only if each of its leading parts and each of its
/// items has one.
pub proof fn lemma_json_items_parts(items: Seq<ValueView>, k: int)
    requires
        0 <= k < items.len(),
        json_items(items) is Some,
    ensures
        json_items(items.subrange(0, k)) is Some,
        json_text(items[k]) is Some,
    decreases items.len(),
{
    if items.len() == 1 {
        assert(items.subrange(0, 0).len() == 0);
    } else if k == items.len() - 1 {
        assert(items.subrange(0, k) =~= items.drop_last());
    } else {
        lemma_json_items_parts(items.drop_last(), k);
        assert(items.drop_last().subrange(0, k) =~= items.subrange(0, k));
    }
}

/// Appends the JSON text of the string `s`.
fn push_json_str(out: &mut Vec<u8>, s: &str) -> (r: Result<(), Error>)
    ensures
        match r {
            Ok(_) => json_str(s@) matches Some(t) && final(out)@ == old(out)@ + t,
            Err(e) => json_str(s@) is None && e is SerDe,
        },
{
    let value = Value::text(s);
    push_json(out, &value)
}

/// Appends the JSON text of the integer `i`.
fn push_json_int(out: &mut Vec<u8>, i: Int) -> (r: Result<(), Error>)
    ensures
        match r {
            Ok(_) => json_int(i) matches Some(t) && final(out)@ == old(out)@ + t,
            Err(e) => json_int(i) is None && e is SerDe,
        },
{
    let value = Value::Number(i as i64);
    push_json(out, &value)
}

/// Appends the JSON array of the strings `names`.
fn push_json_names(out: &mut Vec<u8>, names: &[&str]) -> (r: Result<(), Error>)
    ensures
        match r {
            Ok(_) => json_list(texts(strs(names@))) matches Some(t) && final(out)@ == old(out)@
                + t,
            Err(e) => json_list(texts(strs(names@))) is None && e is SerDe,
        },
{
    let mut values: Vec<Value> = Vec::new();
    let mut i: usize = 0;
    while i < names.len()
        invariant
            i <= names.len(),
            values@.len() == i,
            forall|j: int| 0 <= j < i ==> (#[trigger] values@[j])@ == ValueView::Text(names@[j]@),
        decreases names.len() - i,
    {
        values.push(Value::text(names[i]));
        i += 1;
    }
    assert(views(values@) =~= texts(strs(names@)));
    push_json_values(out, values.as_slice())
}

/// Appends the JSON array of `values`.
fn push_json_values(out: &mut Vec<u8>, values: &[Value]) -> (r: Result<(), Error>)
    ensures
        match r {
            Ok(_) => json_list(views(values@)) matches Some(t) && final(out)@ == old(out)@ + t,
            Err(e) => json_list(views(values@)) is None && e is SerDe,
        },
{
    let ghost items = views(values@);
    push_text(out, "[");
    let mut i: usize = 0;
    assert(items.subrange(0, 0) =~= Seq::<ValueView>::empty());
    while i < values.len()
        invariant
            i <= values.len(),
            items == views(values@),
            json_items(items.subrange(0, i as int)) matches Some(t) && out@ == old(out)@
                + "[".spec_bytes() + t,
        decreases values.len() - i,
    {
        let ghost before = json_items(items.subrange(0, i as int))->0;
        if i > 0 {
            push_text(out, ",");
        }
        match push_json(out, &values[i]) {
            Ok(_) => {},
            Err(e) => {
                proof {
                    if json_items(items) is Some {
                        lemma_json_items_parts(items, i as int);
                    }
                }
                return Err(e);
            },
        }
        proof {
            let next = items.subrange(0, i + 1);
            assert(next.drop_last() =~= items.subrange(0, i as int));
            assert(next.last() == items[i as int]);
            let t = json_text(items[i as int])->0;
            if i == 0 {
                assert(next[0] == items[0]);
                assert(before =~= Seq::<u8>::empty());
                assert(out@ =~= old(out)@ + "[".spec_bytes() + t);
            } else {
                assert(out@ =~= old(out)@ + "[".spec_bytes() + (before + ",".spec_bytes() + t));
            }
        }
        i += 1;
    }
    assert(items.subrange(0, i as int) =~= items);
    push_text(out, "]");
    proof {
        let t = json_items(items)->0;
        assert(out@ =~= old(out)@ + ("[".spec_bytes() + t + "]".spec_bytes()));
    }
    Ok(())
}

/// The envelope of a message that arrived. A field that the sender left out
/// is empty or zero.
#[derive(Debug, Clone, PartialEq, Eq, Default)]
pub struct GenericMessage {
    pub cid: String,
    pub i: Int,
    /// The payload: encrypted, then base64-encoded.
    pub pack: String,
    pub t: String,
    /// The MAC address of the device that the message is for.
    pub tcid: String,
    pub uid: Int,
}

/// The envelope of a message to send.
#[derive(Debug, Clone, PartialEq, Eq)]
pub struct GenericOutMessage<'t> {
    pub cid: &'t str,
    pub i: Int,
    /// The payload: encrypted, then base64-encoded.
    pub pack: String,
    pub t: &'t str,
    /// The MAC address of the device that the message is for.
    pub tcid: &'t str,
    pub uid: Int,
}

/// What a device reports of itself when a scan reaches it. A field that the
/// device left out is empty or zero.
#[derive(Debug, Clone, PartialEq, Eq, Default)]
pub struct ScanResponsePack {
    pub t: String,
    pub cid: String,
    pub bc: String,
    pub brand: String,
    pub catalog: String,
    /// The MAC address, by which the device is known from then on.
    pub mac: String,
    pub mid: String,
    pub model: String,
    pub name: String,
    pub lock: i32,
    pub series: String,
    pub vender: String,
    pub ver: String,
}

/// The payload of a request for a device's key.
#[derive(Debug, Clone, PartialEq, Eq)]
pub struct BindRequestPack<'t> {
    pub mac: &'t str,
    pub t: &'t str,
    pub uid: Int,
}

/// The payload of a device's answer to a bind request.
#[derive(Debug, Clone, PartialEq, Eq)]
pub struct BindResponsePack {
    pub t: String,
    pub mac: String,
    /// The key under which the device wants to be talked to from now on.
    pub key: String,
    pub r: Int,
}

/// The payload of a request for the values of variables.
#[derive(Debug, Clone, PartialEq, Eq)]
pub struct StatusRequestPack<'t> {
    pub cols: &'t [&'t str],
    pub mac: &'t str,
    pub t: &'t str,
}

/// The payload of a device's answer to a status request: `dat` holds the
/// values of the variables that `cols` names, position by position.
#[derive(Debug, Clone, PartialEq, Eq)]
pub struct StatusResponsePack {
    pub t: String,
    pub mac: String,
    pub r: Int,
    pub cols: Vec<String>,
    pub dat: Vec<Value>,
}

/// The payload of a request to set variables: `p` holds the values for the
/// variables that `opt` names, position by position.
#[derive(Debug, Clone, PartialEq, Eq)]
pub struct CommandPack<'t> {
    pub opt: &'t [&'t str],
    pub p: &'t [Value],
    pub t: &'t str,
}

/// The payload of a device's answer to a command: `opt` and `p` repeat the
/// request, `val` holds what the device reports as set.
#[derive(Debug, Clone, PartialEq, Eq)]
pub struct CommandResponsePack {
    pub t: String,
    pub mac: String,
    pub r: Int,
    pub opt: Vec<String>,
    pub p: Vec<Value>,
    pub val: Vec<Value>,
}

/// The JSON object of a bind payload, its keys in alphabetical order.
pub open spec fn bind_pack_json(mac: Seq<char>, t: Seq<char>, uid: Int) -> Option<Seq<u8>> {
    let s0 = piece("{\"mac\":");
    let s1 = join(s0, json_str(mac));
    let s2 = join(s1, piece(",\"t\":"));
    let s3 = join(s2, json_str(t));
    let s4 = join(s3, piece(",\"uid\":"));
    let s5 = join(s4, json_int(uid));
    join(s5, piece("}"))
}

impl<'t> BindRequestPack<'t> {
    /// The JSON object of the payload.
    pub open spec fn json(self) -> Option<Seq<u8>> {
        bind_pack_json(self.mac@, self.t@, self.uid)
    }

    /// Writes the payload as JSON.
    pub fn to_json(&self) -> (r: Result<Vec<u8>, Error>)
        ensures
            match r {
                Ok(bytes) => self.json() == Some(bytes@),
                Err(e) => self.json() is None && e is SerDe,
            },
    {
        let mut out: Vec<u8> = Vec::new();
        push_text(&mut out, "{\"mac\":");
        match push_json_str(&mut out, self.mac) {
            Ok(_) => {},
            Err(e) => {
                return Err(e);
            },
        }
        push_text(&mut out, ",\"t\":");
        match push_json_str(&mut out, self.t) {
            Ok(_) => {},
            Err(e) => {
                return Err(e);
            },
        }
        push_text(&mut out, ",\"uid\":");
        match push_json_int(&mut out, self.uid) {
            Ok(_) => {},
            Err(e) => {
                return Err(e);
            },
        }
        push_text(&mut out, "}");
        Ok(out)
    }
}

/// The JSON object of a status payload, its keys in alphabetical order.
pub open spec fn status_pack_json(cols: Seq<Seq<char>>, mac: Seq<char>, t: Seq<char>) -> Option<
    Seq<u8>,
> {
    let s0 = piece("{\"cols\":");
    let s1 = join(s0, json_list(texts(cols)));
    let s2 = join(s1, piece(",\"mac\":"));
    let s3 = join(s2, json_str(mac));
    let s4 = join(s3, piece(",\"t\":"));
    let s5 = join(s4, json_str(t));
    join(s5, piece("}"))
}

impl<'t> StatusRequestPack<'t> {
    /// The JSON object of the payload.
    pub open spec fn json(self) -> Option<Seq<u8>> {
        status_pack_json(strs(self.cols@), self.mac@, self.t@)
    }

    /// Writes the payload as JSON.
    pub fn to_json(&self) -> (r: Result<Vec<u8>, Error>)
        ensures
            match r {
                Ok(bytes) => self.json() == Some(bytes@),
                Err(e) => self.json() is None && e is SerDe,
            },
    {
        let mut out: Vec<u8> = Vec::new();
        push_text(&mut out, "{\"cols\":");
        match push_json_names(&mut out, self.cols) {
            Ok(_) => {},
            Err(e) => {
                return Err(e);
            },
        }
        push_text(&mut out, ",\"mac\":");
        match push_json_str(&mut out, self.mac) {
            Ok(_) => {},
            Err(e) => {
                return Err(e);
            },
        }
        push_text(&mut out, ",\"t\":");
        match push_json_str(&mut out, self.t) {
            Ok(_) => {},
            Err(e) => {
                return Err(e);
            },
        }
        push_text(&mut out, "}");
        Ok(out)
    }
}

/// The JSON object of a command payload, its keys in alphabetical order.
pub open spec fn command_pack_json(opt: Seq<Seq<char>>, p: Seq<ValueView>, t: Seq<char>)
    -> Option<Seq<u8>> {
    let s0 = piece("{\"opt\":");
    let s1 = join(s0, json_list(texts(opt)));
    let s2 = join(s1, piece(",\"p\":"));
    let s3 = join(s2, json_list(p));
    let s4 = join(s3, piece(",\"t\":"));
    let s5 = join(s4, json_str(t));
    join(s5, piece("}"))
}

impl<'t> CommandPack<'t> {
    /// The JSON object of the payload.
    pub open spec fn json(self) -> Option<Seq<u8>> {
        command_pack_json(strs(self.opt@), views(self.p@), self.t@)
    }

    /// Writes the payload as JSON.
    pub fn to_json(&self) -> (r: Result<Vec<u8>, Error>)
        ensures
            match r {
                Ok(bytes) => self.json() == Some(bytes@),
                Err(e) => self.json() is None && e is SerDe,
            },
    {
        let mut out: Vec<u8> = Vec::new();
        push_text(&mut out, "{\"opt\":");
        match push_json_names(&mut out, self.opt) {
            Ok(_) => {},
            Err(e) => {
                return Err(e);
            },
        }
        push_text(&mut out, ",\"p\":");
        match push_json_values(&mut out, self.p) {
            Ok(_) => {},
            Err(e) => {
                return Err(e);
            },
        }
        push_text(&mut out, ",\"t\":");
        match push_json_str(&mut out, self.t) {
            Ok(_) => {},
            Err(e) => {
                return Err(e);
            },
        }
        push_text(&mut out, "}");
        Ok(out)
    }
}

/// The JSON object of an envelope with these fields, its keys in
/// alphabetical order.
pub open spec fn envelope_json(
    cid: Seq<char>,
    i: Int,
    pack: Seq<char>,
    t: Seq<char>,
    tcid: Seq<char>,
    uid: Int,
) -> Option<Seq<u8>> {
    let s0 = piece("{\"cid\":");
    let s1 = join(s0, json_str(cid));
    let s2 = join(s1, piece(",\"i\":"));
    let s3 = join(s2, json_int(i));
    let s4 = join(s3, piece(",\"pack\":"));
    let s5 = join(s4, json_str(pack));
    let s6 = join(s5, piece(",\"t\":"));
    let s7 = join(s6, json_str(t));
    let s8 = join(s7, piece(",\"tcid\":"));
    let s9 = join(s8, json_str(tcid));
    let s10 = join(s9, piece(",\"uid\":"));
    let s11 = join(s10, json_int(uid));
    join(s11, piece("}"))
}

impl<'t> GenericOutMessage<'t> {
    /// The JSON object of the envelope.
    pub open spec fn json(self) -> Option<Seq<u8>> {
        envelope_json(self.cid@, self.i, self.pack@, self.t@, self.tcid@, self.uid)
    }

    /// Writes the envelope as JSON: the datagram to send.
    pub fn to_json(&self) -> (r: Result<Vec<u8>, Error>)
        ensures
            match r {
                Ok(bytes) => self.json() == Some(bytes@),
                Err(e) => self.json() is None && e is SerDe,
            },
    {
        let mut out: Vec<u8> = Vec::new();
        push_text(&mut out, "{\"cid\":");
        match push_json_str(&mut out, self.cid) {
            Ok(_) => {},
            Err(e) => {
                return Err(e);
            },
        }
        push_text(&mut out, ",\"i\":");
        match push_json_int(&mut out, self.i) {
            Ok(_) => {},
            Err(e) => {
                return Err(e);
            },
        }
        push_text(&mut out, ",\"pack\":");
        match push_json_str(&mut out, self.pack.as_str()) {
            Ok(_) => {},
            Err(e) => {
                return Err(e);
            },
        }
        push_text(&mut out, ",\"t\":");
        match push_json_str(&mut out, self.t) {
            Ok(_) => {},
            Err(e) => {
                return Err(e);
            },
        }
        push_text(&mut out, ",\"tcid\":");
        match push_json_str(&mut out, self.tcid) {
            Ok(_) => {},
            Err(e) => {
                return Err(e);
            },
        }
        push_text(&mut out, ",\"uid\":");
        match push_json_int(&mut out, self.uid) {
            Ok(_) => {},
            Err(e) => {
                return Err(e);
            },
        }
        push_text(&mut out, "}");
        Ok(out)
    }
}

/// Whether `r` is what a request builder owes for the device `mac`, the
/// sequence number `i` and the payload text `pack`: the envelope around the
/// payload encoded under `key`, addressed to the device; or the reason why
/// the payload could not be written or encoded.
pub open spec fn is_request<'t>(
    r: Result<GenericOutMessage<'t>, Error>,
    mac: &str,
    i: Int,
    pack: Option<Seq<u8>>,
    key: Seq<u8>,
) -> bool {
    match r {
        Ok(m) => pack matches Some(p) && fits(p.len()) && m.cid@ == "app"@ && m.i == i && m.pack@
            == encoded_request(p, key) && m.t@ == "pack"@ && m.tcid@ == mac@ && m.uid == 0,
        Err(Error::SerDe(_)) => pack is None,
        Err(Error::PackTooLong(n)) => pack matches Some(p) && p.len() == n && !fits(n as nat),
        Err(_) => false,
    }
}

/// Wraps the payload text `pack` for the device `mac`: encodes it under `key`
/// and puts the envelope around it. A payload too long to encode is refused.
pub fn envelope<'t>(mac: &'t str, i: Int, pack: Vec<u8>, key: &str) -> (r: Result<
    GenericOutMessage<'t>,
    Error,
>)
    requires
        key.spec_bytes().len() == BLOCK,
    ensures
        is_request(r, mac, i, Some(pack@), key.spec_bytes()),
{
    if !payload_fits(pack.len()) {
        return Err(Error::PackTooLong(pack.len()));
    }
    let pack = encode_request(pack, key.as_bytes());
    Ok(GenericOutMessage { cid: "app", i, pack, t: "pack", tcid: mac, uid: 0 })
}

/// The request for the key of the device `mac`, to be sent under the
/// generic key.
pub fn bind_request<'t>(mac: &'t str, key: &str) -> (r: Result<GenericOutMessage<'t>, Error>)
    requires
        key.spec_bytes().len() == BLOCK,
    ensures
        is_request(r, mac, 1, bind_pack_json(mac@, "bind"@, 0), key.spec_bytes()),
{
    match (BindRequestPack { mac, t: "bind", uid: 0 }).to_json() {
        Ok(pack) => envelope(mac, 1, pack, key),
        Err(e) => Err(e),
    }
}

/// The request for the values of `variables`, to the device `mac` under its key.
pub fn status_request<'t>(mac: &'t str, key: &str, variables: &[&str]) -> (r: Result<
    GenericOutMessage<'t>,
    Error,
>)
    requires
        key.spec_bytes().len() == BLOCK,
    ensures
        is_request(
            r,
            mac,
            0,
            status_pack_json(strs(variables@), mac@, "status"@),
            key.spec_bytes(),
        ),
{
    match (StatusRequestPack { cols: variables, mac, t: "status" }).to_json() {
        Ok(pack) => envelope(mac, 0, pack, key),
        Err(e) => Err(e),
    }
}

/// The request to set the variables `names` to `values`, position by
/// position, to the device `mac` under its key.
pub fn setvar_request<'t>(mac: &'t str, key: &str, names: &[&str], values: &[Value]) -> (r:
    Result<GenericOutMessage<'t>, Error>)
    requires
        key.spec_bytes().len() == BLOCK,
    ensures
        is_request(
            r,
            mac,
            0,
            command_pack_json(strs(names@), views(values@), "cmd"@),
            key.spec_bytes(),
        ),
{
    match (CommandPack { opt: names, p: values, t: "cmd" }).to_json() {
        Ok(pack) => envelope(mac, 0, pack, key),
        Err(e) => Err(e),
    }
}

} // verus!
