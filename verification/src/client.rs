//! The low-level client: which datagram goes where, and what to make of the
//! datagrams that come back. Sockets and clocks are the caller's.

use vstd::prelude::*;
use vstd::string::StringSliceAdditionalSpecFns;
use vstd::utf8::{encode_utf8, is_ascii_chars_encode_utf8};
use crate::apdu::{
    bind_pack_json, bind_request, command_pack_json, envelope_json, scan_bytes, scan_request,
    setvar_request, status_pack_json, status_request, strs, views, GenericMessage,
    GenericOutMessage, Int, ScanResponsePack,
};
use crate::codec::{
    base64_bytes, decode_response, decoded_response, encoded_request, fits, BLOCK,
};
use crate::error::{Error, ErrorView};
use crate::state::{GreeClientConfig, IpAddress, ScanReply, SocketAddress};
use crate::value::{Value, ValueView};

verus! {

/// The key that every device knows: it protects scan responses and binding.
pub const GENERIC_KEY: &'static str = "a3K8Bx%2r8Y7#xDh";

/// The UDP port on which devices listen.
pub const PORT: u16 = 7000;

/// Whether `key` can be a key: its bytes fill one cipher block.
pub open spec fn is_key(key: Seq<char>) -> bool {
    encode_utf8(key).len() == BLOCK
}

/// The generic key is a key.
pub proof fn lemma_generic_key()
    ensures
        is_key(GENERIC_KEY@),
{
    reveal_strlit("a3K8Bx%2r8Y7#xDh");
    assert(vstd::utf8::is_ascii_chars(GENERIC_KEY@));
    is_ascii_chars_encode_utf8(GENERIC_KEY@);
}

/// The datagram that carries the payload text `pack` to the device `mac`
/// under `key`, with the sequence number `i`; or why there is none: the
/// payload or the envelope has no text (`SerDe`), or the payload is too long.
pub open spec fn request_datagram(
    mac: Seq<char>,
    i: Int,
    pack: Option<Seq<u8>>,
    key: Seq<u8>,
) -> Result<Seq<u8>, ErrorView> {
    match pack {
        None => Err(ErrorView::SerDe),
        Some(p) => if !fits(p.len()) {
            Err(ErrorView::PackTooLong(p.len() as usize))
        } else {
            match envelope_json("app"@, i, encoded_request(p, key), "pack"@, mac, 0) {
                Some(datagram) => Ok(datagram),
                None => Err(ErrorView::SerDe),
            }
        },
    }
}

/// What one exchange with a device consists of.
pub struct ExchangeView {
    /// Where the request goes, and where the answer must come from.
    pub to: SocketAddress,
    /// The request.
    pub datagram: Seq<u8>,
    /// The key under which the answer is read.
    pub key: Seq<char>,
    /// The time at which the exchange is over, in milliseconds on the
    /// caller's clock: an answer that is not there by then never comes.
    pub deadline: u64,
}

/// One exchange with a device: a request to send, the means to tell its
/// answer from other datagrams and to read it, and the time by which the
/// answer must be there.
#[derive(Debug, PartialEq, Eq)]
pub struct Exchange {
    to: SocketAddress,
    datagram: Vec<u8>,
    key: String,
    deadline: u64,
}

/// The time at which an exchange that starts at the time `now` is over:
/// `timeout` later, or at the end of the clock.
pub open spec fn deadline_of(now: u64, timeout: u64) -> u64 {
    if now + timeout > u64::MAX {
        u64::MAX
    } else {
        (now + timeout) as u64
    }
}

/// An exchange is over no later than `timeout` after its start, so that
/// from its start on it never waits longer than that.
pub proof fn lemma_exchange_is_bounded(start: u64, timeout: u64, now: u64)
    requires
        start <= now,
    ensures
        start <= deadline_of(start, timeout) <= start + timeout,
        now < deadline_of(start, timeout) ==> deadline_of(start, timeout) - now <= timeout,
{
}

/// What a datagram is to an exchange.
#[derive(Debug, PartialEq, Eq)]
pub enum Received {
    /// The answer: the text of its payload.
    Answer(String),
    /// A datagram of another sender: the exchange goes on waiting.
    Ignored,
    /// The exchange failed.
    Failed(Error),
}

impl View for Exchange {
    type V = ExchangeView;

    closed spec fn view(&self) -> ExchangeView {
        ExchangeView {
            to: self.to,
            datagram: self.datagram@,
            key: self.key@,
            deadline: self.deadline,
        }
    }
}

impl Exchange {
    #[verifier::type_invariant]
    spec fn wf(self) -> bool {
        is_key(self.key@)
    }

    /// Where the request goes.
    pub fn to(&self) -> (to: SocketAddress)
        ensures
            to == self@.to,
    {
        self.to
    }

    /// The request to send.
    pub fn datagram(&self) -> (datagram: &[u8])
        ensures
            datagram@ == self@.datagram,
    {
        self.datagram.as_slice()
    }

    /// The key under which the answer is read.
    pub fn key(&self) -> (key: &str)
        ensures
            key@ == self@.key,
            is_key(key@),
    {
        proof {
            use_type_invariant(self);
        }
        self.key.as_str()
    }

    /// The time at which the exchange is over.
    pub fn deadline(&self) -> (deadline: u64)
        ensures
            deadline == self@.deadline,
    {
        self.deadline
    }

    /// How long the exchange may still wait for a datagram at the time
    /// `now`, in milliseconds: the time left until it is over.
    pub fn remaining(&self, now: u64) -> (left: u64)
        ensures
            left == (if now >= self@.deadline {
                0
            } else {
                self@.deadline - now
            }),
    {
        if now >= self.deadline {
            0
        } else {
            self.deadline - now
        }
    }

    /// Says what a datagram received at the time `now`, or a failure to
    /// receive one, is to the exchange. Once the exchange is over it has
    /// failed: the device did not answer in time, whatever else came. Before
    /// that a datagram from another address than the device's is ignored,
    /// and the device's own is the answer, whose payload is decoded.
    pub fn receive_at(&self, now: u64, received: Result<(IpAddress, GenericMessage), Error>) -> (r:
        Received)
        ensures
            now >= self@.deadline ==> r == Received::Failed(Error::ResponseTimeout),
            now < self@.deadline ==> (match received {
                Err(e) => r == Received::Failed(e),
                Ok((from, gm)) => if from != self@.to.ip {
                    r is Ignored
                } else {
                    match decoded_response(gm.pack@, encode_utf8(self@.key)) {
                        Some(text) => r matches Received::Answer(t) && t@ == text,
                        None => r matches Received::Failed(e) && (match e {
                            Error::Base64Decode(_) => base64_bytes(gm.pack@) is None,
                            Error::BlockLength(n) => base64_bytes(gm.pack@) matches Some(c)
                                && c.len() == n,
                            _ => false,
                        }),
                    }
                },
            }),
    {
        proof {
            use_type_invariant(self);
        }
        if now >= self.deadline {
            return Received::Failed(Error::ResponseTimeout);
        }
        match received {
            Err(e) => Received::Failed(e),
            Ok((from, gm)) => {
                if from != self.to.ip {
                    Received::Ignored
                } else {
                    match decode_response(gm.pack.as_str(), self.key.as_str()) {
                        Ok(text) => Received::Answer(text),
                        Err(e) => Received::Failed(e),
                    }
                }
            },
        }
    }
}

/// What a scan has found so far.
pub struct ScanRunView {
    /// Where the scan request goes.
    pub to: SocketAddress,
    /// The most replies that the scan takes.
    pub max_count: usize,
    /// How long the scan waits for each reply, in milliseconds.
    pub timeout: u64,
    /// The replies so far, in the order in which they came.
    pub found: Seq<ScanReply>,
}

/// A scan under way: a request to broadcast, and the replies so far.
#[derive(Debug, PartialEq, Eq)]
pub struct ScanRun {
    to: SocketAddress,
    max_count: usize,
    timeout: u64,
    found: Vec<ScanReply>,
}

/// What a datagram is to a scan.
#[derive(Debug, PartialEq, Eq)]
pub enum ScanReceived {
    /// A reply: its sender, its envelope and the text of its payload.
    Reply(IpAddress, GenericMessage, String),
    /// Nothing came in time: the scan is over.
    End,
    /// The scan failed.
    Failed(Error),
}

impl View for ScanRun {
    type V = ScanRunView;

    closed spec fn view(&self) -> ScanRunView {
        ScanRunView {
            to: self.to,
            max_count: self.max_count,
            timeout: self.timeout,
            found: self.found@,
        }
    }
}

impl ScanRun {
    #[verifier::type_invariant]
    spec fn wf(self) -> bool {
        self.found@.len() <= self.max_count
    }

    /// Where the scan request goes.
    pub fn to(&self) -> (to: SocketAddress)
        ensures
            to == self@.to,
    {
        self.to
    }

    /// The scan request.
    pub fn datagram(&self) -> (datagram: &'static [u8])
        ensures
            datagram@ == scan_bytes(),
    {
        scan_request()
    }

    /// How long the scan waits for a reply, in milliseconds. It waits as often
    /// as it takes replies at most, and so for `max_count` times as long in all.
    pub fn timeout(&self) -> (timeout: u64)
        ensures
            timeout == self@.timeout,
    {
        self.timeout
    }

    /// Whether the scan waits for another reply: it takes `max_count` at most.
    pub fn wants_more(&self) -> (more: bool)
        ensures
            more == (self@.found.len() < self@.max_count),
    {
        self.found.len() < self.max_count
    }

    /// Says what a received datagram, or a failure to receive one, is to the
    /// scan. That nothing came is how a scan ends; the payload of a datagram
    /// is decoded under the generic key, and the scan fails where it cannot be.
    pub fn receive(&self, received: Result<(IpAddress, GenericMessage), Error>) -> (r:
        ScanReceived)
        ensures
            match received {
                Err(_) => r is End,
                Ok((from, gm)) => match decoded_response(gm.pack@, encode_utf8(GENERIC_KEY@)) {
                    Some(text) => r matches ScanReceived::Reply(f, g, t) && f == from && g == gm
                        && t@ == text,
                    None => r matches ScanReceived::Failed(e) && (match e {
                        Error::Base64Decode(_) => base64_bytes(gm.pack@) is None,
                        Error::BlockLength(n) => base64_bytes(gm.pack@) matches Some(c) && c.len()
                            == n,
                        _ => false,
                    }),
                },
            },
    {
        proof {
            lemma_generic_key();
        }
        match received {
            Err(_) => ScanReceived::End,
            Ok((from, gm)) => {
                match decode_response(gm.pack.as_str(), GENERIC_KEY) {
                    Ok(text) => ScanReceived::Reply(from, gm, text),
                    Err(e) => ScanReceived::Failed(e),
                }
            },
        }
    }

    /// Takes a reply, unless the scan has as many as it takes.
    pub fn push(self, from: IpAddress, gm: GenericMessage, pack: ScanResponsePack) -> (run: Self)
        ensures
            run@ == (ScanRunView {
                found: if self@.found.len() < self@.max_count {
                    self@.found.push((from, gm, pack))
                } else {
                    self@.found
                },
                ..self@
            }),
    {
        proof {
            use_type_invariant(&self);
        }
        let mut found = self.found;
        if found.len() < self.max_count {
            found.push((from, gm, pack));
        }
        ScanRun { to: self.to, max_count: self.max_count, timeout: self.timeout, found }
    }

    /// Ends the scan: the replies, in the order in which they came.
    pub fn finish(self) -> (found: Vec<ScanReply>)
        ensures
            found@ == self@.found,
            found@.len() <= self@.max_count,
    {
        proof {
            use_type_invariant(&self);
        }
        self.found
    }
}

/// The low-level client.
#[derive(Debug, Clone, Copy, PartialEq, Eq, Structural)]
pub struct GreeClient {
    pub cfg: GreeClientConfig,
}

/// A scan that a client with the configuration `cfg` starts: the request
/// goes to the broadcast address, and no reply is there yet.
pub open spec fn scan_start(cfg: GreeClientConfig) -> ScanRunView {
    ScanRunView {
        to: SocketAddress { ip: cfg.bcast_addr, port: PORT },
        max_count: cfg.max_count,
        timeout: cfg.recv_timeout,
        found: Seq::empty(),
    }
}

/// What an exchange with the device at `addr` consists of, or why there is
/// none, where `datagram` is the request or the reason why there is none.
pub open spec fn exchange_of(
    addr: IpAddress,
    datagram: Result<Seq<u8>, ErrorView>,
    key: Seq<char>,
    deadline: u64,
) -> Result<ExchangeView, ErrorView> {
    match datagram {
        Ok(d) => Ok(
            ExchangeView { to: SocketAddress { ip: addr, port: PORT }, datagram: d, key, deadline },
        ),
        Err(e) => Err(e),
    }
}

/// The exchange that binds the device `mac` at `addr`, over at `deadline`.
#[verifier::opaque]
pub open spec fn bind_exchange(addr: IpAddress, mac: Seq<char>, deadline: u64) -> Result<
    ExchangeView,
    ErrorView,
> {
    exchange_of(
        addr,
        request_datagram(mac, 1, bind_pack_json(mac, "bind"@, 0), encode_utf8(GENERIC_KEY@)),
        GENERIC_KEY@,
        deadline,
    )
}

/// The exchange that reads the variables `vars` from the device `mac` at
/// `addr`, over at `deadline`.
#[verifier::opaque]
pub open spec fn status_exchange(
    addr: IpAddress,
    mac: Seq<char>,
    key: Seq<char>,
    vars: Seq<Seq<char>>,
    deadline: u64,
) -> Result<ExchangeView, ErrorView> {
    exchange_of(
        addr,
        request_datagram(mac, 0, status_pack_json(vars, mac, "status"@), encode_utf8(key)),
        key,
        deadline,
    )
}

/// The exchange that writes `values` to the variables `names` of the device
/// `mac` at `addr`, over at `deadline`.
#[verifier::opaque]
pub open spec fn command_exchange(
    addr: IpAddress,
    mac: Seq<char>,
    key: Seq<char>,
    names: Seq<Seq<char>>,
    values: Seq<ValueView>,
    deadline: u64,
) -> Result<ExchangeView, ErrorView> {
    exchange_of(
        addr,
        request_datagram(mac, 0, command_pack_json(names, values, "cmd"@), encode_utf8(key)),
        key,
        deadline,
    )
}

/// Whether `r` is the exchange `wanted`, or fails as it does.
pub open spec fn is_exchange(r: Result<Exchange, Error>, wanted: Result<ExchangeView, ErrorView>)
    -> bool {
    match r {
        Ok(ex) => wanted == Ok::<ExchangeView, ErrorView>(ex@),
        Err(e) => wanted == Err::<ExchangeView, ErrorView>(e@),
    }
}

impl GreeClient {
    /// A client with the configuration `cfg`.
    pub fn new(cfg: GreeClientConfig) -> (c: Self)
        ensures
            c.cfg == cfg,
    {
        Self { cfg }
    }

    /// The time at which an exchange that starts at the time `now` is over:
    /// the receive timeout of the configuration later.
    pub fn deadline(&self, now: u64) -> (deadline: u64)
        ensures
            deadline == deadline_of(now, self.cfg.recv_timeout),
    {
        now.saturating_add(self.cfg.recv_timeout)
    }

    /// Makes an exchange of a request.
    fn exchange<'t>(
        addr: IpAddress,
        request: Result<GenericOutMessage<'t>, Error>,
        key: &str,
        deadline: u64,
    ) -> (r: Result<Exchange, Error>)
        requires
            is_key(key@),
            request matches Err(e) ==> e is SerDe || e is PackTooLong,
        ensures
            match r {
                Ok(ex) => request matches Ok(m) && m.json() == Some(ex@.datagram) && ex@.to == (
                SocketAddress { ip: addr, port: PORT }) && ex@.key == key@ && ex@.deadline
                    == deadline,
                Err(e) => match request {
                    Ok(m) => m.json() is None && e is SerDe,
                    Err(e0) => e == e0,
                },
            },
    {
        match request {
            Ok(m) => match m.to_json() {
                Ok(datagram) => Ok(
                    Exchange {
                        to: SocketAddress { ip: addr, port: PORT },
                        datagram,
                        key: key.to_owned(),
                        deadline,
                    },
                ),
                Err(e) => Err(e),
            },
            Err(e) => Err(e),
        }
    }

    /// Starts a scan for the devices on the network.
    ///
    /// The scan ends when as many devices answered as the configuration
    /// allows, or when nothing comes in time.
    pub fn scan(&self) -> (run: ScanRun)
        ensures
            run@ == scan_start(self.cfg),
    {
        ScanRun {
            to: SocketAddress { ip: self.cfg.bcast_addr, port: PORT },
            max_count: self.cfg.max_count,
            timeout: self.cfg.recv_timeout,
            found: Vec::new(),
        }
    }

    /// The exchange that binds the device `mac` at `addr`, started at the
    /// time `now`: it asks for the device's key under the generic key.
    pub fn bind(&self, addr: IpAddress, mac: &str, now: u64) -> (r: Result<Exchange, Error>)
        ensures
            is_exchange(r, bind_exchange(addr, mac@, deadline_of(now, self.cfg.recv_timeout))),
    {
        proof {
            lemma_generic_key();
            reveal(bind_exchange);
        }
        Self::exchange(addr, bind_request(mac, GENERIC_KEY), GENERIC_KEY, self.deadline(now))
    }

    /// The exchange that reads the variables `vars` from the device `mac` at
    /// `addr`, under the device's key, started at the time `now`.
    pub fn getvars(&self, addr: IpAddress, mac: &str, key: &str, vars: &[&str], now: u64) -> (r:
        Result<Exchange, Error>)
        requires
            is_key(key@),
        ensures
            is_exchange(
                r,
                status_exchange(
                    addr,
                    mac@,
                    key@,
                    strs(vars@),
                    deadline_of(now, self.cfg.recv_timeout),
                ),
            ),
    {
        proof {
            reveal(status_exchange);
        }
        Self::exchange(addr, status_request(mac, key, vars), key, self.deadline(now))
    }

    /// The exchange that writes `values` to the variables `names` of the
    /// device `mac` at `addr`, position by position, under the device's key,
    /// started at the time `now`.
    pub fn setvars(
        &self,
        addr: IpAddress,
        mac: &str,
        key: &str,
        names: &[&str],
        values: &[Value],
        now: u64,
    ) -> (r: Result<Exchange, Error>)
        requires
            is_key(key@),
        ensures
            is_exchange(
                r,
                command_exchange(
                    addr,
                    mac@,
                    key@,
                    strs(names@),
                    views(values@),
                    deadline_of(now, self.cfg.recv_timeout),
                ),
            ),
    {
        proof {
            reveal(command_exchange);
        }
        Self::exchange(addr, setvar_request(mac, key, names, values), key, self.deadline(now))
    }
}

} // verus!
