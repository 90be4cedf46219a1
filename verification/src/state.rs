//! What the client knows: its configuration, the devices that answered the
//! last scan, and the variables that a caller reads and writes.

use vstd::prelude::*;
use crate::apdu::{
    strs, views, BindResponsePack, CommandResponsePack, GenericMessage, ScanResponsePack,
    StatusResponsePack,
};
use crate::error::{Error, ErrorView};
use crate::text::str_eq;
use crate::value::{Value, ValueView};
use crate::vars::{known_name, name_of, parse_value, parsed_value, VarName};

verus! {

/// A MAC address, as the device spells it.
pub type MacAddr = String;

/// An IP address: the 32 bits of an IPv4 address or the 128 bits of an IPv6
/// address, the first octet in the highest bits.
#[derive(Debug, Clone, Copy, PartialEq, Eq, Structural)]
pub enum IpAddress {
    V4(u32),
    V6(u128),
}

/// A socket address: an IP address and a port.
#[derive(Debug, Clone, Copy, PartialEq, Eq, Structural)]
pub struct SocketAddress {
    pub ip: IpAddress,
    pub port: u16,
}

/// One answer to a scan: the address it came from, its envelope and its payload.
pub type ScanReply = (IpAddress, GenericMessage, ScanResponsePack);

/// Configuration of the low-level client.
#[derive(Debug, Clone, Copy, PartialEq, Eq, Structural)]
pub struct GreeClientConfig {
    /// Size of the buffer that receives a datagram.
    pub buffer_size: usize,
    /// How long to wait for a datagram, in milliseconds.
    pub recv_timeout: u64,
    /// The local address of the socket.
    pub bind_addr: SocketAddress,
    /// The most devices that a scan waits for: it ends early once as many answered.
    pub max_count: usize,
    /// The broadcast address of the network.
    pub bcast_addr: IpAddress,
}

impl GreeClientConfig {
    /// The default size of the receive buffer.
    pub const DEFAULT_BUFFER_SIZE: usize = 2048;

    /// The default number of devices that a scan waits for.
    pub const DEFAULT_MAX_COUNT: usize = 10;

    /// The default broadcast address, 10.0.0.255.
    pub const DEFAULT_BROADCAST_ADDR: u32 = 0x0a00_00ff;

    /// The default time to wait for a datagram: three seconds.
    pub const DEFAULT_RECV_TIMEOUT: u64 = 3_000;
}

/// The configuration of a low-level client that nobody configured: the
/// default values, on any local address and port.
pub open spec fn default_client_config() -> GreeClientConfig {
    GreeClientConfig {
        buffer_size: GreeClientConfig::DEFAULT_BUFFER_SIZE,
        recv_timeout: GreeClientConfig::DEFAULT_RECV_TIMEOUT,
        bind_addr: SocketAddress { ip: IpAddress::V4(0), port: 0 },
        max_count: GreeClientConfig::DEFAULT_MAX_COUNT,
        bcast_addr: IpAddress::V4(GreeClientConfig::DEFAULT_BROADCAST_ADDR),
    }
}

impl Default for GreeClientConfig {
    fn default() -> (cfg: Self)
        ensures
            cfg == default_client_config(),
    {
        GreeClientConfig {
            buffer_size: Self::DEFAULT_BUFFER_SIZE,
            recv_timeout: Self::DEFAULT_RECV_TIMEOUT,
            bind_addr: SocketAddress { ip: IpAddress::V4(0), port: 0 },
            max_count: Self::DEFAULT_MAX_COUNT,
            bcast_addr: IpAddress::V4(Self::DEFAULT_BROADCAST_ADDR),
        }
    }
}

/// Configuration of the high-level client.
#[derive(Debug, Clone, PartialEq, Eq)]
pub struct GreeConfig {
    /// Configuration of the low-level client.
    pub client_config: GreeClientConfig,
    /// No scan is made while the last one is younger than this, in milliseconds.
    pub min_scan_age: u64,
    /// A scan is made in any case once the last one is this old, in milliseconds.
    pub max_scan_age: u64,
    /// Friendly names of devices, each with the MAC address it stands for. Of
    /// two entries for one name the first counts.
    pub aliases: Vec<(String, MacAddr)>,
}

impl GreeConfig {
    /// The default age under which no scan is made: one minute.
    pub const DEFAULT_MIN_SCAN_AGE: u64 = 60_000;

    /// The default age from which a scan is made in any case: one day.
    pub const DEFAULT_MAX_SCAN_AGE: u64 = 86_400_000;
}

impl Default for GreeConfig {
    fn default() -> (cfg: Self)
        ensures
            cfg.client_config == default_client_config(),
            cfg.min_scan_age == GreeConfig::DEFAULT_MIN_SCAN_AGE,
            cfg.max_scan_age == GreeConfig::DEFAULT_MAX_SCAN_AGE,
            cfg.aliases@.len() == 0,
    {
        GreeConfig {
            client_config: GreeClientConfig::default(),
            min_scan_age: Self::DEFAULT_MIN_SCAN_AGE,
            max_scan_age: Self::DEFAULT_MAX_SCAN_AGE,
            aliases: Vec::new(),
        }
    }
}

/// The MAC address that `target` stands for: that of the first alias of this
/// name, or `target` itself where no alias has it.
pub open spec fn resolved(aliases: Seq<(String, MacAddr)>, target: Seq<char>) -> Seq<char>
    decreases aliases.len(),
{
    if aliases.len() == 0 {
        target
    } else if aliases[0].0@ == target {
        aliases[0].1@
    } else {
        resolved(aliases.drop_first(), target)
    }
}

impl GreeConfig {
    /// Rewrites a friendly name to the MAC address it stands for; any other
    /// target is taken as a MAC address.
    pub fn resolve<'a>(&'a self, target: &'a str) -> (mac: &'a str)
        ensures
            mac@ == resolved(self.aliases@, target@),
    {
        let mut i: usize = 0;
        assert(self.aliases@.subrange(0, self.aliases@.len() as int) =~= self.aliases@);
        while i < self.aliases.len()
            invariant
                i <= self.aliases.len(),
                resolved(self.aliases@, target@) == resolved(
                    self.aliases@.subrange(i as int, self.aliases@.len() as int),
                    target@,
                ),
            decreases self.aliases.len() - i,
        {
            let ghost rest = self.aliases@.subrange(i as int, self.aliases@.len() as int);
            assert(rest[0] == self.aliases@[i as int]);
            assert(rest.drop_first() =~= self.aliases@.subrange(i + 1, self.aliases@.len() as int));
            if str_eq(self.aliases[i].0.as_str(), target) {
                return self.aliases[i].1.as_str();
            }
            i += 1;
        }
        target
    }
}

/// What is known of one device on the network.
///
/// A scan finds devices; the key is there once the device was bound.
#[derive(Debug, Clone, PartialEq, Eq)]
pub struct Device {
    /// The address from which the device answered the last scan.
    pub ip: IpAddress,
    /// What the device reported of itself.
    pub scan_result: ScanResponsePack,
    /// The key under which the device is talked to, once bound.
    pub key: Option<String>,
}

impl Device {
    /// Stores the key that the device handed out in its answer to a bind request.
    pub fn bind_ind(&mut self, pack: BindResponsePack)
        ensures
            final(self).key == Some(pack.key),
            final(self).ip == old(self).ip,
            final(self).scan_result == old(self).scan_result,
    {
        self.key = Some(pack.key)
    }
}

/// The device that a scan reply describes: not bound yet.
pub open spec fn scanned_device(reply: ScanReply) -> Device {
    Device { ip: reply.0, scan_result: reply.2, key: None }
}

/// Where the device with MAC address `mac` stands in `devices`: the last
/// position that holds it.
pub open spec fn position(devices: Seq<Device>, mac: Seq<char>) -> Option<int>
    decreases devices.len(),
{
    if devices.len() == 0 {
        None
    } else if devices.last().scan_result.mac@ == mac {
        Some(devices.len() - 1)
    } else {
        position(devices.drop_last(), mac)
    }
}

/// The device with MAC address `mac` among `devices`.
pub open spec fn lookup(devices: Seq<Device>, mac: Seq<char>) -> Option<Device> {
    match position(devices, mac) {
        Some(i) => Some(devices[i]),
        None => None,
    }
}

/// The device that the last reply from MAC address `mac` describes.
pub open spec fn last_reply(replies: Seq<ScanReply>, mac: Seq<char>) -> Option<Device>
    decreases replies.len(),
{
    if replies.len() == 0 {
        None
    } else if replies.last().2.mac@ == mac {
        Some(scanned_device(replies.last()))
    } else {
        last_reply(replies.drop_last(), mac)
    }
}

/// Whether no two of `devices` share a MAC address.
pub open spec fn distinct(devices: Seq<Device>) -> bool {
    forall|i: int, j: int|
        0 <= i < j < devices.len() ==> devices[i].scan_result.mac@ != devices[j].scan_result.mac@
}

/// A position found is in range and holds the MAC address; where none is
/// found, no device has it.
pub proof fn lemma_position(devices: Seq<Device>, mac: Seq<char>)
    ensures
        match position(devices, mac) {
            Some(i) => 0 <= i < devices.len() && devices[i].scan_result.mac@ == mac,
            None => forall|i: int|
                0 <= i < devices.len() ==> (#[trigger] devices[i]).scan_result.mac@ != mac,
        },
    decreases devices.len(),
{
    if devices.len() > 0 && devices.last().scan_result.mac@ != mac {
        lemma_position(devices.drop_last(), mac);
        assert forall|i: int| 0 <= i < devices.len() - 1 implies devices[i]
            == devices.drop_last()[i] by {}
    }
}

/// Positions depend on the MAC addresses alone.
pub proof fn lemma_position_by_macs(a: Seq<Device>, b: Seq<Device>, mac: Seq<char>)
    requires
        a.len() == b.len(),
        forall|i: int| 0 <= i < a.len() ==> a[i].scan_result.mac@ == b[i].scan_result.mac@,
    ensures
        position(a, mac) == position(b, mac),
    decreases a.len(),
{
    if a.len() > 0 {
        lemma_position_by_macs(a.drop_last(), b.drop_last(), mac);
    }
}

/// The devices on the network, as the last scan found them.
#[derive(Debug, Clone, PartialEq, Eq)]
pub struct GreeState {
    /// One entry per MAC address.
    pub devices: Vec<Device>,
}

impl GreeState {
    /// A state without any device.
    pub fn new() -> (s: Self)
        ensures
            s.devices@.len() == 0,
    {
        Self { devices: Vec::new() }
    }

    /// Where the device with MAC address `mac` stands.
    pub fn find(&self, mac: &str) -> (r: Option<usize>)
        ensures
            r matches Some(i) ==> position(self.devices@, mac@) == Some(i as int),
            r is None ==> position(self.devices@, mac@) is None,
    {
        Self::find_in(&self.devices, mac)
    }

    /// The device with MAC address `mac`, or `NotFound` with the address.
    pub fn get(&self, mac: &str) -> (r: Result<&Device, Error>)
        ensures
            match r {
                Ok(d) => lookup(self.devices@, mac@) == Some(*d),
                Err(e) => lookup(self.devices@, mac@) is None && e@ == ErrorView::NotFound(mac@),
            },
    {
        match self.find(mac) {
            Some(i) => {
                proof {
                    lemma_position(self.devices@, mac@);
                }
                Ok(&self.devices[i])
            },
            None => Err(Error::not_found(mac)),
        }
    }

    /// Replaces the devices by those that answered a scan, not bound: one per
    /// MAC address, and of two replies from one MAC address the later.
    pub fn scan_ind(&mut self, scan_result: Vec<ScanReply>)
        ensures
            forall|mac: Seq<char>| #[trigger]
                lookup(final(self).devices@, mac) == last_reply(scan_result@, mac),
            distinct(final(self).devices@),
            final(self).devices@.len() <= scan_result@.len(),
    {
        let mut rest = scan_result;
        let mut devices: Vec<Device> = Vec::new();
        assert(scan_result@.subrange(0, scan_result@.len() as int) =~= scan_result@);
        while rest.len() > 0
            invariant
                rest@ == scan_result@.subrange(0, rest@.len() as int),
                rest@.len() <= scan_result@.len(),
                distinct(devices@),
                devices@.len() + rest@.len() <= scan_result@.len(),
                forall|mac: Seq<char>| #[trigger]
                    last_reply(scan_result@, mac) == (match lookup(devices@, mac) {
                        Some(d) => Some(d),
                        None => last_reply(rest@, mac),
                    }),
            decreases rest.len(),
        {
            let ghost before = rest@;
            let ghost had = devices@;
            let reply = rest.pop().unwrap();
            assert(rest@ =~= before.drop_last());
            assert(reply == before.last());
            let known = Self::find_in(&devices, reply.2.mac.as_str()).is_some();
            proof {
                lemma_position(had, reply.2.mac@);
            }
            if !known {
                devices.push(Device { ip: reply.0, scan_result: reply.2, key: None });
                assert(devices@.drop_last() =~= had);
                assert(devices@.last() == scanned_device(reply));
            }
            assert forall|mac: Seq<char>| #[trigger]
                last_reply(scan_result@, mac) == (match lookup(devices@, mac) {
                    Some(d) => Some(d),
                    None => last_reply(rest@, mac),
                }) by {
                assert(last_reply(scan_result@, mac) == (match lookup(had, mac) {
                    Some(d) => Some(d),
                    None => last_reply(before, mac),
                }));
                lemma_position(had, mac);
                if !known && mac != reply.2.mac@ {
                    assert(position(devices@, mac) == position(had, mac));
                }
            }
        }
        assert(rest@.len() == 0);
        self.devices = devices;
    }

    /// Where the device with MAC address `mac` stands in `devices`.
    fn find_in(devices: &Vec<Device>, mac: &str) -> (r: Option<usize>)
        ensures
            r matches Some(i) ==> position(devices@, mac@) == Some(i as int),
            r is None ==> position(devices@, mac@) is None,
    {
        let mut i: usize = devices.len();
        assert(devices@.subrange(0, i as int) =~= devices@);
        while i > 0
            invariant
                i <= devices.len(),
                position(devices@, mac@) == position(devices@.subrange(0, i as int), mac@),
            decreases i,
        {
            let ghost part = devices@.subrange(0, i as int);
            assert(part.last() == devices@[i - 1]);
            assert(part.drop_last() =~= devices@.subrange(0, i - 1));
            if str_eq(devices[i - 1].scan_result.mac.as_str(), mac) {
                return Some(i - 1);
            }
            i -= 1;
        }
        None
    }

    /// Stores the key that the device with MAC address `mac` handed out in
    /// `pack`. Where no such device is known, nothing changes and the result
    /// is `NotFound` with the address.
    pub fn record_bind(&mut self, mac: &str, pack: BindResponsePack) -> (r: Result<(), Error>)
        ensures
            match r {
                Ok(_) => lookup(old(self).devices@, mac@) matches Some(d) && lookup(
                    final(self).devices@,
                    mac@,
                ) == Some(Device { key: Some(pack.key), ..d }),
                Err(e) => lookup(old(self).devices@, mac@) is None && final(self).devices@ == old(
                    self,
                ).devices@ && e@ == ErrorView::NotFound(mac@),
            },
            final(self).devices@.len() == old(self).devices@.len(),
            forall|i: int|
                0 <= i < old(self).devices@.len() && Some(i) != position(old(self).devices@, mac@)
                    ==> final(self).devices@[i] == old(self).devices@[i],
            forall|other: Seq<char>|
                other != mac@ ==> #[trigger] lookup(final(self).devices@, other) == lookup(
                    old(self).devices@,
                    other,
                ),
    {
        match self.find(mac) {
            Some(i) => {
                proof {
                    lemma_position(self.devices@, mac@);
                }
                self.devices[i].bind_ind(pack);
                proof {
                    assert forall|other: Seq<char>|
                        #[trigger] position(self.devices@, other) == position(
                            old(self).devices@,
                            other,
                        ) by {
                        lemma_position_by_macs(self.devices@, old(self).devices@, other);
                    }
                    assert forall|other: Seq<char>| other != mac@ implies #[trigger] lookup(
                        self.devices@,
                        other,
                    ) == lookup(old(self).devices@, other) by {
                        lemma_position(old(self).devices@, other);
                    }
                }
                Ok(())
            },
            None => Err(Error::not_found(mac)),
        }
    }
}

/// What a network variable holds: its value, whether the value is still to
/// be read from the device, and whether it is still to be written to it.
pub struct SlotView {
    pub value: ValueView,
    pub read_pending: bool,
    pub write_pending: bool,
}

/// A network variable: a place for a value that is read from a device or
/// written to it.
#[derive(Debug, PartialEq, Eq)]
pub struct SimpleNetVar {
    value: Value,
    net_read_pending: bool,
    net_write_pending: bool,
}

impl View for SimpleNetVar {
    type V = SlotView;

    closed spec fn view(&self) -> SlotView {
        SlotView {
            value: self.value@,
            read_pending: self.net_read_pending,
            write_pending: self.net_write_pending,
        }
    }
}

impl Clone for SimpleNetVar {
    fn clone(&self) -> (nv: Self)
        ensures
            nv@ == self@,
    {
        Self {
            value: self.value.clone(),
            net_read_pending: self.net_read_pending,
            net_write_pending: self.net_write_pending,
        }
    }
}

/// A variable without a value, to be read from the device.
pub open spec fn fresh_slot() -> SlotView {
    SlotView { value: ValueView::Null, read_pending: true, write_pending: false }
}

/// A variable with the value `value`, to be written to the device.
pub open spec fn set_slot(value: ValueView) -> SlotView {
    SlotView { value, read_pending: false, write_pending: true }
}

impl SimpleNetVar {
    /// A variable without a value, to be read from the device.
    pub fn new() -> (nv: Self)
        ensures
            nv@ == fresh_slot(),
    {
        Self { value: Value::Null, net_read_pending: true, net_write_pending: false }
    }

    /// A variable with the value `value`, to be written to the device.
    pub fn from_value(value: Value) -> (nv: Self)
        ensures
            nv@ == set_slot(value@),
    {
        Self { value, net_read_pending: false, net_write_pending: true }
    }

    /// Sets the value on behalf of the user: it is then to be written to the device.
    pub fn user_set(&mut self, value: Value)
        ensures
            final(self)@ == (SlotView { value: value@, write_pending: true, ..old(self)@ }),
    {
        self.value = value;
        self.net_write_pending = true;
    }

    /// The value, for the user.
    pub fn user_get(&self) -> (value: &Value)
        ensures
            value@ == self@.value,
    {
        &self.value
    }

    /// Stores a value that came from the device: nothing is left to read.
    pub fn net_set(&mut self, value: Value)
        ensures
            final(self)@ == (SlotView { value: value@, read_pending: false, ..old(self)@ }),
    {
        self.value = value;
        self.net_read_pending = false;
    }

    /// The value to write to the device.
    pub fn net_get(&self) -> (value: &Value)
        ensures
            value@ == self@.value,
    {
        &self.value
    }

    /// Whether the value is still to be read from the device.
    pub fn is_net_read_pending(&self) -> (pending: bool)
        ensures
            pending == self@.read_pending,
    {
        self.net_read_pending
    }

    /// Whether the value is still to be written to the device.
    pub fn is_net_write_pending(&self) -> (pending: bool)
        ensures
            pending == self@.write_pending,
    {
        self.net_write_pending
    }

    /// Notes that the value needs no writing any more, as after a successful write.
    pub fn clear_net_write_pending(&mut self)
        ensures
            final(self)@ == (SlotView { write_pending: false, ..old(self)@ }),
    {
        self.net_write_pending = false
    }
}

/// The variables of a bag and what each holds, in the order in which they
/// came into it.
pub type BagView = Seq<(Seq<char>, SlotView)>;

/// Where the variable `name` stands in a bag: the last position that holds it.
pub open spec fn slot_position(bag: BagView, name: Seq<char>) -> Option<int>
    decreases bag.len(),
{
    if bag.len() == 0 {
        None
    } else if bag.last().0 == name {
        Some(bag.len() - 1)
    } else {
        slot_position(bag.drop_last(), name)
    }
}

/// What the variable `name` holds in a bag.
pub open spec fn slot(bag: BagView, name: Seq<char>) -> Option<SlotView> {
    match slot_position(bag, name) {
        Some(i) => Some(bag[i].1),
        None => None,
    }
}

/// The bag with `held` for the variable `name`: in the place of what it held
/// before, or at the end where the bag had no such variable.
pub open spec fn with_slot(bag: BagView, name: Seq<char>, held: SlotView) -> BagView {
    match slot_position(bag, name) {
        Some(i) => bag.update(i, (name, held)),
        None => bag.push((name, held)),
    }
}

/// A position found is in range and holds the name; where none is found, no
/// variable of the bag has it.
pub proof fn lemma_slot_position(bag: BagView, name: Seq<char>)
    ensures
        match slot_position(bag, name) {
            Some(i) => 0 <= i < bag.len() && bag[i].0 == name,
            None => forall|i: int| 0 <= i < bag.len() ==> (#[trigger] bag[i]).0 != name,
        },
    decreases bag.len(),
{
    if bag.len() > 0 && bag.last().0 != name {
        lemma_slot_position(bag.drop_last(), name);
        assert forall|i: int| 0 <= i < bag.len() - 1 implies bag[i] == bag.drop_last()[i] by {}
    }
}

/// The names of the variables of a bag, in its order.
pub open spec fn bag_names(bag: BagView) -> Seq<Seq<char>> {
    Seq::new(bag.len(), |i: int| bag[i].0)
}

/// The names of the variables that are still to be read, in the bag's order.
pub open spec fn pending_reads_of(bag: BagView) -> Seq<Seq<char>>
    decreases bag.len(),
{
    if bag.len() == 0 {
        Seq::empty()
    } else if bag.last().1.read_pending {
        pending_reads_of(bag.drop_last()).push(bag.last().0)
    } else {
        pending_reads_of(bag.drop_last())
    }
}

/// The variables that are still to be written, each with its value, in the
/// bag's order.
pub open spec fn pending_writes_of(bag: BagView) -> Seq<(Seq<char>, ValueView)>
    decreases bag.len(),
{
    if bag.len() == 0 {
        Seq::empty()
    } else if bag.last().1.write_pending {
        pending_writes_of(bag.drop_last()).push((bag.last().0, bag.last().1.value))
    } else {
        pending_writes_of(bag.drop_last())
    }
}

/// The names of the variables that are still to be written, in the bag's order.
pub open spec fn write_names(bag: BagView) -> Seq<Seq<char>> {
    Seq::new(pending_writes_of(bag).len(), |i: int| pending_writes_of(bag)[i].0)
}

/// The values of the variables that are still to be written, in the bag's order.
pub open spec fn write_values(bag: BagView) -> Seq<ValueView> {
    Seq::new(pending_writes_of(bag).len(), |i: int| pending_writes_of(bag)[i].1)
}

/// The bag after the device reported `value` for `name`: the variable holds
/// the value and is read. A name outside the catalog or the bag changes nothing.
pub open spec fn read_result(bag: BagView, name: Seq<char>, value: ValueView) -> BagView {
    match (known_name(name), slot_position(bag, name)) {
        (Some(_), Some(i)) => bag.update(
            i,
            (name, SlotView { value, read_pending: false, ..bag[i].1 }),
        ),
        _ => bag,
    }
}

/// The bag after the device confirmed `value` for `name`: the variable holds
/// the value, and nothing of it is left to write or to read. A name outside
/// the catalog or the bag changes nothing.
pub open spec fn write_result(bag: BagView, name: Seq<char>, value: ValueView) -> BagView {
    match (known_name(name), slot_position(bag, name)) {
        (Some(_), Some(i)) => bag.update(
            i,
            (name, SlotView { value, read_pending: false, write_pending: false }),
        ),
        _ => bag,
    }
}

/// The bag after the first `n` pairs of names and values that a status
/// response reported, taken in their order.
pub open spec fn reads_applied(bag: BagView, cols: Seq<String>, dat: Seq<Value>, n: nat) -> BagView
    decreases n,
{
    if n == 0 {
        bag
    } else {
        read_result(
            reads_applied(bag, cols, dat, (n - 1) as nat),
            cols[n - 1]@,
            dat[n - 1]@,
        )
    }
}

/// The bag after the first `n` pairs of names and values that a command
/// response repeated, taken in their order.
pub open spec fn writes_applied(bag: BagView, opt: Seq<String>, p: Seq<Value>, n: nat) -> BagView
    decreases n,
{
    if n == 0 {
        bag
    } else {
        write_result(
            writes_applied(bag, opt, p, (n - 1) as nat),
            opt[n - 1]@,
            p[n - 1]@,
        )
    }
}

/// The smaller of two lengths: as many pairs as two lists make.
pub open spec fn pairs(a: nat, b: nat) -> nat {
    if a <= b {
        a
    } else {
        b
    }
}

/// The bag that holds a fresh variable for each of `names`, or the position
/// of the first name that the catalog does not have.
pub open spec fn bag_of_names(names: Seq<&str>) -> Result<BagView, int>
    decreases names.len(),
{
    if names.len() == 0 {
        Ok(Seq::empty())
    } else {
        match bag_of_names(names.drop_last()) {
            Err(k) => Err(k),
            Ok(bag) => match known_name(names.last()@) {
                Some(_) => Ok(with_slot(bag, names.last()@, fresh_slot())),
                None => Err(names.len() - 1),
            },
        }
    }
}

/// The bag that holds, for each pair of a name and a literal, a variable set
/// to the literal's value; or the position of the first pair whose name the
/// catalog does not have or whose literal the variable does not take.
pub open spec fn bag_of_pairs(nvs: Seq<(&str, &str)>) -> Result<BagView, int>
    decreases nvs.len(),
{
    if nvs.len() == 0 {
        Ok(Seq::empty())
    } else {
        match bag_of_pairs(nvs.drop_last()) {
            Err(k) => Err(k),
            Ok(bag) => match known_name(nvs.last().0@) {
                Some(_) => match parsed_value(nvs.last().0@, nvs.last().1@) {
                    Some(v) => Ok(with_slot(bag, nvs.last().0@, set_slot(v))),
                    None => Err(nvs.len() - 1),
                },
                None => Err(nvs.len() - 1),
            },
        }
    }
}

/// Whether `e` is the error for the pair of `name` and `literal`: the name is
/// refused where the catalog does not have it, else the literal.
pub open spec fn refuses(e: Error, name: Seq<char>, literal: Seq<char>) -> bool {
    if known_name(name) is None {
        e@ == ErrorView::InvalidVar(name)
    } else {
        e@ == ErrorView::InvalidValue(name, literal)
    }
}

/// A failure among the first names is the failure of the whole list.
pub proof fn lemma_bag_of_names_fails(names: Seq<&str>, n: int)
    requires
        0 <= n <= names.len(),
        bag_of_names(names.subrange(0, n)) is Err,
    ensures
        bag_of_names(names) == bag_of_names(names.subrange(0, n)),
    decreases names.len() - n,
{
    if n < names.len() {
        assert(names.subrange(0, n + 1).drop_last() =~= names.subrange(0, n));
        lemma_bag_of_names_fails(names, n + 1);
    } else {
        assert(names.subrange(0, n) =~= names);
    }
}

/// A failure among the first pairs is the failure of the whole list.
pub proof fn lemma_bag_of_pairs_fails(nvs: Seq<(&str, &str)>, n: int)
    requires
        0 <= n <= nvs.len(),
        bag_of_pairs(nvs.subrange(0, n)) is Err,
    ensures
        bag_of_pairs(nvs) == bag_of_pairs(nvs.subrange(0, n)),
    decreases nvs.len() - n,
{
    if n < nvs.len() {
        assert(nvs.subrange(0, n + 1).drop_last() =~= nvs.subrange(0, n));
        lemma_bag_of_pairs_fails(nvs, n + 1);
    } else {
        assert(nvs.subrange(0, n) =~= nvs);
    }
}

/// Whether no two variables of a bag share a name.
pub open spec fn distinct_names(bag: BagView) -> bool {
    forall|i: int, j: int| 0 <= i < j < bag.len() ==> bag[i].0 != bag[j].0
}

/// The variables among `entries` and what each holds.
spec fn entries_view(entries: Seq<(VarName, SimpleNetVar)>) -> BagView {
    Seq::new(entries.len(), |i: int| (entries[i].0@, entries[i].1@))
}

/// A collection of network variables, each under its name. No two of them
/// share a name.
#[derive(Debug, PartialEq, Eq)]
pub struct NetVarBag {
    entries: Vec<(VarName, SimpleNetVar)>,
}

impl View for NetVarBag {
    type V = BagView;

    closed spec fn view(&self) -> BagView {
        entries_view(self.entries@)
    }
}

impl Clone for NetVarBag {
    fn clone(&self) -> (bag: Self)
        ensures
            bag@ == self@,
    {
        proof {
            use_type_invariant(self);
        }
        let mut entries: Vec<(VarName, SimpleNetVar)> = Vec::new();
        let mut i: usize = 0;
        while i < self.entries.len()
            invariant
                i <= self.entries.len(),
                entries@.len() == i,
                forall|j: int|
                    0 <= j < i ==> (#[trigger] entries@[j]).0@ == self.entries@[j].0@
                        && entries@[j].1@ == self.entries@[j].1@,
            decreases self.entries.len() - i,
        {
            entries.push((self.entries[i].0, self.entries[i].1.clone()));
            i += 1;
        }
        assert(entries_view(entries@) =~= self@);
        NetVarBag { entries }
    }
}

impl NetVarBag {
    #[verifier::type_invariant]
    spec fn wf(self) -> bool {
        distinct_names(self@)
    }

    /// A bag without variables.
    pub fn new() -> (bag: Self)
        ensures
            bag@.len() == 0,
    {
        Self { entries: Vec::new() }
    }

    /// The number of variables. No two of them share a name.
    pub fn len(&self) -> (n: usize)
        ensures
            n == self@.len(),
            distinct_names(self@),
    {
        proof {
            use_type_invariant(self);
        }
        self.entries.len()
    }

    /// Where the variable `name` stands among `entries`.
    fn find_in(entries: &Vec<(VarName, SimpleNetVar)>, name: &str) -> (r: Option<usize>)
        ensures
            r matches Some(i) ==> slot_position(entries_view(entries@), name@) == Some(i as int)
                && i < entries@.len(),
            r is None ==> slot_position(entries_view(entries@), name@) is None,
    {
        let ghost bag = entries_view(entries@);
        let mut i: usize = entries.len();
        assert(bag.subrange(0, i as int) =~= bag);
        while i > 0
            invariant
                i <= entries.len(),
                bag == entries_view(entries@),
                slot_position(bag, name@) == slot_position(bag.subrange(0, i as int), name@),
            decreases i,
        {
            let ghost part = bag.subrange(0, i as int);
            assert(part.last() == bag[i - 1]);
            assert(part.drop_last() =~= bag.subrange(0, i - 1));
            if str_eq(entries[i - 1].0, name) {
                return Some(i - 1);
            }
            i -= 1;
        }
        None
    }

    /// Takes the variables out of the bag, which is left empty.
    fn take(&mut self) -> (entries: Vec<(VarName, SimpleNetVar)>)
        ensures
            entries_view(entries@) == old(self)@,
            distinct_names(old(self)@),
            final(self)@.len() == 0,
    {
        proof {
            use_type_invariant(&*self);
        }
        let mut taken = NetVarBag::new();
        core::mem::swap(self, &mut taken);
        taken.entries
    }

    /// The variable `name`, if the bag has it.
    pub fn get(&self, name: &str) -> (r: Option<&SimpleNetVar>)
        ensures
            match r {
                Some(nv) => slot(self@, name@) == Some(nv@),
                None => slot(self@, name@) is None,
            },
    {
        match Self::find_in(&self.entries, name) {
            Some(i) => Some(&self.entries[i].1),
            None => None,
        }
    }

    /// Puts the variable `nv` under `name`, in the place of the one that the
    /// bag held under this name, if any.
    pub fn insert(&mut self, name: VarName, nv: SimpleNetVar)
        ensures
            final(self)@ == with_slot(old(self)@, name@, nv@),
    {
        let mut entries = self.take();
        let ghost before = entries_view(entries@);
        proof {
            lemma_slot_position(before, name@);
        }
        match Self::find_in(&entries, name) {
            Some(i) => {
                entries[i] = (name, nv);
            },
            None => {
                entries.push((name, nv));
            },
        }
        assert(entries_view(entries@) =~= with_slot(before, name@, nv@));
        *self = NetVarBag { entries };
    }
}

impl NetVarBag {
    /// The names of the variables that are still to be read, in the bag's order.
    pub fn pending_reads(&self) -> (names: Vec<VarName>)
        ensures
            strs(names@) == pending_reads_of(self@),
    {
        let mut names: Vec<VarName> = Vec::new();
        let mut i: usize = 0;
        assert(self@.subrange(0, 0) =~= Seq::empty());
        assert(strs(names@) =~= Seq::empty());
        while i < self.entries.len()
            invariant
                i <= self.entries.len(),
                self@.len() == self.entries@.len(),
                strs(names@) == pending_reads_of(self@.subrange(0, i as int)),
            decreases self.entries.len() - i,
        {
            let ghost part = self@.subrange(0, i + 1);
            let ghost had = names@;
            assert(part.drop_last() =~= self@.subrange(0, i as int));
            assert(part.last() == self@[i as int]);
            if self.entries[i].1.is_net_read_pending() {
                names.push(self.entries[i].0);
                assert(strs(names@) =~= strs(had).push(part.last().0));
            }
            i += 1;
        }
        assert(self@.subrange(0, i as int) =~= self@);
        names
    }

    /// The variables that are still to be written, in the bag's order: their
    /// names and, position by position, their values.
    pub fn pending_writes(&self) -> (writes: (Vec<VarName>, Vec<Value>))
        ensures
            strs(writes.0@) == write_names(self@),
            views(writes.1@) == write_values(self@),
    {
        let mut names: Vec<VarName> = Vec::new();
        let mut values: Vec<Value> = Vec::new();
        let mut i: usize = 0;
        assert(self@.subrange(0, 0) =~= Seq::empty());
        assert(strs(names@) =~= Seq::empty());
        assert(views(values@) =~= Seq::empty());
        while i < self.entries.len()
            invariant
                i <= self.entries.len(),
                self@.len() == self.entries@.len(),
                strs(names@) == write_names(self@.subrange(0, i as int)),
                views(values@) == write_values(self@.subrange(0, i as int)),
            decreases self.entries.len() - i,
        {
            let ghost part = self@.subrange(0, i + 1);
            let ghost had = self@.subrange(0, i as int);
            let ghost had_names = names@;
            let ghost had_values = values@;
            assert(part.drop_last() =~= had);
            assert(part.last() == self@[i as int]);
            if self.entries[i].1.is_net_write_pending() {
                let value = self.entries[i].1.net_get().clone();
                names.push(self.entries[i].0);
                values.push(value);
                assert(pending_writes_of(part) == pending_writes_of(had).push(
                    (part.last().0, part.last().1.value),
                ));
                assert(strs(names@) =~= strs(had_names).push(part.last().0));
                assert(views(values@) =~= views(had_values).push(part.last().1.value));
                assert(write_names(part) =~= write_names(had).push(part.last().0));
                assert(write_values(part) =~= write_values(had).push(part.last().1.value));
            }
            i += 1;
        }
        assert(self@.subrange(0, i as int) =~= self@);
        (names, values)
    }

    /// Takes the value that the device reported for `name`: sets it and
    /// clears what was left to read. Says whether the bag had the variable.
    pub fn apply_read_result(&mut self, name: &str, value: Value) -> (applied: bool)
        ensures
            final(self)@ == read_result(old(self)@, name@, value@),
            applied == (known_name(name@) is Some && slot_position(old(self)@, name@) is Some),
            bag_names(final(self)@) == bag_names(old(self)@),
    {
        if name_of(name).is_none() {
            return false;
        }
        let mut entries = self.take();
        let ghost before = entries_view(entries@);
        proof {
            lemma_slot_position(before, name@);
        }
        let applied = match Self::find_in(&entries, name) {
            Some(i) => {
                entries[i].1.net_set(value);
                true
            },
            None => false,
        };
        assert(entries_view(entries@) =~= read_result(before, name@, value@));
        assert(bag_names(entries_view(entries@)) =~= bag_names(before));
        *self = NetVarBag { entries };
        applied
    }

    /// Takes the value that the device confirmed for `name`: sets it and
    /// clears what was left to write. Says whether the bag had the variable.
    pub fn apply_write_result(&mut self, name: &str, value: Value) -> (applied: bool)
        ensures
            final(self)@ == write_result(old(self)@, name@, value@),
            applied == (known_name(name@) is Some && slot_position(old(self)@, name@) is Some),
            bag_names(final(self)@) == bag_names(old(self)@),
    {
        if name_of(name).is_none() {
            return false;
        }
        let mut entries = self.take();
        let ghost before = entries_view(entries@);
        proof {
            lemma_slot_position(before, name@);
        }
        let applied = match Self::find_in(&entries, name) {
            Some(i) => {
                entries[i].1.clear_net_write_pending();
                entries[i].1.net_set(value);
                true
            },
            None => false,
        };
        assert(entries_view(entries@) =~= write_result(before, name@, value@));
        assert(bag_names(entries_view(entries@)) =~= bag_names(before));
        *self = NetVarBag { entries };
        applied
    }

    /// Takes a status response: each value that it reports goes to the
    /// variable that stands at the same position among its names.
    pub fn status_ind(&mut self, pack: &StatusResponsePack)
        ensures
            final(self)@ == reads_applied(
                old(self)@,
                pack.cols@,
                pack.dat@,
                pairs(pack.cols@.len(), pack.dat@.len()),
            ),
            bag_names(final(self)@) == bag_names(old(self)@),
    {
        let n = if pack.cols.len() <= pack.dat.len() {
            pack.cols.len()
        } else {
            pack.dat.len()
        };
        let mut i: usize = 0;
        while i < n
            invariant
                i <= n,
                n == pairs(pack.cols@.len(), pack.dat@.len()),
                self@ == reads_applied(old(self)@, pack.cols@, pack.dat@, i as nat),
                bag_names(self@) == bag_names(old(self)@),
            decreases n - i,
        {
            let value = pack.dat[i].clone();
            self.apply_read_result(pack.cols[i].as_str(), value);
            i += 1;
        }
    }

    /// Takes a command response: each value that it repeats goes to the
    /// variable that stands at the same position among its names.
    pub fn command_ind(&mut self, pack: &CommandResponsePack)
        ensures
            final(self)@ == writes_applied(
                old(self)@,
                pack.opt@,
                pack.p@,
                pairs(pack.opt@.len(), pack.p@.len()),
            ),
            bag_names(final(self)@) == bag_names(old(self)@),
    {
        let n = if pack.opt.len() <= pack.p.len() {
            pack.opt.len()
        } else {
            pack.p.len()
        };
        let mut i: usize = 0;
        while i < n
            invariant
                i <= n,
                n == pairs(pack.opt@.len(), pack.p@.len()),
                self@ == writes_applied(old(self)@, pack.opt@, pack.p@, i as nat),
                bag_names(self@) == bag_names(old(self)@),
            decreases n - i,
        {
            let value = pack.p[i].clone();
            self.apply_write_result(pack.opt[i].as_str(), value);
            i += 1;
        }
    }
}

impl SimpleNetVar {
    /// Adds to `bag` a variable `name` set to the value of `literal`, to be
    /// written to the device.
    pub fn add_nv_to(bag: NetVarBag, nv: (&str, &str)) -> (r: Result<NetVarBag, Error>)
        ensures
            match r {
                Ok(b) => known_name(nv.0@) is Some && (parsed_value(nv.0@, nv.1@) matches Some(v)
                    && b@ == with_slot(bag@, nv.0@, set_slot(v))),
                Err(e) => (known_name(nv.0@) is None || parsed_value(nv.0@, nv.1@) is None)
                    && refuses(e, nv.0@, nv.1@),
            },
    {
        let mut bag = bag;
        let name = match name_of(nv.0) {
            Some(name) => name,
            None => {
                return Err(Error::invalid_var(nv.0));
            },
        };
        let value = match parse_value(name, nv.1) {
            Ok(value) => value,
            Err(e) => {
                return Err(e);
            },
        };
        bag.insert(name, Self::from_value(value));
        Ok(bag)
    }

    /// Adds to `bag` a variable `name` without a value, to be read from the device.
    pub fn add_n_to(bag: NetVarBag, name: &str) -> (r: Result<NetVarBag, Error>)
        ensures
            match r {
                Ok(b) => known_name(name@) is Some && b@ == with_slot(bag@, name@, fresh_slot()),
                Err(e) => known_name(name@) is None && e@ == ErrorView::InvalidVar(name@),
            },
    {
        let mut bag = bag;
        let name = match name_of(name) {
            Some(name) => name,
            None => {
                return Err(Error::invalid_var(name));
            },
        };
        bag.insert(name, Self::new());
        Ok(bag)
    }
}

/// Makes a bag of the variables `names`, ready for reading them from a
/// device. The first name that the catalog does not have is refused as
/// `InvalidVar`.
pub fn net_var_bag_from_names(names: &[&str]) -> (r: Result<NetVarBag, Error>)
    ensures
        match r {
            Ok(bag) => bag_of_names(names@) == Ok::<BagView, int>(bag@),
            Err(e) => bag_of_names(names@) matches Err(k) && 0 <= k < names@.len() && e@
                == ErrorView::InvalidVar(names@[k]@),
        },
{
    let mut bag = NetVarBag::new();
    let mut i: usize = 0;
    assert(names@.subrange(0, 0) =~= Seq::empty());
    assert(bag@ =~= Seq::empty());
    while i < names.len()
        invariant
            i <= names.len(),
            bag_of_names(names@.subrange(0, i as int)) == Ok::<BagView, int>(bag@),
        decreases names.len() - i,
    {
        let ghost part = names@.subrange(0, i + 1);
        assert(part.drop_last() =~= names@.subrange(0, i as int));
        assert(part.last() == names@[i as int]);
        match SimpleNetVar::add_n_to(bag, names[i]) {
            Ok(b) => {
                bag = b;
            },
            Err(e) => {
                proof {
                    lemma_bag_of_names_fails(names@, i + 1);
                }
                return Err(e);
            },
        }
        i += 1;
    }
    assert(names@.subrange(0, i as int) =~= names@);
    Ok(bag)
}

/// Makes a bag of the variables that `nvs` names, each set to the value of
/// its literal, ready for writing them to a device. The first pair whose name
/// the catalog does not have is refused as `InvalidVar`, the first whose
/// literal the variable does not take as `InvalidValue`.
pub fn net_var_bag_from_nvs(nvs: &[(&str, &str)]) -> (r: Result<NetVarBag, Error>)
    ensures
        match r {
            Ok(bag) => bag_of_pairs(nvs@) == Ok::<BagView, int>(bag@),
            Err(e) => bag_of_pairs(nvs@) matches Err(k) && 0 <= k < nvs@.len() && refuses(
                e,
                nvs@[k].0@,
                nvs@[k].1@,
            ),
        },
{
    let mut bag = NetVarBag::new();
    let mut i: usize = 0;
    assert(nvs@.subrange(0, 0) =~= Seq::empty());
    assert(bag@ =~= Seq::empty());
    while i < nvs.len()
        invariant
            i <= nvs.len(),
            bag_of_pairs(nvs@.subrange(0, i as int)) == Ok::<BagView, int>(bag@),
        decreases nvs.len() - i,
    {
        let ghost part = nvs@.subrange(0, i + 1);
        assert(part.drop_last() =~= nvs@.subrange(0, i as int));
        assert(part.last() == nvs@[i as int]);
        match SimpleNetVar::add_nv_to(bag, nvs[i]) {
            Ok(b) => {
                bag = b;
            },
            Err(e) => {
                proof {
                    lemma_bag_of_pairs_fails(nvs@, i + 1);
                }
                return Err(e);
            },
        }
        i += 1;
    }
    assert(nvs@.subrange(0, i as int) =~= nvs@);
    Ok(bag)
}

/// The value of each variable of the bag under its name, for reporting.
pub fn net_var_bag_to_json(b: &NetVarBag) -> (report: Vec<(VarName, Value)>)
    ensures
        report@.len() == b@.len(),
        forall|i: int|
            0 <= i < report@.len() ==> (#[trigger] report@[i]).0@ == b@[i].0 && report@[i].1@
                == b@[i].1.value,
{
    let mut report: Vec<(VarName, Value)> = Vec::new();
    let mut i: usize = 0;
    while i < b.entries.len()
        invariant
            i <= b.entries.len(),
            b@.len() == b.entries@.len(),
            report@.len() == i,
            forall|j: int|
                0 <= j < i ==> (#[trigger] report@[j]).0@ == b@[j].0 && report@[j].1@
                    == b@[j].1.value,
        decreases b.entries.len() - i,
    {
        let value = b.entries[i].1.net_get().clone();
        report.push((b.entries[i].0, value));
        i += 1;
    }
    report
}

/// What to do with a device.
#[derive(Debug, Clone, Copy, PartialEq, Eq, Structural)]
pub enum Op {
    /// Get its key.
    Bind,
    /// Read the variables of a bag that are still to be read.
    NetRead,
    /// Write the variables of a bag that are still to be written.
    NetWrite,
}

} // verus!
