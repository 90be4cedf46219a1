//! The high-level client: it keeps the devices known, scans the network when
//! what it knows is stale, binds devices that have no key yet, and tries
//! once more after a forced scan where an operation fails.
//!
//! The client performs no I/O. It says which step the caller is to take next
//! (a scan or one exchange with a device) and is told how the step ended.

use vstd::prelude::*;
use vstd::string::StringSliceAdditionalSpecFns;
use crate::apdu::{strs, views, BindResponsePack, CommandResponsePack, StatusResponsePack};
use crate::client::{
    bind_exchange, command_exchange, deadline_of, is_key, scan_start, status_exchange, Exchange,
    ExchangeView, GreeClient, ScanRun, ScanRunView,
};
use crate::error::{Error, ErrorView};
use crate::state::{
    bag_names, distinct, last_reply, lookup, pairs, pending_reads_of, reads_applied, resolved,
    write_names, write_values, writes_applied, BagView, Device, GreeConfig, GreeState, NetVarBag,
    Op, ScanReply,
};

verus! {

/// What a run is after.
#[derive(Debug, Clone, Copy, PartialEq, Eq, Structural)]
pub enum Goal {
    /// Fresh knowledge of the network.
    Scan,
    /// A device that is known.
    Device,
    /// An operation on a device.
    Apply(Op),
}

/// What a run consists of.
pub struct RunView {
    /// The friendly name or MAC address of the device.
    pub target: Seq<char>,
    /// What the run is after.
    pub goal: Goal,
    /// Whether the run has failed once and goes on after a forced scan.
    pub retried: bool,
}

/// One run of the client, from a request of the caller to its result.
#[derive(Debug, PartialEq, Eq)]
pub struct Run {
    target: String,
    goal: Goal,
    retried: bool,
}

impl View for Run {
    type V = RunView;

    closed spec fn view(&self) -> RunView {
        RunView { target: self.target@, goal: self.goal, retried: self.retried }
    }
}

impl Run {
    /// The friendly name or MAC address of the device.
    pub fn target(&self) -> (target: &str)
        ensures
            target@ == self@.target,
    {
        self.target.as_str()
    }

    /// What the run is after.
    pub fn goal(&self) -> (goal: Goal)
        ensures
            goal == self@.goal,
    {
        self.goal
    }

    /// Whether the run has failed once and goes on after a forced scan.
    pub fn retried(&self) -> (retried: bool)
        ensures
            retried == self@.retried,
    {
        self.retried
    }
}

/// What an operation needs next from the network.
pub enum CallView {
    Nothing,
    Bind(ExchangeView),
    GetVars(ExchangeView),
    SetVars(ExchangeView),
}

/// What an operation needs next from the network.
#[derive(Debug, PartialEq, Eq)]
pub enum Call {
    /// Nothing: it is done.
    Nothing,
    /// The device's key.
    Bind(Exchange),
    /// The values of variables.
    GetVars(Exchange),
    /// The device's word on the variables written.
    SetVars(Exchange),
}

impl View for Call {
    type V = CallView;

    open spec fn view(&self) -> CallView {
        match self {
            Call::Nothing => CallView::Nothing,
            Call::Bind(ex) => CallView::Bind(ex@),
            Call::GetVars(ex) => CallView::GetVars(ex@),
            Call::SetVars(ex) => CallView::SetVars(ex@),
        }
    }
}

/// The step that the caller takes next in a run.
pub enum StepView {
    Scan(RunView, ScanRunView),
    Bind(RunView, ExchangeView),
    GetVars(RunView, ExchangeView),
    SetVars(RunView, ExchangeView),
    Done(Result<(), ErrorView>),
}

/// The step that the caller takes next in a run.
#[derive(Debug, PartialEq, Eq)]
pub enum Step {
    /// Scan the network, then report to `scanned`.
    Scan(Run, ScanRun),
    /// Make the exchange, read the answer as a bind response, then report to `bound`.
    Bind(Run, Exchange),
    /// Make the exchange, read the answer as a status response, then report to `status`.
    GetVars(Run, Exchange),
    /// Make the exchange, read the answer as a command response, then report to `command`.
    SetVars(Run, Exchange),
    /// The run is over, with this result.
    Done(Result<(), Error>),
}

impl View for Step {
    type V = StepView;

    open spec fn view(&self) -> StepView {
        match self {
            Step::Scan(run, scan) => StepView::Scan(run@, scan@),
            Step::Bind(run, ex) => StepView::Bind(run@, ex@),
            Step::GetVars(run, ex) => StepView::GetVars(run@, ex@),
            Step::SetVars(run, ex) => StepView::SetVars(run@, ex@),
            Step::Done(Ok(_)) => StepView::Done(Ok(())),
            Step::Done(Err(e)) => StepView::Done(Err(e@)),
        }
    }
}

/// The state of the high-level client.
#[derive(Debug, Clone, PartialEq, Eq)]
pub struct GreeInternal {
    /// The low-level client.
    pub c: GreeClient,
    /// The devices known.
    pub s: GreeState,
    /// The configuration.
    pub cfg: GreeConfig,
    /// When the last scan ended, in milliseconds on the caller's clock.
    pub scan_ts: Option<u64>,
}

/// Whether a scan is made at the time `now`: always where none was made yet
/// or the last one is `max_age` old; where it is `min_age` old, if `forced`.
pub open spec fn scan_due(
    scan_ts: Option<u64>,
    min_age: u64,
    max_age: u64,
    now: u64,
    forced: bool,
) -> bool {
    match scan_ts {
        None => true,
        Some(last) => now >= last + max_age || (now >= last + min_age && forced),
    }
}

/// What the operation `op` on the device `dev` with MAC address `mac` needs
/// next: the device's key where it has none; else nothing where the operation
/// is the binding or nothing is pending in the bag; else one exchange for all
/// that is pending. A key that is no key leaves the device unbound.
pub open spec fn next_call(dev: Device, mac: Seq<char>, op: Op, bag: BagView, deadline: u64)
    -> Result<CallView, ErrorView> {
    match dev.key {
        None => match bind_exchange(dev.ip, mac, deadline) {
            Ok(ex) => Ok(CallView::Bind(ex)),
            Err(e) => Err(e),
        },
        Some(key) => match op {
            Op::Bind => Ok(CallView::Nothing),
            Op::NetRead => if pending_reads_of(bag).len() == 0 {
                Ok(CallView::Nothing)
            } else if !is_key(key@) {
                Err(ErrorView::MacNotBound(mac))
            } else {
                match status_exchange(dev.ip, mac, key@, pending_reads_of(bag), deadline) {
                    Ok(ex) => Ok(CallView::GetVars(ex)),
                    Err(e) => Err(e),
                }
            },
            Op::NetWrite => if write_names(bag).len() == 0 {
                Ok(CallView::Nothing)
            } else if !is_key(key@) {
                Err(ErrorView::MacNotBound(mac))
            } else {
                match command_exchange(
                    dev.ip,
                    mac,
                    key@,
                    write_names(bag),
                    write_values(bag),
                    deadline,
                ) {
                    Ok(ex) => Ok(CallView::SetVars(ex)),
                    Err(e) => Err(e),
                }
            },
        },
    }
}

/// What the run for `target` needs next, as far as the client knows the
/// network: the target is rewritten by the aliases and looked up among the
/// devices, and a target that is not there is `NotFound`.
pub open spec fn planned(
    g: &GreeInternal,
    target: Seq<char>,
    goal: Goal,
    bag: BagView,
    now: u64,
) -> Result<CallView, ErrorView> {
    let mac = resolved(g.cfg.aliases@, target);
    match goal {
        Goal::Scan => Ok(CallView::Nothing),
        Goal::Device => match lookup(g.s.devices@, mac) {
            Some(_) => Ok(CallView::Nothing),
            None => Err(ErrorView::NotFound(target)),
        },
        Goal::Apply(op) => match lookup(g.s.devices@, mac) {
            Some(dev) => next_call(dev, mac, op, bag, deadline_of(now, g.c.cfg.recv_timeout)),
            None => Err(ErrorView::NotFound(target)),
        },
    }
}

/// The step that makes the call `call` in the run `run`.
pub open spec fn step_of(run: RunView, call: CallView) -> StepView {
    match call {
        CallView::Nothing => StepView::Done(Ok(())),
        CallView::Bind(ex) => StepView::Bind(run, ex),
        CallView::GetVars(ex) => StepView::GetVars(run, ex),
        CallView::SetVars(ex) => StepView::SetVars(run, ex),
    }
}

/// The step after a failure with `e`. The first failure of a run is not
/// reported: the run goes on with a forced scan, or at once where the last
/// scan is too young for another, and what fails then is the result. The
/// second failure is the result.
pub open spec fn failed(g: &GreeInternal, run: RunView, now: u64, bag: BagView, e: ErrorView)
    -> StepView {
    if run.retried {
        StepView::Done(Err(e))
    } else {
        let again = RunView { retried: true, ..run };
        if scan_due(g.scan_ts, g.cfg.min_scan_age, g.cfg.max_scan_age, now, true) {
            StepView::Scan(again, scan_start(g.c.cfg))
        } else {
            match planned(g, again.target, again.goal, bag, now) {
                Ok(call) => step_of(again, call),
                Err(e2) => StepView::Done(Err(e2)),
            }
        }
    }
}

/// The step of a run that knows the network as it is: what it needs next,
/// or the step after the failure to find that.
pub open spec fn attempted(g: &GreeInternal, run: RunView, now: u64, bag: BagView) -> StepView {
    match planned(g, run.target, run.goal, bag, now) {
        Ok(call) => step_of(run, call),
        Err(e) => failed(g, run, now, bag, e),
    }
}

/// The first step of a run: a scan where one is due, else what the run
/// needs next.
pub open spec fn started(
    g: &GreeInternal,
    target: Seq<char>,
    goal: Goal,
    forced: bool,
    now: u64,
    bag: BagView,
) -> StepView {
    let run = RunView { target, goal, retried: false };
    if scan_due(g.scan_ts, g.cfg.min_scan_age, g.cfg.max_scan_age, now, forced) {
        StepView::Scan(run, scan_start(g.c.cfg))
    } else {
        attempted(g, run, now, bag)
    }
}

/// Whether the client `a` knows and is configured as the client `b`.
pub open spec fn same(a: &GreeInternal, b: &GreeInternal) -> bool {
    a.c == b.c && a.cfg == b.cfg && a.scan_ts == b.scan_ts && a.s.devices@ == b.s.devices@
}

impl GreeInternal {
    /// A client that knows no device and has made no scan.
    pub fn new(cfg: GreeConfig) -> (g: Self)
        ensures
            g.cfg == cfg,
            g.c.cfg == cfg.client_config,
            g.s.devices@.len() == 0,
            g.scan_ts is None,
    {
        Self { c: GreeClient::new(cfg.client_config), s: GreeState::new(), cfg, scan_ts: None }
    }

    /// Whether a scan is made at the time `now`.
    pub fn scan_due(&self, now: u64, forced: bool) -> (due: bool)
        ensures
            due == scan_due(self.scan_ts, self.cfg.min_scan_age, self.cfg.max_scan_age, now, forced),
    {
        match self.scan_ts {
            None => true,
            Some(last) => {
                let old_enough = match last.checked_add(self.cfg.max_scan_age) {
                    Some(t) => now >= t,
                    None => false,
                };
                let allowed = match last.checked_add(self.cfg.min_scan_age) {
                    Some(t) => now >= t,
                    None => false,
                };
                old_enough || (allowed && forced)
            },
        }
    }

    /// The exchange that reads what is pending in the bag, if anything is.
    fn read_call(&self, dev: &Device, key: &str, mac: &str, vars: &NetVarBag, now: u64) -> (r:
        Result<Call, Error>)
        requires
            dev.key matches Some(k) && k@ == key@,
        ensures
            match r {
                Ok(call) => next_call(
                    *dev,
                    mac@,
                    Op::NetRead,
                    vars@,
                    deadline_of(now, self.c.cfg.recv_timeout),
                ) == Ok::<CallView, ErrorView>(
                    call@,
                ),
                Err(e) => next_call(
                    *dev,
                    mac@,
                    Op::NetRead,
                    vars@,
                    deadline_of(now, self.c.cfg.recv_timeout),
                ) == Err::<CallView, ErrorView>(
                    e@,
                ),
            },
    {
        let names = vars.pending_reads();
        if names.len() == 0 {
            Ok(Call::Nothing)
        } else if key.as_bytes().len() != 16 {
            Err(Error::mac_not_bound(mac))
        } else {
            match self.c.getvars(dev.ip, mac, key, names.as_slice(), now) {
                Ok(ex) => Ok(Call::GetVars(ex)),
                Err(e) => Err(e),
            }
        }
    }

    /// The exchange that writes what is pending in the bag, if anything is.
    fn write_call(&self, dev: &Device, key: &str, mac: &str, vars: &NetVarBag, now: u64) -> (r:
        Result<Call, Error>)
        requires
            dev.key matches Some(k) && k@ == key@,
        ensures
            match r {
                Ok(call) => next_call(
                    *dev,
                    mac@,
                    Op::NetWrite,
                    vars@,
                    deadline_of(now, self.c.cfg.recv_timeout),
                ) == Ok::<
                    CallView,
                    ErrorView,
                >(call@),
                Err(e) => next_call(
                    *dev,
                    mac@,
                    Op::NetWrite,
                    vars@,
                    deadline_of(now, self.c.cfg.recv_timeout),
                ) == Err::<CallView, ErrorView>(
                    e@,
                ),
            },
    {
        let (names, values) = vars.pending_writes();
        if names.len() == 0 {
            Ok(Call::Nothing)
        } else if key.as_bytes().len() != 16 {
            Err(Error::mac_not_bound(mac))
        } else {
            match self.c.setvars(dev.ip, mac, key, names.as_slice(), values.as_slice(), now) {
                Ok(ex) => Ok(Call::SetVars(ex)),
                Err(e) => Err(e),
            }
        }
    }

    /// What the operation `op` on the device `dev` needs next.
    fn call(&self, dev: &Device, mac: &str, op: Op, vars: &NetVarBag, now: u64) -> (r: Result<
        Call,
        Error,
    >)
        ensures
            match r {
                Ok(call) => next_call(*dev, mac@, op, vars@, deadline_of(now, self.c.cfg.recv_timeout)) == Ok::<CallView, ErrorView>(call@),
                Err(e) => next_call(*dev, mac@, op, vars@, deadline_of(now, self.c.cfg.recv_timeout)) == Err::<CallView, ErrorView>(e@),
            },
    {
        match &dev.key {
            None => match self.c.bind(dev.ip, mac, now) {
                Ok(ex) => Ok(Call::Bind(ex)),
                Err(e) => Err(e),
            },
            Some(key) => match op {
                Op::Bind => Ok(Call::Nothing),
                Op::NetRead => self.read_call(dev, key.as_str(), mac, vars, now),
                Op::NetWrite => self.write_call(dev, key.as_str(), mac, vars, now),
            },
        }
    }

    /// What the run for `target` needs next.
    fn plan(&self, target: &str, goal: Goal, vars: &NetVarBag, now: u64) -> (r: Result<
        Call,
        Error,
    >)
        ensures
            match r {
                Ok(call) => planned(self, target@, goal, vars@, now) == Ok::<CallView, ErrorView>(
                    call@,
                ),
                Err(e) => planned(self, target@, goal, vars@, now) == Err::<CallView, ErrorView>(e@),
            },
    {
        let mac = self.cfg.resolve(target);
        match goal {
            Goal::Scan => Ok(Call::Nothing),
            Goal::Device => match self.s.get(mac) {
                Ok(_) => Ok(Call::Nothing),
                Err(_) => Err(Error::not_found(target)),
            },
            Goal::Apply(op) => match self.s.get(mac) {
                Ok(dev) => self.call(dev, mac, op, vars, now),
                Err(_) => Err(Error::not_found(target)),
            },
        }
    }

    /// The step that makes the call `call` in the run `run`.
    fn step(run: Run, call: Call) -> (r: Step)
        ensures
            r@ == step_of(run@, call@),
    {
        match call {
            Call::Nothing => Step::Done(Ok(())),
            Call::Bind(ex) => Step::Bind(run, ex),
            Call::GetVars(ex) => Step::GetVars(run, ex),
            Call::SetVars(ex) => Step::SetVars(run, ex),
        }
    }

    /// The step after a failure with `e`.
    fn fail(&self, run: Run, now: u64, vars: &NetVarBag, e: Error) -> (r: Step)
        ensures
            r@ == failed(self, run@, now, vars@, e@),
            run@.retried ==> r == Step::Done(Err(e)),
    {
        if run.retried {
            Step::Done(Err(e))
        } else {
            let again = Run { target: run.target, goal: run.goal, retried: true };
            if self.scan_due(now, true) {
                Step::Scan(again, self.c.scan())
            } else {
                match self.plan(again.target.as_str(), again.goal, vars, now) {
                    Ok(call) => Self::step(again, call),
                    Err(e2) => Step::Done(Err(e2)),
                }
            }
        }
    }

    /// The step of a run that knows the network as it is.
    fn attempt(&self, run: Run, now: u64, vars: &NetVarBag) -> (r: Step)
        ensures
            r@ == attempted(self, run@, now, vars@),
    {
        match self.plan(run.target.as_str(), run.goal, vars, now) {
            Ok(call) => Self::step(run, call),
            Err(e) => self.fail(run, now, vars, e),
        }
    }

    /// Starts a run for `target`: with a scan where one is due at the time
    /// `now`, else with what the goal needs next.
    pub fn begin(&self, target: &str, goal: Goal, forced: bool, now: u64, vars: &NetVarBag) -> (r:
        Step)
        ensures
            r@ == started(self, target@, goal, forced, now, vars@),
    {
        let run = Run { target: target.to_owned(), goal, retried: false };
        if self.scan_due(now, forced) {
            Step::Scan(run, self.c.scan())
        } else {
            self.attempt(run, now, vars)
        }
    }

    /// Starts the operation `op` on `target`; after a failure the run goes
    /// on once, after a forced scan.
    pub fn apply_retrying(&self, target: &str, op: Op, now: u64, vars: &NetVarBag) -> (r: Step)
        ensures
            r@ == started(self, target@, Goal::Apply(op), false, now, vars@),
    {
        self.begin(target, Goal::Apply(op), false, now, vars)
    }

    /// Starts the search for the device `target`; where it is not known the
    /// run goes on once, after a forced scan.
    pub fn with_device_retrying(&self, target: &str, now: u64) -> (r: Step)
        ensures
            r@ == started(self, target@, Goal::Device, false, now, Seq::empty()),
    {
        let vars = NetVarBag::new();
        assert(vars@ =~= Seq::empty());
        self.begin(target, Goal::Device, false, now, &vars)
    }

    /// Takes the end of a scan at the time `now`. A scan that failed ends the
    /// run with its error. The replies of one that succeeded replace the
    /// devices known, none of them bound, and the run goes on.
    pub fn scanned(
        &mut self,
        run: Run,
        now: u64,
        result: Result<Vec<ScanReply>, Error>,
        vars: &NetVarBag,
    ) -> (r: Step)
        ensures
            final(self).c == old(self).c,
            final(self).cfg == old(self).cfg,
            match result {
                Err(e) => same(final(self), old(self)) && r == Step::Done(Err(e)),
                Ok(replies) => final(self).scan_ts == Some(now) && distinct(
                    final(self).s.devices@,
                ) && (forall|mac: Seq<char>| #[trigger]
                    lookup(final(self).s.devices@, mac) == last_reply(replies@, mac)) && r@
                    == attempted(final(self), run@, now, vars@),
            },
    {
        match result {
            Err(e) => Step::Done(Err(e)),
            Ok(replies) => {
                self.scan_ts = Some(now);
                self.s.scan_ind(replies);
                self.attempt(run, now, vars)
            },
        }
    }

    /// Takes the end of a bind exchange. The key of an answer is stored with
    /// the device, and the run goes on; a failed exchange, or a device that
    /// is no longer known, is a failure of the run.
    pub fn bound(
        &mut self,
        run: Run,
        now: u64,
        result: Result<BindResponsePack, Error>,
        vars: &NetVarBag,
    ) -> (r: Step)
        ensures
            final(self).c == old(self).c,
            final(self).cfg == old(self).cfg,
            final(self).scan_ts == old(self).scan_ts,
            match result {
                Err(e) => same(final(self), old(self)) && r@ == failed(
                    final(self),
                    run@,
                    now,
                    vars@,
                    e@,
                ) && (run@.retried ==> r == Step::Done(Err(e))),
                Ok(pack) => {
                    let mac = resolved(old(self).cfg.aliases@, run@.target);
                    match lookup(old(self).s.devices@, mac) {
                        None => same(final(self), old(self)) && r@ == failed(
                            final(self),
                            run@,
                            now,
                            vars@,
                            ErrorView::NotFound(mac),
                        ),
                        Some(d) => lookup(final(self).s.devices@, mac) == Some(
                            Device { key: Some(pack.key), ..d },
                        ) && (forall|other: Seq<char>|
                            other != mac ==> #[trigger] lookup(final(self).s.devices@, other)
                                == lookup(old(self).s.devices@, other)) && r@ == attempted(
                            final(self),
                            run@,
                            now,
                            vars@,
                        ),
                    }
                },
            },
    {
        match result {
            Err(e) => self.fail(run, now, vars, e),
            Ok(pack) => {
                let ghost aliases = self.cfg.aliases@;
                let mac = self.cfg.resolve(run.target.as_str());
                match self.s.record_bind(mac, pack) {
                    Ok(_) => self.attempt(run, now, vars),
                    Err(e) => self.fail(run, now, vars, e),
                }
            },
        }
    }

    /// Takes the end of a status exchange. The values of an answer go into
    /// the bag, and the run is done; a failed exchange is a failure of the run.
    pub fn status(
        &self,
        run: Run,
        now: u64,
        result: Result<StatusResponsePack, Error>,
        vars: &mut NetVarBag,
    ) -> (r: Step)
        ensures
            match result {
                Err(e) => final(vars)@ == old(vars)@ && r@ == failed(
                    self,
                    run@,
                    now,
                    old(vars)@,
                    e@,
                ) && (run@.retried ==> r == Step::Done(Err(e))),
                Ok(pack) => bag_names(final(vars)@) == bag_names(old(vars)@) && final(vars)@
                    == reads_applied(
                    old(vars)@,
                    pack.cols@,
                    pack.dat@,
                    pairs(pack.cols@.len(), pack.dat@.len()),
                ) && r@ == StepView::Done(Ok(())),
            },
    {
        match result {
            Err(e) => self.fail(run, now, vars, e),
            Ok(pack) => {
                vars.status_ind(&pack);
                Step::Done(Ok(()))
            },
        }
    }

    /// Takes the end of a command exchange. The values that an answer
    /// repeats go into the bag, and the run is done; a failed exchange is a
    /// failure of the run.
    pub fn command(
        &self,
        run: Run,
        now: u64,
        result: Result<CommandResponsePack, Error>,
        vars: &mut NetVarBag,
    ) -> (r: Step)
        ensures
            match result {
                Err(e) => final(vars)@ == old(vars)@ && r@ == failed(
                    self,
                    run@,
                    now,
                    old(vars)@,
                    e@,
                ) && (run@.retried ==> r == Step::Done(Err(e))),
                Ok(pack) => bag_names(final(vars)@) == bag_names(old(vars)@) && final(vars)@
                    == writes_applied(
                    old(vars)@,
                    pack.opt@,
                    pack.p@,
                    pairs(pack.opt@.len(), pack.p@.len()),
                ) && r@ == StepView::Done(Ok(())),
            },
    {
        match result {
            Err(e) => self.fail(run, now, vars, e),
            Ok(pack) => {
                vars.command_ind(&pack);
                Step::Done(Ok(()))
            },
        }
    }
}

impl GreeInternal {
    /// Calls `f` with the device `target`, as far as it is known.
    pub fn with_device<R, F: FnOnce(&Device) -> R>(&self, target: &str, f: F) -> (r: Result<
        R,
        Error,
    >)
        requires
            forall|d: &Device| f.requires((d,)),
        ensures
            match r {
                Ok(v) => lookup(self.s.devices@, resolved(self.cfg.aliases@, target@)) matches Some(
                    d,
                ) && f.ensures((&d,), v),
                Err(e) => lookup(self.s.devices@, resolved(self.cfg.aliases@, target@)) is None
                    && e@ == ErrorView::NotFound(target@),
            },
    {
        let mac = self.cfg.resolve(target);
        match self.s.get(mac) {
            Ok(dev) => Ok(f(dev)),
            Err(_) => Err(Error::not_found(target)),
        }
    }
}

/// The high-level client.
///
/// It keeps its knowledge of the network fresh by scanning it again from
/// time to time: always where the last scan is older than the configured
/// `max_scan_age`, never where it is younger than `min_scan_age`, and in
/// between where an operation failed or the caller asks for it.
#[derive(Debug, Clone, PartialEq, Eq)]
pub struct Gree {
    pub g: GreeInternal,
}

impl Gree {
    /// A client with the configuration `cfg`.
    pub fn new(cfg: GreeConfig) -> (gree: Self)
        ensures
            gree.g.cfg == cfg,
            gree.g.c.cfg == cfg.client_config,
            gree.g.s.devices@.len() == 0,
            gree.g.scan_ts is None,
    {
        Self { g: GreeInternal::new(cfg) }
    }

    /// The devices known.
    pub fn state(&self) -> (s: &GreeState)
        ensures
            *s == self.g.s,
    {
        &self.g.s
    }

    /// Starts a run that refreshes the devices known where a scan is due;
    /// when it is done, `state` shows them.
    pub fn with_state(&self, now: u64) -> (r: Step)
        ensures
            r@ == started(&self.g, Seq::empty(), Goal::Scan, false, now, Seq::empty()),
    {
        let vars = NetVarBag::new();
        let target = String::new();
        assert(vars@ =~= Seq::empty());
        self.g.begin(target.as_str(), Goal::Scan, false, now, &vars)
    }

    /// Starts a run that finds the device `target`, with a forced scan where
    /// it is not known; when it is done, the device can be looked at.
    pub fn with_device(&self, target: &str, now: u64) -> (r: Step)
        ensures
            r@ == started(&self.g, target@, Goal::Device, false, now, Seq::empty()),
    {
        self.g.with_device_retrying(target, now)
    }

    /// Starts a run that reads from the device `target` the variables of
    /// `vars` that are still to be read.
    pub fn net_read(&self, target: &str, vars: &NetVarBag, now: u64) -> (r: Step)
        ensures
            r@ == started(&self.g, target@, Goal::Apply(Op::NetRead), false, now, vars@),
    {
        self.g.apply_retrying(target, Op::NetRead, now, vars)
    }

    /// Starts a run that writes to the device `target` the variables of
    /// `vars` that are still to be written; the bag then takes the values
    /// that the device answers.
    pub fn net_write(&self, target: &str, vars: &NetVarBag, now: u64) -> (r: Step)
        ensures
            r@ == started(&self.g, target@, Goal::Apply(Op::NetWrite), false, now, vars@),
    {
        self.g.apply_retrying(target, Op::NetWrite, now, vars)
    }

    /// Starts a run of the operation `op` on the device `target`.
    pub fn execute(&self, target: &str, op: Op, vars: &NetVarBag, now: u64) -> (r: Step)
        ensures
            r@ == started(&self.g, target@, Goal::Apply(op), false, now, vars@),
    {
        self.g.apply_retrying(target, op, now, vars)
    }

    /// Starts a run that scans the network at the caller's wish: the scan is
    /// made unless the last one is younger than `min_scan_age`.
    pub fn scan(&self, now: u64) -> (r: Step)
        ensures
            r@ == started(&self.g, Seq::empty(), Goal::Scan, true, now, Seq::empty()),
    {
        let vars = NetVarBag::new();
        let target = String::new();
        assert(vars@ =~= Seq::empty());
        self.g.begin(target.as_str(), Goal::Scan, true, now, &vars)
    }

    /// Starts a run that binds the device `target`.
    ///
    /// This is rarely needed: every operation binds a device that has no key.
    pub fn bind(&self, target: &str, now: u64) -> (r: Step)
        ensures
            r@ == started(&self.g, target@, Goal::Apply(Op::Bind), false, now, Seq::empty()),
    {
        let vars = NetVarBag::new();
        assert(vars@ =~= Seq::empty());
        self.g.apply_retrying(target, Op::Bind, now, &vars)
    }
}

/// How many steps a run can still take, at most, from `step` on.
pub open spec fn steps_left(step: StepView) -> nat {
    match step {
        StepView::Done(_) => 0,
        StepView::GetVars(run, _) | StepView::SetVars(run, _) => if run.retried {
            1
        } else {
            5
        },
        StepView::Bind(run, _) => if run.retried {
            2
        } else {
            6
        },
        StepView::Scan(run, _) => if run.retried {
            3
        } else {
            7
        },
    }
}

/// A scan that nobody forces is not made before the last one is
/// `max_scan_age` old.
pub proof fn lemma_unforced_scan_waits(last: u64, min_age: u64, max_age: u64, now: u64)
    requires
        now < last + max_age,
    ensures
        !scan_due(Some(last), min_age, max_age, now, false),
{
}

/// While the last scan is younger than `min_scan_age` no scan is made,
/// forced or not, where the configuration is sound: `min_scan_age` is at
/// most `max_scan_age`.
pub proof fn lemma_no_scan_before_min_age(
    last: u64,
    min_age: u64,
    max_age: u64,
    now: u64,
    forced: bool,
)
    requires
        min_age <= max_age,
        now < last + min_age,
    ensures
        !scan_due(Some(last), min_age, max_age, now, forced),
{
}

/// Once the last scan is `max_scan_age` old a scan is made, forced or not.
pub proof fn lemma_scan_after_max_age(
    last: u64,
    min_age: u64,
    max_age: u64,
    now: u64,
    forced: bool,
)
    requires
        now >= last + max_age,
    ensures
        scan_due(Some(last), min_age, max_age, now, forced),
{
}

/// While the last scan is younger than `min_scan_age` no run scans, whatever
/// it is after and whatever fails, where the configuration is sound.
pub proof fn lemma_no_scan_step_before_min_age(
    g: &GreeInternal,
    run: RunView,
    forced: bool,
    now: u64,
    bag: BagView,
    e: ErrorView,
)
    requires
        g.cfg.min_scan_age <= g.cfg.max_scan_age,
        g.scan_ts matches Some(last) && now < last + g.cfg.min_scan_age,
    ensures
        !(started(g, run.target, run.goal, forced, now, bag) is Scan),
        !(attempted(g, run, now, bag) is Scan),
        !(failed(g, run, now, bag, e) is Scan),
{
}

/// Where no scan was made yet, or the last one is `max_scan_age` old, every
/// run starts with a scan.
pub proof fn lemma_scan_step_when_stale(
    g: &GreeInternal,
    target: Seq<char>,
    goal: Goal,
    forced: bool,
    now: u64,
    bag: BagView,
)
    requires
        g.scan_ts matches Some(last) ==> now >= last + g.cfg.max_scan_age,
    ensures
        started(g, target, goal, forced, now, bag) == StepView::Scan(
            RunView { target, goal, retried: false },
            scan_start(g.c.cfg),
        ),
{
}

/// A device that has a key is not bound again: no run on it takes a bind
/// step, and a run that is after the binding alone is done at once, without
/// anything sent.
pub proof fn lemma_bound_device_is_not_bound_again(
    g: &GreeInternal,
    run: RunView,
    now: u64,
    bag: BagView,
)
    requires
        lookup(g.s.devices@, resolved(g.cfg.aliases@, run.target)) matches Some(d) && d.key is Some,
    ensures
        !(planned(g, run.target, run.goal, bag, now) matches Ok(CallView::Bind(_))),
        !(attempted(g, run, now, bag) is Bind),
        run.goal == Goal::Apply(Op::Bind) ==> attempted(g, run, now, bag) == StepView::Done(Ok(())),
{
}

/// The first failure of a run is not its result where a scan can be forced:
/// the run goes on with the scan.
pub proof fn lemma_first_failure_forces_scan(
    g: &GreeInternal,
    run: RunView,
    now: u64,
    bag: BagView,
    e: ErrorView,
)
    requires
        !run.retried,
        scan_due(g.scan_ts, g.cfg.min_scan_age, g.cfg.max_scan_age, now, true),
    ensures
        failed(g, run, now, bag, e) == StepView::Scan(
            RunView { retried: true, ..run },
            scan_start(g.c.cfg),
        ),
{
}

/// The second failure of a run is its result.
pub proof fn lemma_second_failure_is_the_result(
    g: &GreeInternal,
    run: RunView,
    now: u64,
    bag: BagView,
    e: ErrorView,
)
    requires
        run.retried,
    ensures
        failed(g, run, now, bag, e) == StepView::Done(Err(e)),
{
}

/// A device that is still not known after the forced scan is `NotFound`,
/// and that is the result of the run.
pub proof fn lemma_still_absent_is_not_found(
    g: &GreeInternal,
    run: RunView,
    now: u64,
    bag: BagView,
)
    requires
        run.retried,
        run.goal != Goal::Scan,
        lookup(g.s.devices@, resolved(g.cfg.aliases@, run.target)) is None,
    ensures
        attempted(g, run, now, bag) == StepView::Done(Err(ErrorView::NotFound(run.target))),
{
}

/// A device that a scan brought back is not `NotFound`: a run that looks
/// for it is done, and a run that operates on it goes on.
pub proof fn lemma_found_again_goes_on(g: &GreeInternal, run: RunView, now: u64, bag: BagView)
    requires
        lookup(g.s.devices@, resolved(g.cfg.aliases@, run.target)) is Some,
    ensures
        !(attempted(g, run, now, bag) matches StepView::Done(Err(ErrorView::NotFound(_)))),
        run.goal == Goal::Device ==> attempted(g, run, now, bag) == StepView::Done(Ok(())),
{
    reveal(bind_exchange);
    reveal(status_exchange);
    reveal(command_exchange);
}

/// No run goes on for ever: whatever ends a scan, the steps left are fewer
/// than before it.
pub proof fn lemma_scan_step_ends(
    g: &GreeInternal,
    run: RunView,
    scan: ScanRunView,
    now: u64,
    bag: BagView,
)
    ensures
        steps_left(attempted(g, run, now, bag)) < steps_left(StepView::Scan(run, scan)),
{
}

/// No run goes on for ever: after a bind step that gave the device its key,
/// the steps left are fewer than before it.
pub proof fn lemma_bind_step_ends(
    g: &GreeInternal,
    run: RunView,
    ex: ExchangeView,
    now: u64,
    bag: BagView,
)
    requires
        lookup(g.s.devices@, resolved(g.cfg.aliases@, run.target)) matches Some(d) && d.key is Some,
    ensures
        steps_left(attempted(g, run, now, bag)) < steps_left(StepView::Bind(run, ex)),
{
}

/// No run goes on for ever: after the failure of a step, the steps left are
/// fewer than before it.
pub proof fn lemma_failed_step_ends(
    g: &GreeInternal,
    run: RunView,
    now: u64,
    bag: BagView,
    e: ErrorView,
    step: StepView,
)
    requires
        (step matches StepView::Bind(r, _) && r == run) || (step matches StepView::GetVars(r, _)
            && r == run) || (step matches StepView::SetVars(r, _) && r == run),
    ensures
        steps_left(failed(g, run, now, bag, e)) < steps_left(step),
{
}

} // verus!
