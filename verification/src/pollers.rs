//! The concrete poller: pace-sample extraction.
//!
//! A poller is an independent, infinite, self-resuming extraction routine.
//! It first runs a *discovery* phase, resolving a fixed pointer chain until
//! the target structure appears ("not found" is tolerated indefinitely and
//! is never an error), then a *sampling* phase on a fixed cadence: read a
//! small "current length" field and, only when that length differs from
//! the last sampled one, read the updated elements and emit a payload
//! event. Any read failure in either phase is the poller's terminal
//! outcome — a poller never returns success.
//!
//! [`PacePoller`] is that routine as a state machine from event to next
//! action; the caller performs the blocking work (chain resolution via
//! [`crate::chain::ChainResolver`], reads, the cadence sleep) and feeds
//! the results back through [`PacePoller::step`]. The specification
//! transition [`spec_step`] pins every step down, and the lemmas at the
//! end state the change-detection gate and the harmlessness of a
//! discovery phase that never resolves.

use vstd::prelude::*;

use crate::chain::wrap_add;
use crate::hdmem::MemError;

verus! {

/// Offset of the pace structure within the target module, the start of
/// the pointer chain.
pub const PACE_ROOT_OFFSET: usize = 0x385790;

/// Offset added to the resolved chain address to reach the pace record.
pub const PACE_RECORD_OFFSET: usize = 0x228;

/// Offset of the "current length" field within the pace record.
pub const PACE_LEN_OFFSET: usize = 0x18;

/// Sampling cadence: one length read roughly every 8.3 ms (~120 Hz).
pub const SAMPLE_PERIOD_MICROS: u64 = 8333;

/// An immutable snapshot handed to the event sink: connection-lifecycle
/// transitions and one payload variant per poller type. Pace samples are
/// carried as the raw bit patterns of the target's 4-byte values; the
/// presentation layer reinterprets them.
#[derive(Debug, Clone, PartialEq)]
pub enum Event {
    FindingGame,
    GameConnected,
    GameDisconnected(MemError),
    Pace(Vec<u32>),
}

/// The pointer chain a pace poller resolves during discovery: the module
/// base, the root offset, then three dereference offsets.
pub open spec fn spec_pace_offsets(base: usize) -> Seq<usize> {
    seq![base, PACE_ROOT_OFFSET, 0usize, 0x78usize, 0xb8usize]
}

/// Builds the pace pointer chain for a module loaded at `base`.
pub fn pace_offsets(base: usize) -> (r: Vec<usize>)
    ensures
        r@ == spec_pace_offsets(base),
{
    let r: Vec<usize> = vec![base, PACE_ROOT_OFFSET, 0, 0x78, 0xb8];
    proof {
        assert(r@ =~= spec_pace_offsets(base));
    }
    r
}

/// Which input the poller is waiting for.
#[derive(Debug, Clone, Copy, PartialEq, Eq, Structural)]
pub enum PaceMode {
    /// Discovery: waiting for the outcome of resolving the pace chain.
    Discover,
    /// Sampling: waiting for the "current length" field.
    AwaitLen,
    /// The length changed to the held value; waiting for the element
    /// array's base pointer.
    AwaitVecLoc(u32),
    /// Waiting for the bulk read of that many elements.
    AwaitData(u32),
    /// Waiting for the cadence sleep to elapse.
    AwaitSleep,
    /// A read failed: the poller has terminated and takes no more steps.
    Failed,
}

/// What the caller must do next on the poller's behalf.
#[derive(Debug, Clone, Copy, PartialEq, Eq, Structural)]
pub enum PaceAction {
    /// Resolve the pace pointer chain (the chain of
    /// [`pace_offsets`]) and report its outcome as [`PaceEvent::Chain`].
    ResolveChain,
    /// Read the 4-byte length field at this address and report it as
    /// [`PaceEvent::Len`].
    ReadLen(usize),
    /// Read a pointer-sized value at this address and report it as
    /// [`PaceEvent::Addr`].
    ReadAddr(usize),
    /// Read `len` 4-byte elements starting at `addr` and report them as
    /// [`PaceEvent::Data`].
    ReadData { addr: usize, len: u32 },
    /// Sleep one sampling period, then report [`PaceEvent::Slept`].
    Sleep,
}

/// The outcome of the work the poller last requested.
#[derive(Debug, Clone, PartialEq)]
pub enum PaceEvent {
    /// The pace chain resolved to this address, or `None` if the
    /// structure is not currently present.
    Chain(Option<usize>),
    /// The value of the length field.
    Len(u32),
    /// The value of the element array's base pointer.
    Addr(usize),
    /// The elements of the bulk read, exactly as many as requested.
    Data(Vec<u32>),
    /// The cadence sleep elapsed.
    Slept,
    /// The requested read (or chain resolution) failed.
    ReadFailed(MemError),
}

/// What one step of the poller produced: either the next action to
/// perform, possibly with an event to emit first, or the poller's
/// terminal failure.
#[derive(Debug, Clone, PartialEq)]
pub enum PaceStep {
    Continue { emit: Option<Event>, action: PaceAction },
    Failed(MemError),
}

/// The pace poller's state: where the record was found, the length of the
/// last sample taken (the change-detection gate), and which input it
/// awaits.
#[derive(Debug, Clone, Copy, PartialEq, Eq, Structural)]
pub struct PacePoller {
    /// The target module's base load address.
    pub base: usize,
    /// Address of the pace record, meaningful once discovery resolved.
    pub pace_addr: usize,
    /// Length of the last sample read, initially zero: a freshly read
    /// length equal to this emits nothing.
    pub last_len: usize,
    /// Which input the poller is waiting for.
    pub mode: PaceMode,
}

/// Whether the poller, in state `s`, accepts `ev` as the response to the
/// action it last requested. A read failure is accepted wherever a read
/// or chain resolution is outstanding; a sleep cannot fail; a terminated
/// poller accepts nothing.
pub open spec fn accepts(s: PacePoller, ev: PaceEvent) -> bool {
    match ev {
        PaceEvent::Chain(_) => s.mode is Discover,
        PaceEvent::Len(_) => s.mode is AwaitLen,
        PaceEvent::Addr(_) => s.mode is AwaitVecLoc,
        PaceEvent::Data(d) => s.mode matches PaceMode::AwaitData(p) && d@.len() == p,
        PaceEvent::Slept => s.mode is AwaitSleep,
        PaceEvent::ReadFailed(_) => !(s.mode is AwaitSleep) && !(s.mode is Failed),
    }
}

/// The poller's transition function: the successor state and output for
/// state `s` on event `ev`. This is the whole sampling routine:
/// discovery retries on "not found"; a resolved chain fixes the record
/// address and starts sampling; an unchanged length goes straight back to
/// sleep; a changed length fetches the array base and then the elements,
/// which are emitted as one payload event; a failed read terminates the
/// poller with that failure.
pub open spec fn spec_step(s: PacePoller, ev: PaceEvent) -> (PacePoller, PaceStep) {
    match ev {
        PaceEvent::Chain(outcome) => match outcome {
            None => (
                s,
                PaceStep::Continue { emit: None, action: PaceAction::ResolveChain },
            ),
            Some(a) => {
                let addr = wrap_add(a, PACE_RECORD_OFFSET);
                (
                    PacePoller { pace_addr: addr, mode: PaceMode::AwaitLen, ..s },
                    PaceStep::Continue {
                        emit: None,
                        action: PaceAction::ReadLen(wrap_add(addr, PACE_LEN_OFFSET)),
                    },
                )
            },
        },
        PaceEvent::Len(l) => if l as usize == s.last_len {
            (
                PacePoller { mode: PaceMode::AwaitSleep, ..s },
                PaceStep::Continue { emit: None, action: PaceAction::Sleep },
            )
        } else {
            (
                PacePoller { mode: PaceMode::AwaitVecLoc(l), ..s },
                PaceStep::Continue { emit: None, action: PaceAction::ReadAddr(s.pace_addr) },
            )
        },
        PaceEvent::Addr(loc) => match s.mode {
            PaceMode::AwaitVecLoc(p) => (
                PacePoller { mode: PaceMode::AwaitData(p), ..s },
                PaceStep::Continue {
                    emit: None,
                    action: PaceAction::ReadData { addr: loc, len: p },
                },
            ),
            // not reachable: `accepts` admits `Addr` only in `AwaitVecLoc`
            _ => (s, PaceStep::Continue { emit: None, action: PaceAction::ResolveChain }),
        },
        PaceEvent::Data(d) => (
            PacePoller { last_len: d@.len() as usize, mode: PaceMode::AwaitSleep, ..s },
            PaceStep::Continue { emit: Some(Event::Pace(d)), action: PaceAction::Sleep },
        ),
        PaceEvent::Slept => (
            PacePoller { mode: PaceMode::AwaitLen, ..s },
            PaceStep::Continue {
                emit: None,
                action: PaceAction::ReadLen(wrap_add(s.pace_addr, PACE_LEN_OFFSET)),
            },
        ),
        PaceEvent::ReadFailed(e) => (
            PacePoller { mode: PaceMode::Failed, ..s },
            PaceStep::Failed(e),
        ),
    }
}

impl PacePoller {
    /// A fresh poller for a module loaded at `base`: in discovery, with
    /// an empty last sample, so a first length of zero emits nothing.
    pub fn new(base: usize) -> (r: Self)
        ensures
            r == (PacePoller {
                base,
                pace_addr: 0usize,
                last_len: 0usize,
                mode: PaceMode::Discover,
            }),
    {
        PacePoller { base, pace_addr: 0, last_len: 0, mode: PaceMode::Discover }
    }

    /// The pointer chain this poller's discovery phase resolves.
    pub fn chain_offsets(&self) -> (r: Vec<usize>)
        ensures
            r@ == spec_pace_offsets(self.base),
    {
        pace_offsets(self.base)
    }

    /// The action the caller must perform first, before any event exists
    /// to feed: resolving the pace chain.
    pub fn first_action(&self) -> (r: PaceAction)
        requires
            self.mode is Discover,
        ensures
            r == PaceAction::ResolveChain,
    {
        PaceAction::ResolveChain
    }

    /// Advances the poller by one event, exactly as [`spec_step`] says.
    pub fn step(&mut self, ev: PaceEvent) -> (r: PaceStep)
        requires
            accepts(*old(self), ev),
        ensures
            (*final(self), r) == spec_step(*old(self), ev),
    {
        match ev {
            PaceEvent::Chain(outcome) => match outcome {
                None => PaceStep::Continue { emit: None, action: PaceAction::ResolveChain },
                Some(a) => {
                    let addr = a.wrapping_add(PACE_RECORD_OFFSET);
                    self.pace_addr = addr;
                    self.mode = PaceMode::AwaitLen;
                    PaceStep::Continue {
                        emit: None,
                        action: PaceAction::ReadLen(addr.wrapping_add(PACE_LEN_OFFSET)),
                    }
                },
            },
            PaceEvent::Len(l) => if l as usize == self.last_len {
                self.mode = PaceMode::AwaitSleep;
                PaceStep::Continue { emit: None, action: PaceAction::Sleep }
            } else {
                self.mode = PaceMode::AwaitVecLoc(l);
                PaceStep::Continue { emit: None, action: PaceAction::ReadAddr(self.pace_addr) }
            },
            PaceEvent::Addr(loc) => {
                let p = match self.mode {
                    PaceMode::AwaitVecLoc(p) => p,
                    _ => 0,
                };
                self.mode = PaceMode::AwaitData(p);
                PaceStep::Continue {
                    emit: None,
                    action: PaceAction::ReadData { addr: loc, len: p },
                }
            },
            PaceEvent::Data(d) => {
                self.last_len = d.len();
                self.mode = PaceMode::AwaitSleep;
                PaceStep::Continue { emit: Some(Event::Pace(d)), action: PaceAction::Sleep }
            },
            PaceEvent::Slept => {
                self.mode = PaceMode::AwaitLen;
                PaceStep::Continue {
                    emit: None,
                    action: PaceAction::ReadLen(self.pace_addr.wrapping_add(PACE_LEN_OFFSET)),
                }
            },
            PaceEvent::ReadFailed(e) => {
                self.mode = PaceMode::Failed;
                PaceStep::Failed(e)
            },
        }
    }
}

/// Change-detection gate: a length read that matches the last sample's
/// length emits nothing and changes nothing but the mode, and after the
/// cadence sleep a second read of the same unchanged length again emits
/// nothing — re-requesting an unchanged value produces zero additional
/// payload events, indefinitely.
pub proof fn lemma_unchanged_length_emits_nothing(s: PacePoller, l: u32)
    requires
        s.mode is AwaitLen,
        l as usize == s.last_len,
    ensures
        ({
            let (s1, out1) = spec_step(s, PaceEvent::Len(l));
            let (s2, out2) = spec_step(s1, PaceEvent::Slept);
            let (s3, out3) = spec_step(s2, PaceEvent::Len(l));
            &&& out1 == PaceStep::Continue { emit: None::<Event>, action: PaceAction::Sleep }
            &&& out3 == PaceStep::Continue { emit: None::<Event>, action: PaceAction::Sleep }
            &&& s1.last_len == s.last_len
            &&& s3 == s1
        }),
{
}

/// A terminated poller is silent: once a read failure has ended it, it
/// accepts no further input, so nothing more can be observed from it.
pub proof fn lemma_terminated_poller_is_silent(s: PacePoller, ev: PaceEvent)
    requires
        s.mode is Failed,
    ensures
        !accepts(s, ev),
{
}

/// A whole run of the poller: the state after feeding `evs` one by one,
/// the payload and other events emitted along the way, and the terminal
/// failure if one occurred (no further events are consumed after it).
pub open spec fn spec_run(s: PacePoller, evs: Seq<PaceEvent>) -> (PacePoller, Seq<Event>, Option<
    MemError,
>)
    decreases evs.len(),
{
    if evs.len() == 0 {
        (s, Seq::empty(), None)
    } else {
        let (s1, out) = spec_step(s, evs[0]);
        match out {
            PaceStep::Failed(e) => (s1, Seq::empty(), Some(e)),
            PaceStep::Continue { emit, action } => {
                let (s2, rest, f) = spec_run(s1, evs.drop_first());
                match emit {
                    None => (s2, rest, f),
                    Some(ev) => (s2, seq![ev] + rest, f),
                }
            },
        }
    }
}

/// Delay between connection attempts: after an attach failure or a
/// disconnection, the loop waits this long before searching again.
pub const RETRY_DELAY_SECS: u64 = 5;

/// Where the connection loop stands.
#[derive(Debug, Clone, Copy, PartialEq, Eq, Structural)]
pub enum ConnPhase {
    /// "Searching" was emitted; an attach attempt is under way.
    AwaitAttach,
    /// Attached; the supervisor is running the pollers.
    Supervising,
    /// Waiting out the fixed retry delay.
    Backoff,
}

/// What the connection loop learns from the outside.
#[derive(Debug, Clone, Copy, PartialEq, Eq, Structural)]
pub enum ConnEvent {
    /// The attach attempt succeeded.
    Attached,
    /// The attach attempt failed: the target is not currently available.
    AttachFailed,
    /// The supervisor ran to completion and reports the first failure.
    SupervisorDone(MemError),
    /// The retry delay elapsed.
    Slept,
}

/// What the connection loop asks its caller to do next.
#[derive(Debug, Clone, Copy, PartialEq, Eq, Structural)]
pub enum ConnAction {
    /// Attempt to attach to the target process and report
    /// [`ConnEvent::Attached`] or [`ConnEvent::AttachFailed`].
    Attach,
    /// Run the supervisor over the registered pollers against the fresh
    /// accessor and report its result as [`ConnEvent::SupervisorDone`].
    RunSupervisor,
    /// Sleep [`RETRY_DELAY_SECS`] seconds and report [`ConnEvent::Slept`].
    Sleep,
}

/// Whether the connection loop, in `phase`, accepts `ev` as the response
/// to the action it last requested.
pub open spec fn conn_accepts(phase: ConnPhase, ev: ConnEvent) -> bool {
    match ev {
        ConnEvent::Attached => phase is AwaitAttach,
        ConnEvent::AttachFailed => phase is AwaitAttach,
        ConnEvent::SupervisorDone(_) => phase is Supervising,
        ConnEvent::Slept => phase is Backoff,
    }
}

/// The connection loop's transition function: a successful attach emits
/// "connected" and hands control to the supervisor; a failed attach
/// emits nothing and backs off; a finished supervisor emits
/// "disconnected" with its reason and backs off; an elapsed delay emits
/// "searching" and attaches again. The loop never terminates of itself.
pub open spec fn spec_conn_step(phase: ConnPhase, ev: ConnEvent) -> (ConnPhase, Option<Event>, ConnAction) {
    match ev {
        ConnEvent::Attached => (
            ConnPhase::Supervising,
            Some(Event::GameConnected),
            ConnAction::RunSupervisor,
        ),
        ConnEvent::AttachFailed => (ConnPhase::Backoff, None, ConnAction::Sleep),
        ConnEvent::SupervisorDone(e) => (
            ConnPhase::Backoff,
            Some(Event::GameDisconnected(e)),
            ConnAction::Sleep,
        ),
        ConnEvent::Slept => (ConnPhase::AwaitAttach, Some(Event::FindingGame), ConnAction::Attach),
    }
}

/// The outer retry driver, as a state machine. [`ConnLoop::start`] emits
/// the first "searching" and requests the first attach; thereafter the
/// caller performs each requested action and feeds the result back
/// through [`ConnLoop::step`], forever. A permanently closed event
/// channel is the caller's concern: it stops driving the loop.
pub struct ConnLoop {
    /// Where the loop stands.
    pub phase: ConnPhase,
}

impl ConnLoop {
    /// Begins the loop: emit "searching" and attempt the first attach.
    pub fn start() -> (r: (ConnLoop, Event, ConnAction))
        ensures
            r.0.phase is AwaitAttach,
            r.1 == Event::FindingGame,
            r.2 == ConnAction::Attach,
    {
        (ConnLoop { phase: ConnPhase::AwaitAttach }, Event::FindingGame, ConnAction::Attach)
    }

    /// Advances the loop by one event, exactly as [`spec_conn_step`]
    /// says.
    pub fn step(&mut self, ev: ConnEvent) -> (r: (Option<Event>, ConnAction))
        requires
            conn_accepts(old(self).phase, ev),
        ensures
            (final(self).phase, r.0, r.1) == spec_conn_step(old(self).phase, ev),
    {
        match ev {
            ConnEvent::Attached => {
                self.phase = ConnPhase::Supervising;
                (Some(Event::GameConnected), ConnAction::RunSupervisor)
            },
            ConnEvent::AttachFailed => {
                self.phase = ConnPhase::Backoff;
                (None, ConnAction::Sleep)
            },
            ConnEvent::SupervisorDone(e) => {
                self.phase = ConnPhase::Backoff;
                (Some(Event::GameDisconnected(e)), ConnAction::Sleep)
            },
            ConnEvent::Slept => {
                self.phase = ConnPhase::AwaitAttach;
                (Some(Event::FindingGame), ConnAction::Attach)
            },
        }
    }
}

/// A failed attach leads from one "searching" straight to the next: the
/// loop emits nothing while backing off, and emits "searching" again
/// when the delay elapses — no "connected" or "disconnected" in
/// between.
pub proof fn lemma_attach_failure_only_retries(phase: ConnPhase)
    requires
        phase is AwaitAttach,
    ensures
        ({
            let (p1, emit1, act1) = spec_conn_step(phase, ConnEvent::AttachFailed);
            let (p2, emit2, act2) = spec_conn_step(p1, ConnEvent::Slept);
            &&& emit1 is None
            &&& act1 == ConnAction::Sleep
            &&& emit2 == Some(Event::FindingGame)
            &&& act2 == ConnAction::Attach
            &&& p2 is AwaitAttach
        }),
{
}

/// A discovery phase that never resolves is harmless: feeding any number
/// of "not found" outcomes to a discovering poller emits no event at
/// all, never fails, and leaves the poller exactly where it was, still
/// retrying.
pub proof fn lemma_discovery_tolerates_absence(s: PacePoller, evs: Seq<PaceEvent>)
    requires
        s.mode is Discover,
        forall|i: int| 0 <= i < evs.len() ==> evs[i] == PaceEvent::Chain(None::<usize>),
    ensures
        spec_run(s, evs).0 == s,
        spec_run(s, evs).1 == Seq::<Event>::empty(),
        spec_run(s, evs).2 is None,
    decreases evs.len(),
{
    if evs.len() > 0 {
        lemma_discovery_tolerates_absence(s, evs.drop_first());
    }
}

} // verus!
