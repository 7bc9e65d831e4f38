//! The lifecycle and bookkeeping that every backend shares: state
//! transitions, traffic counters, the single-owner message receiver and the
//! slot that holds the native bus handle.
use crate::error::Error;
use crate::state::BusState;
use crate::stats::BusStats;
use vstd::prelude::*;

verus! {

/// Numeric code of a state, as stored in an atomic cell.
pub fn state_to_u8(s: BusState) -> (r: u8)
    ensures
        r == s.code(),
{
    match s {
        BusState::Created => 0,
        BusState::Starting => 1,
        BusState::Running => 2,
        BusState::Stopping => 3,
        BusState::Stopped => 4,
    }
}

/// The state stored under a numeric code; an unknown code reads as `Created`.
pub open spec fn state_of_code(v: u8) -> BusState {
    match crate::state::state_with_code(v) {
        Some(s) => s,
        None => BusState::Created,
    }
}

/// State stored under a numeric code; an unknown code reads as `Created`.
pub fn u8_to_state(v: u8) -> (r: BusState)
    ensures
        r == state_of_code(v),
{
    match v {
        0 => BusState::Created,
        1 => BusState::Starting,
        2 => BusState::Running,
        3 => BusState::Stopping,
        4 => BusState::Stopped,
        _ => BusState::Created,
    }
}

/// Storing a state as its code and reading it back gives the same state.
pub proof fn lemma_u8_state_roundtrip(s: BusState)
    ensures
        state_of_code(s.code()) == s,
{
}

/// Holds the address of the native bus handle; zero stands for "no handle".
#[derive(Debug)]
pub struct BusPtr {
    addr: usize,
}

impl View for BusPtr {
    type V = Option<usize>;

    closed spec fn view(&self) -> Option<usize> {
        if self.addr == 0 {
            None
        } else {
            Some(self.addr)
        }
    }
}

impl BusPtr {
    /// An empty slot.
    pub fn new() -> (r: BusPtr)
        ensures
            r@ is None,
    {
        BusPtr { addr: 0 }
    }

    /// Stores a handle address; storing zero empties the slot.
    pub fn set(&mut self, addr: usize)
        ensures
            final(self)@ == (if addr == 0 {
                None
            } else {
                Some(addr)
            }),
    {
        self.addr = addr;
    }

    /// The stored handle address, if any.
    pub fn get(&self) -> (r: Option<usize>)
        ensures
            r == self@,
    {
        if self.addr == 0 {
            None
        } else {
            Some(self.addr)
        }
    }

    /// Removes and returns the stored handle address, leaving the slot empty.
    pub fn take(&mut self) -> (r: Option<usize>)
        ensures
            r == old(self)@,
            final(self)@ is None,
    {
        let r = self.get();
        self.addr = 0;
        r
    }
}

/// What a backend's shared bookkeeping holds.
pub struct BackendCoreView {
    pub state: BusState,
    pub stats: BusStats,
    pub receiver_taken: bool,
}

/// Lifecycle state, traffic counters and receiver ownership of a backend.
pub struct BackendCore {
    state: BusState,
    stats: BusStats,
    receiver_taken: bool,
}

impl View for BackendCore {
    type V = BackendCoreView;

    closed spec fn view(&self) -> BackendCoreView {
        BackendCoreView {
            state: self.state,
            stats: self.stats,
            receiver_taken: self.receiver_taken,
        }
    }
}

/// The bookkeeping with the state replaced.
pub open spec fn with_state(v: BackendCoreView, s: BusState) -> BackendCoreView {
    BackendCoreView { state: s, ..v }
}

/// The bookkeeping once the receiver has been handed out.
pub open spec fn receiver_handed_out(v: BackendCoreView) -> BackendCoreView {
    BackendCoreView { receiver_taken: true, ..v }
}

/// The error a start request gets when the bus is in a state that cannot
/// be started.
pub open spec fn is_not_startable_error(e: Error, current: BusState) -> bool {
    e matches Error::InvalidState { expected, actual } && expected@ == "CREATED or STOPPED"@
        && actual@ == current.name()
}

impl BackendCore {
    /// A freshly created backend: state `Created`, all counters zero, the
    /// receiver not yet handed out.
    pub fn new() -> (r: BackendCore)
        ensures
            r@.state == BusState::Created,
            r@.stats.is_zero(),
            !r@.receiver_taken,
    {
        BackendCore { state: BusState::Created, stats: BusStats::new(), receiver_taken: false }
    }

    /// Current state.
    pub fn state(&self) -> (r: BusState)
        ensures
            r == self@.state,
    {
        self.state
    }

    /// Current counters.
    pub fn stats(&self) -> (r: BusStats)
        ensures
            r == self@.stats,
    {
        self.stats
    }

    /// A start request: from `Created` or `Stopped` the backend moves to
    /// `Starting`; from any other state the request is refused and nothing
    /// changes.
    pub fn begin_start(&mut self) -> (r: Result<(), Error>)
        ensures
            old(self)@.state.is_startable() ==> r is Ok && final(self)@ == with_state(
                old(self)@,
                BusState::Starting,
            ),
            !old(self)@.state.is_startable() ==> final(self)@ == old(self)@ && (r matches Err(e)
                && is_not_startable_error(e, old(self)@.state)),
    {
        if !self.state.can_start() {
            proof {
                reveal_strlit("CREATED or STOPPED");
            }
            return Err(
                Error::InvalidState {
                    expected: "CREATED or STOPPED".to_string(),
                    actual: self.state.to_string(),
                },
            );
        }
        self.state = BusState::Starting;
        Ok(())
    }

    /// The workers are up: the backend is `Running`.
    pub fn finish_start(&mut self)
        ensures
            final(self)@ == with_state(old(self)@, BusState::Running),
    {
        self.state = BusState::Running;
    }

    /// A stop request: the backend moves to `Stopping`, whatever its state.
    pub fn begin_stop(&mut self)
        ensures
            final(self)@ == with_state(old(self)@, BusState::Stopping),
    {
        self.state = BusState::Stopping;
    }

    /// Shutdown is complete: the backend is `Stopped`.
    pub fn finish_stop(&mut self)
        ensures
            final(self)@ == with_state(old(self)@, BusState::Stopped),
    {
        self.state = BusState::Stopped;
    }

    /// Counts a message of `bytes` bytes handed to the workers.
    pub fn record_sent(&mut self, bytes: u64)
        ensures
            final(self)@.state == old(self)@.state,
            final(self)@.receiver_taken == old(self)@.receiver_taken,
            final(self)@.stats == (BusStats {
                messages_in: old(self)@.stats.messages_in.wrapping_add(1),
                bytes_in: old(self)@.stats.bytes_in.wrapping_add(bytes),
                ..old(self)@.stats
            }),
    {
        self.stats.record_sent(bytes);
    }

    /// Counts a message of `bytes` bytes received from the workers.
    pub fn record_received(&mut self, bytes: u64)
        ensures
            final(self)@.state == old(self)@.state,
            final(self)@.receiver_taken == old(self)@.receiver_taken,
            final(self)@.stats == (BusStats {
                messages_out: old(self)@.stats.messages_out.wrapping_add(1),
                bytes_out: old(self)@.stats.bytes_out.wrapping_add(bytes),
                ..old(self)@.stats
            }),
    {
        self.stats.record_received(bytes);
    }

    /// Hands out the message receiver: `true` on the first call only.
    pub fn take_receiver(&mut self) -> (r: bool)
        ensures
            r == !old(self)@.receiver_taken,
            final(self)@ == receiver_handed_out(old(self)@),
    {
        let first = !self.receiver_taken;
        self.receiver_taken = true;
        first
    }
}

/// The receiver is handed out once: after the first hand-out every further
/// request is refused and changes nothing.
pub proof fn lemma_receiver_single_owner(v: BackendCoreView)
    ensures
        receiver_handed_out(v).receiver_taken,
        receiver_handed_out(receiver_handed_out(v)) == receiver_handed_out(v),
{
}

/// A start request accepted from a startable state, followed by a completed
/// start, leaves the bus running: it accepts messages and a second start
/// request would be refused.
pub proof fn lemma_start_then_running(v: BackendCoreView)
    requires
        v.state.is_startable(),
    ensures
        with_state(with_state(v, BusState::Starting), BusState::Running).state.is_accepting(),
        !with_state(with_state(v, BusState::Starting), BusState::Running).state.is_startable(),
        !with_state(v, BusState::Starting).state.is_startable(),
{
}

/// Whatever the state, a completed stop leaves the bus stopped and ready to
/// be started again; counters and receiver ownership are untouched.
pub proof fn lemma_stop_allows_restart(v: BackendCoreView)
    ensures
        with_state(with_state(v, BusState::Stopping), BusState::Stopped).state.is_startable(),
        !with_state(with_state(v, BusState::Stopping), BusState::Stopped).state.is_accepting(),
        with_state(with_state(v, BusState::Stopping), BusState::Stopped).stats == v.stats,
        with_state(with_state(v, BusState::Stopping), BusState::Stopped).receiver_taken
            == v.receiver_taken,
{
}

} // verus!
