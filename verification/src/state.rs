//! Bus lifecycle states.
use vstd::prelude::*;

verus! {

/// State of a stdio_bus instance.
#[derive(Debug, Clone, Copy, PartialEq, Eq, Structural, Hash)]
pub enum BusState {
    /// Created but not started
    Created,
    /// Workers being spawned
    Starting,
    /// Running and accepting messages
    Running,
    /// Graceful shutdown in progress
    Stopping,
    /// Fully stopped
    Stopped,
}

impl BusState {
    /// The numeric code of a state (0 for `Created` up to 4 for `Stopped`).
    pub open spec fn code(self) -> u8 {
        match self {
            BusState::Created => 0,
            BusState::Starting => 1,
            BusState::Running => 2,
            BusState::Stopping => 3,
            BusState::Stopped => 4,
        }
    }

    /// The upper-case name a state is displayed with.
    pub open spec fn name(self) -> Seq<char> {
        match self {
            BusState::Created => "CREATED"@,
            BusState::Starting => "STARTING"@,
            BusState::Running => "RUNNING"@,
            BusState::Stopping => "STOPPING"@,
            BusState::Stopped => "STOPPED"@,
        }
    }

    /// The bus accepts messages only while running.
    pub open spec fn is_accepting(self) -> bool {
        self == BusState::Running
    }

    /// The bus can be started when freshly created or fully stopped.
    pub open spec fn is_startable(self) -> bool {
        self == BusState::Created || self == BusState::Stopped
    }

    /// The bus can be stopped while starting or running.
    pub open spec fn is_stoppable(self) -> bool {
        self == BusState::Running || self == BusState::Starting
    }

    /// Check if the bus is in a state that accepts messages.
    pub fn accepts_messages(&self) -> (r: bool)
        ensures
            r == self.is_accepting(),
    {
        matches!(self, BusState::Running)
    }

    /// Check if the bus can be started.
    pub fn can_start(&self) -> (r: bool)
        ensures
            r == self.is_startable(),
    {
        matches!(self, BusState::Created | BusState::Stopped)
    }

    /// Check if the bus can be stopped.
    pub fn can_stop(&self) -> (r: bool)
        ensures
            r == self.is_stoppable(),
    {
        matches!(self, BusState::Running | BusState::Starting)
    }

    /// The display form of the state (`CREATED`, `STARTING`, ...).
    pub fn to_string(&self) -> (r: String)
        ensures
            r@ == self.name(),
    {
        match self {
            BusState::Created => "CREATED".to_string(),
            BusState::Starting => "STARTING".to_string(),
            BusState::Running => "RUNNING".to_string(),
            BusState::Stopping => "STOPPING".to_string(),
            BusState::Stopped => "STOPPED".to_string(),
        }
    }
}

/// The state with the given numeric code, if the code names one.
pub open spec fn state_with_code(v: u8) -> Option<BusState> {
    if v == 0 {
        Some(BusState::Created)
    } else if v == 1 {
        Some(BusState::Starting)
    } else if v == 2 {
        Some(BusState::Running)
    } else if v == 3 {
        Some(BusState::Stopping)
    } else if v == 4 {
        Some(BusState::Stopped)
    } else {
        None
    }
}

impl TryFrom<u8> for BusState {
    type Error = ();

    fn try_from(value: u8) -> (r: Result<BusState, ()>) {
        match value {
            0 => Ok(BusState::Created),
            1 => Ok(BusState::Starting),
            2 => Ok(BusState::Running),
            3 => Ok(BusState::Stopping),
            4 => Ok(BusState::Stopped),
            _ => Err(()),
        }
    }
}

impl vstd::std_specs::convert::TryFromSpecImpl<u8> for BusState {
    open spec fn obeys_try_from_spec() -> bool {
        true
    }

    open spec fn try_from_spec(v: u8) -> Result<BusState, ()> {
        match state_with_code(v) {
            Some(s) => Ok(s),
            None => Err(()),
        }
    }
}

/// Every state is recovered from its numeric code, and exactly the codes
/// below five name a state.
pub proof fn lemma_state_code_roundtrip(s: BusState, v: u8)
    ensures
        state_with_code(s.code()) == Some(s),
        state_with_code(v) is Some <==> v < 5,
        state_with_code(v) matches Some(t) ==> t.code() == v,
{
}

/// No state is both startable and stoppable, and a state that accepts
/// messages is one that can be stopped but not started.
pub proof fn lemma_state_predicates(s: BusState)
    ensures
        !(s.is_startable() && s.is_stoppable()),
        s.is_accepting() ==> s.is_stoppable() && !s.is_startable(),
{
}

} // verus!
