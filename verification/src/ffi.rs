//! Types and constants of the embedding API of the native stdio_bus
//! library. The functions themselves are foreign and live with the native
//! backend outside this crate.
use vstd::prelude::*;

verus! {

/// API version
pub const STDIO_BUS_EMBED_API_VERSION: i32 = 2;

/// Return codes (from stdio_bus.h)
pub const STDIO_BUS_OK: i32 = 0;
pub const STDIO_BUS_ERR: i32 = -1;
pub const STDIO_BUS_EAGAIN: i32 = -2;
pub const STDIO_BUS_EOF: i32 = -3;
pub const STDIO_BUS_EFULL: i32 = -4;
pub const STDIO_BUS_ENOTFOUND: i32 = -5;
pub const STDIO_BUS_EINVAL: i32 = -6;

/// Error codes (from stdio_bus_embed.h)
pub const STDIO_BUS_ERR_CONFIG: i32 = -10;
pub const STDIO_BUS_ERR_WORKER: i32 = -11;
pub const STDIO_BUS_ERR_ROUTING: i32 = -12;
pub const STDIO_BUS_ERR_BUFFER: i32 = -13;
pub const STDIO_BUS_ERR_INVALID: i32 = -14;
pub const STDIO_BUS_ERR_STATE: i32 = -15;

/// Bus state, as the library reports it.
#[derive(Debug, Clone, Copy, PartialEq, Eq, Structural)]
pub enum stdio_bus_state_t {
    STDIO_BUS_STATE_CREATED,
    STDIO_BUS_STATE_STARTING,
    STDIO_BUS_STATE_RUNNING,
    STDIO_BUS_STATE_STOPPING,
    STDIO_BUS_STATE_STOPPED,
}

impl stdio_bus_state_t {
    /// The C value of a state (0 to 4).
    pub open spec fn value(self) -> int {
        match self {
            stdio_bus_state_t::STDIO_BUS_STATE_CREATED => 0,
            stdio_bus_state_t::STDIO_BUS_STATE_STARTING => 1,
            stdio_bus_state_t::STDIO_BUS_STATE_RUNNING => 2,
            stdio_bus_state_t::STDIO_BUS_STATE_STOPPING => 3,
            stdio_bus_state_t::STDIO_BUS_STATE_STOPPED => 4,
        }
    }

    /// The C value of this state.
    pub fn as_i32(&self) -> (r: i32)
        ensures
            r == self.value(),
    {
        match self {
            stdio_bus_state_t::STDIO_BUS_STATE_CREATED => 0,
            stdio_bus_state_t::STDIO_BUS_STATE_STARTING => 1,
            stdio_bus_state_t::STDIO_BUS_STATE_RUNNING => 2,
            stdio_bus_state_t::STDIO_BUS_STATE_STOPPING => 3,
            stdio_bus_state_t::STDIO_BUS_STATE_STOPPED => 4,
        }
    }
}

/// Listen mode
#[derive(Debug, Clone, Copy, PartialEq, Eq, Structural)]
pub enum stdio_bus_listen_mode_t {
    STDIO_BUS_LISTEN_NONE,
    STDIO_BUS_LISTEN_TCP,
    STDIO_BUS_LISTEN_UNIX,
}

impl stdio_bus_listen_mode_t {
    /// The C value of a mode (0 to 2).
    pub open spec fn value(self) -> int {
        match self {
            stdio_bus_listen_mode_t::STDIO_BUS_LISTEN_NONE => 0,
            stdio_bus_listen_mode_t::STDIO_BUS_LISTEN_TCP => 1,
            stdio_bus_listen_mode_t::STDIO_BUS_LISTEN_UNIX => 2,
        }
    }

    /// The C value of this mode.
    pub fn as_i32(&self) -> (r: i32)
        ensures
            r == self.value(),
    {
        match self {
            stdio_bus_listen_mode_t::STDIO_BUS_LISTEN_NONE => 0,
            stdio_bus_listen_mode_t::STDIO_BUS_LISTEN_TCP => 1,
            stdio_bus_listen_mode_t::STDIO_BUS_LISTEN_UNIX => 2,
        }
    }
}

/// Opaque bus handle
pub struct stdio_bus_t {
    _private: [u8; 0],
}

/// Statistics, as the library reports them.
#[derive(Debug, Clone, Default)]
pub struct stdio_bus_stats_t {
    pub messages_in: u64,
    pub messages_out: u64,
    pub bytes_in: u64,
    pub bytes_out: u64,
    pub worker_restarts: u64,
    pub routing_errors: u64,
    pub client_connects: u64,
    pub client_disconnects: u64,
}

} // verus!
