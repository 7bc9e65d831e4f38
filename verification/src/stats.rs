//! Runtime statistics for stdio_bus.
use vstd::prelude::*;

verus! {

/// Runtime statistics.
#[derive(Debug, Clone, Copy)]
pub struct BusStats {
    /// Messages sent to workers
    pub messages_in: u64,
    /// Messages received from workers
    pub messages_out: u64,
    /// Total bytes sent
    pub bytes_in: u64,
    /// Total bytes received
    pub bytes_out: u64,
    /// Number of worker restarts
    pub worker_restarts: u64,
    /// Messages that couldn't be routed
    pub routing_errors: u64,
    /// Client connections (TCP/Unix modes)
    pub client_connects: u64,
    /// Client disconnections
    pub client_disconnects: u64,
}

impl BusStats {
    /// Every counter is zero.
    pub open spec fn is_zero(self) -> bool {
        &&& self.messages_in == 0
        &&& self.messages_out == 0
        &&& self.bytes_in == 0
        &&& self.bytes_out == 0
        &&& self.worker_restarts == 0
        &&& self.routing_errors == 0
        &&& self.client_connects == 0
        &&& self.client_disconnects == 0
    }

    /// Create new empty stats.
    pub fn new() -> (r: BusStats)
        ensures
            r.is_zero(),
    {
        BusStats {
            messages_in: 0,
            messages_out: 0,
            bytes_in: 0,
            bytes_out: 0,
            worker_restarts: 0,
            routing_errors: 0,
            client_connects: 0,
            client_disconnects: 0,
        }
    }

    /// Reset all counters to zero.
    pub fn reset(&mut self)
        ensures
            final(self).is_zero(),
    {
        *self = BusStats::new();
    }

    /// Counts one message of `bytes` bytes sent to the workers; the counters
    /// wrap around on overflow.
    pub fn record_sent(&mut self, bytes: u64)
        ensures
            *final(self) == (BusStats {
                messages_in: old(self).messages_in.wrapping_add(1),
                bytes_in: old(self).bytes_in.wrapping_add(bytes),
                ..*old(self)
            }),
    {
        self.messages_in = self.messages_in.wrapping_add(1);
        self.bytes_in = self.bytes_in.wrapping_add(bytes);
    }

    /// Counts one message of `bytes` bytes received from the workers; the
    /// counters wrap around on overflow.
    pub fn record_received(&mut self, bytes: u64)
        ensures
            *final(self) == (BusStats {
                messages_out: old(self).messages_out.wrapping_add(1),
                bytes_out: old(self).bytes_out.wrapping_add(bytes),
                ..*old(self)
            }),
    {
        self.messages_out = self.messages_out.wrapping_add(1);
        self.bytes_out = self.bytes_out.wrapping_add(bytes);
    }
}

impl Default for BusStats {
    fn default() -> (r: BusStats)
        ensures
            r.is_zero(),
    {
        BusStats::new()
    }
}

} // verus!
