//! The bounded retries, the timeouts and the frame limit of the channel, as
//! configuration.

use vstd::prelude::*;

verus! {

/// The longest a secondary may spend waiting between its attempts, all
/// waits together, in milliseconds.
pub const MAX_TOTAL_BACKOFF_MS: u64 = 1000;

/// How often a secondary connects, and how long it waits in between, before
/// it gives up on a paused owner; how often a stale claim is evicted; and
/// the timeouts of the channel.
#[derive(Clone, Copy, Debug, PartialEq, Eq, Structural)]
pub struct ChannelPolicy {
    /// Connection attempts of one handoff, the first included.
    pub handoff_attempts: u8,
    /// Wait between two attempts, in milliseconds.
    pub backoff_ms: u32,
    /// Evictions of a stale claim that one claim may try.
    pub reclaim_attempts: u8,
    /// Longest wait for an owner to answer a connect, in milliseconds.
    pub connect_timeout_ms: u32,
    /// Longest wait for a peer to finish its frame, in milliseconds.
    pub receive_timeout_ms: u32,
    /// Longest body of a frame that is sent or taken, in bytes.
    pub max_body_len: u32,
}

impl ChannelPolicy {
    /// All waits of one handoff together, in milliseconds.
    pub open spec fn total_backoff(self) -> int {
        if self.handoff_attempts == 0 {
            0
        } else {
            (self.handoff_attempts - 1) * self.backoff_ms
        }
    }

    /// A policy is usable when a handoff connects at least once and all its
    /// waits together stay under a second.
    pub open spec fn valid(self) -> bool {
        &&& self.handoff_attempts >= 1
        &&& self.total_backoff() < MAX_TOTAL_BACKOFF_MS
    }

    /// Three attempts 200 ms apart, one eviction of a stale claim, 300 ms to
    /// connect, three seconds to receive a frame, and bodies of one mebibyte
    /// at most.
    pub fn standard() -> (p: ChannelPolicy)
        ensures
            p == (ChannelPolicy {
                handoff_attempts: 3,
                backoff_ms: 200,
                reclaim_attempts: 1,
                connect_timeout_ms: 300,
                receive_timeout_ms: 3000,
                max_body_len: 0x10_0000,
            }),
            p.valid(),
            p.total_backoff() == 400,
    {
        ChannelPolicy {
            handoff_attempts: 3,
            backoff_ms: 200,
            reclaim_attempts: 1,
            connect_timeout_ms: 300,
            receive_timeout_ms: 3000,
            max_body_len: 0x10_0000,
        }
    }

    /// All waits of one handoff together, in milliseconds.
    pub fn total_backoff_ms(&self) -> (ms: u64)
        ensures
            ms == self.total_backoff(),
    {
        if self.handoff_attempts == 0 {
            0
        } else {
            let waits: u64 = (self.handoff_attempts - 1) as u64;
            let each: u64 = self.backoff_ms as u64;
            assert(waits * each <= 255 * 0xffff_ffff) by (nonlinear_arith)
                requires
                    waits <= 255,
                    each <= 0xffff_ffff,
            ;
            waits * each
        }
    }

    /// Whether the policy is usable.
    pub fn is_valid(&self) -> (b: bool)
        ensures
            b == self.valid(),
    {
        self.handoff_attempts >= 1 && self.total_backoff_ms() < MAX_TOTAL_BACKOFF_MS
    }
}

} // verus!
