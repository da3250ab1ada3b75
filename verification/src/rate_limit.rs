//! The spacing of requests to a host: no request goes out before a fixed
//! interval has passed since the one before it.

use vstd::prelude::*;

verus! {

/// The pacer of one client. Moments are milliseconds on a clock that never
/// runs backwards; the caller reads the clock and does the waiting.
#[derive(Clone, Copy, Debug)]
pub struct RequestPacer {
    ready_at: u64,
    request_interval: u64,
}

impl RequestPacer {
    /// The moment before which no request may go out.
    pub closed spec fn ready_at(&self) -> u64 {
        self.ready_at
    }

    /// The least time between two requests.
    pub closed spec fn interval(&self) -> u64 {
        self.request_interval
    }

    /// A pacer that lets the first request out at once.
    pub fn new(request_interval: u64) -> (pacer: Self)
        ensures
            pacer.ready_at() == 0,
            pacer.interval() == request_interval,
    {
        Self { ready_at: 0, request_interval }
    }

    /// Claims the next request at the moment `now`: says how long the caller
    /// has to wait before sending it, and holds the request after it back by
    /// the interval from then on.
    pub fn wait_for_turn(&mut self, now: u64) -> (wait: u64)
        ensures
            wait == if now >= old(self).ready_at() {
                0
            } else {
                old(self).ready_at() - now
            },
            now + wait >= old(self).ready_at(),
            final(self).interval() == old(self).interval(),
            final(self).ready_at() == if now + wait + old(self).interval() > u64::MAX {
                u64::MAX
            } else {
                (now + wait + old(self).interval()) as u64
            },
    {
        let wait: u64 = if now >= self.ready_at {
            0
        } else {
            self.ready_at - now
        };
        let sent_at: u64 = now + wait;
        self.ready_at = if sent_at > u64::MAX - self.request_interval {
            u64::MAX
        } else {
            sent_at + self.request_interval
        };
        wait
    }
}

/// Two requests in a row are an interval apart: where the second is claimed
/// no earlier than the first was sent, it is sent no earlier than an interval
/// after the first.
pub proof fn law_requests_are_spaced(
    before: RequestPacer,
    first_now: u64,
    first_wait: u64,
    between: RequestPacer,
    second_now: u64,
    second_wait: u64,
)
    requires
        first_wait == if first_now >= before.ready_at() {
            0
        } else {
            before.ready_at() - first_now
        },
        between.ready_at() == if first_now + first_wait + before.interval() > u64::MAX {
            u64::MAX
        } else {
            (first_now + first_wait + before.interval()) as u64
        },
        second_wait == if second_now >= between.ready_at() {
            0
        } else {
            between.ready_at() - second_now
        },
        first_now + first_wait + before.interval() <= u64::MAX,
    ensures
        second_now + second_wait >= first_now + first_wait + before.interval(),
{
}

} // verus!
