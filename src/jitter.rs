//! The jitter-buffer controller that runs in the audio output callback.
//!
//! Each callback asks for a fixed number of bytes. The controller looks at
//! how many bytes the channel holds, decides how many of the oldest to drop
//! so that latency stays small, and copies what is there into the device
//! buffer, leaving any shortfall as silence.
//!
//! With a configured target, the slack beyond one device buffer is cut down
//! to the target at once. Without one, the controller watches the smallest
//! slack over each window of `CALM_WINDOW` callbacks without an underrun,
//! and during the next window drops `1 / SHED_DIVISOR` of that minimum, in
//! samples, at every callback: about a fifth of the minimum per window. An
//! underrun resets all of it.
use crate::ring::{
    consumer_capacity, consumer_channel, dequeued, follows_stream, min_nat, RingConsumer,
    WaitOutcome,
};
use vstd::prelude::*;

verus! {

/// Callbacks without an underrun after which the shedding rate is computed anew.
pub const CALM_WINDOW: usize = 100;

/// The share of the smallest slack that each callback of a window drops.
pub const SHED_DIVISOR: usize = 500;

/// Marks that no slack has been measured since the last reset.
pub const NO_MINIMUM: usize = usize::MAX;

/// Milliseconds that a callback waits at most for the first byte.
pub const CALLBACK_WAIT_MS: u64 = 10;

/// State of the jitter-buffer controller.
#[derive(Clone, Copy, Debug, PartialEq, Eq, Structural)]
pub struct JitterController {
    /// Bytes of slack to keep beyond one device buffer; `None` adapts it.
    pub target_bytes: Option<usize>,
    /// Callbacks without an underrun in the current window.
    pub calm_callbacks: usize,
    /// Smallest slack seen in the current window, in samples, or `NO_MINIMUM`.
    pub min_slack: usize,
    /// Samples to drop at each callback of the current window.
    pub shed_per_callback: usize,
}

/// What the controller decided for one callback, given the occupancy.
#[derive(Clone, Copy, Debug, PartialEq, Eq, Structural)]
pub struct Plan {
    /// Bytes to drop before copying.
    pub skip: usize,
    /// The channel held less than one device buffer.
    pub underrun: bool,
}

/// What one callback did.
#[derive(Clone, Copy, Debug, PartialEq, Eq, Structural)]
pub enum Serviced {
    /// No byte came within the wait: the buffer is all silence.
    Silence,
    /// The producer half is gone: the buffer is all silence and playback
    /// cannot go on.
    Closed,
    /// Bytes were copied.
    Played {
        /// Occupancy seen when deciding.
        occupied: usize,
        /// Bytes dropped.
        skipped: usize,
        /// Bytes copied to the front of the buffer; the rest is silence.
        copied: usize,
        /// The channel held less than one device buffer.
        underrun: bool,
    },
}

/// The slack, in samples, beyond a device buffer of `request` bytes when
/// `occupied` bytes are ready.
pub open spec fn slack_samples(occupied: nat, request: nat) -> nat {
    ((occupied / 2) as int - (request / 2) as int) as nat
}

/// The controller's state after a callback that saw `occupied` bytes ready
/// for a device buffer of `request` bytes.
pub open spec fn next_state(s: JitterController, occupied: nat, request: nat) -> JitterController {
    if occupied < request {
        JitterController {
            target_bytes: s.target_bytes,
            calm_callbacks: 0,
            min_slack: NO_MINIMUM,
            shed_per_callback: 0,
        }
    } else if s.target_bytes is Some {
        s
    } else {
        let calm = s.calm_callbacks + 1;
        let slack = slack_samples(occupied, request);
        let m = if slack < s.min_slack { slack } else { s.min_slack as nat };
        if calm == CALM_WINDOW {
            JitterController {
                target_bytes: None,
                calm_callbacks: 0,
                min_slack: NO_MINIMUM,
                shed_per_callback: (m / SHED_DIVISOR as nat) as usize,
            }
        } else {
            JitterController {
                target_bytes: None,
                calm_callbacks: calm as usize,
                min_slack: m as usize,
                shed_per_callback: s.shed_per_callback,
            }
        }
    }
}

/// Bytes to drop in a callback that saw `occupied` bytes ready for a device
/// buffer of `request` bytes.
pub open spec fn skip_bytes(s: JitterController, occupied: nat, request: nat) -> nat {
    if occupied < request {
        0
    } else if let Some(t) = s.target_bytes {
        if occupied - request > t {
            (occupied - request - t) as nat
        } else {
            0
        }
    } else {
        let slack = slack_samples(occupied, request);
        2 * if s.shed_per_callback < slack { s.shed_per_callback as nat } else { slack }
    }
}

impl JitterController {
    /// The window count stays below its bound.
    pub open spec fn wf(&self) -> bool {
        self.calm_callbacks < CALM_WINDOW
    }

    /// A fresh controller: `Some(bytes)` keeps that much slack, `None` adapts.
    pub fn new(target_bytes: Option<usize>) -> (r: Self)
        ensures
            r.wf(),
            r.target_bytes == target_bytes,
            r.calm_callbacks == 0,
            r.min_slack == NO_MINIMUM,
            r.shed_per_callback == 0,
    {
        JitterController {
            target_bytes,
            calm_callbacks: 0,
            min_slack: NO_MINIMUM,
            shed_per_callback: 0,
        }
    }

    /// Decides one callback: `occupied` bytes are ready and the device asks
    /// for `request` bytes. Updates the state and returns how much to drop.
    pub fn plan(&mut self, occupied: usize, request: usize) -> (r: Plan)
        requires
            old(self).wf(),
        ensures
            final(self).wf(),
            *final(self) == next_state(*old(self), occupied as nat, request as nat),
            r.skip == skip_bytes(*old(self), occupied as nat, request as nat),
            r.underrun == (occupied < request),
            r.skip <= occupied,
    {
        if occupied < request {
            self.calm_callbacks = 0;
            self.min_slack = NO_MINIMUM;
            self.shed_per_callback = 0;
            return Plan { skip: 0, underrun: true };
        }
        let extra = occupied - request;
        match self.target_bytes {
            Some(t) => {
                let skip = if extra > t { extra - t } else { 0 };
                Plan { skip, underrun: false }
            },
            None => {
                self.calm_callbacks = self.calm_callbacks + 1;
                let slack = occupied / 2 - request / 2;
                if slack < self.min_slack {
                    self.min_slack = slack;
                }
                let shed = if self.shed_per_callback < slack {
                    self.shed_per_callback
                } else {
                    slack
                };
                if self.calm_callbacks == CALM_WINDOW {
                    self.calm_callbacks = 0;
                    self.shed_per_callback = self.min_slack / SHED_DIVISOR;
                    self.min_slack = NO_MINIMUM;
                }
                assert(2 * shed <= occupied) by (nonlinear_arith)
                    requires
                        shed <= slack,
                        slack == occupied / 2 - request / 2,
                ;
                Plan { skip: 2 * shed, underrun: false }
            },
        }
    }

    /// Serves one pull of the output device: fills `out` with the next bytes
    /// of the channel, after dropping what the plan says, and with silence
    /// where the channel falls short. Waits at most once, for the first
    /// byte, within the consumer's timeout.
    pub fn service(&mut self, cons: &mut RingConsumer, out: &mut [u8]) -> (r: Serviced)
        requires
            old(self).wf(),
        ensures
            final(self).wf(),
            consumer_capacity(*final(cons)) == consumer_capacity(*old(cons)),
            consumer_channel(*final(cons)) == consumer_channel(*old(cons)),
            follows_stream(dequeued(*old(cons)), consumer_channel(*old(cons))) ==> follows_stream(
                dequeued(*final(cons)),
                consumer_channel(*final(cons)),
            ),
            final(out)@.len() == old(out)@.len(),
            match r {
                Serviced::Played { occupied, skipped, copied, underrun } => {
                    &&& *final(self) == next_state(*old(self), occupied as nat, old(out)@.len())
                    &&& skipped == skip_bytes(*old(self), occupied as nat, old(out)@.len())
                    &&& underrun == (occupied < old(out)@.len())
                    &&& copied <= old(out)@.len()
                    &&& copied >= min_nat(old(out)@.len(), (occupied - skipped) as nat)
                    &&& old(out)@.len() % 2 == 0 && !underrun ==> copied == old(out)@.len()
                    &&& forall|i: int| copied <= i < old(out)@.len() ==> final(out)@[i] == 0
                    &&& dequeued(*final(cons)).len() == dequeued(*old(cons)).len() + skipped
                        + copied
                    &&& dequeued(*final(cons)).subrange(0, dequeued(*old(cons)).len() as int)
                        == dequeued(*old(cons))
                    &&& dequeued(*final(cons)).subrange(
                        dequeued(*old(cons)).len() + skipped,
                        dequeued(*final(cons)).len() as int,
                    ) == final(out)@.subrange(0, copied as int)
                },
                _ => {
                    &&& *final(self) == *old(self)
                    &&& dequeued(*final(cons)) == dequeued(*old(cons))
                    &&& forall|i: int| 0 <= i < old(out)@.len() ==> final(out)@[i] == 0
                },
            },
    {
        let len = out.len();
        let mut i: usize = 0;
        while i < len
            invariant
                len == out@.len(),
                len == old(out)@.len(),
                i <= len,
                forall|j: int| 0 <= j < i ==> out@[j] == 0,
            decreases len - i,
        {
            out[i] = 0;
            i = i + 1;
        }
        let _ = cons.capacity();
        match cons.wait_occupied(1) {
            WaitOutcome::Ready => {},
            WaitOutcome::TimedOut => {
                return Serviced::Silence;
            },
            WaitOutcome::Closed => {
                return Serviced::Closed;
            },
        }
        let occupied = cons.occupied_len();
        let ghost before = *self;
        let ghost taken = dequeued(*cons);
        let plan = self.plan(occupied, len);
        let skipped = cons.skip(plan.skip);
        let ghost after_skip = dequeued(*cons);
        let ghost zeroed = out@;
        let copied = cons.pop_into(out);
        proof {
            if len % 2 == 0 && !plan.underrun {
                lemma_skip_keeps_one_buffer(before, occupied as nat, len as nat);
            }
            assert(dequeued(*cons) == after_skip + out@.subrange(0, copied as int));
            assert(dequeued(*cons).subrange(0, taken.len() as int) =~= after_skip.subrange(
                0,
                taken.len() as int,
            ));
            assert(dequeued(*cons).subrange(taken.len() + skipped, dequeued(*cons).len() as int)
                =~= out@.subrange(0, copied as int));
        }
        assert forall|i: int| copied <= i < len implies out@[i] == 0 by {
            assert(out@[i] == out@.subrange(copied as int, len as int)[i - copied]);
            assert(zeroed[i] == zeroed.subrange(copied as int, len as int)[i - copied]);
        }
        Serviced::Played { occupied, skipped, copied, underrun: plan.underrun }
    }
}

/// Dropping never causes an underrun of its own: when the channel held a
/// full device buffer of whole samples, what remains after the drop still
/// does, in either mode.
pub proof fn lemma_skip_keeps_one_buffer(s: JitterController, occupied: nat, request: nat)
    requires
        occupied >= request,
        request % 2 == 0,
    ensures
        skip_bytes(s, occupied, request) + request <= occupied,
{
    if s.target_bytes is None {
        assert(2 * slack_samples(occupied, request) + request <= occupied) by (nonlinear_arith)
            requires
                occupied >= request,
                request % 2 == 0,
                slack_samples(occupied, request) == ((occupied / 2) as int - (request / 2) as int) as nat,
        ;
    }
}

/// With a target, one callback brings the slack beyond the device buffer
/// down to the target, and drops nothing when the slack is within it.
pub proof fn lemma_target_reached(s: JitterController, occupied: nat, request: nat, t: usize)
    requires
        s.target_bytes == Some(t),
        occupied >= request,
    ensures
        occupied - request <= t ==> skip_bytes(s, occupied, request) == 0,
        occupied - request > t ==> occupied - skip_bytes(s, occupied, request) == request + t,
        next_state(s, occupied, request) == s,
{
}

/// The shedding rate that closes a window is at most the window's smallest
/// slack divided by `SHED_DIVISOR`: over the next window of `CALM_WINDOW`
/// callbacks no more than a fifth of that slack is dropped, so a steady
/// backlog shrinks gradually and is never cut to nothing in one window.
pub proof fn lemma_shed_rate_bounded(s: JitterController, occupied: nat, request: nat)
    requires
        s.target_bytes is None,
        occupied >= request,
        s.calm_callbacks + 1 == CALM_WINDOW,
    ensures
        next_state(s, occupied, request).shed_per_callback * SHED_DIVISOR <= s.min_slack,
        next_state(s, occupied, request).shed_per_callback * SHED_DIVISOR <= slack_samples(
            occupied,
            request,
        ),
        next_state(s, occupied, request).calm_callbacks == 0,
{
}

/// An underrun resets the adaptation: nothing is measured and nothing will
/// be dropped until a window without underruns has passed.
pub proof fn lemma_underrun_resets(s: JitterController, occupied: nat, request: nat)
    requires
        occupied < request,
    ensures
        skip_bytes(s, occupied, request) == 0,
        next_state(s, occupied, request).calm_callbacks == 0,
        next_state(s, occupied, request).min_slack == NO_MINIMUM,
        next_state(s, occupied, request).shed_per_callback == 0,
        next_state(s, occupied, request).target_bytes == s.target_bytes,
{
}

} // verus!
