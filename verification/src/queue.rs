//! The packet verdict loop, as a state machine.
//!
//! The loop owns the queue handle for one run: `Idle -> Opened -> Running`,
//! then `Stopping` on an observed cancellation or `Faulted` on a queue
//! failure, and `Closed` once the handle is released. The surrounding
//! process performs the blocking reads and hands each outcome in as a
//! [`QueueEvent`]; every decision about it is made here.

use vstd::prelude::*;
use crate::error::AppError;
use crate::ra::{extract_prefixes, spec_ra_prefixes};
use crate::state::{SharedState, add_to_container};

verus! {

/// The phases of one run of the verdict loop.
#[derive(Clone, Copy, PartialEq, Eq, Structural, Debug)]
pub enum LoopPhase {
    /// No queue handle exists yet.
    Idle,
    /// The queue handle is bound; consumption has not started.
    Opened,
    /// Consuming queued packets.
    Running,
    /// A cancellation was observed; consumption has stopped cleanly.
    Stopping,
    /// A queue failure ended consumption.
    Faulted,
    /// The queue handle has been released.
    Closed,
}

/// The verdict returned to the kernel for one queued packet.
#[derive(Clone, Copy, PartialEq, Eq, Structural, Debug)]
pub enum Verdict {
    Accept,
    Drop,
}

/// What one blocking read of the queue produced.
#[derive(Debug)]
pub enum QueueEvent {
    /// A packet arrived; the payload is the raw ICMPv6 message.
    PacketArrived(Vec<u8>),
    /// The queue reported itself closed.
    QueueClosed,
    /// Reading the queue failed; the message carries the cause.
    QueueReadError(String),
}

/// What one step of the loop asks of its driver.
#[derive(Debug)]
pub enum StepOutcome {
    /// Return this verdict for the packet just read, then continue.
    EmitVerdict(Verdict),
    /// Stop driving the loop and hand this result to the supervisor.
    Finished(Result<(), AppError>),
}

/// The verdict loop: nothing but its phase; the queue handle itself stays
/// with the driver that performs the blocking reads.
pub struct VerdictLoop {
    pub phase: LoopPhase,
}

impl VerdictLoop {
    /// A loop that has not opened its queue yet.
    pub fn new() -> (r: VerdictLoop)
        ensures
            r.phase is Idle,
    {
        VerdictLoop { phase: LoopPhase::Idle }
    }

    /// Records that the queue handle was bound.
    pub fn mark_opened(&mut self)
        requires
            old(self).phase is Idle,
        ensures
            final(self).phase is Opened,
    {
        self.phase = LoopPhase::Opened;
    }

    /// Enters the consumption loop.
    pub fn begin_running(&mut self)
        requires
            old(self).phase is Opened,
        ensures
            final(self).phase is Running,
    {
        self.phase = LoopPhase::Running;
    }

    /// Observes the cancellation flag between iterations. A set flag stops
    /// the loop in one step: it moves to `Stopping` and the driver is told
    /// to return success without reading further.
    pub fn poll_cancellation(&mut self, cancelled: bool) -> (stop: bool)
        requires
            old(self).phase is Running,
        ensures
            stop == cancelled,
            cancelled ==> final(self).phase is Stopping,
            !cancelled ==> final(self).phase is Running,
    {
        if cancelled {
            self.phase = LoopPhase::Stopping;
            true
        } else {
            false
        }
    }

    /// Decides one read outcome. A packet — Router Advertisement or not,
    /// well-formed or not — is verdicted `Accept` and its advertised
    /// prefixes are appended to the store; the loop keeps running, so no
    /// packet can fault it. A closed or failing queue faults the loop with
    /// a `QueueProcessError` carrying the cause.
    pub fn handle_event(&mut self, store: &mut SharedState, event: &QueueEvent) -> (r:
        StepOutcome)
        requires
            old(self).phase is Running,
            old(store).wf(),
        ensures
            final(store).interface == old(store).interface,
            final(store).wf(),
            event matches QueueEvent::PacketArrived(p) ==> {
                &&& final(self).phase is Running
                &&& (r matches StepOutcome::EmitVerdict(v) && v is Accept)
                &&& final(store).prefixes@ == old(store).prefixes@ + spec_ra_prefixes(p@)
            },
            event is QueueClosed ==> {
                &&& final(self).phase is Faulted
                &&& (r matches StepOutcome::Finished(out) && out matches Err(e)
                    && e is QueueProcessError)
                &&& final(store).prefixes@ == old(store).prefixes@
            },
            event matches QueueEvent::QueueReadError(m) ==> {
                &&& final(self).phase is Faulted
                &&& (r matches StepOutcome::Finished(out) && out matches Err(e)
                    && e matches AppError::QueueProcessError(cause) && cause@ == m@)
                &&& final(store).prefixes@ == old(store).prefixes@
            },
    {
        match event {
            QueueEvent::PacketArrived(p) => {
                let found = extract_prefixes(p);
                let ghost all = spec_ra_prefixes(p@);
                let m = found.len();
                let mut j: usize = 0;
                while j < m
                    invariant
                        m == found@.len(),
                        j <= m,
                        found@ == all,
                        forall|q: int| 0 <= q < m ==> (#[trigger] found@[q]).wf(),
                        store.prefixes@ == old(store).prefixes@ + all.take(j as int),
                        store.interface == old(store).interface,
                        store.wf(),
                    decreases m - j,
                {
                    let p = found[j];
                    add_to_container(store, p);
                    proof {
                        assert(crate::prefix::spec_canonical(p.addr, p.len) == p);
                        assert(old(store).prefixes@ + all.take(j as int + 1) =~= (old(
                            store,
                        ).prefixes@ + all.take(j as int)).push(p));
                    }
                    j = j + 1;
                }
                proof {
                    assert(all.take(m as int) =~= all);
                }
                StepOutcome::EmitVerdict(Verdict::Accept)
            },
            QueueEvent::QueueClosed => {
                self.phase = LoopPhase::Faulted;
                StepOutcome::Finished(
                    Err(AppError::QueueProcessError("queue reported closed".to_owned())),
                )
            },
            QueueEvent::QueueReadError(m) => {
                self.phase = LoopPhase::Faulted;
                StepOutcome::Finished(Err(AppError::QueueProcessError(m.clone())))
            },
        }
    }

    /// Releases the queue handle on any exit from `Running`: the binding
    /// never outlives the loop, whether it stopped or faulted.
    pub fn close(&mut self)
        requires
            old(self).phase is Stopping || old(self).phase is Faulted,
        ensures
            final(self).phase is Closed,
    {
        self.phase = LoopPhase::Closed;
    }
}

} // verus!
