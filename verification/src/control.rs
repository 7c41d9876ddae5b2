//! The single long-running control loop: the effective program of the
//! firmware.
//!
//! Every iteration has one fixed shape: sample the button and re-assert the
//! commanded lock state (level-driven, not edge-triggered), then drain
//! whatever the serial link delivered into the sentence decoder and hand
//! the completed outcomes to dispatch. The blocking serial fill and the
//! electrical writes belong to the hardware edge; [`ControlLoop::step`]
//! takes their results as plain values and makes every decision of one
//! iteration, so the loop around it only performs and reports.

use vstd::prelude::*;

use crate::decoder::SentenceDecoder;
use crate::decoder::SentenceEvent;
use crate::decoder::SentenceKind;
use crate::decoder::kinds_after;
use crate::decoder::kinds_of;
use crate::lock::Lock;
use crate::lock::LockRequest;
use crate::lock::LockTag;
use crate::lock::tag_after;
use crate::lock::tag_after_ops;

verus! {

/// The lock request that one button sample commands: a pressed button
/// demands the open configuration, a released one the locked
/// configuration.
pub open spec fn request_of(pressed: bool) -> LockRequest {
    if pressed {
        LockRequest::Open
    } else {
        LockRequest::Lock
    }
}

/// The long-lived state that the control loop owns exclusively: the lock
/// actuator and the incremental sentence decoder. Constructed once at
/// startup and passed by exclusive ownership into the loop.
pub struct ControlLoop {
    /// The lock actuator line.
    pub lock: Lock,
    /// The incremental state of the sentence decoder.
    pub decoder: SentenceDecoder,
}

impl ControlLoop {
    /// Assemble the loop state from the resources it is to own.
    pub fn new(lock: Lock, decoder: SentenceDecoder) -> (r: ControlLoop)
        ensures
            r.lock == lock,
            r.decoder == decoder,
    {
        ControlLoop { lock, decoder }
    }

    /// One full iteration of the control loop.
    ///
    /// `pressed` is the button level sampled at the head of the iteration;
    /// `received` is the outcome of the blocking serial fill, `None` when
    /// the peripheral reported an error (the bytes are discarded and the
    /// decoder keeps its accumulation, so a sentence may span the fault
    /// boundary).
    ///
    /// The lock decision always happens before the serial drain, and the
    /// commanded lock state after the iteration is `Open` exactly when the
    /// sample was pressed, whatever the state before: the policy converges
    /// every iteration. The returned outcomes are for dispatch only.
    pub fn step(&mut self, pressed: bool, received: Option<&[u8]>) -> (events: Vec<
        SentenceEvent,
    >)
        ensures
            final(self).lock.tag() == tag_after(old(self).lock.tag(), request_of(pressed)),
            final(self).lock.tag() == LockTag::Open <==> pressed,
            final(self).lock.pad() == old(self).lock.pad(),
            old(self).lock.wf() ==> final(self).lock.wf(),
            final(self).decoder.bytes_fed() == old(self).decoder.bytes_fed() + (match received {
                Some(bytes) => bytes@,
                None => Seq::<u8>::empty(),
            }),
            kinds_of(events@) == (match received {
                Some(bytes) => kinds_after(old(self).decoder.bytes_fed(), bytes@),
                None => Seq::<SentenceKind>::empty(),
            }),
    {
        if pressed {
            self.lock.open();
        } else {
            self.lock.lock();
        }
        match received {
            Some(bytes) => self.decoder.drain(bytes),
            None => {
                proof {
                    assert(self.decoder.bytes_fed() =~= old(self).decoder.bytes_fed()
                        + Seq::<u8>::empty());
                }
                Vec::new()
            },
        }
    }
}

/// Level-driven convergence: for every interleaving of pressed and
/// released samples across iterations, the commanded tag after the run is
/// `Open` exactly when the most recent sample was pressed, wherever the
/// lock started.
pub proof fn lemma_level_driven(t: LockTag, samples: Seq<bool>)
    requires
        samples.len() > 0,
    ensures
        tag_after_ops(t, samples.map_values(|p: bool| request_of(p))) == (if samples.last() {
            LockTag::Open
        } else {
            LockTag::Locked
        }),
{
    let ops = samples.map_values(|p: bool| request_of(p));
    assert(ops.len() == samples.len());
    assert(ops.last() == request_of(samples.last()));
    crate::lock::lemma_lock_sequence(t, ops);
}

} // verus!
