//! The typestate lock controller.
//!
//! A `Lock` owns one electrical line and is, at any moment, in exactly one
//! of two mutually exclusive configurations: `Locked` (the line is a
//! high-impedance sensed input) and `Open` (the line is a driven output,
//! held at the "open" logic level, which is logic low). The capability set
//! available through each variant is exactly the capability set valid for
//! that electrical mode, so an input-only operation can never reach a line
//! configured as output, or vice versa.

use vstd::prelude::*;

use crate::line::DrivenLine;
use crate::line::SensedLine;
use crate::line::UnconfiguredLine;

verus! {

/// The variant tag of a `Lock`, as an abstract state-machine state.
#[derive(Clone, Copy, PartialEq, Eq, Structural, Debug)]
pub enum LockTag {
    /// The line is a high-impedance sensed input.
    Locked,
    /// The line is a driven output held at the "open" level.
    Open,
}

/// A request made to the lock controller on one control-loop iteration.
#[derive(Clone, Copy, PartialEq, Eq, Structural, Debug)]
pub enum LockRequest {
    /// Demand the driven-output ("open") configuration.
    Open,
    /// Demand the sensed-input ("locked") configuration.
    Lock,
}

/// The physical state of one actuator line: a tagged union over exactly two
/// variants, each owning the single line resource in the electrical mode
/// that its tag names.
#[derive(Clone, Copy, PartialEq, Eq, Structural, Debug)]
pub enum Lock {
    /// Line configured as high-impedance sensed input.
    Locked(SensedLine),
    /// Line configured as driven output, asserting the "open" level.
    Open(DrivenLine),
}

/// The logic level a `Lock` drives while open: logic low.
pub open spec fn open_level() -> bool {
    false
}

/// The tag that one request drives the lock to, regardless of the tag it
/// held before: the lock is level-driven, not edge-triggered.
pub open spec fn tag_after(t: LockTag, req: LockRequest) -> LockTag {
    match req {
        LockRequest::Open => LockTag::Open,
        LockRequest::Lock => LockTag::Locked,
    }
}

/// The tag reached from `t` by a whole sequence of requests, applied in order.
pub open spec fn tag_after_ops(t: LockTag, ops: Seq<LockRequest>) -> LockTag
    decreases ops.len(),
{
    if ops.len() == 0 {
        t
    } else {
        tag_after_ops(tag_after(t, ops[0]), ops.drop_first())
    }
}

impl Lock {
    /// The variant tag.
    pub open spec fn tag(self) -> LockTag {
        match self {
            Lock::Locked(_) => LockTag::Locked,
            Lock::Open(_) => LockTag::Open,
        }
    }

    /// The pad number of the one line this lock owns, whatever its mode.
    pub open spec fn pad(self) -> u8 {
        match self {
            Lock::Locked(line) => line.pad,
            Lock::Open(line) => line.pad,
        }
    }

    /// The line is in sensed-input (high-impedance) mode.
    pub open spec fn is_sensed_input(self) -> bool {
        self is Locked
    }

    /// The line is in driven-output mode.
    pub open spec fn is_driven_output(self) -> bool {
        self is Open
    }

    /// Well-formedness: whenever the lock is `Open`, the driven line holds
    /// the "open" logic level. `new` establishes this and every transition
    /// preserves it.
    pub open spec fn wf(self) -> bool {
        match self {
            Lock::Locked(_) => true,
            Lock::Open(line) => line.level == open_level(),
        }
    }

    /// Create the lock at boot from a raw, unconfigured line: it starts in
    /// the `Locked` variant, with the line configured as sensed input.
    pub fn new(line: UnconfiguredLine) -> (r: Lock)
        ensures
            r.tag() == LockTag::Locked,
            r.pad() == line.pad,
            r.wf(),
    {
        Lock::Locked(line.into_sensed())
    }

    /// Drive the lock open. If currently `Locked`, this reconfigures the
    /// line to driven-output mode asserting the "open" level (exactly one
    /// electrical mode change); if already `Open`, it is a no-op. Idempotent.
    pub fn open(&mut self)
        ensures
            final(self).tag() == tag_after(old(self).tag(), LockRequest::Open),
            ((*final(self)) matches Lock::Open(line) && line.pad == old(self).pad()),
            *old(self) is Locked ==> ((*final(self)) matches Lock::Open(line)
                && line.level == open_level()),
            old(self).wf() ==> final(self).wf(),
            *old(self) is Open ==> *final(self) == *old(self),
    {
        match *self {
            Lock::Locked(line) => {
                *self = Lock::Open(line.into_driven(false));
            },
            Lock::Open(_) => {},
        }
    }

    /// Drive the lock closed. If currently `Open`, this reconfigures the
    /// line back to sensed-input (high-impedance) mode (exactly one
    /// electrical mode change); if already `Locked`, it is a no-op.
    /// Idempotent.
    pub fn lock(&mut self)
        ensures
            final(self).tag() == tag_after(old(self).tag(), LockRequest::Lock),
            ((*final(self)) matches Lock::Locked(line) && line.pad == old(self).pad()),
            final(self).wf(),
            *old(self) is Locked ==> *final(self) == *old(self),
    {
        match *self {
            Lock::Open(line) => {
                *self = Lock::Locked(line.into_sensed());
            },
            Lock::Locked(_) => {},
        }
    }

    /// The variant tag, observable at run time.
    pub fn current_tag(&self) -> (t: LockTag)
        ensures
            t == self.tag(),
    {
        match self {
            Lock::Locked(_) => LockTag::Locked,
            Lock::Open(_) => LockTag::Open,
        }
    }

    /// The lock is in the driven-output ("open") configuration.
    pub fn is_open(&self) -> (r: bool)
        ensures
            r == self.is_driven_output(),
    {
        match self {
            Lock::Open(_) => true,
            Lock::Locked(_) => false,
        }
    }

    /// The lock is in the sensed-input ("locked") configuration.
    pub fn is_locked(&self) -> (r: bool)
        ensures
            r == self.is_sensed_input(),
    {
        match self {
            Lock::Locked(_) => true,
            Lock::Open(_) => false,
        }
    }
}

/// A `Lock` never reports being in both sensed-input and driven-output mode
/// at once: whatever the value, exactly one of the two holds.
pub proof fn lemma_mode_mutual_exclusion(l: Lock)
    ensures
        l.is_sensed_input() <==> !l.is_driven_output(),
{
}

/// Treating a sequence of requests as a state machine in which an open
/// request leads to `Open`, a lock request leads to `Locked`, and repeated
/// identical requests are no-ops, the tag after a non-empty sequence is
/// decided by its last request alone.
pub proof fn lemma_lock_sequence(t: LockTag, ops: Seq<LockRequest>)
    requires
        ops.len() > 0,
    ensures
        tag_after_ops(t, ops) == tag_after(t, ops.last()),
    decreases ops.len(),
{
    if ops.len() == 1 {
        assert(ops.drop_first().len() == 0);
    } else {
        lemma_lock_sequence(tag_after(t, ops[0]), ops.drop_first());
        assert(ops.drop_first().last() == ops.last());
    }
}

/// Idempotence: repeating the final request of a sequence leaves the tag
/// unchanged.
pub proof fn lemma_lock_idempotent(t: LockTag, ops: Seq<LockRequest>, req: LockRequest)
    ensures
        tag_after_ops(t, ops.push(req).push(req)) == tag_after_ops(t, ops.push(req)),
{
    lemma_lock_sequence(t, ops.push(req).push(req));
    lemma_lock_sequence(t, ops.push(req));
}

} // verus!
