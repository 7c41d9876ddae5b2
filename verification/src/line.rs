//! Model of one general-purpose electrical line.
//!
//! A line is identified by its pad number and is, at any moment, in exactly
//! one electrical configuration: unconfigured (as handed out at boot),
//! sensed input (high impedance, read passively), or driven output
//! (actively asserting a logic level). Each configuration is its own type,
//! so only mode-appropriate operations are available, and every mode switch
//! is an explicit conversion that consumes the old configuration.

use vstd::prelude::*;

verus! {

/// A raw line as handed out by the hardware at boot: identified by its pad
/// number, not yet configured in any electrical mode.
#[derive(Clone, Copy, PartialEq, Eq, Structural, Debug)]
pub struct UnconfiguredLine {
    pub pad: u8,
}

/// A line in sensed-input mode: high impedance, read passively, never driven.
#[derive(Clone, Copy, PartialEq, Eq, Structural, Debug)]
pub struct SensedLine {
    pub pad: u8,
}

/// A line in driven-output mode, actively asserting `level`
/// (`false` = logic low, `true` = logic high).
#[derive(Clone, Copy, PartialEq, Eq, Structural, Debug)]
pub struct DrivenLine {
    pub pad: u8,
    pub level: bool,
}

impl UnconfiguredLine {
    /// Configure the raw line as a high-impedance sensed input.
    pub fn into_sensed(self) -> (r: SensedLine)
        ensures
            r.pad == self.pad,
    {
        SensedLine { pad: self.pad }
    }

    /// Configure the raw line as a driven output asserting `level`.
    pub fn into_driven(self, level: bool) -> (r: DrivenLine)
        ensures
            r.pad == self.pad,
            r.level == level,
    {
        DrivenLine { pad: self.pad, level }
    }
}

impl SensedLine {
    /// Reconfigure to driven-output mode asserting `level`:
    /// exactly one electrical mode change.
    pub fn into_driven(self, level: bool) -> (r: DrivenLine)
        ensures
            r.pad == self.pad,
            r.level == level,
    {
        DrivenLine { pad: self.pad, level }
    }
}

impl DrivenLine {
    /// Reconfigure back to sensed-input (high-impedance) mode:
    /// exactly one electrical mode change.
    pub fn into_sensed(self) -> (r: SensedLine)
        ensures
            r.pad == self.pad,
    {
        SensedLine { pad: self.pad }
    }

    /// Assert a new logic level on the already-driven line.
    pub fn set_level(&mut self, level: bool)
        ensures
            final(self).pad == old(self).pad,
            final(self).level == level,
    {
        self.level = level;
    }
}

} // verus!
