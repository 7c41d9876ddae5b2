//! Leaf types for the board's human-visible peripherals: LEDs and buttons.
//!
//! Both are modelled over the line types of [`crate::line`]. An LED owns a
//! driven-output line with an inverted "enable" convention (logic low =
//! illuminated). A `Button` value carries the logic level sampled from one
//! externally-debounced, pulled-up input line on one control-loop
//! iteration; it is immutable after construction and only queried.

use vstd::prelude::*;

use crate::line::DrivenLine;
use crate::line::SensedLine;
use crate::line::UnconfiguredLine;

verus! {

/// A digital output line driving one LED. Enable is inverted: the LED is
/// illuminated while the line asserts logic low.
#[derive(Clone, Copy, PartialEq, Eq, Structural, Debug)]
pub struct Led {
    /// The driven-output line the LED is wired to.
    pub line: DrivenLine,
}

impl Led {
    /// The LED is illuminated: its line asserts logic low.
    pub open spec fn is_lit(self) -> bool {
        !self.line.level
    }

    /// Configure a raw line to drive an LED. The line starts at logic high,
    /// so the LED starts dark.
    pub fn new(line: UnconfiguredLine) -> (r: Led)
        ensures
            r.line.pad == line.pad,
            !r.is_lit(),
    {
        Led { line: line.into_driven(true) }
    }

    /// Enable (illuminate) the LED: assert logic low.
    pub fn enable(&mut self)
        ensures
            final(self).is_lit(),
            final(self).line.pad == old(self).line.pad,
    {
        self.line.set_level(false);
    }

    /// Disable (darken) the LED: assert logic high.
    pub fn disable(&mut self)
        ensures
            !final(self).is_lit(),
            final(self).line.pad == old(self).line.pad,
    {
        self.line.set_level(true);
    }
}

/// The LEDs of the board assembly, owned exclusively by it.
#[derive(Clone, Copy, PartialEq, Eq, Structural, Debug)]
pub struct Leds {
    /// The standalone indicator LED.
    pub led1: Led,
    /// Red channel of the tricolour LED.
    pub led2_r: Led,
    /// Green channel of the tricolour LED.
    pub led2_g: Led,
    /// Blue channel of the tricolour LED.
    pub led2_b: Led,
}

/// One sample of an externally-debounced digital input with an internal
/// pull resistor: the line identity together with the logic level read
/// from it. The line idles high; pressing the button pulls it low.
#[derive(Clone, Copy, PartialEq, Eq, Structural, Debug)]
pub struct Button {
    /// The sensed-input line the button is wired to.
    pub line: SensedLine,
    /// The logic level sampled from the line.
    pub level: bool,
}

impl Button {
    /// The sample shows the button held down: the line was read at logic low.
    pub open spec fn pressed(self) -> bool {
        !self.level
    }

    /// Record one sample: the raw line configured as a pulled-up sensed
    /// input, together with the level just read from it.
    pub fn new(line: UnconfiguredLine, level: bool) -> (r: Button)
        ensures
            r.line.pad == line.pad,
            r.level == level,
    {
        Button { line: line.into_sensed(), level }
    }

    /// The button is pressed: the sampled level is logic low.
    pub fn is_pressed(&self) -> (r: bool)
        ensures
            r == self.pressed(),
    {
        !self.level
    }

    /// The button is released: the sampled level is logic high.
    pub fn is_released(&self) -> (r: bool)
        ensures
            r == !self.pressed(),
    {
        self.level
    }
}

/// The buttons of the board assembly.
#[derive(Clone, Copy, PartialEq, Eq, Structural, Debug)]
pub struct Buttons {
    /// The one user button.
    pub sw1: Button,
}

} // verus!
