//! Control logic for a battery-free access-control actuator: a typestate
//! lock over one general-purpose line, board leaf types (button, LEDs), and
//! the single-threaded control loop that interleaves the lock decision with
//! draining serial bytes into an NMEA sentence decoder.

pub mod board;
pub mod control;
pub mod decoder;
pub mod line;
pub mod lock;
