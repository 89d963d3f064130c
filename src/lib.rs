//! Control logic for a four-button addressable-LED board: a gesture decoder
//! that turns button levels into chorded events, a runner that turns those
//! events and periodic ticks into pattern, speed, brightness and sleep
//! changes, and the patterns' animation state. The board's drivers, radio
//! and scheduler stay outside; they feed this library plain values and write
//! what it returns.

use vstd::prelude::*;

mod clock;
pub mod control;
pub mod controller;
pub mod gatt;
pub mod pattern;
pub mod runner;

verus! {

} // verus!
