//! Classic Controller support for the game's Wii Remote input path.
//!
//! The library models the pad status records that the game's `KPADReadEx`
//! fills in, and holds the logic that remaps a Classic Controller onto the
//! Wii Remote + Nunchuk layout the game expects: the button remapping, the
//! rewrite of the extension status union, the right-stick history, and the
//! decisions taken on the Home Button Menu and in the item wheel.
//!
//! Every `f32` of the original records is carried here as its IEEE-754 bit
//! pattern (`u32`): the logic only moves such values, it never computes on
//! them, so a bit pattern is exactly what it sees.
use vstd::prelude::*;

pub mod pad;
pub mod classic_controller;
pub mod history;
pub mod hbm;

verus! {

} // verus!
