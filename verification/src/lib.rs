//! Meteor-impact arithmetic in fixed-point integer form.
//!
//! Every physical quantity is carried in thousandths of its display unit
//! ("milli" values): a diameter of `10_000` milli-meters is 10 meters, an
//! energy of `54_249` milli-kilotons is 54.249 kilotons of TNT.  Working on
//! scaled integers keeps every formula exact and total, so the whole
//! evaluation pipeline — from slider values to the quantities a frame
//! displays — is verified.

pub mod frame;
pub mod physics;
pub mod preview;
pub mod state;
