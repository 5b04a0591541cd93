//! Driver core for a family of 24-bit delta-sigma analog-to-digital
//! converters that are controlled by bit-banging five digital lines:
//! a data-out line driven by the chip, a serial clock, a power-down
//! line and two channel-select lines.
//!
//! This crate holds the protocol logic itself: the sign extension of
//! the 24-bit sample, the channel-select mapping and its settling and
//! discard policy, and the exact sequences of line operations that
//! make up a reset, a calibration, a standby entry and an acquisition.
//! The code that owns concrete pin handles executes these sequences;
//! everything that decides *what* to do on the lines is here.

use vstd::prelude::*;

pub mod channel;
pub mod plan;
pub mod sample;
pub mod script;

verus! {

/// Marker trait bounding the set of supported chip variants.
pub trait Sealed {}

/// A chip variant of the converter family.
pub trait ADSModel: Sealed {}

/// Variant tag: the 3-channel model with an internal temperature sensor.
pub struct ADS1232;

/// Variant tag: the 4-channel model without a temperature sensor.
pub struct ADS1234;

impl Sealed for ADS1232 {}

impl ADSModel for ADS1232 {}

impl Sealed for ADS1234 {}

impl ADSModel for ADS1234 {}

} // verus!
