//! The parts of a charging history entry that carry no data of their own.
use vstd::prelude::*;

verus! {

/// The package under which a charging session was billed. The service
/// sends it without fields.
#[derive(Debug, Clone, Copy, PartialEq, Eq, Structural)]
pub struct ChargingPackage {}

/// The credit that was applied to a charging session. The service sends it
/// without fields.
#[derive(Debug, Clone, Copy, PartialEq, Eq, Structural)]
pub struct ChargingCredit {}

} // verus!
