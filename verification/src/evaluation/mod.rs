//! Factor evaluation: the forward periods of the IC calculation.

pub mod ic;

pub use ic::IcCalculator;
