//! Sapling transaction components: the byte formats of spend and output
//! descriptions, with canonical-encoding checks, and the Sprout note
//! commitment preimage.

pub mod bytes;
pub mod curve;
pub mod error;
pub mod redjubjub;
pub mod sapling;
pub mod roundtrip;
pub mod sprout;
