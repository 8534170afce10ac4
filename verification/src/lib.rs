//! A safe, contract-checked access layer over a display-control protocol
//! library: status mapping, VCP feature value marshaling, capability
//! string parsing, display identity, and session lifecycle.

pub mod caps;
pub mod display;
pub mod features;
pub mod session;
pub mod status;
pub mod text;
