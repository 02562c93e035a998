//! Verified core of a cluster worker node: readiness polling, the
//! coordinator wire protocol, the shared load value, the periodic reporters,
//! the status endpoints and the startup sequence.

pub mod clock;
pub mod error;
pub mod exchange;
pub mod identity;
pub mod json;
pub mod load;
pub mod message;
pub mod random;
pub mod readiness;
pub mod reporting;
pub mod startup;
pub mod status;
pub mod text;
