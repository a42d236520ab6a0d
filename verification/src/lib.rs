//! The decisions of a LAN speed test client: what it sends, what it makes of
//! what it receives, when each phase ends and what the figures are.

pub mod conduct;
pub mod json;
pub mod laws;
pub mod options;
pub mod protocol;
pub mod run;
pub mod session;
pub mod size;
pub mod stats;
