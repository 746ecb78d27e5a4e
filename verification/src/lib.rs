//! Verified message handling of the alliance contract: the messages it sends to the
//! chain's alliance module, the queries it forwards, and how it reads the answers.
pub mod msg;

pub mod response;
pub mod contract;
pub mod error;
pub mod state;
