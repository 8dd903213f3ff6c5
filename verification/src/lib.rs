//! Privileged tap and bridge management, stated as verified decision logic.

pub mod address;
pub mod bridge;
pub mod error;
pub mod laws;
pub mod link;
pub mod model;
pub mod name;
pub mod outcome;
pub mod platform;
pub mod privilege;
pub mod protocol;
pub mod request;
pub mod session;
pub mod tap;
pub mod text;
