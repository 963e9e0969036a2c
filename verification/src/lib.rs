//! Verified core of the printedin3d backend: account roles, credential
//! validation, session and password handling, access decisions and the
//! print queue.

pub mod role;
pub mod error;
pub mod validation;
pub mod token;
pub mod password;
pub mod model;
pub mod access;
pub mod store;
pub mod queue;
