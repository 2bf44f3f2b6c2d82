//! Client-side accounting of a chat instance's request-rate policy.

pub mod limits;
pub mod resume;
pub mod schemas;
