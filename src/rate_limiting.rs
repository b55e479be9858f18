pub mod local;
pub mod messages;
pub mod rate_limiting;
