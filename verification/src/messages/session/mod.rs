//! Session-level messages: Heartbeat and Logon.

pub mod heartbeat;
pub mod logon;

pub use heartbeat::HeartbeatBody;
pub use logon::LogonBody;
