//! Live sessions: the wire protocol, the per-user hub and the state of one
//! connection.

pub mod protocol;
pub mod users;
pub mod conn;

pub use conn::UserConn;
pub mod cookie;
