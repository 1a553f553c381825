//! Verified core of a multi-user content aggregator: the wire protocol of
//! live sessions, the content-addressed store with its subscriptions and
//! garbage collection, the fetch orchestration with the rules of the script
//! host, and the scheduling rules of the automatic fetcher.

pub mod auto_fetcher;
pub mod bytes;
pub mod clock;
pub mod config;
pub mod console;
pub mod data;
pub mod fetch_op;
pub mod fetcher;
pub mod gzip;
pub mod hash;
pub mod http_api;
pub mod inspect;
pub mod msgpack;
pub mod permission;
pub mod random;
pub mod script_host;
pub mod session;
pub mod startup;
pub mod text;
pub mod uri;
