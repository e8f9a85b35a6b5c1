//! Client-side logic for the stoo key-value store: connection settings, the
//! requests sent to the store and the mapping of its replies.
pub mod connection;
pub mod request;
pub mod status;
pub mod stoo_config;

pub use connection::{connection_plan, uses_tls, ConnectionPlan, TlsPlan};
pub use request::{default_scope, Request, RequestView};
pub use status::{format_error, from_status, reply, status_text};
pub use stoo_config::{ConfigView, StooConfig};
