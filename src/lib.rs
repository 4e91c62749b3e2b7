//! Verified decision core of an MCTP router: packet headers and buffers,
//! the listener table, inbound routing and local dispatch, message
//! flattening, and the state kept by application channels.

mod types;
pub mod header;
pub mod pktbuf;
pub mod listeners;
pub mod routing;
pub mod flatten;
pub mod channels;

pub use types::{PortId, RouterError, AppCookie, MAX_MTU, MAX_PAYLOAD, MAX_LISTENERS, MAX_RECEIVERS};
