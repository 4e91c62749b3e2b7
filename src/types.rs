use vstd::prelude::*;

verus! {

/// Largest packet, header included, that a port may carry.
pub const MAX_MTU: usize = 255;

/// Largest message payload that can be flattened for sending.
pub const MAX_PAYLOAD: usize = 1032;

/// Number of listener slots.
pub const MAX_LISTENERS: usize = 20;

/// Number of request-channel receivers that can wait at once.
pub const MAX_RECEIVERS: usize = 50;

#[verifier::external_type_specification]
pub struct ExEid(mctp::Eid);

#[verifier::external_type_specification]
pub struct ExTagValue(mctp::TagValue);

#[verifier::external_type_specification]
pub struct ExMsgType(mctp::MsgType);

#[verifier::external_type_specification]
pub struct ExMsgIC(mctp::MsgIC);

#[verifier::external_type_specification]
pub struct ExTag(mctp::Tag);

/// Identifier of a port: an index into the router's list of ports.
#[derive(Debug, Clone, Copy, PartialEq, Eq, Hash, PartialOrd, Ord)]
pub struct PortId(pub u8);

/// Index of a listener slot, handed out when a listener binds.
#[derive(Debug, Clone, Copy, PartialEq, Eq, Hash)]
pub struct AppCookie(pub usize);

/// Failures that the router's own logic reports.
#[derive(Debug, Clone, Copy, PartialEq, Eq)]
pub enum RouterError {
    /// A buffer is too small for the data.
    NoSpace,
    /// No route, a bad port, or a full queue.
    TxFailure,
    /// The API was used in a way it does not allow.
    BadArgument,
    /// A listener for that message type already exists.
    AddrInUse,
    /// A delivery that cannot happen did.
    InternalError,
    /// A packet does not start with a valid MCTP header.
    InvalidInput,
}

} // verus!
