//! Client side of a framed request/response control protocol spoken with a
//! virtual-machine host over a character device.
//!
//! Every message on the wire is `DELIM || payload || DELIM`. This crate holds
//! the message types, the envelope framing and the incremental reply scanner,
//! the reply-tag checks of the logical operations, the capability lookup, and
//! the per-call state machine that sequences write, readiness wait and read.
pub mod types;
pub mod envelope;
pub mod protocol;
pub mod exchange;

pub use types::{
    HLAPIArgument, HLAPIDevice, HLAPIDeviceDescriptor, HLAPIMethod, HLAPIReceive, HLAPISend,
    HLAPIType, ProtocolError, ReplyTag,
};
