//! The values that requests and replies carry.
use vstd::prelude::*;

verus! {

/// Opaque 128-bit identifier of a remote device, held as its integer value.
#[derive(Clone, Copy, Debug, PartialEq, Eq, Structural, Hash)]
pub struct HLAPIDevice {
    pub bits: u128,
}

impl HLAPIDevice {
    pub fn from_u128(bits: u128) -> (r: HLAPIDevice)
        ensures
            r.bits == bits,
    {
        HLAPIDevice { bits }
    }

    pub fn as_u128(&self) -> (r: u128)
        ensures
            r == self.bits,
    {
        self.bits
    }
}

/// A typed-parameter descriptor: one type tag.
#[derive(Clone, Debug, PartialEq, Eq)]
pub struct HLAPIType {
    data: String,
}

impl HLAPIType {
    pub closed spec fn name_spec(&self) -> Seq<char> {
        self.data@
    }

    pub fn new(data: String) -> (r: HLAPIType)
        ensures
            r.name_spec() == data@,
    {
        HLAPIType { data }
    }

    pub fn name(&self) -> (r: &str)
        ensures
            r@ == self.name_spec(),
    {
        self.data.as_str()
    }
}

/// A method that a device exposes. The order of `parameters` is the
/// positional binding of the method's arguments.
#[derive(Clone, Debug, PartialEq, Eq)]
pub struct HLAPIMethod {
    pub name: String,
    pub parameters: Vec<HLAPIType>,
    pub return_type: String,
    pub description: Option<String>,
    pub return_value_description: Option<String>,
}

/// A device identifier and the capability-type names it offers.
#[derive(Clone, Debug, PartialEq, Eq)]
pub struct HLAPIDeviceDescriptor {
    pub device_id: HLAPIDevice,
    pub components: Vec<String>,
}

/// One argument of a method invocation.
#[derive(Clone, Debug, PartialEq, Eq)]
pub enum HLAPIArgument {
    Boolean(bool),
    Integer(i64),
    Text(String),
}

/// An outbound request.
#[derive(Clone, Debug, PartialEq, Eq)]
pub enum HLAPISend {
    List,
    Methods(HLAPIDevice),
    Invoke { device_id: HLAPIDevice, method_name: String, parameters: Vec<HLAPIArgument> },
}

/// An inbound reply.
#[derive(Clone, Debug, PartialEq, Eq)]
pub enum HLAPIReceive {
    List(Vec<HLAPIDeviceDescriptor>),
    Methods(Vec<HLAPIMethod>),
    Error(Option<String>),
    Result(Vec<String>),
}

/// The tag of a reply, without its data.
#[derive(Clone, Copy, Debug, PartialEq, Eq, Structural)]
pub enum ReplyTag {
    List,
    Methods,
    Error,
    Result,
}

/// What can go wrong in the protocol layer, apart from the transport's own
/// I/O failures.
#[derive(Clone, Debug, PartialEq, Eq)]
pub enum ProtocolError {
    /// The envelope of a request would exceed the maximum write size.
    Oversized,
    /// A request payload holds the delimiter byte and cannot be framed.
    DelimiterInPayload,
    /// A delimiter is missing or wrong, or the stream ended inside an envelope.
    Framing,
    /// The reply payload does not decode into a reply.
    Decode,
    /// The reply carries a tag that the request does not call for.
    UnexpectedReply(ReplyTag),
    /// The host answered with an error reply, and this message if it gave one.
    Remote(Option<String>),
    /// No device offers the capability that was looked for.
    NotFound,
    /// An exchange was told of an event that its current phase does not wait for.
    OutOfSequence,
}

pub open spec fn tag_of(r: HLAPIReceive) -> ReplyTag {
    match r {
        HLAPIReceive::List(_) => ReplyTag::List,
        HLAPIReceive::Methods(_) => ReplyTag::Methods,
        HLAPIReceive::Error(_) => ReplyTag::Error,
        HLAPIReceive::Result(_) => ReplyTag::Result,
    }
}

/// The reply tag that a request calls for.
pub open spec fn expected_tag(s: HLAPISend) -> ReplyTag {
    match s {
        HLAPISend::List => ReplyTag::List,
        HLAPISend::Methods(_) => ReplyTag::Methods,
        HLAPISend::Invoke { .. } => ReplyTag::Result,
    }
}

impl HLAPIReceive {
    pub fn tag(&self) -> (r: ReplyTag)
        ensures
            r == tag_of(*self),
    {
        match self {
            HLAPIReceive::List(_) => ReplyTag::List,
            HLAPIReceive::Methods(_) => ReplyTag::Methods,
            HLAPIReceive::Error(_) => ReplyTag::Error,
            HLAPIReceive::Result(_) => ReplyTag::Result,
        }
    }
}

impl HLAPISend {
    pub fn expected_reply(&self) -> (r: ReplyTag)
        ensures
            r == expected_tag(*self),
    {
        match self {
            HLAPISend::List => ReplyTag::List,
            HLAPISend::Methods(_) => ReplyTag::Methods,
            HLAPISend::Invoke { .. } => ReplyTag::Result,
        }
    }
}

} // verus!
