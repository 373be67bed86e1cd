//! Reply-tag checks of the logical operations, and the capability lookup.
use vstd::prelude::*;
use crate::types::{
    tag_of, HLAPIDevice, HLAPIDeviceDescriptor, HLAPIMethod, HLAPIReceive, ProtocolError,
    ReplyTag,
};

verus! {

/// The error that a reply carrying the wrong tag turns into: an error reply
/// keeps its message, any other reply names its tag.
pub open spec fn rejection(reply: HLAPIReceive) -> ProtocolError {
    match reply {
        HLAPIReceive::Error(m) => ProtocolError::Remote(m),
        _ => ProtocolError::UnexpectedReply(tag_of(reply)),
    }
}

/// Device `d` lists capability-type name `name`, compared exactly.
pub open spec fn offers(d: HLAPIDeviceDescriptor, name: Seq<char>) -> bool {
    exists|j: int| 0 <= j < d.components@.len() && #[trigger] d.components@[j]@ == name
}

/// The identifier of the first device in `ds` that offers `name`.
pub open spec fn lookup(ds: Seq<HLAPIDeviceDescriptor>, name: Seq<char>) -> Result<
    HLAPIDevice,
    ProtocolError,
>
    decreases ds.len(),
{
    if ds.len() == 0 {
        Err(ProtocolError::NotFound)
    } else if offers(ds[0], name) {
        Ok(ds[0].device_id)
    } else {
        lookup(ds.drop_first(), name)
    }
}

/// What a "list devices" request makes of its reply.
pub open spec fn devices_outcome(reply: HLAPIReceive) -> Result<
    Seq<HLAPIDeviceDescriptor>,
    ProtocolError,
> {
    match reply {
        HLAPIReceive::List(ds) => Ok(ds@),
        _ => Err(rejection(reply)),
    }
}

/// What a "list methods" request makes of its reply.
pub open spec fn methods_outcome(reply: HLAPIReceive) -> Result<Seq<HLAPIMethod>, ProtocolError> {
    match reply {
        HLAPIReceive::Methods(ms) => Ok(ms@),
        _ => Err(rejection(reply)),
    }
}

/// What a capability lookup makes of the reply to its "list devices" request.
pub open spec fn find_outcome(reply: HLAPIReceive, name: Seq<char>) -> Result<
    HLAPIDevice,
    ProtocolError,
> {
    match reply {
        HLAPIReceive::List(ds) => lookup(ds@, name),
        _ => Err(rejection(reply)),
    }
}

pub(crate) fn reject(reply: HLAPIReceive) -> (e: ProtocolError)
    ensures
        e == rejection(reply),
{
    match reply {
        HLAPIReceive::Error(m) => ProtocolError::Remote(m),
        other => ProtocolError::UnexpectedReply(other.tag()),
    }
}

/// Checks that the reply to a request that calls for `want` carries that tag.
pub fn check_tag(want: ReplyTag, reply: &HLAPIReceive) -> (r: bool)
    ensures
        r == (tag_of(*reply) == want),
{
    let t = reply.tag();
    t == want
}

/// Takes the device list out of the reply to a "list devices" request. Any
/// other tag, an error reply included, is refused before its data is used.
pub fn expect_devices(reply: HLAPIReceive) -> (r: Result<Vec<HLAPIDeviceDescriptor>, ProtocolError>)
    ensures
        r matches Ok(ds) ==> devices_outcome(reply) == Ok::<_, ProtocolError>(ds@),
        r matches Err(e) ==> devices_outcome(reply) == Err::<Seq<HLAPIDeviceDescriptor>, _>(e),
{
    match reply {
        HLAPIReceive::List(ds) => Ok(ds),
        other => Err(reject(other)),
    }
}

/// Takes the method list out of the reply to a "list methods" request, in the
/// order received. Any other tag, an error reply included, is refused before
/// its data is used.
pub fn expect_methods(reply: HLAPIReceive) -> (r: Result<Vec<HLAPIMethod>, ProtocolError>)
    ensures
        r matches Ok(ms) ==> methods_outcome(reply) == Ok::<_, ProtocolError>(ms@),
        r matches Err(e) ==> methods_outcome(reply) == Err::<Seq<HLAPIMethod>, _>(e),
{
    match reply {
        HLAPIReceive::Methods(ms) => Ok(ms),
        other => Err(reject(other)),
    }
}

fn lists_name(components: &Vec<String>, name: &String) -> (r: bool)
    ensures
        r == exists|j: int| 0 <= j < components@.len() && #[trigger] components@[j]@ == name@,
{
    let mut j: usize = 0;
    while j < components.len()
        invariant
            j <= components@.len(),
            forall|k: int| 0 <= k < j ==> #[trigger] components@[k]@ != name@,
        decreases components@.len() - j,
    {
        if components[j] == *name {
            return true;
        }
        j = j + 1;
    }
    false
}

/// The identifier of the first device, in list order, whose capability-type
/// names hold `name` exactly; `NotFound` when there is none.
pub fn find_device(devices: &Vec<HLAPIDeviceDescriptor>, name: &str) -> (r: Result<
    HLAPIDevice,
    ProtocolError,
>)
    ensures
        r == lookup(devices@, name@),
{
    let target = name.to_owned();
    let mut i: usize = 0;
    assert(devices@.subrange(0, devices@.len() as int) =~= devices@);
    while i < devices.len()
        invariant
            i <= devices@.len(),
            target@ == name@,
            lookup(devices@, name@) == lookup(devices@.subrange(i as int, devices@.len() as int), name@),
        decreases devices@.len() - i,
    {
        let ghost rest = devices@.subrange(i as int, devices@.len() as int);
        assert(rest[0] == devices@[i as int]);
        if lists_name(&devices[i].components, &target) {
            return Ok(devices[i].device_id);
        }
        assert(rest.drop_first() =~= devices@.subrange(i + 1, devices@.len() as int));
        i = i + 1;
    }
    Err(ProtocolError::NotFound)
}

/// Resolves a capability name against the reply to a "list devices" request.
pub fn find_in_reply(reply: HLAPIReceive, name: &str) -> (r: Result<HLAPIDevice, ProtocolError>)
    ensures
        r == find_outcome(reply, name@),
{
    match expect_devices(reply) {
        Ok(ds) => find_device(&ds, name),
        Err(e) => Err(e),
    }
}

/// Every logical operation checks the reply tag before it uses the reply's
/// data: listing devices succeeds only on a device-list reply, listing methods
/// only on a method-list reply, and a lookup fails on any reply that is not a
/// device list, whatever data that reply carries.
pub proof fn law_reply_tag_checked(reply: HLAPIReceive, name: Seq<char>)
    ensures
        devices_outcome(reply) is Ok <==> tag_of(reply) == ReplyTag::List,
        methods_outcome(reply) is Ok <==> tag_of(reply) == ReplyTag::Methods,
        tag_of(reply) != ReplyTag::List ==> devices_outcome(reply) == Err::<
            Seq<HLAPIDeviceDescriptor>,
            _,
        >(rejection(reply)) && find_outcome(reply, name) == Err::<HLAPIDevice, _>(
            rejection(reply),
        ),
        tag_of(reply) != ReplyTag::Methods ==> methods_outcome(reply) == Err::<Seq<HLAPIMethod>, _>(
            rejection(reply),
        ),
{
}

/// An error reply is never taken for an empty success: listing devices,
/// listing methods and a lookup all fail with the message it carries.
pub proof fn law_error_reply_surfaces_message(message: Option<String>, name: Seq<char>)
    ensures
        devices_outcome(HLAPIReceive::Error(message)) == Err::<Seq<HLAPIDeviceDescriptor>, _>(
            ProtocolError::Remote(message),
        ),
        methods_outcome(HLAPIReceive::Error(message)) == Err::<Seq<HLAPIMethod>, _>(
            ProtocolError::Remote(message),
        ),
        find_outcome(HLAPIReceive::Error(message), name) == Err::<HLAPIDevice, _>(
            ProtocolError::Remote(message),
        ),
{
}

} // verus!
