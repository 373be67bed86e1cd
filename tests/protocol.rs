use hlapi::envelope::{frame, scan_reply, ReplyReader, ReplyStep, Scan, DELIM, MAX_WRITE};
use hlapi::exchange::{Action, Event, Exchange, Phase};
use hlapi::protocol::{check_tag, expect_devices, expect_methods, find_device, find_in_reply};
use hlapi::{
    HLAPIDevice, HLAPIDeviceDescriptor, HLAPIMethod, HLAPIReceive, HLAPISend, HLAPIType,
    ProtocolError, ReplyTag,
};

const A: u128 = 0x0123_4567_89ab_cdef_0123_4567_89ab_cdef;
const B: u128 = 0xfedc_ba98_7654_3210_fedc_ba98_7654_3210;

fn device_list() -> Vec<HLAPIDeviceDescriptor> {
    vec![
        HLAPIDeviceDescriptor {
            device_id: HLAPIDevice::from_u128(A),
            components: vec!["turtle".to_string(), "inventory".to_string()],
        },
        HLAPIDeviceDescriptor {
            device_id: HLAPIDevice::from_u128(B),
            components: vec!["camera".to_string()],
        },
    ]
}

fn move_method() -> HLAPIMethod {
    HLAPIMethod {
        name: "move".to_string(),
        parameters: vec![HLAPIType::new("int".to_string())],
        return_type: "bool".to_string(),
        description: None,
        return_value_description: None,
    }
}

#[test]
fn find_turtle_returns_first_offering_device() {
    assert_eq!(find_device(&device_list(), "turtle"), Ok(HLAPIDevice::from_u128(A)));
    assert_eq!(find_device(&device_list(), "inventory"), Ok(HLAPIDevice::from_u128(A)));
    assert_eq!(find_device(&device_list(), "camera"), Ok(HLAPIDevice::from_u128(B)));
}

#[test]
fn find_radar_is_not_found() {
    assert_eq!(find_device(&device_list(), "radar"), Err(ProtocolError::NotFound));
    assert_eq!(find_device(&Vec::new(), "turtle"), Err(ProtocolError::NotFound));
}

#[test]
fn find_matches_names_exactly() {
    assert_eq!(find_device(&device_list(), "turtl"), Err(ProtocolError::NotFound));
    assert_eq!(find_device(&device_list(), "Turtle"), Err(ProtocolError::NotFound));
}

#[test]
fn find_takes_the_first_of_two_offering_devices() {
    let mut ds = device_list();
    ds[1].components.push("turtle".to_string());
    let mut reversed = ds.clone();
    reversed.reverse();
    assert_eq!(find_device(&ds, "turtle"), Ok(HLAPIDevice::from_u128(A)));
    assert_eq!(find_device(&reversed, "turtle"), Ok(HLAPIDevice::from_u128(B)));
}

#[test]
fn find_in_reply_checks_the_tag_then_scans() {
    let reply = HLAPIReceive::List(device_list());
    assert_eq!(find_in_reply(reply.clone(), "turtle"), Ok(HLAPIDevice::from_u128(A)));
    assert_eq!(find_in_reply(reply, "radar"), Err(ProtocolError::NotFound));
    let wrong = HLAPIReceive::Result(vec![]);
    assert_eq!(
        find_in_reply(wrong, "turtle"),
        Err(ProtocolError::UnexpectedReply(ReplyTag::Result))
    );
}

#[test]
fn methods_reply_keeps_one_method_and_its_parameters() {
    let reply = HLAPIReceive::Methods(vec![move_method()]);
    let ms = expect_methods(reply).unwrap();
    assert_eq!(ms.len(), 1);
    assert_eq!(ms[0].name, "move");
    assert_eq!(ms[0].parameters.len(), 1);
    assert_eq!(ms[0].parameters[0].name(), "int");
    assert_eq!(ms[0].return_type, "bool");
    assert_eq!(ms[0].description, None);
}

#[test]
fn methods_reply_keeps_parameter_order() {
    let mut m = move_method();
    m.parameters = vec![
        HLAPIType::new("int".to_string()),
        HLAPIType::new("string".to_string()),
        HLAPIType::new("bool".to_string()),
    ];
    let ms = expect_methods(HLAPIReceive::Methods(vec![m])).unwrap();
    let names: Vec<&str> = ms[0].parameters.iter().map(|p| p.name()).collect();
    assert_eq!(names, vec!["int", "string", "bool"]);
}

#[test]
fn method_list_tagged_as_device_list_is_refused() {
    let reply = HLAPIReceive::Methods(vec![move_method()]);
    assert_eq!(
        expect_devices(reply),
        Err(ProtocolError::UnexpectedReply(ReplyTag::Methods))
    );
    let reply = HLAPIReceive::List(device_list());
    assert_eq!(expect_methods(reply), Err(ProtocolError::UnexpectedReply(ReplyTag::List)));
}

#[test]
fn device_list_reply_is_returned_in_order() {
    let ds = expect_devices(HLAPIReceive::List(device_list())).unwrap();
    assert_eq!(ds, device_list());
}

#[test]
fn error_reply_surfaces_its_message() {
    let msg = Some("device not found".to_string());
    assert_eq!(
        expect_devices(HLAPIReceive::Error(msg.clone())),
        Err(ProtocolError::Remote(msg.clone()))
    );
    assert_eq!(
        expect_methods(HLAPIReceive::Error(msg.clone())),
        Err(ProtocolError::Remote(msg.clone()))
    );
    assert_eq!(find_in_reply(HLAPIReceive::Error(msg.clone()), "turtle"), Err(ProtocolError::Remote(msg)));
    assert_eq!(expect_devices(HLAPIReceive::Error(None)), Err(ProtocolError::Remote(None)));
}

#[test]
fn tags_of_requests_and_replies() {
    assert_eq!(HLAPISend::List.expected_reply(), ReplyTag::List);
    assert_eq!(HLAPISend::Methods(HLAPIDevice::from_u128(A)).expected_reply(), ReplyTag::Methods);
    let invoke = HLAPISend::Invoke {
        device_id: HLAPIDevice::from_u128(A),
        method_name: "move".to_string(),
        parameters: vec![],
    };
    assert_eq!(invoke.expected_reply(), ReplyTag::Result);
    assert_eq!(HLAPIReceive::Error(None).tag(), ReplyTag::Error);
    assert_eq!(HLAPIReceive::Result(vec![]).tag(), ReplyTag::Result);
    assert!(check_tag(ReplyTag::List, &HLAPIReceive::List(vec![])));
    assert!(!check_tag(ReplyTag::List, &HLAPIReceive::Methods(vec![])));
}

#[test]
fn device_identifier_keeps_its_bits() {
    assert_eq!(HLAPIDevice::from_u128(A).as_u128(), A);
}

#[test]
fn frame_wraps_payload_in_delimiters() {
    let out = frame(b"{\"type\":\"List\"}").unwrap();
    let mut expected = vec![0u8];
    expected.extend_from_slice(b"{\"type\":\"List\"}");
    expected.push(0);
    assert_eq!(out, expected);
    assert_eq!(frame(b"").unwrap(), vec![0u8, 0u8]);
}

#[test]
fn frame_accepts_the_largest_envelope() {
    let payload = vec![b'x'; MAX_WRITE - 2];
    let out = frame(&payload).unwrap();
    assert_eq!(out.len(), MAX_WRITE);
    assert_eq!(out[0], DELIM);
    assert_eq!(out[MAX_WRITE - 1], DELIM);
}

#[test]
fn frame_rejects_oversized_envelope() {
    let payload = vec![b'x'; MAX_WRITE - 1];
    assert_eq!(frame(&payload), Err(ProtocolError::Oversized));
    let payload = vec![b'x'; 3 * MAX_WRITE];
    assert_eq!(frame(&payload), Err(ProtocolError::Oversized));
}

#[test]
fn frame_rejects_delimiter_in_payload() {
    assert_eq!(frame(b"ab\0cd"), Err(ProtocolError::DelimiterInPayload));
}

#[test]
fn scan_finds_the_closing_delimiter() {
    assert_eq!(scan_reply(b""), Scan::Incomplete);
    assert_eq!(scan_reply(b"\0{}"), Scan::Incomplete);
    assert_eq!(scan_reply(b"{}\0"), Scan::Malformed);
    assert_eq!(scan_reply(b"\0{}\0"), Scan::Complete { end: 4 });
    assert_eq!(scan_reply(b"\0{}\0\0[]\0"), Scan::Complete { end: 4 });
}

#[test]
fn frame_then_strip_round_trips() {
    let payload = b"{\"type\":\"Methods\",\"data\":\"01234567-89ab-cdef-0123-456789abcdef\"}";
    let env = frame(payload).unwrap();
    let mut r = ReplyReader::new();
    assert_eq!(r.feed(&env), ReplyStep::Payload(payload.to_vec()));
}

#[test]
fn reader_accumulates_chunks() {
    let mut r = ReplyReader::new();
    assert_eq!(r.feed(b"\0{\"ty"), ReplyStep::NeedMore);
    assert_eq!(r.feed(b"pe\":\"List\",\"data\":[]}"), ReplyStep::NeedMore);
    assert_eq!(
        r.feed(b"\0"),
        ReplyStep::Payload(b"{\"type\":\"List\",\"data\":[]}".to_vec())
    );
}

#[test]
fn reader_refuses_missing_leading_delimiter() {
    let mut r = ReplyReader::new();
    assert_eq!(r.feed(b"{}\0"), ReplyStep::Malformed);
}

fn started(request: &HLAPISend, payload: &[u8]) -> Exchange {
    let (mut ex, action) = Exchange::begin(request, payload);
    assert!(matches!(action, Action::Write(_)));
    assert_eq!(ex.phase(), Phase::Writing);
    assert_eq!(ex.step(Event::Written), Action::WaitReadable);
    assert_eq!(ex.step(Event::Ready), Action::Read);
    assert_eq!(ex.phase(), Phase::Reading);
    ex
}

#[test]
fn exchange_runs_to_delivery() {
    let payload = b"{\"type\":\"List\"}";
    let (_, action) = Exchange::begin(&HLAPISend::List, payload);
    assert_eq!(action, Action::Write(frame(payload).unwrap()));
    let mut ex = started(&HLAPISend::List, payload);
    assert_eq!(ex.step(Event::Received(b"\0{\"type\":".to_vec())), Action::Read);
    assert_eq!(
        ex.step(Event::Received(b"\"List\",\"data\":[]}\0".to_vec())),
        Action::Decode(b"{\"type\":\"List\",\"data\":[]}".to_vec())
    );
    assert_eq!(ex.phase(), Phase::Decoding);
    let reply = HLAPIReceive::List(device_list());
    assert_eq!(ex.step(Event::Decoded(reply.clone(), 25)), Action::Deliver(reply));
    assert_eq!(ex.phase(), Phase::Succeeded);
    assert_eq!(ex.leftover(), Vec::<u8>::new());
}

#[test]
fn exchange_refuses_wrong_reply_tag() {
    let mut ex = started(&HLAPISend::List, b"{}");
    assert!(matches!(ex.step(Event::Received(b"\0{}\0".to_vec())), Action::Decode(_)));
    let reply = HLAPIReceive::Methods(vec![move_method()]);
    assert_eq!(
        ex.step(Event::Decoded(reply, 2)),
        Action::Fail(ProtocolError::UnexpectedReply(ReplyTag::Methods))
    );
    assert_eq!(ex.phase(), Phase::Failed);
}

#[test]
fn exchange_surfaces_error_reply() {
    let request = HLAPISend::Methods(HLAPIDevice::from_u128(A));
    let mut ex = started(&request, b"{}");
    assert!(matches!(ex.step(Event::Received(b"\0{}\0".to_vec())), Action::Decode(_)));
    let msg = Some("device not found".to_string());
    assert_eq!(
        ex.step(Event::Decoded(HLAPIReceive::Error(msg.clone()), 2)),
        Action::Fail(ProtocolError::Remote(msg))
    );
}

#[test]
fn exchange_fails_on_missing_leading_delimiter() {
    let mut ex = started(&HLAPISend::List, b"{}");
    assert_eq!(
        ex.step(Event::Received(b"{\"type\":\"List\"}\0".to_vec())),
        Action::Fail(ProtocolError::Framing)
    );
    assert_eq!(ex.phase(), Phase::Failed);
}

#[test]
fn exchange_fails_on_missing_trailing_delimiter() {
    let mut ex = started(&HLAPISend::List, b"{}");
    assert_eq!(ex.step(Event::Received(b"\0{\"type\":\"List\"}".to_vec())), Action::Read);
    assert_eq!(ex.step(Event::Received(Vec::new())), Action::Fail(ProtocolError::Framing));
}

#[test]
fn exchange_fails_on_truncated_payload() {
    let mut ex = started(&HLAPISend::List, b"{}");
    assert_eq!(ex.step(Event::Received(b"\0{\"ty".to_vec())), Action::Read);
    assert_eq!(ex.step(Event::Received(Vec::new())), Action::Fail(ProtocolError::Framing));
}

#[test]
fn exchange_fails_on_empty_stream() {
    let mut ex = started(&HLAPISend::List, b"{}");
    assert_eq!(ex.step(Event::Received(Vec::new())), Action::Fail(ProtocolError::Framing));
}

#[test]
fn exchange_fails_on_decode_error() {
    let mut ex = started(&HLAPISend::List, b"{}");
    assert!(matches!(ex.step(Event::Received(b"\0nonsense\0".to_vec())), Action::Decode(_)));
    assert_eq!(ex.step(Event::DecodeFailed), Action::Fail(ProtocolError::Decode));
}

#[test]
fn exchange_refuses_oversized_request_before_writing() {
    let payload = vec![b'x'; MAX_WRITE];
    let (ex, action) = Exchange::begin(&HLAPISend::List, &payload);
    assert_eq!(action, Action::Fail(ProtocolError::Oversized));
    assert_eq!(ex.phase(), Phase::Failed);
}

#[test]
fn exchange_refuses_events_out_of_sequence() {
    let (mut ex, _) = Exchange::begin(&HLAPISend::List, b"{}");
    assert_eq!(ex.step(Event::Ready), Action::Fail(ProtocolError::OutOfSequence));
    assert_eq!(ex.phase(), Phase::Failed);
    assert_eq!(ex.step(Event::Written), Action::Fail(ProtocolError::OutOfSequence));
}

#[test]
fn exchange_fails_on_stray_byte_after_payload() {
    let mut ex = started(&HLAPISend::List, b"{}");
    assert_eq!(
        ex.step(Event::Received(b"\0{\"type\":\"List\",\"data\":[]}x\0".to_vec())),
        Action::Decode(b"{\"type\":\"List\",\"data\":[]}x".to_vec())
    );
    let reply = HLAPIReceive::List(vec![]);
    assert_eq!(ex.step(Event::Decoded(reply, 25)), Action::Fail(ProtocolError::Framing));
    assert_eq!(ex.phase(), Phase::Failed);
}

#[test]
fn exchange_fails_on_trailing_space_after_payload() {
    let mut ex = started(&HLAPISend::List, b"{}");
    assert_eq!(ex.step(Event::Received(b"\0{} \0".to_vec())), Action::Decode(b"{} ".to_vec()));
    assert_eq!(
        ex.step(Event::Decoded(HLAPIReceive::List(vec![]), 2)),
        Action::Fail(ProtocolError::Framing)
    );
}

#[test]
fn back_to_back_replies_are_both_delivered() {
    let mut ex = started(&HLAPISend::List, b"{}");
    assert_eq!(ex.step(Event::Received(b"\0{}\0\0[1]\0\0[".to_vec())), Action::Decode(b"{}".to_vec()));
    let first = HLAPIReceive::List(vec![]);
    assert_eq!(ex.step(Event::Decoded(first.clone(), 2)), Action::Deliver(first));
    let carried = ex.leftover();
    assert_eq!(carried, b"\0[1]\0\0[".to_vec());

    let (mut next, action) = Exchange::begin_after(&HLAPISend::List, b"{}", carried);
    assert!(matches!(action, Action::Write(_)));
    assert_eq!(next.step(Event::Written), Action::Decode(b"[1]".to_vec()));
    let second = HLAPIReceive::List(device_list());
    assert_eq!(next.step(Event::Decoded(second.clone(), 3)), Action::Deliver(second));
    assert_eq!(next.leftover(), b"\0[".to_vec());
}

#[test]
fn carried_partial_envelope_waits_for_the_rest() {
    let (mut ex, _) = Exchange::begin_after(&HLAPISend::List, b"{}", b"\0{".to_vec());
    assert_eq!(ex.step(Event::Written), Action::WaitReadable);
    assert_eq!(ex.step(Event::Ready), Action::Read);
    assert_eq!(ex.step(Event::Received(b"}\0".to_vec())), Action::Decode(b"{}".to_vec()));
}

#[test]
fn carried_bytes_without_leading_delimiter_fail_framing() {
    let (mut ex, _) = Exchange::begin_after(&HLAPISend::List, b"{}", b"x".to_vec());
    assert_eq!(ex.step(Event::Written), Action::Fail(ProtocolError::Framing));
}

#[test]
fn reader_tail_and_carried_bytes() {
    let mut r = ReplyReader::with_received(b"\0ab".to_vec());
    assert_eq!(r.received_len(), 3);
    assert_eq!(r.feed(b"\0cd"), ReplyStep::Payload(b"ab".to_vec()));
    assert_eq!(r.tail(4), b"cd".to_vec());
}
