//! The parser adapter over an in-process guest: envelope gating, lazy batch
//! replay, batch accounting, and the guest handshake.

use plugin_host::dlt::{DltParserProxy, ParseError};
use plugin_host::guest::{handle_parser_message, LocalParserProxy, PortError, ScriptedParser};
use plugin_host::rpc::{DltParserRpc, PluginRpc, RuntimeResponse};
use plugin_host::session::PluginSession;
use plugin_host::decode::decode_parser_response;
use plugin_host::encode::encode_parser_payload;
use plugin_host::{PluginError, PluginFactory};

fn adapter_over(
    script: Vec<Result<(usize, Option<String>), PortError>>,
) -> DltParserProxy<LocalParserProxy<ScriptedParser>> {
    let proxy = LocalParserProxy::new(0, ScriptedParser::new(script));
    let mut session = PluginSession::new(proxy, 0);
    session.init().expect("init");
    DltParserProxy::new(session, true).expect("setup")
}

/// The 178-byte frame of one storage-headed verbose log message: storage
/// header, standard header, extended header and six arguments.
fn dlt_frame() -> Vec<u8> {
    vec![
        0x44, 0x4C, 0x54, 0x01, 0x56, 0xA2, 0x91, 0x5C, 0x9C, 0x91, 0x0B, 0x00,
        0x45, 0x43, 0x55, 0x31, 0x3D, 0x40, 0x00, 0xA2, 0x45, 0x43, 0x55, 0x31,
        0x00, 0x00, 0x01, 0x7F, 0x00, 0x5B, 0xF7, 0x16, 0x51, 0x06, 0x56, 0x53,
        0x6F, 0x6D, 0x76, 0x73, 0x73, 0x64, 0x00, 0x82, 0x00, 0x00, 0x3A, 0x00,
        0x5B, 0x33, 0x38, 0x33, 0x3A, 0x20, 0x53, 0x65, 0x72, 0x76, 0x69, 0x63,
        0x65, 0x44, 0x69, 0x73, 0x63, 0x6F, 0x76, 0x65, 0x72, 0x79, 0x55, 0x64,
        0x70, 0x45, 0x6E, 0x64, 0x70, 0x6F, 0x69, 0x6E, 0x74, 0x28, 0x31, 0x36,
        0x30, 0x2E, 0x34, 0x38, 0x2E, 0x31, 0x39, 0x39, 0x2E, 0x31, 0x30, 0x32,
        0x3A, 0x35, 0x30, 0x31, 0x35, 0x32, 0x29, 0x5D, 0x20, 0x00, 0x00, 0x82,
        0x00, 0x00, 0x0F, 0x00, 0x50, 0x72, 0x6F, 0x63, 0x65, 0x73, 0x73, 0x4D,
        0x65, 0x73, 0x73, 0x61, 0x67, 0x65, 0x00, 0x00, 0x82, 0x00, 0x00, 0x02,
        0x00, 0x3A, 0x00, 0x23, 0x00, 0x00, 0x00, 0x0D, 0x01, 0x00, 0x00, 0x00,
        0x82, 0x00, 0x00, 0x03, 0x00, 0x3A, 0x20, 0x00, 0x00, 0x82, 0x00, 0x00,
        0x14, 0x00, 0x31, 0x36, 0x30, 0x2E, 0x34, 0x38, 0x2E, 0x31, 0x39, 0x39,
        0x2E, 0x31, 0x36, 0x2C, 0x33, 0x30, 0x35, 0x30, 0x31, 0x00,
    ]
}

fn dlt_message() -> String {
    "2019-03-20T02:15:50.758172000Z\u{4}ECU1\u{4}1\u{4}383\u{4}64\u{4}6027030\u{4}ECU1\u{4}VSom\u{4}vssd\u{4}LogLevel DEBUG\u{4}\u{5}[383: ServiceDiscoveryUdpEndpoint(160.48.199.102:50152)] \u{5}ProcessMessage\u{5}:\u{5}269\u{5}: \u{5}160.48.199.16,30501".to_string()
}

#[test]
fn envelope_gating_before_and_after_init() {
    let factory = plugin_host::guest::EchoFactory::new();
    let proxy = factory.create(5).unwrap();
    let mut session = PluginSession::new(proxy, 5);
    // Before `Init`, any plugin call fails with `Invalid`.
    let refused = session.call_plugin(&vec![1, 2, 3]);
    assert_eq!(Err(PluginError::Invalid), refused);
    // After `Init`, plugin calls are accepted and reach the guest.
    session.init().expect("init");
    let echoed = session.call_plugin(&vec![1, 2, 3]).expect("call");
    assert_eq!(vec![1u8, 2, 3], echoed);
}

#[test]
fn laziness_one_guest_call_per_batch() {
    let input: Vec<u8> = vec![10, 11, 12, 13, 14, 15];
    let mut adapter = adapter_over(vec![
        Ok((2, Some("a".to_string()))),
        Ok((4, None)),
        Ok((6, Some("b".to_string()))),
        Err(PortError::Incomplete),
    ]);

    let first = adapter.parse(&input, None).expect("first");
    assert_eq!(1, adapter.stats().calls_plugin);
    assert_eq!(0, first.0);
    assert_eq!("a", first.1.unwrap().content);

    let second = adapter.parse(&input, None).expect("second");
    assert_eq!(1, adapter.stats().calls_plugin);
    assert_eq!((0, None), second);

    let third = adapter.parse(&input, None).expect("third");
    assert_eq!(1, adapter.stats().calls_plugin);
    assert_eq!(6, third.0);
    assert_eq!("b", third.1.unwrap().content);

    // The batch is drained: the next call issues exactly one more round trip.
    let fourth = adapter.parse(&input, None);
    assert_eq!(2, adapter.stats().calls_plugin);
    assert!(matches!(fourth, Err(ParseError::Incomplete)));
}

#[test]
fn batch_accounting_rest_offsets() {
    // One batch of three successful parses over six bytes: the guest reports
    // bytes_remaining 4, 2, 0; only the final replay shows the aggregate
    // progress.
    let input: Vec<u8> = vec![1, 2, 3, 4, 5, 6];
    let mut adapter = adapter_over(vec![
        Ok((2, Some("x".to_string()))),
        Ok((4, Some("y".to_string()))),
        Ok((6, Some("z".to_string()))),
    ]);
    let rests: Vec<usize> = (0..3)
        .map(|_| adapter.parse(&input, None).expect("parse").0)
        .collect();
    assert_eq!(vec![0, 0, 6], rests);
    assert_eq!(3, adapter.stats().messages_parsed);
}

#[test]
fn dlt_single_frame_parse() {
    let frame = dlt_frame();
    let expected = dlt_message();
    let mut adapter = adapter_over(vec![Ok((178, Some(dlt_message())))]);
    let (rest_start, parsed) = adapter.parse(&frame, None).expect("parse");
    // One result, bytes_remaining 0: the rest is empty.
    assert_eq!(frame.len(), rest_start);
    assert_eq!(expected, parsed.unwrap().content);
    assert_eq!(1, adapter.stats().plugin_results);
    assert_eq!(1, adapter.stats().messages_parsed);
}

#[test]
fn filtered_message_yields_no_output() {
    let frame = dlt_frame();
    let mut adapter = adapter_over(vec![Ok((178, None))]);
    let (rest_start, parsed) = adapter.parse(&frame, None).expect("parse");
    assert_eq!(frame.len(), rest_start);
    assert!(parsed.is_none());
    assert_eq!(1, adapter.stats().messages_filtered);
}

#[test]
fn incomplete_then_retry() {
    let frame = dlt_frame();
    let prefix: Vec<u8> = frame[..10].to_vec();
    let mut adapter = adapter_over(vec![
        Err(PortError::Incomplete),
        Ok((178, Some(dlt_message()))),
    ]);
    let first = adapter.parse(&prefix, None);
    assert!(matches!(first, Err(ParseError::Incomplete)));
    let (rest_start, parsed) = adapter.parse(&frame, None).expect("retry");
    assert_eq!(frame.len(), rest_start);
    assert_eq!(dlt_message(), parsed.unwrap().content);
}

#[test]
fn parse_error_surfaces_message() {
    let mut adapter = adapter_over(vec![Err(PortError::Parse("bad frame".to_string()))]);
    let r = adapter.parse(&vec![1, 2, 3], None);
    match r {
        Err(ParseError::Parse(msg)) => assert_eq!("bad frame", msg),
        other => panic!("unexpected result: {:?}", other),
    }
}

#[test]
fn version_and_shutdown_round_trips() {
    let proxy = LocalParserProxy::new(3, ScriptedParser::new(vec![]));
    let mut session = PluginSession::new(proxy, 3);
    // Runtime calls are gated behind `Init` as well.
    assert_eq!(Err(PluginError::Invalid), session.version());
    session.init().expect("init");
    assert_eq!(Ok(1), session.version());
    assert_eq!(Ok(()), session.shutdown());
}

#[test]
fn guest_answers_nonsense_with_runtime_error() {
    let mut port = ScriptedParser::new(vec![]);
    // An unparsable request.
    let reply = handle_parser_message(&mut port, &vec![42]);
    assert_eq!(
        PluginRpc::Runtime(RuntimeResponse::Error),
        decode_parser_response(&reply).unwrap()
    );
    // A response-kind payload sent as a request.
    let bad = {
        let mut v = vec![1u8];
        v.extend_from_slice(&encode_parser_payload(&DltParserRpc::SetupDone));
        v
    };
    let reply = handle_parser_message(&mut port, &bad);
    assert_eq!(
        PluginRpc::Runtime(RuntimeResponse::Error),
        decode_parser_response(&reply).unwrap()
    );
}

#[test]
fn empty_batch_is_invalid_and_poisons() {
    // A guest that acknowledges setup and then answers `Parse` with an empty
    // batch, which the host treats as a protocol violation.
    struct EmptyBatchProxy {
        done_setup: bool,
    }
    impl plugin_host::PluginProxy for EmptyBatchProxy {
        fn id(&self) -> usize {
            13
        }

        fn call(&mut self, request: &Vec<u8>) -> Result<Vec<u8>, PluginError> {
            if request.as_slice() == [0u8, 1] {
                return Ok(vec![0, 1]);
            }
            let payload = if !self.done_setup {
                self.done_setup = true;
                encode_parser_payload(&DltParserRpc::SetupDone)
            } else {
                encode_parser_payload(&DltParserRpc::ParseResult(vec![]))
            };
            let mut enveloped = vec![1u8];
            enveloped.extend_from_slice(&payload);
            Ok(enveloped)
        }
    }

    let mut session = PluginSession::new(EmptyBatchProxy { done_setup: false }, 13);
    session.init().expect("init");
    let mut adapter = DltParserProxy::new(session, true).expect("setup");
    let first = adapter.parse(&vec![1, 2, 3], None);
    assert!(matches!(first, Err(ParseError::Invalid)));
    // The violation is fatal: the next call fails without reaching the guest.
    let second = adapter.parse(&vec![1, 2, 3], None);
    assert!(matches!(second, Err(ParseError::Invalid)));
}
