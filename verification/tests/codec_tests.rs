//! Round trips and failure cases of the wire codec.

use plugin_host::decode::{
    decode_parser_request, decode_parser_response, decode_source_request, decode_source_response,
};
use plugin_host::encode::{
    encode_parser_request, encode_parser_response, encode_source_request, encode_source_response,
};
use plugin_host::rpc::{
    ByteSourceRpc, DltParserRpc, ParseInput, ParseOutput, ParserResult, ParserSettings, PluginRpc,
    ReloadOutput, ReloadResult, RuntimeRequest, RuntimeResponse, SourceSettings,
};

#[test]
fn test_dlt_requests() {
    let items = [
        PluginRpc::Runtime(RuntimeRequest::Init),
        PluginRpc::Plugin(DltParserRpc::Parse(ParseInput {
            bytes: [0, 1, 2, 3].to_vec(),
        })),
    ];

    for item in items {
        let bytes = encode_parser_request(&item);
        let deserialized = decode_parser_request(&bytes).unwrap();
        assert_eq!(item, deserialized);
    }
}

#[test]
fn test_dlt_responses() {
    let items = [
        PluginRpc::Runtime(RuntimeResponse::Init),
        PluginRpc::Plugin(DltParserRpc::ParseResult(vec![ParserResult::ParseEof])),
    ];

    for item in items {
        let bytes = encode_parser_response(&item);
        let deserialized = decode_parser_response(&bytes).unwrap();
        assert_eq!(item, deserialized);
    }
}

#[test]
fn round_trip_every_parser_request_variant() {
    let items = [
        PluginRpc::Runtime(RuntimeRequest::Version),
        PluginRpc::Runtime(RuntimeRequest::Init),
        PluginRpc::Runtime(RuntimeRequest::Shutdown),
        PluginRpc::Plugin(DltParserRpc::Setup(ParserSettings {
            with_storage_header: true,
        })),
        PluginRpc::Plugin(DltParserRpc::Setup(ParserSettings {
            with_storage_header: false,
        })),
        PluginRpc::Plugin(DltParserRpc::SetupDone),
        PluginRpc::Plugin(DltParserRpc::Parse(ParseInput {
            bytes: vec![0x44, 0x4C, 0x54, 0x01],
        })),
        PluginRpc::Plugin(DltParserRpc::ParseResult(vec![
            ParserResult::ParseOk(ParseOutput {
                bytes_remaining: 17,
                message: Some("h\u{e9}llo\u{4}w\u{f6}rld".to_string()),
            }),
            ParserResult::ParseOk(ParseOutput {
                bytes_remaining: 5,
                message: None,
            }),
            ParserResult::ParseIncomplete,
        ])),
        PluginRpc::Plugin(DltParserRpc::ParseResult(vec![ParserResult::ParseError(
            "bad frame".to_string(),
        )])),
    ];
    for item in items {
        let bytes = encode_parser_request(&item);
        assert_eq!(item, decode_parser_request(&bytes).unwrap());
        let bytes2 = encode_parser_response(&PluginRpc::Plugin(DltParserRpc::SetupDone));
        assert_eq!(
            PluginRpc::<RuntimeResponse, DltParserRpc>::Plugin(DltParserRpc::SetupDone),
            decode_parser_response(&bytes2).unwrap()
        );
    }
}

#[test]
fn round_trip_every_source_variant() {
    let requests = [
        PluginRpc::Runtime(RuntimeRequest::Version),
        PluginRpc::Plugin(ByteSourceRpc::Setup(SourceSettings {
            input_path: "logs/input.dlt".to_string(),
            total_capacity: 512 * 1024,
            buffer_min: 4096,
        })),
        PluginRpc::Plugin(ByteSourceRpc::Consume(42)),
        PluginRpc::Plugin(ByteSourceRpc::Reload),
    ];
    for item in requests {
        let bytes = encode_source_request(&item);
        assert_eq!(item, decode_source_request(&bytes).unwrap());
    }
    let responses = [
        PluginRpc::Runtime(RuntimeResponse::Version(1)),
        PluginRpc::Runtime(RuntimeResponse::Error),
        PluginRpc::Plugin(ByteSourceRpc::SetupDone),
        PluginRpc::Plugin(ByteSourceRpc::ConsumeDone),
        PluginRpc::Plugin(ByteSourceRpc::ReloadResult(ReloadResult::ReloadOk(
            ReloadOutput {
                newly_loaded_bytes: 3,
                available_bytes: 7,
                skipped_bytes: 0,
                bytes: vec![0xAA, 0xBB, 0xCC],
            },
        ))),
        PluginRpc::Plugin(ByteSourceRpc::ReloadResult(ReloadResult::ReloadEof)),
        PluginRpc::Plugin(ByteSourceRpc::ReloadResult(ReloadResult::ReloadError(
            "device gone".to_string(),
        ))),
    ];
    for item in responses {
        let bytes = encode_source_response(&item);
        assert_eq!(item, decode_source_response(&bytes).unwrap());
    }
}

#[test]
fn exact_wire_bytes_of_small_messages() {
    // Envelope tag 0 = runtime, then the runtime discriminant.
    let init = encode_parser_request(&PluginRpc::Runtime(RuntimeRequest::Init));
    assert_eq!(vec![0u8, 1], init);
    let version = encode_parser_request(&PluginRpc::Runtime(RuntimeRequest::Version));
    assert_eq!(vec![0u8, 0], version);
    // Envelope tag 1 = plugin; Parse is payload tag 2 with a length-prefixed
    // byte field, little-endian.
    let parse = encode_parser_request(&PluginRpc::Plugin(DltParserRpc::Parse(ParseInput {
        bytes: vec![0xAB, 0xCD],
    })));
    assert_eq!(vec![1u8, 2, 2, 0, 0, 0, 0, 0, 0, 0, 0xAB, 0xCD], parse);
    // Consume carries its offset as a little-endian u64.
    let consume = encode_source_request(&PluginRpc::Plugin(ByteSourceRpc::Consume(0x0102)));
    assert_eq!(vec![1u8, 2, 0x02, 0x01, 0, 0, 0, 0, 0, 0], consume);
}

#[test]
fn decode_rejects_truncated_and_corrupt_buffers() {
    // Empty buffer.
    assert!(decode_parser_request(&vec![]).is_err());
    // Unknown envelope tag.
    assert!(decode_parser_request(&vec![9]).is_err());
    // Unknown payload discriminant.
    assert!(decode_parser_request(&vec![1, 200]).is_err());
    // Truncated length prefix.
    assert!(decode_parser_request(&vec![1, 2, 2, 0, 0]).is_err());
    // Length prefix running past the buffer.
    assert!(decode_parser_request(&vec![1, 2, 9, 0, 0, 0, 0, 0, 0, 0, 1]).is_err());
    // Trailing garbage after a complete message.
    let mut init = encode_parser_request(&PluginRpc::Runtime(RuntimeRequest::Init));
    init.push(0);
    assert!(decode_parser_request(&init).is_err());
    // A bool field must be 0 or 1.
    assert!(decode_parser_request(&vec![1, 0, 7]).is_err());
}

#[test]
fn decode_rejects_invalid_utf8_strings() {
    let mut bytes = encode_source_request(&PluginRpc::Plugin(ByteSourceRpc::Setup(
        SourceSettings {
            input_path: "ab".to_string(),
            total_capacity: 1,
            buffer_min: 1,
        },
    )));
    // The path's bytes sit right behind the envelope tag, the payload tag and
    // the 8-byte length prefix; 0xFF can begin no UTF-8 scalar.
    assert_eq!(bytes[10], b'a');
    bytes[10] = 0xFF;
    assert!(decode_source_request(&bytes).is_err());
}
