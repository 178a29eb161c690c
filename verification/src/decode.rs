//! Executable decoders with structural validation, each proved to compute
//! exactly the spec-level parse: a whole-buffer decode succeeds if and only
//! if the buffer holds one well-formed message, and then returns exactly it.
//! A truncated or corrupt buffer yields `CodecError`, never a panic.

use crate::codec::{
    sd_byte_source_rpc, sd_dlt_parser_rpc, sd_parse_output, sd_parser_request, sd_parser_response,
    sd_parser_result, sd_reload_output, sd_reload_result, sd_result_list, sd_runtime_request,
    sd_runtime_response, sd_source_request, sd_source_response, sd_source_settings,
    spec_decode_parser_payload, spec_decode_parser_request, spec_decode_parser_response,
    spec_decode_source_payload, spec_decode_source_request, spec_decode_source_response,
};
use crate::rpc::{
    results_view, ByteSourceRpc, DltParserRpc, ParseInput, ParseOutput, ParserRequest,
    ParserResponse, ParserResult, ParserResultV, ParserSettings, PluginRpc, ReloadOutput,
    ReloadResult, RuntimeRequest, RuntimeResponse, SourceRequest, SourceResponse, SourceSettings,
};
use crate::wire::{
    read_bool, read_bytes, read_opt_string, read_string, read_u64, read_u8, read_usize, CodecError,
};
use vstd::prelude::*;

verus! {

fn read_runtime_request(b: &Vec<u8>, pos: usize) -> (r: Option<(RuntimeRequest, usize)>)
    requires
        pos <= b@.len(),
    ensures
        match r {
            Some(p) => pos <= p.1 <= b@.len() && sd_runtime_request(b@.skip(pos as int)) == Some(
                (p.0, b@.skip(p.1 as int)),
            ),
            None => sd_runtime_request(b@.skip(pos as int)) is None,
        },
{
    match read_u8(b, pos) {
        Some((t, p1)) => if t == 0 {
            Some((RuntimeRequest::Version, p1))
        } else if t == 1 {
            Some((RuntimeRequest::Init, p1))
        } else if t == 2 {
            Some((RuntimeRequest::Shutdown, p1))
        } else {
            None
        },
        None => None,
    }
}

pub(crate) fn read_runtime_response(b: &Vec<u8>, pos: usize) -> (r: Option<(RuntimeResponse, usize)>)
    requires
        pos <= b@.len(),
    ensures
        match r {
            Some(p) => pos <= p.1 <= b@.len() && sd_runtime_response(b@.skip(pos as int)) == Some(
                (p.0, b@.skip(p.1 as int)),
            ),
            None => sd_runtime_response(b@.skip(pos as int)) is None,
        },
{
    match read_u8(b, pos) {
        Some((t, p1)) => if t == 0 {
            match read_u64(b, p1) {
                Some((v, p2)) => Some((RuntimeResponse::Version(v), p2)),
                None => None,
            }
        } else if t == 1 {
            Some((RuntimeResponse::Init, p1))
        } else if t == 2 {
            Some((RuntimeResponse::Shutdown, p1))
        } else if t == 3 {
            Some((RuntimeResponse::Error, p1))
        } else {
            None
        },
        None => None,
    }
}

fn read_parse_output(b: &Vec<u8>, pos: usize) -> (r: Option<(ParseOutput, usize)>)
    requires
        pos <= b@.len(),
    ensures
        match r {
            Some(p) => pos <= p.1 <= b@.len() && sd_parse_output(b@.skip(pos as int)) == Some(
                (p.0@, b@.skip(p.1 as int)),
            ),
            None => sd_parse_output(b@.skip(pos as int)) is None,
        },
{
    match read_usize(b, pos) {
        Some((n, p1)) => match read_opt_string(b, p1) {
            Some((msg, p2)) => Some((ParseOutput { bytes_remaining: n, message: msg }, p2)),
            None => None,
        },
        None => None,
    }
}

fn read_parser_result(b: &Vec<u8>, pos: usize) -> (r: Option<(ParserResult, usize)>)
    requires
        pos <= b@.len(),
    ensures
        match r {
            Some(p) => pos <= p.1 <= b@.len() && sd_parser_result(b@.skip(pos as int)) == Some(
                (p.0@, b@.skip(p.1 as int)),
            ),
            None => sd_parser_result(b@.skip(pos as int)) is None,
        },
{
    match read_u8(b, pos) {
        Some((t, p1)) => if t == 0 {
            match read_parse_output(b, p1) {
                Some((o, p2)) => Some((ParserResult::ParseOk(o), p2)),
                None => None,
            }
        } else if t == 1 {
            Some((ParserResult::ParseIncomplete, p1))
        } else if t == 2 {
            Some((ParserResult::ParseEof, p1))
        } else if t == 3 {
            match read_string(b, p1) {
                Some((s, p2)) => Some((ParserResult::ParseError(s), p2)),
                None => None,
            }
        } else {
            None
        },
        None => None,
    }
}

fn read_result_list(b: &Vec<u8>, pos: usize, n: u64) -> (r: Option<(Vec<ParserResult>, usize)>)
    requires
        pos <= b@.len(),
    ensures
        match r {
            Some(p) => pos <= p.1 <= b@.len() && sd_result_list(b@.skip(pos as int), n as nat)
                == Some((results_view(p.0@), b@.skip(p.1 as int))),
            None => sd_result_list(b@.skip(pos as int), n as nat) is None,
        },
{
    let mut acc: Vec<ParserResult> = Vec::new();
    let mut i: u64 = 0;
    let mut cur: usize = pos;
    proof {
        assert(results_view(acc@) =~= Seq::<ParserResultV>::empty());
    }
    while i < n
        invariant
            pos <= cur <= b@.len(),
            i <= n,
            sd_result_list(b@.skip(pos as int), n as nat) == (match sd_result_list(
                b@.skip(cur as int),
                (n - i) as nat,
            ) {
                Some(q) => Some((results_view(acc@) + q.0, q.1)),
                None => None::<(Seq<ParserResultV>, Seq<u8>)>,
            }),
        decreases n - i,
    {
        match read_parser_result(b, cur) {
            Some((item, p2)) => {
                let ghost item_v = item@;
                let ghost old_acc = acc@;
                acc.push(item);
                proof {
                    assert(results_view(acc@) =~= results_view(old_acc) + seq![item_v]);
                    let k = (n - i) as nat;
                    assert(sd_result_list(b@.skip(cur as int), k) == (match sd_result_list(
                        b@.skip(p2 as int),
                        (k - 1) as nat,
                    ) {
                        Some(q) => Some((seq![item_v] + q.0, q.1)),
                        None => None::<(Seq<ParserResultV>, Seq<u8>)>,
                    }));
                    match sd_result_list(b@.skip(p2 as int), (k - 1) as nat) {
                        Some(q) => {
                            assert(results_view(old_acc) + (seq![item_v] + q.0) =~= results_view(
                                acc@,
                            ) + q.0);
                        },
                        None => {},
                    }
                }
                cur = p2;
                i = i + 1;
            },
            None => {
                proof {
                    assert(sd_result_list(b@.skip(cur as int), (n - i) as nat) is None);
                }
                return None;
            },
        }
    }
    proof {
        assert(sd_result_list(b@.skip(cur as int), 0nat) == Some(
            (Seq::<ParserResultV>::empty(), b@.skip(cur as int)),
        ));
        assert(results_view(acc@) + Seq::<ParserResultV>::empty() =~= results_view(acc@));
    }
    Some((acc, cur))
}

fn read_dlt_parser_rpc(b: &Vec<u8>, pos: usize) -> (r: Option<(DltParserRpc, usize)>)
    requires
        pos <= b@.len(),
    ensures
        match r {
            Some(p) => pos <= p.1 <= b@.len() && sd_dlt_parser_rpc(b@.skip(pos as int)) == Some(
                (p.0@, b@.skip(p.1 as int)),
            ),
            None => sd_dlt_parser_rpc(b@.skip(pos as int)) is None,
        },
{
    match read_u8(b, pos) {
        Some((t, p1)) => if t == 0 {
            match read_bool(b, p1) {
                Some((w, p2)) => Some(
                    (DltParserRpc::Setup(ParserSettings { with_storage_header: w }), p2),
                ),
                None => None,
            }
        } else if t == 1 {
            Some((DltParserRpc::SetupDone, p1))
        } else if t == 2 {
            match read_bytes(b, p1) {
                Some((bs, p2)) => Some((DltParserRpc::Parse(ParseInput { bytes: bs }), p2)),
                None => None,
            }
        } else if t == 3 {
            match read_u64(b, p1) {
                Some((n, p2)) => match read_result_list(b, p2, n) {
                    Some((rs, p3)) => Some((DltParserRpc::ParseResult(rs), p3)),
                    None => None,
                },
                None => None,
            }
        } else {
            None
        },
        None => None,
    }
}

fn read_source_settings(b: &Vec<u8>, pos: usize) -> (r: Option<(SourceSettings, usize)>)
    requires
        pos <= b@.len(),
    ensures
        match r {
            Some(p) => pos <= p.1 <= b@.len() && sd_source_settings(b@.skip(pos as int)) == Some(
                (p.0@, b@.skip(p.1 as int)),
            ),
            None => sd_source_settings(b@.skip(pos as int)) is None,
        },
{
    match read_string(b, pos) {
        Some((path, p1)) => match read_usize(b, p1) {
            Some((cap, p2)) => match read_usize(b, p2) {
                Some((min, p3)) => Some(
                    (
                        SourceSettings {
                            input_path: path,
                            total_capacity: cap,
                            buffer_min: min,
                        },
                        p3,
                    ),
                ),
                None => None,
            },
            None => None,
        },
        None => None,
    }
}

fn read_reload_output(b: &Vec<u8>, pos: usize) -> (r: Option<(ReloadOutput, usize)>)
    requires
        pos <= b@.len(),
    ensures
        match r {
            Some(p) => pos <= p.1 <= b@.len() && sd_reload_output(b@.skip(pos as int)) == Some(
                (p.0@, b@.skip(p.1 as int)),
            ),
            None => sd_reload_output(b@.skip(pos as int)) is None,
        },
{
    match read_usize(b, pos) {
        Some((newly, p1)) => match read_usize(b, p1) {
            Some((avail, p2)) => match read_usize(b, p2) {
                Some((skipped, p3)) => match read_bytes(b, p3) {
                    Some((bs, p4)) => Some(
                        (
                            ReloadOutput {
                                newly_loaded_bytes: newly,
                                available_bytes: avail,
                                skipped_bytes: skipped,
                                bytes: bs,
                            },
                            p4,
                        ),
                    ),
                    None => None,
                },
                None => None,
            },
            None => None,
        },
        None => None,
    }
}

fn read_reload_result(b: &Vec<u8>, pos: usize) -> (r: Option<(ReloadResult, usize)>)
    requires
        pos <= b@.len(),
    ensures
        match r {
            Some(p) => pos <= p.1 <= b@.len() && sd_reload_result(b@.skip(pos as int)) == Some(
                (p.0@, b@.skip(p.1 as int)),
            ),
            None => sd_reload_result(b@.skip(pos as int)) is None,
        },
{
    match read_u8(b, pos) {
        Some((t, p1)) => if t == 0 {
            match read_reload_output(b, p1) {
                Some((o, p2)) => Some((ReloadResult::ReloadOk(o), p2)),
                None => None,
            }
        } else if t == 1 {
            Some((ReloadResult::ReloadEof, p1))
        } else if t == 2 {
            match read_string(b, p1) {
                Some((s, p2)) => Some((ReloadResult::ReloadError(s), p2)),
                None => None,
            }
        } else {
            None
        },
        None => None,
    }
}

fn read_byte_source_rpc(b: &Vec<u8>, pos: usize) -> (r: Option<(ByteSourceRpc, usize)>)
    requires
        pos <= b@.len(),
    ensures
        match r {
            Some(p) => pos <= p.1 <= b@.len() && sd_byte_source_rpc(b@.skip(pos as int)) == Some(
                (p.0@, b@.skip(p.1 as int)),
            ),
            None => sd_byte_source_rpc(b@.skip(pos as int)) is None,
        },
{
    match read_u8(b, pos) {
        Some((t, p1)) => if t == 0 {
            match read_source_settings(b, p1) {
                Some((s, p2)) => Some((ByteSourceRpc::Setup(s), p2)),
                None => None,
            }
        } else if t == 1 {
            Some((ByteSourceRpc::SetupDone, p1))
        } else if t == 2 {
            match read_usize(b, p1) {
                Some((n, p2)) => Some((ByteSourceRpc::Consume(n), p2)),
                None => None,
            }
        } else if t == 3 {
            Some((ByteSourceRpc::ConsumeDone, p1))
        } else if t == 4 {
            Some((ByteSourceRpc::Reload, p1))
        } else if t == 5 {
            match read_reload_result(b, p1) {
                Some((m, p2)) => Some((ByteSourceRpc::ReloadResult(m), p2)),
                None => None,
            }
        } else {
            None
        },
        None => None,
    }
}

/// Decodes a bare parser-kind payload spanning the whole buffer.
pub fn decode_parser_payload(b: &Vec<u8>) -> (r: Result<DltParserRpc, CodecError>)
    ensures
        match r {
            Ok(m) => spec_decode_parser_payload(b@) == Some(m@),
            Err(_) => spec_decode_parser_payload(b@) is None,
        },
{
    proof {
        assert(b@.skip(0) =~= b@);
    }
    match read_dlt_parser_rpc(b, 0) {
        Some((m, end)) => if end == b.len() {
            proof {
                assert(b@.skip(end as int).len() == 0);
            }
            Ok(m)
        } else {
            Err(CodecError)
        },
        None => Err(CodecError),
    }
}

/// Decodes a bare byte-source-kind payload spanning the whole buffer.
pub fn decode_source_payload(b: &Vec<u8>) -> (r: Result<ByteSourceRpc, CodecError>)
    ensures
        match r {
            Ok(m) => spec_decode_source_payload(b@) == Some(m@),
            Err(_) => spec_decode_source_payload(b@) is None,
        },
{
    proof {
        assert(b@.skip(0) =~= b@);
    }
    match read_byte_source_rpc(b, 0) {
        Some((m, end)) => if end == b.len() {
            proof {
                assert(b@.skip(end as int).len() == 0);
            }
            Ok(m)
        } else {
            Err(CodecError)
        },
        None => Err(CodecError),
    }
}

/// Decodes a full parser-kind request message spanning the whole buffer.
pub fn decode_parser_request(b: &Vec<u8>) -> (r: Result<ParserRequest, CodecError>)
    ensures
        match r {
            Ok(m) => spec_decode_parser_request(b@) == Some(m@),
            Err(_) => spec_decode_parser_request(b@) is None,
        },
{
    proof {
        assert(b@.skip(0) =~= b@);
    }
    let parsed = match read_u8(b, 0) {
        Some((t, p1)) => if t == 0 {
            match read_runtime_request(b, p1) {
                Some((m, p2)) => Some((PluginRpc::Runtime(m), p2)),
                None => None,
            }
        } else if t == 1 {
            match read_dlt_parser_rpc(b, p1) {
                Some((m, p2)) => Some((PluginRpc::Plugin(m), p2)),
                None => None,
            }
        } else {
            None
        },
        None => None,
    };
    match parsed {
        Some((m, end)) => if end == b.len() {
            proof {
                assert(b@.skip(end as int).len() == 0);
            }
            Ok(m)
        } else {
            Err(CodecError)
        },
        None => Err(CodecError),
    }
}

/// Decodes a full parser-kind response message spanning the whole buffer.
pub fn decode_parser_response(b: &Vec<u8>) -> (r: Result<ParserResponse, CodecError>)
    ensures
        match r {
            Ok(m) => spec_decode_parser_response(b@) == Some(m@),
            Err(_) => spec_decode_parser_response(b@) is None,
        },
{
    proof {
        assert(b@.skip(0) =~= b@);
    }
    let parsed = match read_u8(b, 0) {
        Some((t, p1)) => if t == 0 {
            match read_runtime_response(b, p1) {
                Some((m, p2)) => Some((PluginRpc::Runtime(m), p2)),
                None => None,
            }
        } else if t == 1 {
            match read_dlt_parser_rpc(b, p1) {
                Some((m, p2)) => Some((PluginRpc::Plugin(m), p2)),
                None => None,
            }
        } else {
            None
        },
        None => None,
    };
    match parsed {
        Some((m, end)) => if end == b.len() {
            proof {
                assert(b@.skip(end as int).len() == 0);
            }
            Ok(m)
        } else {
            Err(CodecError)
        },
        None => Err(CodecError),
    }
}

/// Decodes a full byte-source-kind request message spanning the whole buffer.
pub fn decode_source_request(b: &Vec<u8>) -> (r: Result<SourceRequest, CodecError>)
    ensures
        match r {
            Ok(m) => spec_decode_source_request(b@) == Some(m@),
            Err(_) => spec_decode_source_request(b@) is None,
        },
{
    proof {
        assert(b@.skip(0) =~= b@);
    }
    let parsed = match read_u8(b, 0) {
        Some((t, p1)) => if t == 0 {
            match read_runtime_request(b, p1) {
                Some((m, p2)) => Some((PluginRpc::Runtime(m), p2)),
                None => None,
            }
        } else if t == 1 {
            match read_byte_source_rpc(b, p1) {
                Some((m, p2)) => Some((PluginRpc::Plugin(m), p2)),
                None => None,
            }
        } else {
            None
        },
        None => None,
    };
    match parsed {
        Some((m, end)) => if end == b.len() {
            proof {
                assert(b@.skip(end as int).len() == 0);
            }
            Ok(m)
        } else {
            Err(CodecError)
        },
        None => Err(CodecError),
    }
}

/// Decodes a full byte-source-kind response message spanning the whole buffer.
pub fn decode_source_response(b: &Vec<u8>) -> (r: Result<SourceResponse, CodecError>)
    ensures
        match r {
            Ok(m) => spec_decode_source_response(b@) == Some(m@),
            Err(_) => spec_decode_source_response(b@) is None,
        },
{
    proof {
        assert(b@.skip(0) =~= b@);
    }
    let parsed = match read_u8(b, 0) {
        Some((t, p1)) => if t == 0 {
            match read_runtime_response(b, p1) {
                Some((m, p2)) => Some((PluginRpc::Runtime(m), p2)),
                None => None,
            }
        } else if t == 1 {
            match read_byte_source_rpc(b, p1) {
                Some((m, p2)) => Some((PluginRpc::Plugin(m), p2)),
                None => None,
            }
        } else {
            None
        },
        None => None,
    };
    match parsed {
        Some((m, end)) => if end == b.len() {
            proof {
                assert(b@.skip(end as int).len() == 0);
            }
            Ok(m)
        } else {
            Err(CodecError)
        },
        None => Err(CodecError),
    }
}

} // verus!
