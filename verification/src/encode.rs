//! Executable encoders, each proved to produce exactly the spec-level wire
//! form of its message. Encoding reserves 256 bytes of scratch before growth
//! to amortize small messages.

use crate::codec::{
    se_byte_source_rpc, se_dlt_parser_rpc, se_parse_output, se_parser_request, se_parser_response,
    se_parser_result, se_reload_output, se_reload_result, se_result_list, se_runtime_request,
    se_runtime_response, se_source_request, se_source_response, se_source_settings,
};
use crate::rpc::{
    results_view, ByteSourceRpc, DltParserRpc, ParseOutput, ParserRequest, ParserResponse,
    ParserResult, ParserResultV, PluginRpc, ReloadOutput, ReloadResult, RuntimeRequest,
    RuntimeResponse, SourceRequest, SourceResponse, SourceSettings,
};
use crate::wire::{
    push_bool, push_bytes, push_opt_string, push_string, push_u64, push_u8, push_usize,
};
use vstd::prelude::*;

verus! {

fn encode_runtime_request(out: &mut Vec<u8>, m: &RuntimeRequest)
    ensures
        final(out)@ == old(out)@ + se_runtime_request(*m),
{
    match m {
        RuntimeRequest::Version => push_u8(out, 0),
        RuntimeRequest::Init => push_u8(out, 1),
        RuntimeRequest::Shutdown => push_u8(out, 2),
    }
}

fn encode_runtime_response(out: &mut Vec<u8>, m: &RuntimeResponse)
    ensures
        final(out)@ == old(out)@ + se_runtime_response(*m),
{
    match m {
        RuntimeResponse::Version(v) => {
            push_u8(out, 0);
            push_u64(out, *v);
            proof {
                assert(out@ =~= old(out)@ + se_runtime_response(RuntimeResponse::Version(*v)));
            }
        },
        RuntimeResponse::Init => push_u8(out, 1),
        RuntimeResponse::Shutdown => push_u8(out, 2),
        RuntimeResponse::Error => push_u8(out, 3),
    }
}

fn encode_parse_output(out: &mut Vec<u8>, o: &ParseOutput)
    ensures
        final(out)@ == old(out)@ + se_parse_output(o@),
{
    push_usize(out, o.bytes_remaining);
    push_opt_string(out, &o.message);
    proof {
        assert(out@ =~= old(out)@ + se_parse_output(o@));
    }
}

fn encode_parser_result(out: &mut Vec<u8>, m: &ParserResult)
    ensures
        final(out)@ == old(out)@ + se_parser_result(m@),
{
    match m {
        ParserResult::ParseOk(o) => {
            push_u8(out, 0);
            encode_parse_output(out, o);
            proof {
                assert(out@ =~= old(out)@ + se_parser_result(m@));
            }
        },
        ParserResult::ParseIncomplete => push_u8(out, 1),
        ParserResult::ParseEof => push_u8(out, 2),
        ParserResult::ParseError(s) => {
            push_u8(out, 3);
            push_string(out, s);
            proof {
                assert(out@ =~= old(out)@ + se_parser_result(m@));
            }
        },
    }
}

proof fn lemma_se_result_list_snoc(rs: Seq<ParserResultV>, i: int)
    requires
        0 <= i < rs.len(),
    ensures
        se_result_list(rs.take(i + 1)) == se_result_list(rs.take(i)) + se_parser_result(rs[i]),
    decreases i,
{
    if i == 0 {
        assert(rs.take(1) =~= seq![rs[0]]);
        assert(seq![rs[0]].skip(1) =~= Seq::<ParserResultV>::empty());
        assert(rs.take(0) =~= Seq::<ParserResultV>::empty());
        assert(se_result_list(rs.take(1)) =~= se_result_list(rs.take(0)) + se_parser_result(rs[0]));
    } else {
        let tail = rs.skip(1);
        lemma_se_result_list_snoc(tail, i - 1);
        assert(rs.take(i + 1).skip(1) =~= tail.take(i));
        assert(rs.take(i).skip(1) =~= tail.take(i - 1));
        assert(rs.take(i + 1)[0] == rs[0]);
        assert(rs.take(i)[0] == rs[0]);
        assert(tail[i - 1] == rs[i]);
        assert(se_result_list(rs.take(i + 1)) =~= se_result_list(rs.take(i)) + se_parser_result(
            rs[i],
        ));
    }
}

fn encode_result_list(out: &mut Vec<u8>, rs: &Vec<ParserResult>)
    ensures
        final(out)@ == old(out)@ + se_result_list(results_view(rs@)),
{
    let ghost rv = results_view(rs@);
    let mut i: usize = 0;
    proof {
        assert(rv.take(0) =~= Seq::<ParserResultV>::empty());
        assert(out@ =~= old(out)@ + se_result_list(rv.take(0)));
    }
    while i < rs.len()
        invariant
            i <= rs@.len(),
            rv == results_view(rs@),
            out@ == old(out)@ + se_result_list(rv.take(i as int)),
        decreases rs@.len() - i,
    {
        encode_parser_result(out, &rs[i]);
        proof {
            lemma_se_result_list_snoc(rv, i as int);
            assert(rv[i as int] == rs@[i as int]@);
            assert(out@ =~= old(out)@ + se_result_list(rv.take(i as int + 1)));
        }
        i = i + 1;
    }
    proof {
        assert(rv.take(rs@.len() as int) =~= rv);
    }
}

fn encode_dlt_parser_rpc(out: &mut Vec<u8>, m: &DltParserRpc)
    ensures
        final(out)@ == old(out)@ + se_dlt_parser_rpc(m@),
{
    match m {
        DltParserRpc::Setup(s) => {
            push_u8(out, 0);
            push_bool(out, s.with_storage_header);
            proof {
                assert(out@ =~= old(out)@ + se_dlt_parser_rpc(m@));
            }
        },
        DltParserRpc::SetupDone => push_u8(out, 1),
        DltParserRpc::Parse(i) => {
            push_u8(out, 2);
            push_bytes(out, &i.bytes);
            proof {
                assert(out@ =~= old(out)@ + se_dlt_parser_rpc(m@));
            }
        },
        DltParserRpc::ParseResult(rs) => {
            push_u8(out, 3);
            push_u64(out, rs.len() as u64);
            encode_result_list(out, rs);
            proof {
                assert(results_view(rs@).len() == rs@.len());
                assert(out@ =~= old(out)@ + se_dlt_parser_rpc(m@));
            }
        },
    }
}

fn encode_source_settings(out: &mut Vec<u8>, s: &SourceSettings)
    ensures
        final(out)@ == old(out)@ + se_source_settings(s@),
{
    push_string(out, &s.input_path);
    push_usize(out, s.total_capacity);
    push_usize(out, s.buffer_min);
    proof {
        assert(out@ =~= old(out)@ + se_source_settings(s@));
    }
}

fn encode_reload_output(out: &mut Vec<u8>, o: &ReloadOutput)
    ensures
        final(out)@ == old(out)@ + se_reload_output(o@),
{
    push_usize(out, o.newly_loaded_bytes);
    push_usize(out, o.available_bytes);
    push_usize(out, o.skipped_bytes);
    push_bytes(out, &o.bytes);
    proof {
        assert(out@ =~= old(out)@ + se_reload_output(o@));
    }
}

fn encode_reload_result(out: &mut Vec<u8>, m: &ReloadResult)
    ensures
        final(out)@ == old(out)@ + se_reload_result(m@),
{
    match m {
        ReloadResult::ReloadOk(o) => {
            push_u8(out, 0);
            encode_reload_output(out, o);
            proof {
                assert(out@ =~= old(out)@ + se_reload_result(m@));
            }
        },
        ReloadResult::ReloadEof => push_u8(out, 1),
        ReloadResult::ReloadError(s) => {
            push_u8(out, 2);
            push_string(out, s);
            proof {
                assert(out@ =~= old(out)@ + se_reload_result(m@));
            }
        },
    }
}

fn encode_byte_source_rpc(out: &mut Vec<u8>, m: &ByteSourceRpc)
    ensures
        final(out)@ == old(out)@ + se_byte_source_rpc(m@),
{
    match m {
        ByteSourceRpc::Setup(s) => {
            push_u8(out, 0);
            encode_source_settings(out, s);
            proof {
                assert(out@ =~= old(out)@ + se_byte_source_rpc(m@));
            }
        },
        ByteSourceRpc::SetupDone => push_u8(out, 1),
        ByteSourceRpc::Consume(n) => {
            push_u8(out, 2);
            push_usize(out, *n);
            proof {
                assert(out@ =~= old(out)@ + se_byte_source_rpc(m@));
            }
        },
        ByteSourceRpc::ConsumeDone => push_u8(out, 3),
        ByteSourceRpc::Reload => push_u8(out, 4),
        ByteSourceRpc::ReloadResult(r) => {
            push_u8(out, 5);
            encode_reload_result(out, r);
            proof {
                assert(out@ =~= old(out)@ + se_byte_source_rpc(m@));
            }
        },
    }
}

/// Encodes a bare parser-kind payload, as carried inside a `Plugin` envelope.
pub fn encode_parser_payload(x: &DltParserRpc) -> (r: Vec<u8>)
    ensures
        r@ == se_dlt_parser_rpc(x@),
{
    let mut out: Vec<u8> = Vec::with_capacity(256);
    encode_dlt_parser_rpc(&mut out, x);
    proof {
        assert(out@ =~= se_dlt_parser_rpc(x@));
    }
    out
}

/// Encodes a bare byte-source-kind payload.
pub fn encode_source_payload(x: &ByteSourceRpc) -> (r: Vec<u8>)
    ensures
        r@ == se_byte_source_rpc(x@),
{
    let mut out: Vec<u8> = Vec::with_capacity(256);
    encode_byte_source_rpc(&mut out, x);
    proof {
        assert(out@ =~= se_byte_source_rpc(x@));
    }
    out
}

/// Encodes a runtime-level request envelope, the same bytes for every plugin
/// kind: the registry speaks it to any guest without knowing its kind.
pub fn encode_runtime_request_envelope(m: &RuntimeRequest) -> (r: Vec<u8>)
    ensures
        r@ == seq![0u8] + se_runtime_request(*m),
{
    let mut out: Vec<u8> = Vec::with_capacity(256);
    push_u8(&mut out, 0);
    encode_runtime_request(&mut out, m);
    proof {
        assert(out@ =~= seq![0u8] + se_runtime_request(*m));
    }
    out
}

/// Encodes a full parser-kind request message.
pub fn encode_parser_request(x: &ParserRequest) -> (r: Vec<u8>)
    ensures
        r@ == se_parser_request(x@),
{
    let mut out: Vec<u8> = Vec::with_capacity(256);
    match x {
        PluginRpc::Runtime(m) => {
            push_u8(&mut out, 0);
            encode_runtime_request(&mut out, m);
        },
        PluginRpc::Plugin(t) => {
            push_u8(&mut out, 1);
            encode_dlt_parser_rpc(&mut out, t);
        },
    }
    proof {
        assert(out@ =~= se_parser_request(x@));
    }
    out
}

/// Encodes a full parser-kind response message.
pub fn encode_parser_response(x: &ParserResponse) -> (r: Vec<u8>)
    ensures
        r@ == se_parser_response(x@),
{
    let mut out: Vec<u8> = Vec::with_capacity(256);
    match x {
        PluginRpc::Runtime(m) => {
            push_u8(&mut out, 0);
            encode_runtime_response(&mut out, m);
        },
        PluginRpc::Plugin(t) => {
            push_u8(&mut out, 1);
            encode_dlt_parser_rpc(&mut out, t);
        },
    }
    proof {
        assert(out@ =~= se_parser_response(x@));
    }
    out
}

/// Encodes a full byte-source-kind request message.
pub fn encode_source_request(x: &SourceRequest) -> (r: Vec<u8>)
    ensures
        r@ == se_source_request(x@),
{
    let mut out: Vec<u8> = Vec::with_capacity(256);
    match x {
        PluginRpc::Runtime(m) => {
            push_u8(&mut out, 0);
            encode_runtime_request(&mut out, m);
        },
        PluginRpc::Plugin(t) => {
            push_u8(&mut out, 1);
            encode_byte_source_rpc(&mut out, t);
        },
    }
    proof {
        assert(out@ =~= se_source_request(x@));
    }
    out
}

/// Encodes a full byte-source-kind response message.
pub fn encode_source_response(x: &SourceResponse) -> (r: Vec<u8>)
    ensures
        r@ == se_source_response(x@),
{
    let mut out: Vec<u8> = Vec::with_capacity(256);
    match x {
        PluginRpc::Runtime(m) => {
            push_u8(&mut out, 0);
            encode_runtime_response(&mut out, m);
        },
        PluginRpc::Plugin(t) => {
            push_u8(&mut out, 1);
            encode_byte_source_rpc(&mut out, t);
        },
    }
    proof {
        assert(out@ =~= se_source_response(x@));
    }
    out
}

} // verus!
