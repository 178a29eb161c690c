//! The wire form of every envelope, at the specification level.
//!
//! The encoding is self-describing and endian-fixed: little-endian integers,
//! one-byte discriminants (`Runtime = 0`, `Plugin = 1`, and in declaration
//! order within each payload enum), and length-prefixed variable fields.
//! `se_*` gives the exact byte sequence of a message model; `sd_*` parses a
//! byte sequence back. The `lemma_*_round_trip` lemmas state the codec law:
//! decoding an encoded message yields that message, for every well-formed
//! message model.

use crate::rpc::{
    ByteSourceRpcV, DltParserRpcV, ParseInputV, ParseOutputV, ParserRequestV, ParserResponseV,
    ParserResultV, ParserSettings, PluginRpcV, ReloadOutputV, ReloadResultV, RuntimeRequest,
    RuntimeResponse, SourceRequestV, SourceResponseV, SourceSettingsV,
};
use crate::wire::{
    lemma_sd_bool, lemma_sd_bytes, lemma_sd_opt_string, lemma_sd_string, lemma_sd_u64,
    lemma_sd_u8, lemma_sd_usize, sd_bool, sd_bytes, sd_opt_string, sd_string, sd_u64, sd_u8,
    sd_usize, se_bool, se_bytes, se_opt_string, se_string, se_u64, se_usize, wf_str,
};
use vstd::prelude::*;

verus! {

/// The wire revision reported by a `Version` runtime response.
pub const WIRE_REVISION: u64 = 1;

pub open spec fn se_runtime_request(m: RuntimeRequest) -> Seq<u8> {
    match m {
        RuntimeRequest::Version => seq![0u8],
        RuntimeRequest::Init => seq![1u8],
        RuntimeRequest::Shutdown => seq![2u8],
    }
}

pub open spec fn sd_runtime_request(b: Seq<u8>) -> Option<(RuntimeRequest, Seq<u8>)> {
    match sd_u8(b) {
        Some((t, r)) => if t == 0 {
            Some((RuntimeRequest::Version, r))
        } else if t == 1 {
            Some((RuntimeRequest::Init, r))
        } else if t == 2 {
            Some((RuntimeRequest::Shutdown, r))
        } else {
            None
        },
        None => None,
    }
}

pub open spec fn se_runtime_response(m: RuntimeResponse) -> Seq<u8> {
    match m {
        RuntimeResponse::Version(v) => seq![0u8] + se_u64(v),
        RuntimeResponse::Init => seq![1u8],
        RuntimeResponse::Shutdown => seq![2u8],
        RuntimeResponse::Error => seq![3u8],
    }
}

pub open spec fn sd_runtime_response(b: Seq<u8>) -> Option<(RuntimeResponse, Seq<u8>)> {
    match sd_u8(b) {
        Some((t, r)) => if t == 0 {
            match sd_u64(r) {
                Some((v, r2)) => Some((RuntimeResponse::Version(v), r2)),
                None => None,
            }
        } else if t == 1 {
            Some((RuntimeResponse::Init, r))
        } else if t == 2 {
            Some((RuntimeResponse::Shutdown, r))
        } else if t == 3 {
            Some((RuntimeResponse::Error, r))
        } else {
            None
        },
        None => None,
    }
}

pub open spec fn se_parse_output(o: ParseOutputV) -> Seq<u8> {
    se_usize(o.bytes_remaining) + se_opt_string(o.message)
}

pub open spec fn sd_parse_output(b: Seq<u8>) -> Option<(ParseOutputV, Seq<u8>)> {
    match sd_usize(b) {
        Some((n, r)) => match sd_opt_string(r) {
            Some((msg, r2)) => Some((ParseOutputV { bytes_remaining: n, message: msg }, r2)),
            None => None,
        },
        None => None,
    }
}

pub open spec fn se_parser_result(m: ParserResultV) -> Seq<u8> {
    match m {
        ParserResultV::ParseOk(o) => seq![0u8] + se_parse_output(o),
        ParserResultV::ParseIncomplete => seq![1u8],
        ParserResultV::ParseEof => seq![2u8],
        ParserResultV::ParseError(s) => seq![3u8] + se_string(s),
    }
}

pub open spec fn sd_parser_result(b: Seq<u8>) -> Option<(ParserResultV, Seq<u8>)> {
    match sd_u8(b) {
        Some((t, r)) => if t == 0 {
            match sd_parse_output(r) {
                Some((o, r2)) => Some((ParserResultV::ParseOk(o), r2)),
                None => None,
            }
        } else if t == 1 {
            Some((ParserResultV::ParseIncomplete, r))
        } else if t == 2 {
            Some((ParserResultV::ParseEof, r))
        } else if t == 3 {
            match sd_string(r) {
                Some((s, r2)) => Some((ParserResultV::ParseError(s), r2)),
                None => None,
            }
        } else {
            None
        },
        None => None,
    }
}

pub open spec fn se_result_list(rs: Seq<ParserResultV>) -> Seq<u8>
    decreases rs.len(),
{
    if rs.len() == 0 {
        Seq::empty()
    } else {
        se_parser_result(rs[0]) + se_result_list(rs.skip(1))
    }
}

pub open spec fn sd_result_list(b: Seq<u8>, n: nat) -> Option<(Seq<ParserResultV>, Seq<u8>)>
    decreases n,
{
    if n == 0 {
        Some((Seq::empty(), b))
    } else {
        match sd_parser_result(b) {
            Some((m, r)) => match sd_result_list(r, (n - 1) as nat) {
                Some((ms, r2)) => Some((seq![m] + ms, r2)),
                None => None,
            },
            None => None,
        }
    }
}

pub open spec fn se_dlt_parser_rpc(m: DltParserRpcV) -> Seq<u8> {
    match m {
        DltParserRpcV::Setup(s) => seq![0u8] + se_bool(s.with_storage_header),
        DltParserRpcV::SetupDone => seq![1u8],
        DltParserRpcV::Parse(i) => seq![2u8] + se_bytes(i.bytes),
        DltParserRpcV::ParseResult(rs) => seq![3u8] + se_u64(rs.len() as u64) + se_result_list(rs),
    }
}

pub open spec fn sd_dlt_parser_rpc(b: Seq<u8>) -> Option<(DltParserRpcV, Seq<u8>)> {
    match sd_u8(b) {
        Some((t, r)) => if t == 0 {
            match sd_bool(r) {
                Some((w, r2)) => Some(
                    (DltParserRpcV::Setup(ParserSettings { with_storage_header: w }), r2),
                ),
                None => None,
            }
        } else if t == 1 {
            Some((DltParserRpcV::SetupDone, r))
        } else if t == 2 {
            match sd_bytes(r) {
                Some((bs, r2)) => Some((DltParserRpcV::Parse(ParseInputV { bytes: bs }), r2)),
                None => None,
            }
        } else if t == 3 {
            match sd_u64(r) {
                Some((n, r2)) => match sd_result_list(r2, n as nat) {
                    Some((ms, r3)) => Some((DltParserRpcV::ParseResult(ms), r3)),
                    None => None,
                },
                None => None,
            }
        } else {
            None
        },
        None => None,
    }
}

pub open spec fn se_source_settings(s: SourceSettingsV) -> Seq<u8> {
    se_string(s.input_path) + se_usize(s.total_capacity) + se_usize(s.buffer_min)
}

pub open spec fn sd_source_settings(b: Seq<u8>) -> Option<(SourceSettingsV, Seq<u8>)> {
    match sd_string(b) {
        Some((path, r)) => match sd_usize(r) {
            Some((cap, r2)) => match sd_usize(r2) {
                Some((min, r3)) => Some(
                    (SourceSettingsV { input_path: path, total_capacity: cap, buffer_min: min }, r3),
                ),
                None => None,
            },
            None => None,
        },
        None => None,
    }
}

pub open spec fn se_reload_output(o: ReloadOutputV) -> Seq<u8> {
    se_usize(o.newly_loaded_bytes) + se_usize(o.available_bytes) + se_usize(o.skipped_bytes)
        + se_bytes(o.bytes)
}

pub open spec fn sd_reload_output(b: Seq<u8>) -> Option<(ReloadOutputV, Seq<u8>)> {
    match sd_usize(b) {
        Some((newly, r)) => match sd_usize(r) {
            Some((avail, r2)) => match sd_usize(r2) {
                Some((skipped, r3)) => match sd_bytes(r3) {
                    Some((bs, r4)) => Some(
                        (
                            ReloadOutputV {
                                newly_loaded_bytes: newly,
                                available_bytes: avail,
                                skipped_bytes: skipped,
                                bytes: bs,
                            },
                            r4,
                        ),
                    ),
                    None => None,
                },
                None => None,
            },
            None => None,
        },
        None => None,
    }
}

pub open spec fn se_reload_result(m: ReloadResultV) -> Seq<u8> {
    match m {
        ReloadResultV::ReloadOk(o) => seq![0u8] + se_reload_output(o),
        ReloadResultV::ReloadEof => seq![1u8],
        ReloadResultV::ReloadError(s) => seq![2u8] + se_string(s),
    }
}

pub open spec fn sd_reload_result(b: Seq<u8>) -> Option<(ReloadResultV, Seq<u8>)> {
    match sd_u8(b) {
        Some((t, r)) => if t == 0 {
            match sd_reload_output(r) {
                Some((o, r2)) => Some((ReloadResultV::ReloadOk(o), r2)),
                None => None,
            }
        } else if t == 1 {
            Some((ReloadResultV::ReloadEof, r))
        } else if t == 2 {
            match sd_string(r) {
                Some((s, r2)) => Some((ReloadResultV::ReloadError(s), r2)),
                None => None,
            }
        } else {
            None
        },
        None => None,
    }
}

pub open spec fn se_byte_source_rpc(m: ByteSourceRpcV) -> Seq<u8> {
    match m {
        ByteSourceRpcV::Setup(s) => seq![0u8] + se_source_settings(s),
        ByteSourceRpcV::SetupDone => seq![1u8],
        ByteSourceRpcV::Consume(n) => seq![2u8] + se_usize(n),
        ByteSourceRpcV::ConsumeDone => seq![3u8],
        ByteSourceRpcV::Reload => seq![4u8],
        ByteSourceRpcV::ReloadResult(r) => seq![5u8] + se_reload_result(r),
    }
}

pub open spec fn sd_byte_source_rpc(b: Seq<u8>) -> Option<(ByteSourceRpcV, Seq<u8>)> {
    match sd_u8(b) {
        Some((t, r)) => if t == 0 {
            match sd_source_settings(r) {
                Some((s, r2)) => Some((ByteSourceRpcV::Setup(s), r2)),
                None => None,
            }
        } else if t == 1 {
            Some((ByteSourceRpcV::SetupDone, r))
        } else if t == 2 {
            match sd_usize(r) {
                Some((n, r2)) => Some((ByteSourceRpcV::Consume(n), r2)),
                None => None,
            }
        } else if t == 3 {
            Some((ByteSourceRpcV::ConsumeDone, r))
        } else if t == 4 {
            Some((ByteSourceRpcV::Reload, r))
        } else if t == 5 {
            match sd_reload_result(r) {
                Some((m, r2)) => Some((ByteSourceRpcV::ReloadResult(m), r2)),
                None => None,
            }
        } else {
            None
        },
        None => None,
    }
}

pub open spec fn se_parser_request(m: ParserRequestV) -> Seq<u8> {
    match m {
        PluginRpcV::Runtime(r) => seq![0u8] + se_runtime_request(r),
        PluginRpcV::Plugin(t) => seq![1u8] + se_dlt_parser_rpc(t),
    }
}

pub open spec fn sd_parser_request(b: Seq<u8>) -> Option<(ParserRequestV, Seq<u8>)> {
    match sd_u8(b) {
        Some((t, r)) => if t == 0 {
            match sd_runtime_request(r) {
                Some((m, r2)) => Some((PluginRpcV::Runtime(m), r2)),
                None => None,
            }
        } else if t == 1 {
            match sd_dlt_parser_rpc(r) {
                Some((m, r2)) => Some((PluginRpcV::Plugin(m), r2)),
                None => None,
            }
        } else {
            None
        },
        None => None,
    }
}

pub open spec fn se_parser_response(m: ParserResponseV) -> Seq<u8> {
    match m {
        PluginRpcV::Runtime(r) => seq![0u8] + se_runtime_response(r),
        PluginRpcV::Plugin(t) => seq![1u8] + se_dlt_parser_rpc(t),
    }
}

pub open spec fn sd_parser_response(b: Seq<u8>) -> Option<(ParserResponseV, Seq<u8>)> {
    match sd_u8(b) {
        Some((t, r)) => if t == 0 {
            match sd_runtime_response(r) {
                Some((m, r2)) => Some((PluginRpcV::Runtime(m), r2)),
                None => None,
            }
        } else if t == 1 {
            match sd_dlt_parser_rpc(r) {
                Some((m, r2)) => Some((PluginRpcV::Plugin(m), r2)),
                None => None,
            }
        } else {
            None
        },
        None => None,
    }
}

pub open spec fn se_source_request(m: SourceRequestV) -> Seq<u8> {
    match m {
        PluginRpcV::Runtime(r) => seq![0u8] + se_runtime_request(r),
        PluginRpcV::Plugin(t) => seq![1u8] + se_byte_source_rpc(t),
    }
}

pub open spec fn sd_source_request(b: Seq<u8>) -> Option<(SourceRequestV, Seq<u8>)> {
    match sd_u8(b) {
        Some((t, r)) => if t == 0 {
            match sd_runtime_request(r) {
                Some((m, r2)) => Some((PluginRpcV::Runtime(m), r2)),
                None => None,
            }
        } else if t == 1 {
            match sd_byte_source_rpc(r) {
                Some((m, r2)) => Some((PluginRpcV::Plugin(m), r2)),
                None => None,
            }
        } else {
            None
        },
        None => None,
    }
}

pub open spec fn se_source_response(m: SourceResponseV) -> Seq<u8> {
    match m {
        PluginRpcV::Runtime(r) => seq![0u8] + se_runtime_response(r),
        PluginRpcV::Plugin(t) => seq![1u8] + se_byte_source_rpc(t),
    }
}

pub open spec fn sd_source_response(b: Seq<u8>) -> Option<(SourceResponseV, Seq<u8>)> {
    match sd_u8(b) {
        Some((t, r)) => if t == 0 {
            match sd_runtime_response(r) {
                Some((m, r2)) => Some((PluginRpcV::Runtime(m), r2)),
                None => None,
            }
        } else if t == 1 {
            match sd_byte_source_rpc(r) {
                Some((m, r2)) => Some((PluginRpcV::Plugin(m), r2)),
                None => None,
            }
        } else {
            None
        },
        None => None,
    }
}

/// A whole-buffer decode succeeds only when one message spans the buffer
/// exactly.
pub open spec fn spec_decode_parser_request(b: Seq<u8>) -> Option<ParserRequestV> {
    match sd_parser_request(b) {
        Some((m, r)) => if r.len() == 0 {
            Some(m)
        } else {
            None
        },
        None => None,
    }
}

pub open spec fn spec_decode_parser_response(b: Seq<u8>) -> Option<ParserResponseV> {
    match sd_parser_response(b) {
        Some((m, r)) => if r.len() == 0 {
            Some(m)
        } else {
            None
        },
        None => None,
    }
}

pub open spec fn spec_decode_source_request(b: Seq<u8>) -> Option<SourceRequestV> {
    match sd_source_request(b) {
        Some((m, r)) => if r.len() == 0 {
            Some(m)
        } else {
            None
        },
        None => None,
    }
}

pub open spec fn spec_decode_source_response(b: Seq<u8>) -> Option<SourceResponseV> {
    match sd_source_response(b) {
        Some((m, r)) => if r.len() == 0 {
            Some(m)
        } else {
            None
        },
        None => None,
    }
}

/// The whole-buffer parse of a bare parser-kind payload, as carried inside a
/// `Plugin` envelope.
pub open spec fn spec_decode_parser_payload(b: Seq<u8>) -> Option<DltParserRpcV> {
    match sd_dlt_parser_rpc(b) {
        Some((m, r)) => if r.len() == 0 {
            Some(m)
        } else {
            None
        },
        None => None,
    }
}

/// The whole-buffer parse of a bare byte-source-kind payload.
pub open spec fn spec_decode_source_payload(b: Seq<u8>) -> Option<ByteSourceRpcV> {
    match sd_byte_source_rpc(b) {
        Some((m, r)) => if r.len() == 0 {
            Some(m)
        } else {
            None
        },
        None => None,
    }
}

pub open spec fn wf_parse_output(o: ParseOutputV) -> bool {
    o.message matches Some(cs) ==> wf_str(cs)
}

pub open spec fn wf_parser_result(m: ParserResultV) -> bool {
    match m {
        ParserResultV::ParseOk(o) => wf_parse_output(o),
        ParserResultV::ParseIncomplete => true,
        ParserResultV::ParseEof => true,
        ParserResultV::ParseError(s) => wf_str(s),
    }
}

pub open spec fn wf_dlt_parser_rpc(m: DltParserRpcV) -> bool {
    match m {
        DltParserRpcV::Setup(_) => true,
        DltParserRpcV::SetupDone => true,
        DltParserRpcV::Parse(i) => i.bytes.len() <= u64::MAX,
        DltParserRpcV::ParseResult(rs) => rs.len() <= u64::MAX && (forall|i: int|
            0 <= i < rs.len() ==> wf_parser_result(#[trigger] rs[i])),
    }
}

pub open spec fn wf_source_settings(s: SourceSettingsV) -> bool {
    wf_str(s.input_path)
}

pub open spec fn wf_reload_output(o: ReloadOutputV) -> bool {
    o.bytes.len() <= u64::MAX
}

pub open spec fn wf_reload_result(m: ReloadResultV) -> bool {
    match m {
        ReloadResultV::ReloadOk(o) => wf_reload_output(o),
        ReloadResultV::ReloadEof => true,
        ReloadResultV::ReloadError(s) => wf_str(s),
    }
}

pub open spec fn wf_byte_source_rpc(m: ByteSourceRpcV) -> bool {
    match m {
        ByteSourceRpcV::Setup(s) => wf_source_settings(s),
        ByteSourceRpcV::SetupDone => true,
        ByteSourceRpcV::Consume(_) => true,
        ByteSourceRpcV::ConsumeDone => true,
        ByteSourceRpcV::Reload => true,
        ByteSourceRpcV::ReloadResult(r) => wf_reload_result(r),
    }
}

pub open spec fn wf_parser_request(m: ParserRequestV) -> bool {
    match m {
        PluginRpcV::Runtime(_) => true,
        PluginRpcV::Plugin(t) => wf_dlt_parser_rpc(t),
    }
}

pub open spec fn wf_parser_response(m: ParserResponseV) -> bool {
    match m {
        PluginRpcV::Runtime(_) => true,
        PluginRpcV::Plugin(t) => wf_dlt_parser_rpc(t),
    }
}

pub open spec fn wf_source_request(m: SourceRequestV) -> bool {
    match m {
        PluginRpcV::Runtime(_) => true,
        PluginRpcV::Plugin(t) => wf_byte_source_rpc(t),
    }
}

pub open spec fn wf_source_response(m: SourceResponseV) -> bool {
    match m {
        PluginRpcV::Runtime(_) => true,
        PluginRpcV::Plugin(t) => wf_byte_source_rpc(t),
    }
}

proof fn lemma_sd_runtime_request(m: RuntimeRequest, rest: Seq<u8>)
    ensures
        sd_runtime_request(se_runtime_request(m) + rest) == Some((m, rest)),
{
    match m {
        RuntimeRequest::Version => lemma_sd_u8(0u8, rest),
        RuntimeRequest::Init => lemma_sd_u8(1u8, rest),
        RuntimeRequest::Shutdown => lemma_sd_u8(2u8, rest),
    }
}

proof fn lemma_sd_runtime_response(m: RuntimeResponse, rest: Seq<u8>)
    ensures
        sd_runtime_response(se_runtime_response(m) + rest) == Some((m, rest)),
{
    match m {
        RuntimeResponse::Version(v) => {
            assert(se_runtime_response(m) + rest =~= seq![0u8] + (se_u64(v) + rest));
            lemma_sd_u8(0u8, se_u64(v) + rest);
            lemma_sd_u64(v, rest);
        },
        RuntimeResponse::Init => lemma_sd_u8(1u8, rest),
        RuntimeResponse::Shutdown => lemma_sd_u8(2u8, rest),
        RuntimeResponse::Error => lemma_sd_u8(3u8, rest),
    }
}

proof fn lemma_sd_parse_output(o: ParseOutputV, rest: Seq<u8>)
    requires
        wf_parse_output(o),
    ensures
        sd_parse_output(se_parse_output(o) + rest) == Some((o, rest)),
{
    assert(se_parse_output(o) + rest =~= se_usize(o.bytes_remaining) + (se_opt_string(o.message)
        + rest));
    lemma_sd_usize(o.bytes_remaining, se_opt_string(o.message) + rest);
    lemma_sd_opt_string(o.message, rest);
}

proof fn lemma_sd_parser_result(m: ParserResultV, rest: Seq<u8>)
    requires
        wf_parser_result(m),
    ensures
        sd_parser_result(se_parser_result(m) + rest) == Some((m, rest)),
{
    match m {
        ParserResultV::ParseOk(o) => {
            assert(se_parser_result(m) + rest =~= seq![0u8] + (se_parse_output(o) + rest));
            lemma_sd_u8(0u8, se_parse_output(o) + rest);
            lemma_sd_parse_output(o, rest);
        },
        ParserResultV::ParseIncomplete => lemma_sd_u8(1u8, rest),
        ParserResultV::ParseEof => lemma_sd_u8(2u8, rest),
        ParserResultV::ParseError(s) => {
            assert(se_parser_result(m) + rest =~= seq![3u8] + (se_string(s) + rest));
            lemma_sd_u8(3u8, se_string(s) + rest);
            lemma_sd_string(s, rest);
        },
    }
}

proof fn lemma_sd_result_list(rs: Seq<ParserResultV>, rest: Seq<u8>)
    requires
        forall|i: int| 0 <= i < rs.len() ==> wf_parser_result(#[trigger] rs[i]),
    ensures
        sd_result_list(se_result_list(rs) + rest, rs.len()) == Some((rs, rest)),
    decreases rs.len(),
{
    if rs.len() == 0 {
        assert(se_result_list(rs) + rest =~= rest);
        assert(rs =~= Seq::<ParserResultV>::empty());
    } else {
        let tail = rs.skip(1);
        assert(se_result_list(rs) + rest =~= se_parser_result(rs[0]) + (se_result_list(tail)
            + rest));
        lemma_sd_parser_result(rs[0], se_result_list(tail) + rest);
        lemma_sd_result_list(tail, rest);
        assert(seq![rs[0]] + tail =~= rs);
    }
}

proof fn lemma_sd_dlt_parser_rpc(m: DltParserRpcV, rest: Seq<u8>)
    requires
        wf_dlt_parser_rpc(m),
    ensures
        sd_dlt_parser_rpc(se_dlt_parser_rpc(m) + rest) == Some((m, rest)),
{
    match m {
        DltParserRpcV::Setup(s) => {
            assert(se_dlt_parser_rpc(m) + rest =~= seq![0u8] + (se_bool(s.with_storage_header)
                + rest));
            lemma_sd_u8(0u8, se_bool(s.with_storage_header) + rest);
            lemma_sd_bool(s.with_storage_header, rest);
        },
        DltParserRpcV::SetupDone => lemma_sd_u8(1u8, rest),
        DltParserRpcV::Parse(i) => {
            assert(se_dlt_parser_rpc(m) + rest =~= seq![2u8] + (se_bytes(i.bytes) + rest));
            lemma_sd_u8(2u8, se_bytes(i.bytes) + rest);
            lemma_sd_bytes(i.bytes, rest);
        },
        DltParserRpcV::ParseResult(rs) => {
            let n = rs.len() as u64;
            assert(se_dlt_parser_rpc(m) + rest =~= seq![3u8] + (se_u64(n) + (se_result_list(rs)
                + rest)));
            lemma_sd_u8(3u8, se_u64(n) + (se_result_list(rs) + rest));
            lemma_sd_u64(n, se_result_list(rs) + rest);
            lemma_sd_result_list(rs, rest);
            assert(n as nat == rs.len());
        },
    }
}

proof fn lemma_sd_source_settings(s: SourceSettingsV, rest: Seq<u8>)
    requires
        wf_source_settings(s),
    ensures
        sd_source_settings(se_source_settings(s) + rest) == Some((s, rest)),
{
    assert(se_source_settings(s) + rest =~= se_string(s.input_path) + (se_usize(s.total_capacity)
        + (se_usize(s.buffer_min) + rest)));
    lemma_sd_string(s.input_path, se_usize(s.total_capacity) + (se_usize(s.buffer_min) + rest));
    lemma_sd_usize(s.total_capacity, se_usize(s.buffer_min) + rest);
    lemma_sd_usize(s.buffer_min, rest);
}

proof fn lemma_sd_reload_output(o: ReloadOutputV, rest: Seq<u8>)
    requires
        wf_reload_output(o),
    ensures
        sd_reload_output(se_reload_output(o) + rest) == Some((o, rest)),
{
    assert(se_reload_output(o) + rest =~= se_usize(o.newly_loaded_bytes) + (se_usize(
        o.available_bytes,
    ) + (se_usize(o.skipped_bytes) + (se_bytes(o.bytes) + rest))));
    lemma_sd_usize(
        o.newly_loaded_bytes,
        se_usize(o.available_bytes) + (se_usize(o.skipped_bytes) + (se_bytes(o.bytes) + rest)),
    );
    lemma_sd_usize(o.available_bytes, se_usize(o.skipped_bytes) + (se_bytes(o.bytes) + rest));
    lemma_sd_usize(o.skipped_bytes, se_bytes(o.bytes) + rest);
    lemma_sd_bytes(o.bytes, rest);
}

proof fn lemma_sd_reload_result(m: ReloadResultV, rest: Seq<u8>)
    requires
        wf_reload_result(m),
    ensures
        sd_reload_result(se_reload_result(m) + rest) == Some((m, rest)),
{
    match m {
        ReloadResultV::ReloadOk(o) => {
            assert(se_reload_result(m) + rest =~= seq![0u8] + (se_reload_output(o) + rest));
            lemma_sd_u8(0u8, se_reload_output(o) + rest);
            lemma_sd_reload_output(o, rest);
        },
        ReloadResultV::ReloadEof => lemma_sd_u8(1u8, rest),
        ReloadResultV::ReloadError(s) => {
            assert(se_reload_result(m) + rest =~= seq![2u8] + (se_string(s) + rest));
            lemma_sd_u8(2u8, se_string(s) + rest);
            lemma_sd_string(s, rest);
        },
    }
}

proof fn lemma_sd_byte_source_rpc(m: ByteSourceRpcV, rest: Seq<u8>)
    requires
        wf_byte_source_rpc(m),
    ensures
        sd_byte_source_rpc(se_byte_source_rpc(m) + rest) == Some((m, rest)),
{
    match m {
        ByteSourceRpcV::Setup(s) => {
            assert(se_byte_source_rpc(m) + rest =~= seq![0u8] + (se_source_settings(s) + rest));
            lemma_sd_u8(0u8, se_source_settings(s) + rest);
            lemma_sd_source_settings(s, rest);
        },
        ByteSourceRpcV::SetupDone => lemma_sd_u8(1u8, rest),
        ByteSourceRpcV::Consume(n) => {
            assert(se_byte_source_rpc(m) + rest =~= seq![2u8] + (se_usize(n) + rest));
            lemma_sd_u8(2u8, se_usize(n) + rest);
            lemma_sd_usize(n, rest);
        },
        ByteSourceRpcV::ConsumeDone => lemma_sd_u8(3u8, rest),
        ByteSourceRpcV::Reload => lemma_sd_u8(4u8, rest),
        ByteSourceRpcV::ReloadResult(r) => {
            assert(se_byte_source_rpc(m) + rest =~= seq![5u8] + (se_reload_result(r) + rest));
            lemma_sd_u8(5u8, se_reload_result(r) + rest);
            lemma_sd_reload_result(r, rest);
        },
    }
}

/// Codec round trip for bare parser-kind payloads.
pub proof fn lemma_parser_payload_round_trip(m: DltParserRpcV)
    requires
        wf_dlt_parser_rpc(m),
    ensures
        spec_decode_parser_payload(se_dlt_parser_rpc(m)) == Some(m),
{
    lemma_sd_dlt_parser_rpc(m, Seq::<u8>::empty());
    assert(se_dlt_parser_rpc(m) + Seq::<u8>::empty() =~= se_dlt_parser_rpc(m));
}

/// Codec round trip for bare byte-source-kind payloads.
pub proof fn lemma_source_payload_round_trip(m: ByteSourceRpcV)
    requires
        wf_byte_source_rpc(m),
    ensures
        spec_decode_source_payload(se_byte_source_rpc(m)) == Some(m),
{
    lemma_sd_byte_source_rpc(m, Seq::<u8>::empty());
    assert(se_byte_source_rpc(m) + Seq::<u8>::empty() =~= se_byte_source_rpc(m));
}

/// Codec round trip for parser-kind requests: decoding an encoded message
/// yields the message back, for every well-formed message.
pub proof fn lemma_parser_request_round_trip(m: ParserRequestV)
    requires
        wf_parser_request(m),
    ensures
        spec_decode_parser_request(se_parser_request(m)) == Some(m),
{
    match m {
        PluginRpcV::Runtime(r) => {
            assert(se_parser_request(m) + Seq::<u8>::empty() =~= seq![0u8] + (se_runtime_request(r)
                + Seq::<u8>::empty()));
            assert(se_runtime_request(r) + Seq::<u8>::empty() =~= se_runtime_request(r));
            lemma_sd_u8(0u8, se_runtime_request(r));
            lemma_sd_runtime_request(r, Seq::<u8>::empty());
            assert(se_parser_request(m) =~= seq![0u8] + se_runtime_request(r));
        },
        PluginRpcV::Plugin(t) => {
            lemma_sd_u8(1u8, se_dlt_parser_rpc(t));
            lemma_sd_dlt_parser_rpc(t, Seq::<u8>::empty());
            assert(se_dlt_parser_rpc(t) + Seq::<u8>::empty() =~= se_dlt_parser_rpc(t));
            assert(se_parser_request(m) =~= seq![1u8] + se_dlt_parser_rpc(t));
        },
    }
}

/// Codec round trip for parser-kind responses.
pub proof fn lemma_parser_response_round_trip(m: ParserResponseV)
    requires
        wf_parser_response(m),
    ensures
        spec_decode_parser_response(se_parser_response(m)) == Some(m),
{
    match m {
        PluginRpcV::Runtime(r) => {
            lemma_sd_u8(0u8, se_runtime_response(r));
            lemma_sd_runtime_response(r, Seq::<u8>::empty());
            assert(se_runtime_response(r) + Seq::<u8>::empty() =~= se_runtime_response(r));
            assert(se_parser_response(m) =~= seq![0u8] + se_runtime_response(r));
        },
        PluginRpcV::Plugin(t) => {
            lemma_sd_u8(1u8, se_dlt_parser_rpc(t));
            lemma_sd_dlt_parser_rpc(t, Seq::<u8>::empty());
            assert(se_dlt_parser_rpc(t) + Seq::<u8>::empty() =~= se_dlt_parser_rpc(t));
            assert(se_parser_response(m) =~= seq![1u8] + se_dlt_parser_rpc(t));
        },
    }
}

/// Codec round trip for byte-source-kind requests.
pub proof fn lemma_source_request_round_trip(m: SourceRequestV)
    requires
        wf_source_request(m),
    ensures
        spec_decode_source_request(se_source_request(m)) == Some(m),
{
    match m {
        PluginRpcV::Runtime(r) => {
            lemma_sd_u8(0u8, se_runtime_request(r));
            lemma_sd_runtime_request(r, Seq::<u8>::empty());
            assert(se_runtime_request(r) + Seq::<u8>::empty() =~= se_runtime_request(r));
            assert(se_source_request(m) =~= seq![0u8] + se_runtime_request(r));
        },
        PluginRpcV::Plugin(t) => {
            lemma_sd_u8(1u8, se_byte_source_rpc(t));
            lemma_sd_byte_source_rpc(t, Seq::<u8>::empty());
            assert(se_byte_source_rpc(t) + Seq::<u8>::empty() =~= se_byte_source_rpc(t));
            assert(se_source_request(m) =~= seq![1u8] + se_byte_source_rpc(t));
        },
    }
}

/// Codec round trip for byte-source-kind responses.
pub proof fn lemma_source_response_round_trip(m: SourceResponseV)
    requires
        wf_source_response(m),
    ensures
        spec_decode_source_response(se_source_response(m)) == Some(m),
{
    match m {
        PluginRpcV::Runtime(r) => {
            lemma_sd_u8(0u8, se_runtime_response(r));
            lemma_sd_runtime_response(r, Seq::<u8>::empty());
            assert(se_runtime_response(r) + Seq::<u8>::empty() =~= se_runtime_response(r));
            assert(se_source_response(m) =~= seq![0u8] + se_runtime_response(r));
        },
        PluginRpcV::Plugin(t) => {
            lemma_sd_u8(1u8, se_byte_source_rpc(t));
            lemma_sd_byte_source_rpc(t, Seq::<u8>::empty());
            assert(se_byte_source_rpc(t) + Seq::<u8>::empty() =~= se_byte_source_rpc(t));
            assert(se_source_response(m) =~= seq![1u8] + se_byte_source_rpc(t));
        },
    }
}

} // verus!
