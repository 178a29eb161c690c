//! The tagged message types spoken across the host/sandbox boundary.
//!
//! Every message is a [`PluginRpc`] envelope: either runtime control, which
//! the registry speaks to any guest without knowing its kind, or a
//! plugin-kind payload (parser or byte source). Each executable type has a
//! spec-level model (`*V`) reached through its view, over which the codec
//! contracts and the adapters' contracts are stated.

use vstd::prelude::*;

verus! {

/// Runtime-level requests understood by every guest regardless of kind.
/// `Init` must be the first request after construction; `Shutdown` may be
/// sent before drop.
#[derive(Debug, Clone, Copy, PartialEq, Eq, Structural)]
pub enum RuntimeRequest {
    Version,
    Init,
    Shutdown,
}

/// Runtime-level responses. `Version` reports the active wire revision;
/// `Error` answers a request the guest cannot service.
#[derive(Debug, Clone, Copy, PartialEq, Eq, Structural)]
pub enum RuntimeResponse {
    Version(u64),
    Init,
    Shutdown,
    Error,
}

/// The envelope: every message on the boundary is either runtime control or
/// a plugin-kind payload.
#[derive(Debug, Clone, PartialEq)]
pub enum PluginRpc<R, T> {
    Runtime(R),
    Plugin(T),
}

/// Model of [`PluginRpc`].
pub enum PluginRpcV<RV, TV> {
    Runtime(RV),
    Plugin(TV),
}

impl<R: View, T: View> View for PluginRpc<R, T> {
    type V = PluginRpcV<R::V, T::V>;

    open spec fn view(&self) -> PluginRpcV<R::V, T::V> {
        match self {
            PluginRpc::Runtime(r) => PluginRpcV::Runtime(r@),
            PluginRpc::Plugin(t) => PluginRpcV::Plugin(t@),
        }
    }
}

impl View for RuntimeRequest {
    type V = RuntimeRequest;

    open spec fn view(&self) -> RuntimeRequest {
        *self
    }
}

impl View for RuntimeResponse {
    type V = RuntimeResponse;

    open spec fn view(&self) -> RuntimeResponse {
        *self
    }
}

/// Options a guest parser is configured with at setup.
#[derive(Debug, Clone, Copy, PartialEq, Eq, Structural)]
pub struct ParserSettings {
    pub with_storage_header: bool,
}

impl View for ParserSettings {
    type V = ParserSettings;

    open spec fn view(&self) -> ParserSettings {
        *self
    }
}

/// The raw bytes handed to a guest parser by one `Parse` request.
#[derive(Debug, Clone, PartialEq)]
pub struct ParseInput {
    pub bytes: Vec<u8>,
}

/// Model of [`ParseInput`].
pub struct ParseInputV {
    pub bytes: Seq<u8>,
}

impl View for ParseInput {
    type V = ParseInputV;

    open spec fn view(&self) -> ParseInputV {
        ParseInputV { bytes: self.bytes@ }
    }
}

/// One successfully parsed message: how many bytes of the request buffer are
/// still unconsumed after it, and its rendered text. `message == None` is a
/// filtered message: a valid parse whose output is suppressed.
#[derive(Debug, Clone, PartialEq)]
pub struct ParseOutput {
    pub bytes_remaining: usize,
    pub message: Option<String>,
}

/// Model of [`ParseOutput`].
pub struct ParseOutputV {
    pub bytes_remaining: usize,
    pub message: Option<Seq<char>>,
}

impl View for ParseOutput {
    type V = ParseOutputV;

    open spec fn view(&self) -> ParseOutputV {
        ParseOutputV {
            bytes_remaining: self.bytes_remaining,
            message: match self.message {
                Some(ref s) => Some(s@),
                None => None,
            },
        }
    }
}

/// One entry of a parse batch. The three terminal codes appear at most once
/// and only as the last element of a batch.
#[derive(Debug, Clone, PartialEq)]
pub enum ParserResult {
    ParseOk(ParseOutput),
    ParseIncomplete,
    ParseEof,
    ParseError(String),
}

/// Model of [`ParserResult`].
pub enum ParserResultV {
    ParseOk(ParseOutputV),
    ParseIncomplete,
    ParseEof,
    ParseError(Seq<char>),
}

impl View for ParserResult {
    type V = ParserResultV;

    open spec fn view(&self) -> ParserResultV {
        match self {
            ParserResult::ParseOk(o) => ParserResultV::ParseOk(o@),
            ParserResult::ParseIncomplete => ParserResultV::ParseIncomplete,
            ParserResult::ParseEof => ParserResultV::ParseEof,
            ParserResult::ParseError(s) => ParserResultV::ParseError(s@),
        }
    }
}

/// The parser-kind payload: `Setup` and `Parse` travel host to guest,
/// `SetupDone` and `ParseResult` guest to host.
#[derive(Debug, Clone, PartialEq)]
pub enum DltParserRpc {
    Setup(ParserSettings),
    SetupDone,
    Parse(ParseInput),
    ParseResult(Vec<ParserResult>),
}

/// Model of [`DltParserRpc`].
pub enum DltParserRpcV {
    Setup(ParserSettings),
    SetupDone,
    Parse(ParseInputV),
    ParseResult(Seq<ParserResultV>),
}

/// The models of a sequence of parse-batch entries, elementwise.
pub open spec fn results_view(v: Seq<ParserResult>) -> Seq<ParserResultV> {
    Seq::new(v.len(), |i: int| v[i]@)
}

impl View for DltParserRpc {
    type V = DltParserRpcV;

    open spec fn view(&self) -> DltParserRpcV {
        match self {
            DltParserRpc::Setup(s) => DltParserRpcV::Setup(*s),
            DltParserRpc::SetupDone => DltParserRpcV::SetupDone,
            DltParserRpc::Parse(i) => DltParserRpcV::Parse(i@),
            DltParserRpc::ParseResult(rs) => DltParserRpcV::ParseResult(results_view(rs@)),
        }
    }
}

/// Options a guest byte source is configured with at setup.
#[derive(Debug, Clone, PartialEq)]
pub struct SourceSettings {
    pub input_path: String,
    pub total_capacity: usize,
    pub buffer_min: usize,
}

/// Model of [`SourceSettings`].
pub struct SourceSettingsV {
    pub input_path: Seq<char>,
    pub total_capacity: usize,
    pub buffer_min: usize,
}

impl View for SourceSettings {
    type V = SourceSettingsV;

    open spec fn view(&self) -> SourceSettingsV {
        SourceSettingsV {
            input_path: self.input_path@,
            total_capacity: self.total_capacity,
            buffer_min: self.buffer_min,
        }
    }
}

/// The payload of a successful reload: the freshly loaded slice and its
/// accounting.
#[derive(Debug, Clone, PartialEq)]
pub struct ReloadOutput {
    pub newly_loaded_bytes: usize,
    pub available_bytes: usize,
    pub skipped_bytes: usize,
    pub bytes: Vec<u8>,
}

/// Model of [`ReloadOutput`].
pub struct ReloadOutputV {
    pub newly_loaded_bytes: usize,
    pub available_bytes: usize,
    pub skipped_bytes: usize,
    pub bytes: Seq<u8>,
}

impl View for ReloadOutput {
    type V = ReloadOutputV;

    open spec fn view(&self) -> ReloadOutputV {
        ReloadOutputV {
            newly_loaded_bytes: self.newly_loaded_bytes,
            available_bytes: self.available_bytes,
            skipped_bytes: self.skipped_bytes,
            bytes: self.bytes@,
        }
    }
}

/// How a `Reload` request ended: fresh bytes, end of stream, or a source
/// failure.
#[derive(Debug, Clone, PartialEq)]
pub enum ReloadResult {
    ReloadOk(ReloadOutput),
    ReloadEof,
    ReloadError(String),
}

/// Model of [`ReloadResult`].
pub enum ReloadResultV {
    ReloadOk(ReloadOutputV),
    ReloadEof,
    ReloadError(Seq<char>),
}

impl View for ReloadResult {
    type V = ReloadResultV;

    open spec fn view(&self) -> ReloadResultV {
        match self {
            ReloadResult::ReloadOk(o) => ReloadResultV::ReloadOk(o@),
            ReloadResult::ReloadEof => ReloadResultV::ReloadEof,
            ReloadResult::ReloadError(s) => ReloadResultV::ReloadError(s@),
        }
    }
}

/// The byte-source-kind payload: `Setup`, `Consume` and `Reload` travel host
/// to guest, the rest guest to host.
#[derive(Debug, Clone, PartialEq)]
pub enum ByteSourceRpc {
    Setup(SourceSettings),
    SetupDone,
    Consume(usize),
    ConsumeDone,
    Reload,
    ReloadResult(ReloadResult),
}

/// Model of [`ByteSourceRpc`].
pub enum ByteSourceRpcV {
    Setup(SourceSettingsV),
    SetupDone,
    Consume(usize),
    ConsumeDone,
    Reload,
    ReloadResult(ReloadResultV),
}

impl View for ByteSourceRpc {
    type V = ByteSourceRpcV;

    open spec fn view(&self) -> ByteSourceRpcV {
        match self {
            ByteSourceRpc::Setup(s) => ByteSourceRpcV::Setup(s@),
            ByteSourceRpc::SetupDone => ByteSourceRpcV::SetupDone,
            ByteSourceRpc::Consume(n) => ByteSourceRpcV::Consume(*n),
            ByteSourceRpc::ConsumeDone => ByteSourceRpcV::ConsumeDone,
            ByteSourceRpc::Reload => ByteSourceRpcV::Reload,
            ByteSourceRpc::ReloadResult(r) => ByteSourceRpcV::ReloadResult(r@),
        }
    }
}

/// A full parser-kind request message.
pub type ParserRequest = PluginRpc<RuntimeRequest, DltParserRpc>;

/// A full parser-kind response message.
pub type ParserResponse = PluginRpc<RuntimeResponse, DltParserRpc>;

/// A full byte-source-kind request message.
pub type SourceRequest = PluginRpc<RuntimeRequest, ByteSourceRpc>;

/// A full byte-source-kind response message.
pub type SourceResponse = PluginRpc<RuntimeResponse, ByteSourceRpc>;

/// Model of [`ParserRequest`].
pub type ParserRequestV = PluginRpcV<RuntimeRequest, DltParserRpcV>;

/// Model of [`ParserResponse`].
pub type ParserResponseV = PluginRpcV<RuntimeResponse, DltParserRpcV>;

/// Model of [`SourceRequest`].
pub type SourceRequestV = PluginRpcV<RuntimeRequest, ByteSourceRpcV>;

/// Model of [`SourceResponse`].
pub type SourceResponseV = PluginRpcV<RuntimeResponse, ByteSourceRpcV>;

} // verus!
