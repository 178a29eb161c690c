//! The guest half of the protocol, runnable in-process: decode one request
//! envelope, act on it, encode the response envelope. A parser guest drains
//! its input through a parser port, batching results until depletion,
//! incompleteness or error; a source guest drives the in-process byte
//! source. The in-process proxies close the loop for hosts and tests
//! without any sandbox.

use crate::byte_source::{PluginByteSource, SourceError};
use crate::codec::{
    se_parser_response, se_source_response, spec_decode_parser_request,
    spec_decode_source_request, wf_byte_source_rpc, wf_dlt_parser_rpc, WIRE_REVISION,
};
use crate::decode::{decode_parser_request, decode_source_request};
use crate::dlt::wf_batch;
use crate::encode::{encode_parser_response, encode_source_response};
use crate::reader::ByteRead;
use crate::rpc::{
    results_view, ByteSourceRpc, ByteSourceRpcV, DltParserRpc, DltParserRpcV, ParseOutput,
    ParseOutputV, ParserResult, ParserResultV, PluginRpc, PluginRpcV, ReloadOutput, ReloadResult,
    ReloadResultV, RuntimeRequest, RuntimeResponse,
};
use crate::{PluginError, PluginFactory, PluginId, PluginProxy};
use vstd::prelude::*;

verus! {

/// How a guest answers each runtime-level request.
pub open spec fn runtime_reply(m: RuntimeRequest) -> RuntimeResponse {
    match m {
        RuntimeRequest::Version => RuntimeResponse::Version(WIRE_REVISION),
        RuntimeRequest::Init => RuntimeResponse::Init,
        RuntimeRequest::Shutdown => RuntimeResponse::Shutdown,
    }
}

/// Why a parser port stopped without a message.
#[derive(Debug, PartialEq)]
pub enum PortError {
    Incomplete,
    Eof,
    Parse(String),
}

/// Model of [`PortError`].
pub enum PortErrorV {
    Incomplete,
    Eof,
    Parse(Seq<char>),
}

impl View for PortError {
    type V = PortErrorV;

    open spec fn view(&self) -> PortErrorV {
        match self {
            PortError::Incomplete => PortErrorV::Incomplete,
            PortError::Eof => PortErrorV::Eof,
            PortError::Parse(s) => PortErrorV::Parse(s@),
        }
    }
}

/// Model of one parser-port reply: a parse that ended at an offset with an
/// optional rendered message, or a stop code.
pub enum PortReplyV {
    Parsed(usize, Option<Seq<char>>),
    Stopped(PortErrorV),
}

/// The model of one exec port reply.
pub open spec fn port_reply_view(r: Result<(usize, Option<String>), PortError>) -> PortReplyV {
    match r {
        Ok(p) => PortReplyV::Parsed(
            p.0,
            match p.1 {
                Some(s) => Some(s@),
                None => None,
            },
        ),
        Err(e) => PortReplyV::Stopped(e@),
    }
}

/// The port a parser guest drives; it stands for the message parser the
/// guest embeds. A successful parse consumes at least one byte. Each port
/// exhibits a functional model over its view: what it replies and what state
/// it moves to are functions of its state and the attempt's input, which is
/// what ties a guest batch to the parser's actual replies.
pub trait ParserPort: Sized + View {
    /// The reply a parser in state `v` gives for one parse attempt.
    spec fn reply_of(v: Self::V, input: Seq<u8>, from: int) -> PortReplyV;

    /// The state a parser in state `v` moves to after one parse attempt.
    spec fn next_of(v: Self::V, input: Seq<u8>, from: int) -> Self::V;

    /// Applies the parser's setup options.
    fn configure(&mut self, with_storage_header: bool);

    /// Parses one message from `input` starting at `from`. On success
    /// returns where the next message would start, strictly beyond `from`,
    /// and the rendered message, or nothing for a filtered message. The
    /// reply and the state move are exactly the model's.
    fn parse_one(&mut self, input: &Vec<u8>, from: usize) -> (r: Result<
        (usize, Option<String>),
        PortError,
    >)
        requires
            from < input@.len(),
        ensures
            r matches Ok(p) ==> from < p.0 <= input@.len(),
            port_reply_view(r) == Self::reply_of(old(self)@, input@, from as int),
            final(self)@ == Self::next_of(old(self)@, input@, from as int),
    ;
}

/// The batch a conforming parser port yields for `input` when drained from
/// offset `from`: successful parses accumulate until depletion, a stop code
/// ends the batch (a parse failure after at least one success is swallowed),
/// and an exhausted input with nothing gathered reads as end of stream. A
/// reply whose offset does not progress falls outside the port's contract
/// and contributes nothing.
pub open spec fn spec_batch<P: ParserPort>(
    v: P::V,
    input: Seq<u8>,
    from: nat,
    nonempty: bool,
) -> Seq<ParserResultV>
    decreases input.len() - from,
{
    if from >= input.len() {
        if nonempty {
            Seq::empty()
        } else {
            seq![ParserResultV::ParseEof]
        }
    } else {
        match P::reply_of(v, input, from as int) {
            PortReplyV::Parsed(n, m) => if from < n <= input.len() {
                seq![
                    ParserResultV::ParseOk(
                        ParseOutputV { bytes_remaining: (input.len() - n) as usize, message: m },
                    ),
                ] + spec_batch::<P>(P::next_of(v, input, from as int), input, n as nat, true)
            } else {
                Seq::empty()
            },
            PortReplyV::Stopped(PortErrorV::Incomplete) => seq![ParserResultV::ParseIncomplete],
            PortReplyV::Stopped(PortErrorV::Eof) => seq![ParserResultV::ParseEof],
            PortReplyV::Stopped(PortErrorV::Parse(s)) => if nonempty {
                Seq::empty()
            } else {
                seq![ParserResultV::ParseError(s)]
            },
        }
    }
}

/// Drains `bytes` through the parser, collecting one batch: successful
/// parses until depletion, then at most one terminal code. The batch always
/// satisfies the accounting the host validates: non-empty, terminal only
/// last, `bytes_remaining` bounded by the input length and strictly
/// decreasing across successful parses.
pub fn run_parse_batch<P: ParserPort>(parser: &mut P, bytes: &Vec<u8>) -> (r: Vec<ParserResult>)
    ensures
        wf_batch(results_view(r@), bytes@.len()),
        wf_dlt_parser_rpc(DltParserRpcV::ParseResult(results_view(r@))),
        results_view(r@) == spec_batch::<P>((*old(parser))@, bytes@, 0, false),
{
    let mut results: Vec<ParserResult> = Vec::new();
    let mut from: usize = 0;
    loop
        invariant
            from <= bytes@.len(),
            results@.len() > 0 ==> from > 0,
            spec_batch::<P>((*old(parser))@, bytes@, 0, false) == results_view(results@)
                + spec_batch::<P>((*parser)@, bytes@, from as nat, results@.len() > 0),
            forall|i: int| 0 <= i < results@.len() ==> (#[trigger] results_view(results@)[i])
                is ParseOk,
            results@.len() > 0 ==> br_last(results_view(results@)) == bytes@.len() - from,
            results@.len() > 0 ==> crate::dlt::br_of(results_view(results@)[0]) <= bytes@.len(),
            forall|i: int| 0 <= i && i + 1 < results@.len() ==> crate::dlt::br_of(
                #[trigger] results_view(results@)[i + 1],
            ) < crate::dlt::br_of(results_view(results@)[i]),
            forall|i: int| 0 <= i < results@.len() ==> crate::codec::wf_parser_result(
                #[trigger] results_view(results@)[i],
            ),
        decreases bytes@.len() - from + 1,
    {
        let ghost rv = results_view(results@);
        let ghost ne = results@.len() > 0;
        let ghost p_pre = (*parser)@;
        if from >= bytes.len() {
            if results.len() == 0 {
                results.push(ParserResult::ParseEof);
                proof {
                    assert(results_view(results@) =~= rv.push(ParserResultV::ParseEof));
                    assert(rv + spec_batch::<P>(p_pre, bytes@, from as nat, false) =~= results_view(
                        results@,
                    ));
                }
            } else {
                proof {
                    assert(rv + spec_batch::<P>(p_pre, bytes@, from as nat, true) =~= rv);
                }
            }
            let total = results.len();
            proof {
                lemma_batch_shape(results_view(results@), bytes@.len());
                assert(results_view(results@).len() == total);
            }
            return results;
        }
        match parser.parse_one(bytes, from) {
            Ok((new_from, message)) => {
                match &message {
                    Some(text) => {
                        // The byte length witnesses that the text's encoding
                        // fits behind the wire's 64-bit length prefix.
                        let text_bytes = text.as_str().as_bytes().len();
                        proof {
                            assert(text_bytes <= usize::MAX);
                            assert(crate::wire::wf_str(text@));
                        }
                    },
                    None => {},
                }
                let out = ParserResult::ParseOk(
                    ParseOutput { bytes_remaining: bytes.len() - new_from, message },
                );
                let ghost ov = out@;
                results.push(out);
                proof {
                    assert(results_view(results@) =~= rv.push(ov));
                    assert(spec_batch::<P>(p_pre, bytes@, from as nat, ne) == seq![ov]
                        + spec_batch::<P>((*parser)@, bytes@, new_from as nat, true));
                    assert(rv + (seq![ov] + spec_batch::<P>((*parser)@, bytes@, new_from as nat, true))
                        =~= results_view(results@) + spec_batch::<P>(
                        (*parser)@,
                        bytes@,
                        new_from as nat,
                        true,
                    ));
                }
                from = new_from;
            },
            Err(PortError::Incomplete) => {
                results.push(ParserResult::ParseIncomplete);
                let total = results.len();
                proof {
                    assert(results_view(results@) =~= rv.push(ParserResultV::ParseIncomplete));
                    assert(rv + spec_batch::<P>(p_pre, bytes@, from as nat, ne) =~= results_view(
                        results@,
                    ));
                    lemma_batch_shape(results_view(results@), bytes@.len());
                    assert(results_view(results@).len() == total);
                }
                return results;
            },
            Err(PortError::Eof) => {
                results.push(ParserResult::ParseEof);
                let total = results.len();
                proof {
                    assert(results_view(results@) =~= rv.push(ParserResultV::ParseEof));
                    assert(rv + spec_batch::<P>(p_pre, bytes@, from as nat, ne) =~= results_view(
                        results@,
                    ));
                    lemma_batch_shape(results_view(results@), bytes@.len());
                    assert(results_view(results@).len() == total);
                }
                return results;
            },
            Err(PortError::Parse(msg)) => {
                if results.len() == 0 {
                    // The byte length witnesses that the error text's
                    // encoding fits behind the wire's 64-bit length prefix.
                    let msg_bytes = msg.as_str().as_bytes().len();
                    proof {
                        assert(msg_bytes <= usize::MAX);
                        assert(crate::wire::wf_str(msg@));
                    }
                    let e = ParserResult::ParseError(msg);
                    let ghost ev = e@;
                    results.push(e);
                    proof {
                        assert(results_view(results@) =~= rv.push(ev));
                        assert(rv + spec_batch::<P>(p_pre, bytes@, from as nat, ne)
                            =~= results_view(results@));
                    }
                } else {
                    proof {
                        assert(rv + spec_batch::<P>(p_pre, bytes@, from as nat, ne) =~= rv);
                    }
                }
                let total = results.len();
                proof {
                    lemma_batch_shape(results_view(results@), bytes@.len());
                    assert(results_view(results@).len() == total);
                }
                return results;
            },
        }
    }
}

/// The accounting of a batch's last entry.
pub open spec fn br_last(rs: Seq<ParserResultV>) -> nat
    recommends
        rs.len() > 0,
{
    crate::dlt::br_of(rs[rs.len() - 1])
}

proof fn lemma_batch_shape(rs: Seq<ParserResultV>, input_len: nat)
    requires
        rs.len() > 0,
        forall|i: int| 0 <= i && i + 1 < rs.len() ==> (#[trigger] rs[i]) is ParseOk,
        crate::dlt::br_of(rs[0]) <= input_len,
        forall|i: int| 0 <= i && i + 1 < rs.len() ==> crate::dlt::br_of(#[trigger] rs[i + 1])
            <= crate::dlt::br_of(rs[i]),
    ensures
        wf_batch(rs, input_len),
{
}

/// What the parser guest replies, as a relation of the port's entry state,
/// the request bytes and the response bytes: runtime control is answered in
/// kind; `Setup` acknowledges; `Parse` yields exactly the encodable,
/// accounting-honoring batch the port's reply model determines; an
/// unparsable request or a response-kind payload is answered with a runtime
/// `Error`.
pub open spec fn parser_reply_post<P: ParserPort>(p0: P, request: Seq<u8>, r: Seq<u8>) -> bool {
    &&& (spec_decode_parser_request(request) is None ==> r == se_parser_response(
        PluginRpcV::Runtime(RuntimeResponse::Error),
    ))
    &&& (spec_decode_parser_request(request) matches Some(m) ==> match m {
        PluginRpcV::Runtime(rr) => r == se_parser_response(
            PluginRpcV::Runtime(runtime_reply(rr)),
        ),
        PluginRpcV::Plugin(p) => match p {
            DltParserRpcV::Setup(_) => r == se_parser_response(
                PluginRpcV::Plugin(DltParserRpcV::SetupDone),
            ),
            DltParserRpcV::Parse(i) => {
                let rs = spec_batch::<P>(p0@, i.bytes, 0, false);
                &&& wf_batch(rs, i.bytes.len())
                &&& wf_dlt_parser_rpc(DltParserRpcV::ParseResult(rs))
                &&& r == se_parser_response(PluginRpcV::Plugin(DltParserRpcV::ParseResult(rs)))
            },
            DltParserRpcV::SetupDone => r == se_parser_response(
                PluginRpcV::Runtime(RuntimeResponse::Error),
            ),
            DltParserRpcV::ParseResult(_) => r == se_parser_response(
                PluginRpcV::Runtime(RuntimeResponse::Error),
            ),
        },
    })
}

/// One round of the parser guest: decode the request envelope, act, encode
/// the response, exactly as [`parser_reply_post`] relates them to the port's
/// entry state.
pub fn handle_parser_message<P: ParserPort>(parser: &mut P, request: &Vec<u8>) -> (r: Vec<u8>)
    ensures
        parser_reply_post(*old(parser), request@, r@),
{
    match decode_parser_request(request) {
        Ok(PluginRpc::Runtime(rr)) => {
            let reply = match rr {
                RuntimeRequest::Version => RuntimeResponse::Version(WIRE_REVISION),
                RuntimeRequest::Init => RuntimeResponse::Init,
                RuntimeRequest::Shutdown => RuntimeResponse::Shutdown,
            };
            encode_parser_response(&PluginRpc::Runtime(reply))
        },
        Ok(PluginRpc::Plugin(DltParserRpc::Setup(settings))) => {
            parser.configure(settings.with_storage_header);
            encode_parser_response(&PluginRpc::Plugin(DltParserRpc::SetupDone))
        },
        Ok(PluginRpc::Plugin(DltParserRpc::Parse(input))) => {
            let batch = run_parse_batch(parser, &input.bytes);
            let ghost rs = results_view(batch@);
            let response = encode_parser_response(
                &PluginRpc::Plugin(DltParserRpc::ParseResult(batch)),
            );
            proof {
                assert(wf_batch(rs, input.bytes@.len()) && wf_dlt_parser_rpc(
                    DltParserRpcV::ParseResult(rs),
                ) && response@ == se_parser_response(
                    PluginRpcV::Plugin(DltParserRpcV::ParseResult(rs)),
                ));
            }
            response
        },
        _ => encode_parser_response(&PluginRpc::Runtime(RuntimeResponse::Error)),
    }
}

/// One round of the source guest: decode the request envelope, act on the
/// in-process byte source, encode the response. `Consume` advances the
/// source; `Reload` refills it and reports the fresh slice; an unparsable
/// request or a response-kind payload is answered with a runtime `Error`.
pub fn handle_source_message<R: ByteRead>(
    source: &mut PluginByteSource<R>,
    request: &Vec<u8>,
) -> (r: Vec<u8>)
    requires
        old(source).wf(),
    ensures
        final(source).wf(),
        spec_decode_source_request(request@) is None ==> r@ == se_source_response(
            PluginRpcV::Runtime(RuntimeResponse::Error),
        ),
        spec_decode_source_request(request@) matches Some(m) ==> match m {
            PluginRpcV::Runtime(rr) => r@ == se_source_response(
                PluginRpcV::Runtime(runtime_reply(rr)),
            ),
            PluginRpcV::Plugin(p) => match p {
                ByteSourceRpcV::Setup(_) => r@ == se_source_response(
                    PluginRpcV::Plugin(ByteSourceRpcV::SetupDone),
                ),
                ByteSourceRpcV::Consume(_) => r@ == se_source_response(
                    PluginRpcV::Plugin(ByteSourceRpcV::ConsumeDone),
                ),
                ByteSourceRpcV::Reload => exists|res: ReloadResultV|
                    #![trigger se_source_response(PluginRpcV::Plugin(ByteSourceRpcV::ReloadResult(res)))]
                    {
                        &&& r@ == se_source_response(
                            PluginRpcV::Plugin(ByteSourceRpcV::ReloadResult(res)),
                        )
                        &&& wf_byte_source_rpc(ByteSourceRpcV::ReloadResult(res))
                        &&& match res {
                            ReloadResultV::ReloadOk(o) => {
                                &&& final(source).offset_spec() == 0
                                &&& o.bytes == final(source).content_spec()
                                &&& o.bytes.len() > 0
                                &&& o.available_bytes == final(source).content_spec().len()
                                &&& o.newly_loaded_bytes as int == if final(source).content_spec().len() > old(source).len_spec() {
                                    final(source).content_spec().len() - old(source).len_spec()
                                } else {
                                    0
                                }
                                &&& o.skipped_bytes == 0
                            },
                            ReloadResultV::ReloadEof => final(source).content_spec().len() == 0
                                && final(source).offset_spec() == 0,
                            ReloadResultV::ReloadError(_) => {
                                &&& final(source).offset_spec() == 0
                                &&& final(source).content_spec().subrange(
                                    0,
                                    old(source).len_spec() as int,
                                ) == old(source).content_spec().skip(
                                    old(source).offset_spec() as int,
                                )
                                &&& final(source).len_spec() >= old(source).len_spec()
                            },
                        }
                    },
                ByteSourceRpcV::SetupDone => r@ == se_source_response(
                    PluginRpcV::Runtime(RuntimeResponse::Error),
                ),
                ByteSourceRpcV::ConsumeDone => r@ == se_source_response(
                    PluginRpcV::Runtime(RuntimeResponse::Error),
                ),
                ByteSourceRpcV::ReloadResult(_) => r@ == se_source_response(
                    PluginRpcV::Runtime(RuntimeResponse::Error),
                ),
            },
        },
{
    match decode_source_request(request) {
        Ok(PluginRpc::Runtime(rr)) => {
            let reply = match rr {
                RuntimeRequest::Version => RuntimeResponse::Version(WIRE_REVISION),
                RuntimeRequest::Init => RuntimeResponse::Init,
                RuntimeRequest::Shutdown => RuntimeResponse::Shutdown,
            };
            encode_source_response(&PluginRpc::Runtime(reply))
        },
        Ok(PluginRpc::Plugin(ByteSourceRpc::Setup(_settings))) => {
            encode_source_response(&PluginRpc::Plugin(ByteSourceRpc::SetupDone))
        },
        Ok(PluginRpc::Plugin(ByteSourceRpc::Consume(offset))) => {
            source.consume(offset);
            encode_source_response(&PluginRpc::Plugin(ByteSourceRpc::ConsumeDone))
        },
        Ok(PluginRpc::Plugin(ByteSourceRpc::Reload)) => {
            let result = match source.reload() {
                Ok(Some(info)) => {
                    let bytes = source.current_slice();
                    proof {
                        assert(bytes@ =~= source.content_spec());
                    }
                    ReloadResult::ReloadOk(
                        ReloadOutput {
                            newly_loaded_bytes: info.newly_loaded_bytes,
                            available_bytes: info.available_bytes,
                            skipped_bytes: info.skipped_bytes,
                            bytes,
                        },
                    )
                },
                Ok(None) => ReloadResult::ReloadEof,
                Err(SourceError::Unrecoverable(msg)) => {
                    // The byte length witnesses that the error text's
                    // encoding fits behind the wire's 64-bit length prefix.
                    let msg_bytes = msg.as_str().as_bytes().len();
                    proof {
                        assert(msg_bytes <= usize::MAX);
                        assert(crate::wire::wf_str(msg@));
                    }
                    ReloadResult::ReloadError(msg)
                },
            };
            let ghost res_v = result@;
            let response = encode_source_response(
                &PluginRpc::Plugin(ByteSourceRpc::ReloadResult(result)),
            );
            proof {
                assert(response@ == se_source_response(
                    PluginRpcV::Plugin(ByteSourceRpcV::ReloadResult(res_v)),
                ));
            }
            response
        },
        _ => encode_source_response(&PluginRpc::Runtime(RuntimeResponse::Error)),
    }
}

/// An in-process parser guest behind the proxy interface: each `call` is one
/// round of [`handle_parser_message`], with no sandbox in between.
pub struct LocalParserProxy<P: ParserPort> {
    id: PluginId,
    parser: P,
}

impl<P: ParserPort> LocalParserProxy<P> {
    /// A proxy driving the given parser port.
    pub fn new(id: PluginId, parser: P) -> (r: Self)
        ensures
            r.id_spec() == id,
            r.port() == parser,
    {
        LocalParserProxy { id, parser }
    }
}

impl<P: ParserPort> LocalParserProxy<P> {
    /// The id the proxy was minted with.
    pub closed spec fn id_spec(&self) -> PluginId {
        self.id
    }

    /// The parser port the proxy drives.
    pub closed spec fn port(&self) -> P {
        self.parser
    }
}

impl<P: ParserPort> PluginProxy for LocalParserProxy<P> {
    fn id(&self) -> (r: PluginId)
        ensures
            r == self.id_spec(),
    {
        self.id
    }

    /// Always answers: one round of [`handle_parser_message`].
    fn call(&mut self, request: &Vec<u8>) -> (r: Result<Vec<u8>, PluginError>)
        ensures
            r matches Ok(v) && parser_reply_post(old(self).port(), request@, v@),
    {
        Ok(handle_parser_message(&mut self.parser, request))
    }
}

/// A parser port that replays a fixed script, one reply per parse attempt.
/// An exhausted script reads as end of stream, and a scripted offset that
/// would not progress within the input is served as end of stream too,
/// keeping the port's progress contract. Setup options do not change a
/// script.
pub struct ScriptedParser {
    script: Vec<Result<(usize, Option<String>), PortError>>,
}

impl ScriptedParser {
    /// A port that replays the given script.
    pub fn new(script: Vec<Result<(usize, Option<String>), PortError>>) -> (r: Self)
        ensures
            r@ == script@.map_values(
                |e: Result<(usize, Option<String>), PortError>| port_reply_view(e),
            ),
    {
        ScriptedParser { script }
    }
}

impl View for ScriptedParser {
    type V = Seq<PortReplyV>;

    closed spec fn view(&self) -> Seq<PortReplyV> {
        self.script@.map_values(
            |e: Result<(usize, Option<String>), PortError>| port_reply_view(e),
        )
    }
}

impl ParserPort for ScriptedParser {
    open spec fn reply_of(v: Seq<PortReplyV>, input: Seq<u8>, from: int) -> PortReplyV {
        if v.len() == 0 {
            PortReplyV::Stopped(PortErrorV::Eof)
        } else {
            match v[0] {
                PortReplyV::Parsed(n, m) => if from < n <= input.len() {
                    PortReplyV::Parsed(n, m)
                } else {
                    PortReplyV::Stopped(PortErrorV::Eof)
                },
                PortReplyV::Stopped(e) => PortReplyV::Stopped(e),
            }
        }
    }

    open spec fn next_of(v: Seq<PortReplyV>, input: Seq<u8>, from: int) -> Seq<PortReplyV> {
        if v.len() == 0 {
            v
        } else {
            v.skip(1)
        }
    }

    fn configure(&mut self, _with_storage_header: bool) {
    }

    fn parse_one(&mut self, input: &Vec<u8>, from: usize) -> (r: Result<
        (usize, Option<String>),
        PortError,
    >) {
        if self.script.len() == 0 {
            return Err(PortError::Eof);
        }
        let entry = self.script.remove(0);
        proof {
            assert(old(self)@[0] == port_reply_view(old(self).script@[0]));
            assert(self@ =~= old(self)@.skip(1));
        }
        match entry {
            Ok((n, m)) => {
                if from < n && n <= input.len() {
                    Ok((n, m))
                } else {
                    Err(PortError::Eof)
                }
            },
            Err(e) => Err(e),
        }
    }
}

/// A guest that echoes every request verbatim; because runtime requests and
/// responses share their wire form, its `Init` handshake succeeds.
pub struct EchoProxy {
    id: PluginId,
}

impl EchoProxy {
    /// The id the proxy was minted with.
    pub closed spec fn id_spec(&self) -> PluginId {
        self.id
    }
}

impl PluginProxy for EchoProxy {
    fn id(&self) -> (r: PluginId)
        ensures
            r == self.id_spec(),
    {
        self.id
    }

    fn call(&mut self, request: &Vec<u8>) -> (r: Result<Vec<u8>, PluginError>)
        ensures
            r matches Ok(v) && v@ == request@,
    {
        let copy = crate::wire::copy_range(request, 0, request.len());
        proof {
            assert(copy@ =~= request@);
        }
        Ok(copy)
    }
}

/// Mints echo guests.
pub struct EchoFactory {
}

impl EchoFactory {
    /// A factory whose every sandbox is an echo guest.
    pub fn new() -> Self {
        EchoFactory {  }
    }
}

impl PluginFactory for EchoFactory {
    type Proxy = EchoProxy;

    /// Always succeeds: an echo guest needs no sandbox.
    fn create(&self, id: PluginId) -> (r: Result<EchoProxy, PluginError>)
        ensures
            r matches Ok(p) && p.id_spec() == id,
    {
        Ok(EchoProxy { id })
    }
}

} // verus!
