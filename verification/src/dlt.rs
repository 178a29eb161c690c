//! The parser adapter: exposes a guest parser behind the host's streaming
//! parse contract. One guest `Parse` round trip may yield a whole batch of
//! results; the adapter buffers the batch and replays it lazily, one entry
//! per `parse` call, without calling the guest again until the batch is
//! drained. Guest batches are validated on arrival: a batch is accepted only
//! if it is non-empty, every entry but possibly the last is a successful
//! parse, a terminal code appears only last, and the `bytes_remaining`
//! accounting is bounded by the input length and non-increasing.

use crate::codec::se_dlt_parser_rpc;
use crate::decode::decode_parser_payload;
use crate::encode::encode_parser_payload;
use crate::rpc::{
    results_view, DltParserRpc, DltParserRpcV, ParseInput, ParseInputV, ParserResult,
    ParserResultV, ParserSettings,
};
use crate::session::PluginSession;
use crate::{sat_add, sat_inc, PluginError, PluginProxy};
use vstd::prelude::*;

verus! {

/// One message produced by a guest parser, as the host pipeline consumes it.
#[derive(Debug, Clone, PartialEq)]
pub struct DltProxyMessage {
    pub content: String,
}

impl View for DltProxyMessage {
    type V = Seq<char>;

    open spec fn view(&self) -> Seq<char> {
        self.content@
    }
}

impl DltProxyMessage {
    /// Wraps rendered message text.
    pub fn new(content: String) -> (r: Self)
        ensures
            r@ == content@,
    {
        DltProxyMessage { content }
    }
}

/// The host-side parse taxonomy: the guest's terminal codes mapped onto the
/// streaming contract, plus `Invalid` for a protocol violation, which
/// poisons the proxy.
#[derive(Debug, PartialEq)]
pub enum ParseError {
    Incomplete,
    Eof,
    Parse(String),
    Invalid,
}

/// Cumulative counters over one adapter's lifetime, kept saturating so they
/// can never overflow; each call's contract states its exact transition.
#[derive(Debug, Clone, Copy, PartialEq, Eq, Structural)]
pub struct DltParserStats {
    pub calls_total: usize,
    pub calls_plugin: usize,
    pub plugin_results: usize,
    pub messages_parsed: usize,
    pub messages_filtered: usize,
    pub parse_incomplete: usize,
    pub parse_eof: usize,
    pub parse_error: usize,
}

impl DltParserStats {
    /// All counters start at zero.
    pub fn new() -> (r: Self)
        ensures
            r == (DltParserStats {
                calls_total: 0,
                calls_plugin: 0,
                plugin_results: 0,
                messages_parsed: 0,
                messages_filtered: 0,
                parse_incomplete: 0,
                parse_eof: 0,
                parse_error: 0,
            }),
    {
        DltParserStats {
            calls_total: 0,
            calls_plugin: 0,
            plugin_results: 0,
            messages_parsed: 0,
            messages_filtered: 0,
            parse_incomplete: 0,
            parse_eof: 0,
            parse_error: 0,
        }
    }
}

fn bump(x: usize) -> (r: usize)
    ensures
        r == sat_inc(x),
{
    if x < usize::MAX {
        x + 1
    } else {
        x
    }
}

fn bump_by(x: usize, n: usize) -> (r: usize)
    ensures
        r == sat_add(x, n as nat),
{
    if n <= usize::MAX - x {
        x + n
    } else {
        usize::MAX
    }
}

/// The `bytes_remaining` reading of one batch entry; terminal entries count
/// as zero.
pub open spec fn br_of(m: ParserResultV) -> nat {
    match m {
        ParserResultV::ParseOk(o) => o.bytes_remaining as nat,
        ParserResultV::ParseIncomplete => 0,
        ParserResultV::ParseEof => 0,
        ParserResultV::ParseError(_) => 0,
    }
}

/// A guest batch the adapter accepts for input of length `input_len`:
/// non-empty, a terminal code at most once and only last, and
/// `bytes_remaining` bounded by the input length and non-increasing.
pub open spec fn wf_batch(rs: Seq<ParserResultV>, input_len: nat) -> bool {
    &&& rs.len() > 0
    &&& forall|i: int| 0 <= i && i + 1 < rs.len() ==> (#[trigger] rs[i]) is ParseOk
    &&& br_of(rs[0]) <= input_len
    &&& forall|i: int| 0 <= i && i + 1 < rs.len() ==> br_of(#[trigger] rs[i + 1]) <= br_of(rs[i])
}

proof fn lemma_br_monotone(rs: Seq<ParserResultV>, input_len: nat, i: int, j: int)
    requires
        wf_batch(rs, input_len),
        0 <= i <= j < rs.len(),
    ensures
        br_of(rs[j]) <= br_of(rs[i]),
    decreases j - i,
{
    if j > i {
        lemma_br_monotone(rs, input_len, i, j - 1);
        assert(br_of(rs[j]) <= br_of(rs[j - 1]));
    }
}

/// Batch accounting: in an accepted batch, `bytes_remaining` never exceeds
/// the input length and never increases along the batch, so the batch in
/// aggregate consumes at most the whole input.
pub proof fn lemma_batch_accounting(rs: Seq<ParserResultV>, input_len: nat, i: int, j: int)
    requires
        wf_batch(rs, input_len),
        0 <= i <= j < rs.len(),
    ensures
        br_of(rs[j]) <= br_of(rs[i]) <= input_len,
{
    lemma_br_monotone(rs, input_len, i, j);
    lemma_br_monotone(rs, input_len, 0, i);
}

/// How one replay step updates the counters: a successful parse counts as
/// parsed or filtered, a terminal code under its own name; a head whose
/// accounting exceeds the present input counts nothing.
pub open spec fn stats_step(s: DltParserStats, head: ParserResultV, input_len: nat) -> DltParserStats {
    match head {
        ParserResultV::ParseOk(o) => if o.bytes_remaining <= input_len {
            match o.message {
                Some(_) => DltParserStats { messages_parsed: sat_inc(s.messages_parsed), ..s },
                None => DltParserStats { messages_filtered: sat_inc(s.messages_filtered), ..s },
            }
        } else {
            s
        },
        ParserResultV::ParseIncomplete => DltParserStats {
            parse_incomplete: sat_inc(s.parse_incomplete),
            ..s
        },
        ParserResultV::ParseEof => DltParserStats { parse_eof: sat_inc(s.parse_eof), ..s },
        ParserResultV::ParseError(_) => DltParserStats {
            parse_error: sat_inc(s.parse_error),
            ..s
        },
    }
}

/// What one replay step yields: the adapter pops the batch head and
/// translates it. The final entry of a batch reports the aggregate progress
/// (`rest` starts at `input_len - bytes_remaining`); a non-final entry
/// reports no progress yet, so the caller re-enters to drain the queue. A
/// terminal code maps to its error and always leaves the queue empty; a
/// head whose accounting exceeds the present input is a protocol violation.
pub open spec fn step_post(
    q: Seq<ParserResultV>,
    input_len: nat,
    r: Result<(usize, Option<DltProxyMessage>), ParseError>,
    new_q: Seq<ParserResultV>,
) -> bool
    recommends
        q.len() > 0,
{
    match q[0] {
        ParserResultV::ParseOk(o) => if o.bytes_remaining <= input_len {
            &&& new_q == q.skip(1)
            &&& r matches Ok(p)
            &&& (r matches Ok(p) ==> p.0 as int == if q.len() == 1 {
                input_len - o.bytes_remaining
            } else {
                0
            })
            &&& (r matches Ok(p) ==> match (p.1, o.message) {
                (Some(m), Some(cs)) => m@ == cs,
                (None, None) => true,
                _ => false,
            })
        } else {
            r == Err::<(usize, Option<DltProxyMessage>), ParseError>(ParseError::Invalid)
                && new_q.len() == 0
        },
        ParserResultV::ParseIncomplete => r == Err::<(usize, Option<DltProxyMessage>), ParseError>(
            ParseError::Incomplete,
        ) && new_q.len() == 0,
        ParserResultV::ParseEof => r == Err::<(usize, Option<DltProxyMessage>), ParseError>(
            ParseError::Eof,
        ) && new_q.len() == 0,
        ParserResultV::ParseError(s) => (r matches Err(e) && e matches ParseError::Parse(msg)
            && msg@ == s) && new_q.len() == 0,
    }
}

/// Checks whether a guest batch is acceptable for input of length
/// `input_len`, exactly as [`wf_batch`] reads.
pub fn validate_batch(results: &Vec<ParserResult>, input_len: usize) -> (r: bool)
    ensures
        r == wf_batch(results_view(results@), input_len as nat),
{
    let ghost rv = results_view(results@);
    let n = results.len();
    if n == 0 {
        return false;
    }
    let first_br: usize = match &results[0] {
        ParserResult::ParseOk(o) => o.bytes_remaining,
        _ => 0,
    };
    if first_br > input_len {
        proof {
            assert(br_of(rv[0]) > input_len as nat);
        }
        return false;
    }
    let mut i: usize = 0;
    while i + 1 < n
        invariant
            n == results@.len(),
            i < n,
            rv == results_view(results@),
            forall|k: int| 0 <= k < i ==> (#[trigger] rv[k]) is ParseOk,
            forall|k: int| 0 <= k && k + 1 <= i ==> br_of(#[trigger] rv[k + 1]) <= br_of(rv[k]),
        decreases n - i,
    {
        let cur_br: usize = match &results[i] {
            ParserResult::ParseOk(o) => o.bytes_remaining,
            _ => {
                proof {
                    assert(!(rv[i as int] is ParseOk));
                }
                return false;
            },
        };
        let next_br: usize = match &results[i + 1] {
            ParserResult::ParseOk(o) => o.bytes_remaining,
            _ => 0,
        };
        if next_br > cur_br {
            proof {
                assert(br_of(rv[i as int + 1]) > br_of(rv[i as int]));
            }
            return false;
        }
        i = i + 1;
    }
    true
}

/// Adapts one guest parser behind the streaming parse contract.
pub struct DltParserProxy<P: PluginProxy> {
    session: PluginSession<P>,
    results: Vec<ParserResult>,
    /// Saturating counters; the laziness contract is stated over the
    /// session's ghost round-trip counter, which never saturates.
    pub stats: DltParserStats,
}

impl<P: PluginProxy> DltParserProxy<P> {
    /// The batch entries still waiting to be replayed, head first.
    pub closed spec fn queue(&self) -> Seq<ParserResultV> {
        results_view(self.results@)
    }

    /// The cumulative counters, as a spec value.
    pub closed spec fn stats_spec(&self) -> DltParserStats {
        self.stats
    }

    /// How many round trips have been issued to the guest.
    pub closed spec fn guest_calls(&self) -> nat {
        self.session.guest_calls()
    }

    /// Whether the underlying session can still speak to the guest.
    pub closed spec fn is_live(&self) -> bool {
        self.session.is_initialized() && !self.session.is_poisoned()
    }

    /// The plugin-kind payloads sent to the guest so far, in order.
    pub closed spec fn sent_payloads(&self) -> Seq<Seq<u8>> {
        self.session.sent_payloads()
    }

    /// A queued batch is in accepted shape: a terminal code only last, and
    /// non-increasing accounting.
    pub open spec fn wf(&self) -> bool {
        &&& forall|i: int| 0 <= i && i + 1 < self.queue().len() ==> (#[trigger] self.queue()[i])
            is ParseOk
        &&& forall|i: int| 0 <= i && i + 1 < self.queue().len() ==> br_of(
            #[trigger] self.queue()[i + 1],
        ) <= br_of(self.queue()[i])
    }

    /// Configures a guest parser over an initialized session by one `Setup`
    /// round trip. Any reply but `SetupDone` is fatal for the proxy.
    pub fn new(session: PluginSession<P>, with_storage_header: bool) -> (r: Result<
        Self,
        PluginError,
    >)
        requires
            session.is_initialized(),
            !session.is_poisoned(),
        ensures
            r matches Ok(a) ==> {
                &&& a.wf()
                &&& a.is_live()
                &&& a.queue().len() == 0
                &&& a.guest_calls() == session.guest_calls() + 1
                &&& a.sent_payloads() == session.sent_payloads().push(
                    se_dlt_parser_rpc(
                        DltParserRpcV::Setup(ParserSettings { with_storage_header }),
                    ),
                )
                &&& a.stats_spec() == (DltParserStats {
                    calls_total: 0,
                    calls_plugin: 0,
                    plugin_results: 0,
                    messages_parsed: 0,
                    messages_filtered: 0,
                    parse_incomplete: 0,
                    parse_eof: 0,
                    parse_error: 0,
                })
            },
    {
        let mut session = session;
        let payload = encode_parser_payload(
            &DltParserRpc::Setup(ParserSettings { with_storage_header }),
        );
        match session.call_plugin(&payload) {
            Ok(reply) => {
                match decode_parser_payload(&reply) {
                    Ok(DltParserRpc::SetupDone) => {
                        let a = DltParserProxy {
                            session,
                            results: Vec::new(),
                            stats: DltParserStats::new(),
                        };
                        proof {
                            assert(a.queue() =~= Seq::<ParserResultV>::empty());
                        }
                        Ok(a)
                    },
                    _ => Err(PluginError::Invalid),
                }
            },
            Err(e) => Err(e),
        }
    }

    /// Pops and translates the batch head; never calls the guest.
    fn drain_step(&mut self, input: &Vec<u8>) -> (r: Result<
        (usize, Option<DltProxyMessage>),
        ParseError,
    >)
        requires
            old(self).wf(),
            old(self).queue().len() > 0,
        ensures
            final(self).wf(),
            final(self).guest_calls() == old(self).guest_calls(),
            final(self).sent_payloads() == old(self).sent_payloads(),
            final(self).is_live() == old(self).is_live(),
            step_post(old(self).queue(), input@.len(), r, final(self).queue()),
            final(self).stats_spec() == stats_step(
                old(self).stats_spec(),
                old(self).queue()[0],
                input@.len(),
            ),
    {
        let ghost oldq = self.queue();
        let head = self.results.remove(0);
        proof {
            assert(results_view(self.results@) =~= oldq.skip(1));
        }
        match head {
            ParserResult::ParseOk(o) => {
                if o.bytes_remaining <= input.len() {
                    let rest_start: usize = if self.results.len() == 0 {
                        input.len() - o.bytes_remaining
                    } else {
                        0
                    };
                    match o.message {
                        Some(text) => {
                            self.stats.messages_parsed = bump(self.stats.messages_parsed);
                            Ok((rest_start, Some(DltProxyMessage::new(text))))
                        },
                        None => {
                            self.stats.messages_filtered = bump(self.stats.messages_filtered);
                            Ok((rest_start, None))
                        },
                    }
                } else {
                    self.results.clear();
                    proof {
                        assert(results_view(self.results@) =~= Seq::<ParserResultV>::empty());
                    }
                    Err(ParseError::Invalid)
                }
            },
            ParserResult::ParseIncomplete => {
                self.stats.parse_incomplete = bump(self.stats.parse_incomplete);
                self.results.clear();
                proof {
                    assert(results_view(self.results@) =~= Seq::<ParserResultV>::empty());
                }
                Err(ParseError::Incomplete)
            },
            ParserResult::ParseEof => {
                self.stats.parse_eof = bump(self.stats.parse_eof);
                self.results.clear();
                proof {
                    assert(results_view(self.results@) =~= Seq::<ParserResultV>::empty());
                }
                Err(ParseError::Eof)
            },
            ParserResult::ParseError(msg) => {
                self.stats.parse_error = bump(self.stats.parse_error);
                self.results.clear();
                proof {
                    assert(results_view(self.results@) =~= Seq::<ParserResultV>::empty());
                }
                Err(ParseError::Parse(msg))
            },
        }
    }

    /// One streaming parse call. While a buffered batch is being drained, no
    /// guest call is issued and the head entry is replayed; on an empty
    /// queue, exactly one `Parse` round trip is issued, the returned batch
    /// is validated and stored, and its head is replayed. An empty or
    /// malformed batch, or any protocol violation, yields `Invalid`. The
    /// timestamp is accepted for the streaming contract's sake and plays no
    /// part in guest parsing.
    pub fn parse(&mut self, input: &Vec<u8>, _timestamp: Option<u64>) -> (r: Result<
        (usize, Option<DltProxyMessage>),
        ParseError,
    >)
        requires
            old(self).wf(),
        ensures
            final(self).wf(),
            old(self).queue().len() > 0 ==> {
                &&& final(self).guest_calls() == old(self).guest_calls()
                &&& final(self).sent_payloads() == old(self).sent_payloads()
                &&& final(self).is_live() == old(self).is_live()
                &&& step_post(old(self).queue(), input@.len(), r, final(self).queue())
                &&& final(self).stats_spec() == stats_step(
                    DltParserStats {
                        calls_total: sat_inc(old(self).stats_spec().calls_total),
                        ..old(self).stats_spec()
                    },
                    old(self).queue()[0],
                    input@.len(),
                )
            },
            old(self).queue().len() == 0 && !old(self).is_live() ==> {
                &&& r == Err::<(usize, Option<DltProxyMessage>), ParseError>(ParseError::Invalid)
                &&& final(self).guest_calls() == old(self).guest_calls()
                &&& final(self).sent_payloads() == old(self).sent_payloads()
                &&& final(self).stats_spec() == (DltParserStats {
                    calls_total: sat_inc(old(self).stats_spec().calls_total),
                    calls_plugin: sat_inc(old(self).stats_spec().calls_plugin),
                    ..old(self).stats_spec()
                })
            },
            old(self).queue().len() == 0 && old(self).is_live() ==> {
                &&& final(self).guest_calls() == old(self).guest_calls() + 1
                &&& final(self).sent_payloads() == old(self).sent_payloads().push(
                    se_dlt_parser_rpc(DltParserRpcV::Parse(ParseInputV { bytes: input@ })),
                )
                &&& ({
                    let base = DltParserStats {
                        calls_total: sat_inc(old(self).stats_spec().calls_total),
                        calls_plugin: sat_inc(old(self).stats_spec().calls_plugin),
                        ..old(self).stats_spec()
                    };
                    ||| {
                        &&& r == Err::<(usize, Option<DltProxyMessage>), ParseError>(
                            ParseError::Invalid,
                        )
                        &&& !final(self).is_live()
                        &&& final(self).queue().len() == 0
                        &&& final(self).stats_spec() == base
                    }
                    ||| exists|rs: Seq<ParserResultV>|
                        #![trigger wf_batch(rs, input@.len())]
                        {
                            &&& wf_batch(rs, input@.len())
                            &&& step_post(rs, input@.len(), r, final(self).queue())
                            &&& final(self).is_live()
                            &&& final(self).stats_spec() == stats_step(
                                DltParserStats {
                                    plugin_results: sat_add(base.plugin_results, rs.len()),
                                    ..base
                                },
                                rs[0],
                                input@.len(),
                            )
                        }
                })
            },
    {
        self.stats.calls_total = bump(self.stats.calls_total);
        if self.results.len() > 0 {
            return self.drain_step(input);
        }
        self.stats.calls_plugin = bump(self.stats.calls_plugin);
        let bytes = crate::wire::copy_range(input, 0, input.len());
        proof {
            assert(bytes@ =~= input@);
        }
        let payload = encode_parser_payload(&DltParserRpc::Parse(ParseInput { bytes }));
        let reply = match self.session.call_plugin(&payload) {
            Ok(reply) => reply,
            Err(_) => {
                return Err(ParseError::Invalid);
            },
        };
        let batch = match decode_parser_payload(&reply) {
            Ok(DltParserRpc::ParseResult(batch)) => batch,
            _ => {
                self.session.poison();
                return Err(ParseError::Invalid);
            },
        };
        if !validate_batch(&batch, input.len()) {
            self.session.poison();
            return Err(ParseError::Invalid);
        }
        self.stats.plugin_results = bump_by(self.stats.plugin_results, batch.len());
        let ghost accepted = results_view(batch@);
        self.results = batch;
        let stepped = self.drain_step(input);
        proof {
            assert(wf_batch(accepted, input@.len()) && step_post(
                accepted,
                input@.len(),
                stepped,
                self.queue(),
            ));
        }
        stepped
    }

    /// The cumulative counters.
    pub fn stats(&self) -> (r: DltParserStats)
        ensures
            r == self.stats_spec(),
    {
        self.stats
    }
}

} // verus!
