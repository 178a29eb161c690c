//! The byte-source adapter: exposes a guest byte source behind the host's
//! streaming byte-source contract. It owns a snapshot of the most recently
//! reloaded slice; `current_slice` and `len` read that snapshot without
//! calling the guest.

use crate::byte_source::{ReloadInfo, SourceError};
use crate::codec::se_byte_source_rpc;
use crate::decode::decode_source_payload;
use crate::encode::encode_source_payload;
use crate::rpc::{ByteSourceRpc, ByteSourceRpcV, ReloadResult, ReloadResultV, SourceSettings,
    SourceSettingsV};
use crate::session::PluginSession;
use crate::{sat_inc, PluginError, PluginProxy};
use vstd::prelude::*;

verus! {

/// Cumulative counters over one adapter's lifetime, kept saturating so they
/// can never overflow; each call's contract states its exact transition.
#[derive(Debug, Clone, Copy, PartialEq, Eq, Structural)]
pub struct ByteSourceStats {
    pub calls_consume: usize,
    pub calls_reload: usize,
    pub reload_ok: usize,
    pub reload_eof: usize,
    pub reload_error: usize,
}

impl ByteSourceStats {
    /// All counters start at zero.
    pub fn new() -> (r: Self)
        ensures
            r == (ByteSourceStats {
                calls_consume: 0,
                calls_reload: 0,
                reload_ok: 0,
                reload_eof: 0,
                reload_error: 0,
            }),
    {
        ByteSourceStats {
            calls_consume: 0,
            calls_reload: 0,
            reload_ok: 0,
            reload_eof: 0,
            reload_error: 0,
        }
    }
}

fn bump(x: usize) -> (r: usize)
    ensures
        r == sat_inc(x),
{
    if x < usize::MAX {
        x + 1
    } else {
        x
    }
}

/// How one reload reply updates the counters.
pub open spec fn reload_stats(s: ByteSourceStats, reply: ReloadResultV) -> ByteSourceStats {
    match reply {
        ReloadResultV::ReloadOk(_) => ByteSourceStats { reload_ok: sat_inc(s.reload_ok), ..s },
        ReloadResultV::ReloadEof => ByteSourceStats { reload_eof: sat_inc(s.reload_eof), ..s },
        ReloadResultV::ReloadError(_) => ByteSourceStats {
            reload_error: sat_inc(s.reload_error),
            ..s
        },
    }
}

/// How the adapter translates one reload reply: fresh bytes replace the
/// snapshot and their accounting is handed out; end of stream returns
/// nothing and keeps the snapshot; a source failure is unrecoverable and
/// keeps the snapshot.
pub open spec fn reload_post(
    reply: ReloadResultV,
    old_content: Seq<u8>,
    r: Result<Option<ReloadInfo>, SourceError>,
    new_content: Seq<u8>,
) -> bool {
    match reply {
        ReloadResultV::ReloadOk(o) => {
            &&& new_content == o.bytes
            &&& (r matches Ok(oi) && oi matches Some(info) && info.newly_loaded_bytes
                == o.newly_loaded_bytes && info.available_bytes == o.available_bytes
                && info.skipped_bytes == o.skipped_bytes)
        },
        ReloadResultV::ReloadEof => r == Ok::<Option<ReloadInfo>, SourceError>(None)
            && new_content == old_content,
        ReloadResultV::ReloadError(s) => (r matches Err(e) && e matches SourceError::Unrecoverable(
            msg,
        ) && msg@ == s) && new_content == old_content,
    }
}

/// Adapts one guest byte source behind the streaming byte-source contract.
pub struct ByteSourceProxy<P: PluginProxy> {
    session: PluginSession<P>,
    content: Vec<u8>,
    /// Saturating counters; each call's contract states its exact
    /// transition.
    pub stats: ByteSourceStats,
}

impl<P: PluginProxy> ByteSourceProxy<P> {
    /// The snapshot taken by the last successful reload.
    pub closed spec fn content_spec(&self) -> Seq<u8> {
        self.content@
    }

    /// The cumulative counters, as a spec value.
    pub closed spec fn stats_spec(&self) -> ByteSourceStats {
        self.stats
    }

    /// How many round trips have been issued to the guest.
    pub closed spec fn guest_calls(&self) -> nat {
        self.session.guest_calls()
    }

    /// Whether the underlying session can still speak to the guest.
    pub closed spec fn is_live(&self) -> bool {
        self.session.is_initialized() && !self.session.is_poisoned()
    }

    /// The plugin-kind payloads sent to the guest so far, in order.
    pub closed spec fn sent_payloads(&self) -> Seq<Seq<u8>> {
        self.session.sent_payloads()
    }

    /// Configures a guest byte source over an initialized session by one
    /// `Setup` round trip carrying the input path and buffer thresholds. Any
    /// reply but `SetupDone` is fatal for the proxy.
    pub fn new(
        session: PluginSession<P>,
        input_path: String,
        total_capacity: usize,
        buffer_min: usize,
    ) -> (r: Result<Self, PluginError>)
        requires
            session.is_initialized(),
            !session.is_poisoned(),
        ensures
            r matches Ok(a) ==> {
                &&& a.is_live()
                &&& a.content_spec().len() == 0
                &&& a.guest_calls() == session.guest_calls() + 1
                &&& a.sent_payloads() == session.sent_payloads().push(
                    se_byte_source_rpc(
                        ByteSourceRpcV::Setup(
                            SourceSettingsV {
                                input_path: input_path@,
                                total_capacity,
                                buffer_min,
                            },
                        ),
                    ),
                )
                &&& a.stats_spec() == (ByteSourceStats {
                    calls_consume: 0,
                    calls_reload: 0,
                    reload_ok: 0,
                    reload_eof: 0,
                    reload_error: 0,
                })
            },
    {
        let mut session = session;
        let payload = encode_source_payload(
            &ByteSourceRpc::Setup(
                SourceSettings { input_path, total_capacity, buffer_min },
            ),
        );
        match session.call_plugin(&payload) {
            Ok(reply) => {
                match decode_source_payload(&reply) {
                    Ok(ByteSourceRpc::SetupDone) => Ok(
                        ByteSourceProxy {
                            session,
                            content: Vec::new(),
                            stats: ByteSourceStats::new(),
                        },
                    ),
                    _ => Err(PluginError::Invalid),
                }
            },
            Err(e) => Err(e),
        }
    }

    /// Tells the guest to discard the front `offset` bytes of its buffer.
    /// The snapshot is untouched; any reply but `ConsumeDone` is a protocol
    /// violation.
    pub fn consume(&mut self, offset: usize) -> (r: Result<(), PluginError>)
        ensures
            final(self).content_spec() == old(self).content_spec(),
            final(self).stats_spec() == (ByteSourceStats {
                calls_consume: sat_inc(old(self).stats_spec().calls_consume),
                ..old(self).stats_spec()
            }),
            r matches Err(e) ==> e == PluginError::Invalid,
            !old(self).is_live() ==> (r matches Err(e) && e == PluginError::Invalid) && final(self).guest_calls() == old(self).guest_calls() && final(self).sent_payloads() == old(self).sent_payloads(),
            old(self).is_live() ==> {
                &&& final(self).guest_calls() == old(self).guest_calls() + 1
                &&& final(self).sent_payloads() == old(self).sent_payloads().push(
                    se_byte_source_rpc(ByteSourceRpcV::Consume(offset)),
                )
                &&& (r is Ok <==> final(self).is_live())
            },
    {
        self.stats.calls_consume = bump(self.stats.calls_consume);
        let payload = encode_source_payload(&ByteSourceRpc::Consume(offset));
        match self.session.call_plugin(&payload) {
            Ok(reply) => {
                match decode_source_payload(&reply) {
                    Ok(ByteSourceRpc::ConsumeDone) => Ok(()),
                    _ => {
                        self.session.poison();
                        Err(PluginError::Invalid)
                    },
                }
            },
            Err(e) => Err(e),
        }
    }

    /// One `Reload` round trip. On fresh bytes the snapshot is replaced by
    /// the reply's payload and its accounting is returned; end of stream
    /// returns `None`; a guest-reported failure maps to `Unrecoverable`. A
    /// protocol violation also surfaces as `Unrecoverable` and poisons the
    /// session.
    pub fn reload(&mut self) -> (r: Result<Option<ReloadInfo>, SourceError>)
        ensures
            r is Err ==> final(self).content_spec() == old(self).content_spec(),
            !old(self).is_live() ==> r is Err && final(self).guest_calls() == old(self).guest_calls() && final(self).content_spec() == old(self).content_spec() && final(self).sent_payloads() == old(self).sent_payloads() && final(self).stats_spec() == (ByteSourceStats {
                calls_reload: sat_inc(old(self).stats_spec().calls_reload),
                ..old(self).stats_spec()
            }),
            old(self).is_live() ==> {
                &&& final(self).guest_calls() == old(self).guest_calls() + 1
                &&& final(self).sent_payloads() == old(self).sent_payloads().push(
                    se_byte_source_rpc(ByteSourceRpcV::Reload),
                )
                &&& ({
                    let base = ByteSourceStats {
                        calls_reload: sat_inc(old(self).stats_spec().calls_reload),
                        ..old(self).stats_spec()
                    };
                    ||| {
                        &&& r is Err
                        &&& !final(self).is_live()
                        &&& final(self).content_spec() == old(self).content_spec()
                        &&& final(self).stats_spec() == base
                    }
                    ||| exists|reply: ReloadResultV|
                        #![trigger reload_post(reply, old(self).content_spec(), r, final(self).content_spec())]
                        {
                            &&& reload_post(reply, old(self).content_spec(), r, final(self).content_spec())
                            &&& final(self).is_live()
                            &&& final(self).stats_spec() == reload_stats(base, reply)
                        }
                })
            },
    {
        self.stats.calls_reload = bump(self.stats.calls_reload);
        let payload = encode_source_payload(&ByteSourceRpc::Reload);
        let reply = match self.session.call_plugin(&payload) {
            Ok(reply) => reply,
            Err(_) => {
                return Err(SourceError::Unrecoverable(String::new()));
            },
        };
        let result = match decode_source_payload(&reply) {
            Ok(ByteSourceRpc::ReloadResult(result)) => result,
            _ => {
                self.session.poison();
                return Err(SourceError::Unrecoverable(String::new()));
            },
        };
        let ghost reply_v = result@;
        let r = self.apply_reload(result);
        proof {
            assert(reload_post(reply_v, old(self).content_spec(), r, self.content_spec()));
        }
        r
    }

    /// Translates one reload reply into the byte-source contract; exact for
    /// every possible reply value.
    fn apply_reload(&mut self, result: ReloadResult) -> (r: Result<Option<ReloadInfo>, SourceError>)
        ensures
            reload_post(result@, old(self).content_spec(), r, final(self).content_spec()),
            final(self).guest_calls() == old(self).guest_calls(),
            final(self).sent_payloads() == old(self).sent_payloads(),
            final(self).is_live() == old(self).is_live(),
            final(self).stats_spec() == reload_stats(old(self).stats_spec(), result@),
    {
        match result {
            ReloadResult::ReloadOk(output) => {
                self.stats.reload_ok = bump(self.stats.reload_ok);
                let info = ReloadInfo {
                    newly_loaded_bytes: output.newly_loaded_bytes,
                    available_bytes: output.available_bytes,
                    skipped_bytes: output.skipped_bytes,
                };
                self.content = output.bytes;
                Ok(Some(info))
            },
            ReloadResult::ReloadEof => {
                self.stats.reload_eof = bump(self.stats.reload_eof);
                Ok(None)
            },
            ReloadResult::ReloadError(msg) => {
                self.stats.reload_error = bump(self.stats.reload_error);
                Err(SourceError::Unrecoverable(msg))
            },
        }
    }

    /// The snapshot taken by the last successful reload; does not call the
    /// guest.
    pub fn current_slice(&self) -> (r: &Vec<u8>)
        ensures
            r@ == self.content_spec(),
    {
        &self.content
    }

    /// The snapshot's length; `len() == current_slice().len()` always, and
    /// neither calls the guest.
    pub fn len(&self) -> (r: usize)
        ensures
            r == self.content_spec().len(),
    {
        self.content.len()
    }

    /// The cumulative counters.
    pub fn stats(&self) -> (r: ByteSourceStats)
        ensures
            r == self.stats_spec(),
    {
        self.stats
    }
}

} // verus!
