//! One host-side session over a proxy: a synchronous request/response channel
//! that drives the lifecycle handshake and gates plugin traffic behind
//! `Init`.
//!
//! Before a successful `init`, every plugin call fails with
//! [`PluginError::Invalid`] and nothing is sent to the guest. A protocol
//! violation poisons the session: subsequent calls fail without reaching the
//! guest. Two ghost observers pin the traffic down: `guest_calls` counts
//! exactly how many round trips the session has issued — the parser
//! adapter's laziness contract is stated over it — and `sent_payloads`
//! records which plugin-kind payload each round trip carried.

use crate::codec::sd_runtime_response;
use crate::decode::read_runtime_response;
use crate::encode::encode_runtime_request_envelope;
use crate::rpc::{RuntimeRequest, RuntimeResponse};
use crate::wire::{copy_range, read_u8};
use crate::{PluginError, PluginId, PluginProxy};
use vstd::prelude::*;

verus! {

/// The whole-buffer parse of a runtime-level response envelope.
pub open spec fn spec_runtime_envelope(b: Seq<u8>) -> Option<RuntimeResponse> {
    match crate::wire::sd_u8(b) {
        Some((t, r)) => if t == 0 {
            match sd_runtime_response(r) {
                Some((m, r2)) => if r2.len() == 0 {
                    Some(m)
                } else {
                    None
                },
                None => None,
            }
        } else {
            None
        },
        None => None,
    }
}

/// A synchronous session with one guest instance.
pub struct PluginSession<P: PluginProxy> {
    proxy: P,
    id: PluginId,
    initialized: bool,
    poisoned: bool,
    calls: Ghost<nat>,
    sent: Ghost<Seq<Seq<u8>>>,
}

impl<P: PluginProxy> PluginSession<P> {
    /// Whether the `Init` handshake has completed.
    pub closed spec fn is_initialized(&self) -> bool {
        self.initialized
    }

    /// Whether a protocol violation has made the session unusable.
    pub closed spec fn is_poisoned(&self) -> bool {
        self.poisoned
    }

    /// The proxy id this session owns.
    pub closed spec fn id_spec(&self) -> PluginId {
        self.id
    }

    /// How many round trips have been issued to the guest.
    pub closed spec fn guest_calls(&self) -> nat {
        self.calls@
    }

    /// The plugin-kind payloads sent to the guest so far, in order. Runtime
    /// control does not appear here.
    pub closed spec fn sent_payloads(&self) -> Seq<Seq<u8>> {
        self.sent@
    }

    /// Wraps a freshly created proxy; no request has been sent yet.
    pub fn new(proxy: P, id: PluginId) -> (r: Self)
        ensures
            !r.is_initialized(),
            !r.is_poisoned(),
            r.id_spec() == id,
            r.guest_calls() == 0,
            r.sent_payloads() == Seq::<Seq<u8>>::empty(),
    {
        PluginSession {
            proxy,
            id,
            initialized: false,
            poisoned: false,
            calls: Ghost(0),
            sent: Ghost(Seq::empty()),
        }
    }

    /// The proxy id this session owns.
    pub fn id(&self) -> (r: PluginId)
        ensures
            r == self.id_spec(),
    {
        self.id
    }

    /// Sends one runtime-level request and parses the runtime-level reply.
    /// Nothing is known of the guest's answer; the parse of whatever came
    /// back is exact.
    fn runtime_round_trip(&mut self, m: RuntimeRequest) -> (r: Result<RuntimeResponse, PluginError>)
        ensures
            final(self).id_spec() == old(self).id_spec(),
            final(self).is_initialized() == old(self).is_initialized(),
            final(self).is_poisoned() == old(self).is_poisoned(),
            final(self).guest_calls() == old(self).guest_calls() + 1,
            final(self).sent_payloads() == old(self).sent_payloads(),
    {
        let request = encode_runtime_request_envelope(&m);
        proof {
            self.calls@ = self.calls@ + 1;
        }
        match self.proxy.call(&request) {
            Ok(response) => {
                match parse_runtime_envelope(&response) {
                    Some(resp) => Ok(resp),
                    None => Err(PluginError::Invalid),
                }
            },
            Err(_) => Err(PluginError::Invalid),
        }
    }

    /// Performs the `Init` handshake. Any reply but a runtime `Init` poisons
    /// the session.
    pub fn init(&mut self) -> (r: Result<(), PluginError>)
        requires
            !old(self).is_initialized(),
            !old(self).is_poisoned(),
        ensures
            final(self).id_spec() == old(self).id_spec(),
            r is Ok <==> final(self).is_initialized(),
            r is Ok <==> !final(self).is_poisoned(),
            final(self).guest_calls() == old(self).guest_calls() + 1,
            final(self).sent_payloads() == old(self).sent_payloads(),
    {
        match self.runtime_round_trip(RuntimeRequest::Init) {
            Ok(RuntimeResponse::Init) => {
                self.initialized = true;
                Ok(())
            },
            _ => {
                self.poisoned = true;
                Err(PluginError::Invalid)
            },
        }
    }

    /// Reports the guest's wire revision. Issued only after `Init`, which
    /// must be the first request; before it, fails with `Invalid` untouched.
    pub fn version(&mut self) -> (r: Result<u64, PluginError>)
        ensures
            final(self).id_spec() == old(self).id_spec(),
            !old(self).is_initialized() || old(self).is_poisoned() ==> r == Err::<
                u64,
                PluginError,
            >(PluginError::Invalid) && *final(self) == *old(self),
            old(self).is_initialized() && !old(self).is_poisoned() ==> final(self).guest_calls()
                == old(self).guest_calls() + 1 && final(self).is_initialized(),
            r is Ok ==> final(self).is_poisoned() == old(self).is_poisoned(),
            final(self).sent_payloads() == old(self).sent_payloads(),
    {
        if !self.initialized || self.poisoned {
            return Err(PluginError::Invalid);
        }
        match self.runtime_round_trip(RuntimeRequest::Version) {
            Ok(RuntimeResponse::Version(v)) => Ok(v),
            _ => {
                self.poisoned = true;
                Err(PluginError::Invalid)
            },
        }
    }

    /// Announces shutdown; optional before drop. Before `Init`, fails with
    /// `Invalid` untouched.
    pub fn shutdown(&mut self) -> (r: Result<(), PluginError>)
        ensures
            final(self).id_spec() == old(self).id_spec(),
            !old(self).is_initialized() || old(self).is_poisoned() ==> r == Err::<
                (),
                PluginError,
            >(PluginError::Invalid) && *final(self) == *old(self),
            old(self).is_initialized() && !old(self).is_poisoned() ==> final(self).guest_calls()
                == old(self).guest_calls() + 1 && final(self).is_initialized(),
            final(self).sent_payloads() == old(self).sent_payloads(),
    {
        if !self.initialized || self.poisoned {
            return Err(PluginError::Invalid);
        }
        match self.runtime_round_trip(RuntimeRequest::Shutdown) {
            Ok(RuntimeResponse::Shutdown) => Ok(()),
            _ => {
                self.poisoned = true;
                Err(PluginError::Invalid)
            },
        }
    }

    /// Sends one plugin-kind payload and returns the guest's plugin-kind
    /// payload bytes. Before `Init` or after a violation the call fails with
    /// `Invalid` and nothing is sent; otherwise exactly one round trip is
    /// issued, and a runtime-kind or unparsable reply poisons the session.
    pub fn call_plugin(&mut self, payload: &Vec<u8>) -> (r: Result<Vec<u8>, PluginError>)
        ensures
            final(self).id_spec() == old(self).id_spec(),
            !old(self).is_initialized() || old(self).is_poisoned() ==> r == Err::<
                Vec<u8>,
                PluginError,
            >(PluginError::Invalid) && *final(self) == *old(self),
            old(self).is_initialized() && !old(self).is_poisoned() ==> final(self).guest_calls()
                == old(self).guest_calls() + 1 && final(self).is_initialized() && final(self).sent_payloads() == old(self).sent_payloads().push(payload@),
            r is Ok ==> final(self).is_poisoned() == old(self).is_poisoned(),
            old(self).is_initialized() && !old(self).is_poisoned() && r is Err
                ==> final(self).is_poisoned(),
            r matches Err(e) ==> e == PluginError::Invalid,
    {
        if !self.initialized || self.poisoned {
            return Err(PluginError::Invalid);
        }
        let mut request: Vec<u8> = Vec::with_capacity(256);
        crate::wire::push_u8(&mut request, 1);
        request.extend_from_slice(payload.as_slice());
        proof {
            self.calls@ = self.calls@ + 1;
            self.sent@ = self.sent@.push(payload@);
        }
        match self.proxy.call(&request) {
            Ok(response) => {
                match read_u8(&response, 0) {
                    Some((t, p1)) => if t == 1 {
                        Ok(copy_range(&response, p1, response.len()))
                    } else {
                        self.poisoned = true;
                        Err(PluginError::Invalid)
                    },
                    None => {
                        self.poisoned = true;
                        Err(PluginError::Invalid)
                    },
                }
            },
            Err(_) => {
                self.poisoned = true;
                Err(PluginError::Invalid)
            },
        }
    }
}

impl<P: PluginProxy> PluginSession<P> {
    /// Marks the session unusable after a protocol violation observed by a
    /// caller; subsequent calls fail without reaching the guest.
    pub fn poison(&mut self)
        ensures
            final(self).is_poisoned(),
            final(self).is_initialized() == old(self).is_initialized(),
            final(self).id_spec() == old(self).id_spec(),
            final(self).guest_calls() == old(self).guest_calls(),
            final(self).sent_payloads() == old(self).sent_payloads(),
    {
        self.poisoned = true;
    }
}

/// Parses a whole buffer as a runtime-level response envelope, exactly as
/// [`spec_runtime_envelope`] does.
pub fn parse_runtime_envelope(b: &Vec<u8>) -> (r: Option<RuntimeResponse>)
    ensures
        r == spec_runtime_envelope(b@),
{
    proof {
        assert(b@.skip(0) =~= b@);
    }
    match read_u8(b, 0) {
        Some((t, p1)) => if t == 0 {
            match read_runtime_response(b, p1) {
                Some((m, p2)) => if p2 == b.len() {
                    proof {
                        assert(b@.skip(p2 as int).len() == 0);
                    }
                    Some(m)
                } else {
                    None
                },
                None => None,
            }
        } else {
            None
        },
        None => None,
    }
}

} // verus!
