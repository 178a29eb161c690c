//! Host runtime for sandboxed plugin guests: a binary wire codec for the
//! request/response envelope, a synchronous per-proxy session with an `Init`
//! handshake, a registry that mints proxies with unique ids, and adapters that
//! expose a guest parser or byte source behind the host's streaming contracts.

use vstd::prelude::*;

pub mod byte_source;
pub mod codec;
pub mod decode;
pub mod dlt;
pub mod encode;
pub mod export;
pub mod format;
pub mod guest;
pub mod reader;
pub mod registry;
pub mod rpc;
pub mod session;
pub mod source;
pub mod wasi;
pub mod wasm;
pub mod wire;

verus! {

/// A process-unique identifier for one plugin proxy.
pub type PluginId = usize;

/// A saturating increment, as the adapters' informational counters count.
pub open spec fn sat_inc(x: usize) -> usize {
    if x < usize::MAX {
        (x + 1) as usize
    } else {
        x
    }
}

/// A saturating addition, as the adapters' informational counters count.
pub open spec fn sat_add(x: usize, n: nat) -> usize {
    if x + n <= usize::MAX {
        (x + n) as usize
    } else {
        usize::MAX
    }
}

/// Errors surfaced by the plugin host runtime.
///
/// `Invalid` marks a protocol or ABI violation (unexpected response variant,
/// codec failure, descriptor out of bounds); the proxy is poisoned afterwards.
/// `Unsupported` marks a request for a plugin kind the host cannot service.
#[derive(Debug, Clone, Copy, PartialEq, Eq, Structural)]
pub enum PluginError {
    Invalid,
    Unsupported,
}

/// A host-side handle to one guest instance: sequences raw request/response
/// round trips over the sandbox boundary.
pub trait PluginProxy: Sized {
    /// The id the proxy was minted with.
    fn id(&self) -> PluginId;

    /// One synchronous round trip: send the encoded request, return the
    /// guest's encoded response. Nothing is known of the bytes that come back.
    fn call(&mut self, request: &Vec<u8>) -> Result<Vec<u8>, PluginError>;
}

/// Creates sandboxed guest instances on behalf of the registry.
pub trait PluginFactory: Sized {
    type Proxy: PluginProxy;

    /// Instantiates one sandbox and returns the proxy that owns it.
    fn create(&self, id: PluginId) -> Result<Self::Proxy, PluginError>;
}

} // verus!

