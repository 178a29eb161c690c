//! The sandbox transport, pure flavor: one synchronous round trip into a
//! guest module's exported `message` entry point. The request is placed at a
//! fixed offset behind the 8-byte response descriptor scratch at offset 0;
//! after the call the descriptor names where the response lies, and it must
//! fall entirely inside guest memory — violating that is fatal for the
//! proxy, as is a trap inside the guest.
//!
//! The embedding compiles the module, wires up the host imports and
//! instantiates the sandbox; the proxy here owns the resulting store and
//! instance and performs the round trips.

use crate::{PluginError, PluginId, PluginProxy};
use vstd::prelude::*;

verus! {

/// The length of the response descriptor scratch at offset 0 of guest
/// memory: two little-endian `u32`s, the response's address and length. The
/// request is placed right behind it, 4-byte aligned.
pub const OUT_DESC_LEN: u32 = 8;

#[verifier::external_type_specification]
#[verifier::external_body]
pub struct ExStore(wasmer::Store);

#[verifier::external_type_specification]
#[verifier::external_body]
pub struct ExInstance(wasmer::Instance);

/// The value of a 4-byte little-endian group.
pub open spec fn le32(b0: u8, b1: u8, b2: u8, b3: u8) -> u32 {
    (b0 as u32) | ((b1 as u32) << 8) | ((b2 as u32) << 16) | ((b3 as u32) << 24)
}

/// Reads the response descriptor a guest wrote: the response's address from
/// the first four bytes, its length from the next four, both little-endian.
pub fn read_descriptor(bytes: &Vec<u8>) -> (r: Option<(u32, u32)>)
    ensures
        r is Some <==> bytes@.len() == 8,
        r matches Some(p) ==> p.0 == le32(bytes@[0], bytes@[1], bytes@[2], bytes@[3]) && p.1
            == le32(bytes@[4], bytes@[5], bytes@[6], bytes@[7]),
{
    if bytes.len() == 8 {
        let addr = (bytes[0] as u32) | ((bytes[1] as u32) << 8) | ((bytes[2] as u32) << 16) | ((
        bytes[3] as u32) << 24);
        let len = (bytes[4] as u32) | ((bytes[5] as u32) << 8) | ((bytes[6] as u32) << 16) | ((
        bytes[7] as u32) << 24);
        Some((addr, len))
    } else {
        None
    }
}

/// Whether a descriptor lies entirely inside a guest memory of `mem_size`
/// bytes.
pub fn descriptor_in_bounds(addr: u32, len: u32, mem_size: u64) -> (r: bool)
    ensures
        r <==> addr as u64 + len as u64 <= mem_size,
{
    (addr as u64) + (len as u64) <= mem_size
}

/// A proxy over one instantiated sandbox of the pure flavor. Its store and
/// instance are coupled by construction: every access wrapper below works on
/// the pair the constructor vouched for.
pub struct WasmProxy {
    id: PluginId,
    store: wasmer::Store,
    instance: wasmer::Instance,
}

impl WasmProxy {
    /// Takes ownership of one freshly instantiated sandbox. Relies on the
    /// embedding's pairing: the instance must have been instantiated in the
    /// given store, as the sandbox factories do — wasmer asserts that
    /// pairing on every store access, so this constructor is the one trusted
    /// point that establishes it, and nothing else can recombine mismatched
    /// halves.
    #[verifier::external_body]
    pub fn new(id: PluginId, store: wasmer::Store, instance: wasmer::Instance) -> (r: Self)
        ensures
            r.id_spec() == id,
    {
        WasmProxy { id, store, instance }
    }

    /// The id the proxy was minted with.
    pub closed spec fn id_spec(&self) -> PluginId {
        self.id
    }
}

/// Relies on wasmer's `Exports::get_memory` and `MemoryView::data_size`:
/// the byte size of the guest's exported linear memory — and on
/// [`WasmProxy::new`]'s pairing of store and instance.
#[verifier::external_body]
fn guest_memory_size(p: &WasmProxy) -> (r: Result<u64, PluginError>) {
    match p.instance.exports.get_memory("memory") {
        Ok(memory) => Ok(memory.view(&p.store).data_size()),
        Err(_) => Err(PluginError::Invalid),
    }
}

/// Relies on wasmer's `Exports::get_memory` and `MemoryView::write`: copies
/// the bytes into guest memory at the given offset, failing out of bounds —
/// and on [`WasmProxy::new`]'s pairing of store and instance.
#[verifier::external_body]
fn guest_write(p: &WasmProxy, offset: u32, data: &Vec<u8>) -> (r: Result<(), PluginError>) {
    match p.instance.exports.get_memory("memory") {
        Ok(memory) => match memory.view(&p.store).write(offset as u64, data.as_slice()) {
            Ok(()) => Ok(()),
            Err(_) => Err(PluginError::Invalid),
        },
        Err(_) => Err(PluginError::Invalid),
    }
}

/// Relies on wasmer's `WasmPtr::slice` and `WasmSlice::read_to_vec`: reads
/// exactly `len` bytes of guest memory at `offset`, failing out of bounds —
/// and on [`WasmProxy::new`]'s pairing of store and instance.
#[verifier::external_body]
fn guest_read(p: &WasmProxy, offset: u32, len: u32) -> (r: Result<Vec<u8>, PluginError>)
    ensures
        r matches Ok(v) ==> v@.len() == len,
{
    let memory = match p.instance.exports.get_memory("memory") {
        Ok(m) => m,
        Err(_) => return Err(PluginError::Invalid),
    };
    let view = memory.view(&p.store);
    let ptr: wasmer::WasmPtr<u8> = wasmer::WasmPtr::new(offset);
    match ptr.slice(&view, len) {
        Ok(slice) => slice.read_to_vec().map_err(|_| PluginError::Invalid),
        Err(_) => Err(PluginError::Invalid),
    }
}

/// Relies on wasmer's `Exports::get_typed_function` and
/// `TypedFunction::call`: invokes the guest's exported
/// `message(out_desc_ptr, in_ptr, in_len)` entry point; a missing export or
/// a trap inside the guest fails — and on [`WasmProxy::new`]'s pairing of
/// store and instance. Two limits of the boundary: a host import that
/// panics is resumed in the host by wasmer (the embedding's imports do not
/// panic), and a guest that never returns stalls the call — cancellation is
/// coarse, by dropping the proxy between calls.
#[verifier::external_body]
fn guest_invoke(p: &mut WasmProxy, out_ptr: u32, in_ptr: u32, in_len: u32) -> (r: Result<
    (),
    PluginError,
>) {
    let message: wasmer::TypedFunction<(wasmer::WasmPtr<u8>, wasmer::WasmPtr<u8>, u32), ()> =
        match p.instance.exports.get_typed_function(&p.store, "message") {
        Ok(f) => f,
        Err(_) => return Err(PluginError::Invalid),
    };
    match message.call(
        &mut p.store,
        wasmer::WasmPtr::new(out_ptr),
        wasmer::WasmPtr::new(in_ptr),
        in_len,
    ) {
        Ok(()) => Ok(()),
        Err(_) => Err(PluginError::Invalid),
    }
}

impl PluginProxy for WasmProxy {
    fn id(&self) -> (r: PluginId)
        ensures
            r == self.id_spec(),
    {
        self.id
    }

    /// One round trip: write the request behind the descriptor scratch,
    /// invoke `message`, read the descriptor at offset 0, check it against
    /// the memory size, and read the response it names. Every failure mode —
    /// a trap, an out-of-bounds descriptor, an oversized request — surfaces
    /// as `Invalid`. The guest decides success, so nothing more is promised
    /// of the response than what the descriptor can address.
    fn call(&mut self, request: &Vec<u8>) -> (r: Result<Vec<u8>, PluginError>)
        ensures
            request@.len() > u32::MAX - OUT_DESC_LEN ==> r == Err::<Vec<u8>, PluginError>(
                PluginError::Invalid,
            ),
            r matches Ok(v) ==> v@.len() <= u32::MAX,
    {
        if request.len() > (u32::MAX - OUT_DESC_LEN) as usize {
            return Err(PluginError::Invalid);
        }
        match guest_write(self, OUT_DESC_LEN, request) {
            Ok(()) => {},
            Err(e) => {
                return Err(e);
            },
        }
        match guest_invoke(self, 0, OUT_DESC_LEN, request.len() as u32) {
            Ok(()) => {},
            Err(e) => {
                return Err(e);
            },
        }
        let descriptor_bytes = match guest_read(self, 0, OUT_DESC_LEN) {
            Ok(v) => v,
            Err(e) => {
                return Err(e);
            },
        };
        let (addr, len) = match read_descriptor(&descriptor_bytes) {
            Some(p) => p,
            None => {
                return Err(PluginError::Invalid);
            },
        };
        let mem_size = match guest_memory_size(self) {
            Ok(s) => s,
            Err(e) => {
                return Err(e);
            },
        };
        if !descriptor_in_bounds(addr, len, mem_size) {
            return Err(PluginError::Invalid);
        }
        guest_read(self, addr, len)
    }
}

/// Mints sandboxes of the pure flavor from one guest module binary. The
/// embedding compiles and instantiates the module and wraps the result in a
/// [`WasmProxy`].
pub struct WasmPluginFactory {
    binary: Vec<u8>,
}

impl WasmPluginFactory {
    /// The guest module binary the factory instantiates.
    pub closed spec fn binary_spec(&self) -> Seq<u8> {
        self.binary@
    }

    /// A factory over the given guest module binary.
    pub fn new(binary: Vec<u8>) -> (r: Self)
        ensures
            r.binary_spec() == binary@,
    {
        WasmPluginFactory { binary }
    }

    /// The guest module binary.
    pub fn binary(&self) -> (r: &Vec<u8>)
        ensures
            r@ == self.binary_spec(),
    {
        &self.binary
    }
}

} // verus!
