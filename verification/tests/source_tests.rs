//! The byte-source adapter over an in-process source guest: snapshots,
//! consume/reload accounting, and the end-of-stream round trip.

use plugin_host::byte_source::PluginByteSource;
use plugin_host::guest::handle_source_message;
use plugin_host::reader::VecReader;
use plugin_host::rpc::{ByteSourceRpc, PluginRpc, RuntimeResponse};
use plugin_host::session::PluginSession;
use plugin_host::source::ByteSourceProxy;
use plugin_host::decode::decode_source_response;
use plugin_host::encode::encode_source_payload;
use plugin_host::{PluginError, PluginId, PluginProxy};

/// An in-process source guest behind the proxy interface: each call is one
/// round of `handle_source_message`, with no sandbox in between.
struct LocalSourceProxy {
    id: PluginId,
    source: PluginByteSource<VecReader>,
}

impl PluginProxy for LocalSourceProxy {
    fn id(&self) -> PluginId {
        self.id
    }

    fn call(&mut self, request: &Vec<u8>) -> Result<Vec<u8>, PluginError> {
        Ok(handle_source_message(&mut self.source, request))
    }
}

fn source_adapter(
    data: Vec<u8>,
    total_capacity: usize,
    buffer_min: usize,
) -> ByteSourceProxy<LocalSourceProxy> {
    let source = PluginByteSource::new(VecReader::new(data), total_capacity, buffer_min);
    let proxy = LocalSourceProxy { id: 0, source };
    let mut session = PluginSession::new(proxy, 0);
    session.init().expect("init");
    ByteSourceProxy::new(session, "input.dlt".to_string(), total_capacity, buffer_min)
        .expect("setup")
}

#[test]
fn source_snapshot_after_reload() {
    let data: Vec<u8> = vec![1, 2, 3, 4, 5, 6, 7, 8, 9, 10, 11, 12];
    let mut adapter = source_adapter(data, 10, 5);
    assert_eq!(0, adapter.len());
    let info = adapter.reload().expect("reload").expect("bytes");
    // The snapshot is exactly the last reload's payload, and `len` reads it.
    assert_eq!(vec![1u8, 2, 3, 4, 5, 6, 7, 8, 9, 10], *adapter.current_slice());
    assert_eq!(adapter.current_slice().len(), adapter.len());
    assert_eq!(10, info.available_bytes);
    assert_eq!(10, info.newly_loaded_bytes);
    assert_eq!(0, info.skipped_bytes);
}

#[test]
fn source_round_trip_hundred_frames() {
    // 100 frames of the form [len=3, 0x0A, 0x0B, 0x0C], four bytes each.
    let mut data: Vec<u8> = Vec::new();
    for _ in 0..100 {
        data.extend_from_slice(&[3, 0x0A, 0x0B, 0x0C]);
    }
    let mut adapter = source_adapter(data, 10, 5);

    let mut total_consumed: usize = 0;
    let mut eof_count: usize = 0;
    loop {
        match adapter.reload() {
            Ok(Some(info)) => {
                assert!(info.available_bytes >= 4);
                adapter.consume(4).expect("consume");
                total_consumed += 4;
            }
            Ok(None) => {
                eof_count += 1;
                break;
            }
            Err(e) => panic!("reload failed: {:?}", e),
        }
    }
    assert_eq!(400, total_consumed);
    assert_eq!(1, eof_count);
}

#[test]
fn reload_error_is_unrecoverable() {
    // A proxy whose reload reply reports a source failure.
    struct FailingSource {
        done_setup: bool,
    }
    impl PluginProxy for FailingSource {
        fn id(&self) -> PluginId {
            9
        }

        fn call(&mut self, request: &Vec<u8>) -> Result<Vec<u8>, PluginError> {
            if request.as_slice() == [0u8, 1] {
                return Ok(vec![0, 1]);
            }
            let payload = if !self.done_setup {
                self.done_setup = true;
                encode_source_payload(&ByteSourceRpc::SetupDone)
            } else {
                encode_source_payload(&ByteSourceRpc::ReloadResult(
                    plugin_host::rpc::ReloadResult::ReloadError("device gone".to_string()),
                ))
            };
            let mut enveloped = vec![1u8];
            enveloped.extend_from_slice(&payload);
            Ok(enveloped)
        }
    }

    let mut session = PluginSession::new(FailingSource { done_setup: false }, 9);
    session.init().expect("init");
    let mut adapter = ByteSourceProxy::new(session, "x".to_string(), 8, 4).expect("setup");
    match adapter.reload() {
        Err(plugin_host::byte_source::SourceError::Unrecoverable(msg)) => {
            assert_eq!("device gone", msg)
        }
        other => panic!("unexpected: {:?}", other),
    }
    // A guest-reported failure is recoverable: the proxy stays usable and the
    // next round trip still reaches the guest.
    match adapter.reload() {
        Err(plugin_host::byte_source::SourceError::Unrecoverable(msg)) => {
            assert_eq!("device gone", msg)
        }
        other => panic!("unexpected: {:?}", other),
    }
    assert_eq!(2, adapter.stats.calls_reload);
    assert_eq!(2, adapter.stats.reload_error);
}

#[test]
fn protocol_violation_poisons_the_source_proxy() {
    // A guest that acknowledges setup and then answers every request with a
    // malformed payload.
    struct GarbageSource {
        done_setup: bool,
    }
    impl PluginProxy for GarbageSource {
        fn id(&self) -> PluginId {
            11
        }

        fn call(&mut self, request: &Vec<u8>) -> Result<Vec<u8>, PluginError> {
            if request.as_slice() == [0u8, 1] {
                return Ok(vec![0, 1]);
            }
            if !self.done_setup {
                self.done_setup = true;
                let mut enveloped = vec![1u8];
                enveloped.extend_from_slice(&encode_source_payload(&ByteSourceRpc::SetupDone));
                return Ok(enveloped);
            }
            Ok(vec![1, 99])
        }
    }

    let mut session = PluginSession::new(GarbageSource { done_setup: false }, 11);
    session.init().expect("init");
    let mut adapter = ByteSourceProxy::new(session, "x".to_string(), 8, 4).expect("setup");
    assert!(adapter.reload().is_err());
    // The violation is fatal: nothing reaches the guest any more.
    assert_eq!(Err(PluginError::Invalid), adapter.consume(1));
    assert!(adapter.reload().is_err());
}

#[test]
fn source_guest_answers_nonsense_with_runtime_error() {
    let mut source = PluginByteSource::new(VecReader::new(vec![1, 2, 3]), 8, 4);
    let reply = handle_source_message(&mut source, &vec![42]);
    assert_eq!(
        PluginRpc::Runtime(RuntimeResponse::Error),
        decode_source_response(&reply).unwrap()
    );
    // A response-kind payload sent as a request.
    let mut bad = vec![1u8];
    bad.extend_from_slice(&encode_source_payload(&ByteSourceRpc::ConsumeDone));
    let reply = handle_source_message(&mut source, &bad);
    assert_eq!(
        PluginRpc::Runtime(RuntimeResponse::Error),
        decode_source_response(&reply).unwrap()
    );
}

#[test]
fn plugin_byte_source_consume_and_len() {
    let mut source = PluginByteSource::new(VecReader::new(vec![5u8; 20]), 10, 5);
    let info = source.reload().expect("reload").expect("bytes");
    assert_eq!(10, info.available_bytes);
    assert_eq!(10, source.len());
    source.consume(4);
    assert_eq!(6, source.len());
    assert_eq!(vec![5u8; 6], source.current_slice());
    // Consuming more than is available changes nothing.
    source.consume(100);
    assert_eq!(6, source.len());
}
