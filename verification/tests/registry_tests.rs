//! The registry: the lifecycle handshake, id minting and unknown names.

use plugin_host::guest::EchoFactory;
use plugin_host::registry::PluginRegistry;
use plugin_host::PluginError;

#[test]
fn runtime_handshake_mints_increasing_ids() {
    let mut registry: PluginRegistry<EchoFactory> = PluginRegistry::new();
    registry.register("echo".to_string(), EchoFactory::new());

    let mut first = registry.create_proxy(&"echo".to_string()).expect("proxy");
    assert_eq!(0, first.id());

    // A subsequent call echoes input.
    let echoed = first.call_plugin(&vec![7, 8, 9]).expect("call");
    assert_eq!(vec![7u8, 8, 9], echoed);

    let second = registry.create_proxy(&"echo".to_string()).expect("proxy");
    assert_eq!(1, second.id());
}

#[test]
fn unknown_plugin_yields_invalid_and_instantiates_nothing() {
    let mut registry: PluginRegistry<EchoFactory> = PluginRegistry::new();
    registry.register("echo".to_string(), EchoFactory::new());

    let missing = registry.create_proxy(&"missing".to_string());
    assert!(matches!(missing, Err(PluginError::Invalid)));

    // No id was consumed: the next successful creation still gets id 0.
    let session = registry.create_proxy(&"echo".to_string()).expect("proxy");
    assert_eq!(0, session.id());
}

#[test]
fn ids_stay_distinct_across_many_creations() {
    let mut registry: PluginRegistry<EchoFactory> = PluginRegistry::new();
    registry.register("echo".to_string(), EchoFactory::new());
    let mut seen: Vec<usize> = Vec::new();
    for _ in 0..10 {
        let session = registry.create_proxy(&"echo".to_string()).expect("proxy");
        assert!(!seen.contains(&session.id()));
        if let Some(last) = seen.last() {
            assert!(*last < session.id());
        }
        seen.push(session.id());
    }
}
