use subworker_gateway::error::Error;
use subworker_gateway::registry::{
    register, ControlHandle, SubworkerRegistry, SUBWORKER_PROTOCOL_VERSION,
};

#[test]
fn register_then_mismatch_leaves_registry_unchanged() {
    let mut registry = SubworkerRegistry::new();
    let control = ControlHandle { token: 77 };
    let r = register(
        &mut registry,
        7,
        42,
        String::from("py-worker"),
        control,
    );
    assert_eq!(r, Ok(()));
    assert_eq!(registry.len(), 1);
    let entry = registry.lookup(42).expect("id 42 should be registered");
    assert_eq!(entry.subworker_id, 42);
    assert_eq!(entry.subworker_type, "py-worker");
    assert_eq!(entry.control, control);

    let r2 = register(
        &mut registry,
        6,
        42,
        String::from("cpp-worker"),
        ControlHandle { token: 99 },
    );
    assert_eq!(r2, Err(Error::ProtocolMismatch { expected: 7 }));
    assert_eq!(registry.len(), 1);
    let entry = registry.lookup(42).expect("id 42 should still be registered");
    assert_eq!(entry.subworker_type, "py-worker");
    assert_eq!(entry.control, control);
}

#[test]
fn mismatch_on_fresh_registry_registers_nothing() {
    let mut registry = SubworkerRegistry::new();
    for version in [0, 1, 6, 8, u32::MAX] {
        let r = register(
            &mut registry,
            version,
            1,
            String::from("py-worker"),
            ControlHandle { token: 1 },
        );
        assert_eq!(
            r,
            Err(Error::ProtocolMismatch { expected: SUBWORKER_PROTOCOL_VERSION })
        );
        assert_eq!(registry.len(), 0);
        assert!(registry.lookup(1).is_none());
    }
}

#[test]
fn expected_version_is_the_compiled_constant() {
    assert_eq!(SUBWORKER_PROTOCOL_VERSION, 7);
}

#[test]
fn reregistering_an_id_keeps_one_entry() {
    let mut registry = SubworkerRegistry::new();
    let r = register(
        &mut registry,
        SUBWORKER_PROTOCOL_VERSION,
        5,
        String::from("py-worker"),
        ControlHandle { token: 1 },
    );
    assert_eq!(r, Ok(()));
    let r = register(
        &mut registry,
        SUBWORKER_PROTOCOL_VERSION,
        5,
        String::from("rust-worker"),
        ControlHandle { token: 2 },
    );
    assert_eq!(r, Ok(()));
    assert_eq!(registry.len(), 1);
    let entry = registry.lookup(5).expect("id 5 should be registered");
    assert_eq!(entry.subworker_type, "rust-worker");
    assert_eq!(entry.control, ControlHandle { token: 2 });
}

#[test]
fn distinct_ids_register_side_by_side() {
    let mut registry = SubworkerRegistry::new();
    for id in [1u32, 2, 3] {
        let r = register(
            &mut registry,
            SUBWORKER_PROTOCOL_VERSION,
            id,
            String::from("py-worker"),
            ControlHandle { token: id as u64 },
        );
        assert_eq!(r, Ok(()));
    }
    assert_eq!(registry.len(), 3);
    assert_eq!(registry.lookup(2).unwrap().control, ControlHandle { token: 2 });
}
