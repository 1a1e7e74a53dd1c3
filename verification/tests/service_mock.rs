use service_mock_bridge::builder::ServiceMockBuilder;
use service_mock_bridge::hash::hash;
use service_mock_bridge::runtime::Executor;
use service_mock_bridge::runtime::Runtime;
use service_mock_bridge::wire::MethodId;
use service_mock_bridge::wire::SERVICE_DEFAULT_ID;
use service_mock_bridge::wire::marshal_short;
use service_mock_bridge::wire::unmarshal_short;

fn fresh_executor() -> Executor {
    Executor::new(Runtime::new())
}

fn executor_with_kind(kind: &str) -> Executor {
    let mut rt = Runtime::new();
    rt.register_exception_kind(kind.to_string());
    Executor::new(rt)
}

fn hash_of_byte(b: u8) -> service_mock_bridge::hash::Hash {
    service_mock_bridge::hash::Hash::from_bytes(vec![b; 32]).unwrap()
}

#[test]
fn default_build_reports_single_default_hash() {
    let proxy = ServiceMockBuilder::new(fresh_executor()).build();
    let hashes = proxy.state_hashes();
    assert_eq!(hashes.len(), 1);
    assert_eq!(hashes[0], hash(&[1u8, 2, 3]));
    // SHA-256 of the fixed default input 01 02 03.
    let expected: Vec<u8> = vec![
        0x03, 0x90, 0x58, 0xc6, 0xf2, 0xc0, 0xcb, 0x49, 0x2c, 0x53, 0x3b, 0x0a, 0x4d,
        0x14, 0xef, 0x77, 0xcc, 0x0f, 0x78, 0xab, 0xcc, 0xce, 0xd5, 0x28, 0x7d, 0x84,
        0xa1, 0xa2, 0x01, 0x1c, 0xfb, 0x81,
    ];
    assert_eq!(hashes[0].as_bytes(), &expected);
}

#[test]
fn default_build_reports_default_identity() {
    let proxy = ServiceMockBuilder::new(fresh_executor()).build();
    assert_eq!(proxy.id(), SERVICE_DEFAULT_ID);
    assert_eq!(proxy.name(), "service 42".to_string());
}

#[test]
fn configured_build_reports_configuration() {
    let h1 = hash_of_byte(0x11);
    let h2 = hash_of_byte(0x22);
    let proxy = ServiceMockBuilder::new(fresh_executor())
        .id(7)
        .name("svc".to_string())
        .state_hashes(vec![hash_of_byte(0x11), hash_of_byte(0x22)])
        .build();
    assert_eq!(proxy.id(), 7);
    assert_eq!(proxy.name(), "svc".to_string());
    assert_eq!(proxy.state_hashes(), vec![h1, h2]);
    let converted = proxy.convert_transaction(&vec![0u8, 1, 2]);
    assert!(converted.is_ok());
}

#[test]
fn last_setter_wins_per_field() {
    let proxy = ServiceMockBuilder::new(fresh_executor())
        .id(1)
        .name("first".to_string())
        .state_hashes(vec![hash_of_byte(0x01)])
        .id(7)
        .name("second".to_string())
        .state_hashes(vec![hash_of_byte(0x02), hash_of_byte(0x03)])
        .build();
    assert_eq!(proxy.id(), 7);
    assert_eq!(proxy.name(), "second".to_string());
    assert_eq!(
        proxy.state_hashes(),
        vec![hash_of_byte(0x02), hash_of_byte(0x03)]
    );
}

#[test]
fn id_round_trips_through_marshaled_form() {
    assert_eq!(marshal_short(65535), -1);
    assert_eq!(unmarshal_short(-1), 65535);
    assert_eq!(marshal_short(42), 42);
    let proxy = ServiceMockBuilder::new(fresh_executor()).id(65535).build();
    assert_eq!(proxy.id(), 65535);
}

#[test]
fn convert_throwing_yields_configured_kind() {
    let kind = "java/lang/OutOfMemoryError";
    let proxy = ServiceMockBuilder::new(executor_with_kind(kind))
        .convert_transaction_throwing(kind.to_string())
        .build();
    let converted = proxy.convert_transaction(&vec![9u8]);
    assert_eq!(converted.unwrap_err().kind, kind.to_string());
    // No other operation on that proxy is affected.
    assert_eq!(proxy.state_hashes().len(), 1);
    assert_eq!(proxy.id(), SERVICE_DEFAULT_ID);
    assert_eq!(proxy.initial_global_config().unwrap(), None);
}

#[test]
fn config_throwing_yields_configured_kind() {
    let kind = "ConfigError";
    let mut proxy = ServiceMockBuilder::new(executor_with_kind(kind))
        .initial_global_config_throwing(kind.to_string())
        .build();
    let got = proxy.initial_global_config();
    assert_eq!(got.unwrap_err().kind, kind.to_string());
    // No state mutation from that call is observable afterward.
    assert_eq!(proxy.initial_global_config().unwrap_err().kind, kind.to_string());
    assert_eq!(proxy.state_hashes().len(), 1);
    assert_eq!(proxy.id(), SERVICE_DEFAULT_ID);
    assert_eq!(proxy.name(), "service 42".to_string());
    assert!(proxy.after_commit(5).is_ok());
}

#[test]
fn initial_config_value_is_returned() {
    let proxy = ServiceMockBuilder::new(fresh_executor())
        .initial_global_config(Some("cfg".to_string()))
        .build();
    assert_eq!(proxy.initial_global_config().unwrap(), Some("cfg".to_string()));
    let bare = ServiceMockBuilder::new(fresh_executor())
        .initial_global_config(None)
        .build();
    assert_eq!(bare.initial_global_config().unwrap(), None);
}

#[test]
fn registered_adapter_is_returned_on_convert() {
    let mut executor = fresh_executor();
    let adapter = executor.create_transaction_adapter();
    let adapter_slot = adapter.slot_index();
    let proxy = ServiceMockBuilder::new(executor)
        .convert_transaction(adapter)
        .build();
    let converted = proxy.convert_transaction(&vec![1u8]);
    assert_eq!(converted.unwrap(), Some(adapter_slot));
}

#[test]
fn after_commit_records_interactions_in_order() {
    let (builder, handle) =
        ServiceMockBuilder::new(fresh_executor()).get_mock_interaction_after_commit();
    let mut proxy = builder.build();
    assert_eq!(proxy.interaction_records(&handle).len(), 0);
    assert!(proxy.after_commit(10).is_ok());
    // Operations outside the hook record nothing.
    let _ = proxy.state_hashes();
    let _ = proxy.convert_transaction(&vec![]);
    let _ = proxy.initial_global_config();
    assert!(proxy.after_commit(11).is_ok());
    let records = proxy.interaction_records(&handle);
    assert_eq!(records.len(), 2);
    assert_eq!(records[0].height, 10);
    assert_eq!(records[1].height, 11);
}

#[test]
fn after_commit_throwing_records_nothing() {
    let kind = "java/lang/IllegalStateException";
    let (builder, handle) = ServiceMockBuilder::new(executor_with_kind(kind))
        .get_mock_interaction_after_commit();
    let mut proxy = builder.after_commit_throwing(kind.to_string()).build();
    let got = proxy.after_commit(3);
    assert_eq!(got.unwrap_err().kind, kind.to_string());
    assert_eq!(proxy.interaction_records(&handle).len(), 0);
}

#[test]
fn hash_wraps_exactly_32_bytes() {
    assert!(service_mock_bridge::hash::Hash::from_bytes(vec![0u8; 31]).is_none());
    assert!(service_mock_bridge::hash::Hash::from_bytes(vec![0u8; 33]).is_none());
    let h = service_mock_bridge::hash::Hash::from_bytes(vec![7u8; 32]).unwrap();
    assert_eq!(h.as_bytes(), &vec![7u8; 32]);
    assert_eq!(h.duplicate(), h);
}

#[test]
fn builder_issues_the_fixed_wire_calls() {
    let builder = ServiceMockBuilder::new(fresh_executor());
    let log = &builder.executor.runtime.call_log;
    assert_eq!(log.len(), 4);
    assert_eq!(log[0].method, MethodId::CreateServiceFakeBuilder);
    assert_eq!(log[0].target, None);
    assert_eq!(log[1].method, MethodId::Id);
    assert_eq!(log[2].method, MethodId::Name);
    assert_eq!(log[3].method, MethodId::StateHashes);
    let builder = builder.id(9);
    assert_eq!(builder.executor.runtime.call_log.len(), 5);
    let proxy = builder.build();
    let log = &proxy.executor.runtime.call_log;
    assert_eq!(log[5].method, MethodId::Build);
}

#[test]
fn wire_table_matches_the_fixed_surface() {
    assert_eq!(MethodId::Id.name(), "id");
    assert_eq!(MethodId::Id.signature(), "(S)V");
    assert_eq!(MethodId::Name.name(), "name");
    assert_eq!(MethodId::Name.signature(), "(Ljava/lang/String;)V");
    assert_eq!(MethodId::StateHashes.name(), "stateHashes");
    assert_eq!(MethodId::StateHashes.signature(), "([[B)V");
    assert_eq!(MethodId::ConvertTransactionThrowing.signature(), "(Ljava/lang/Class;)V");
    assert_eq!(MethodId::InitialGlobalConfig.signature(), "(Ljava/lang/String;)V");
    assert_eq!(MethodId::InitialGlobalConfigThrowing.signature(), "(Ljava/lang/Class;)V");
    assert_eq!(MethodId::AfterCommitHandlerThrowing.name(), "afterCommitHandlerThrowing");
    assert_eq!(MethodId::AfterCommitHandlerThrowing.signature(), "(Ljava/lang/Class;)V");
    assert_eq!(
        MethodId::Build.signature(),
        "()Lcom/exonum/binding/service/adapters/UserServiceAdapter;"
    );
    assert_eq!(
        MethodId::GetMockInteractionAfterCommit.signature(),
        "()Lcom/exonum/binding/fakes/mocks/MockInteraction;"
    );
    assert_eq!(
        MethodId::CreateServiceFakeBuilder.signature(),
        "()Lcom/exonum/binding/fakes/mocks/UserServiceAdapterMockBuilder;"
    );
}

#[test]
fn executor_attachment_is_scoped_and_reentrant() {
    let mut executor = fresh_executor();
    assert!(!executor.attached);
    let outer = executor.attach();
    assert!(outer);
    assert!(executor.attached);
    let inner = executor.attach();
    assert!(!inner);
    executor.detach(inner);
    assert!(executor.attached);
    executor.detach(outer);
    assert!(!executor.attached);
}

#[test]
fn references_are_counted_per_handle() {
    let mut executor = fresh_executor();
    let first = executor.create_transaction_adapter();
    let slot = first.slot_index();
    assert_eq!(executor.runtime.slots[slot].rc, 1);
    let second = executor.clone_ref(&first);
    assert_eq!(second.slot_index(), slot);
    assert_eq!(executor.runtime.slots[slot].rc, 2);
    executor.release(first);
    assert_eq!(executor.runtime.slots[slot].rc, 1);
    executor.release(second);
    assert_eq!(executor.runtime.slots[slot].rc, 0);
}
