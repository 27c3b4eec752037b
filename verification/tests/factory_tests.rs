use account_factory::errors::FactoryError;
use account_factory::factory::{
    execute_create_account, execute_update_config, validate_instantiated_account, Configuration,
    CreateRequest, CreationInputs, CreationOperation, FactoryState, GovernanceSpec,
};
use account_factory::funds::Coin;
use account_factory::ident::{AccountIdentifier, OriginTrace};
use account_factory::modules::{CodeReference, DeployedMetadata, ModuleDescriptor};
use account_factory::predict::{account_salt, predict_account_addresses};

fn coin(denom: &str, amount: u128) -> Coin {
    Coin { denom: denom.to_string(), amount }
}

fn config() -> Configuration {
    Configuration {
        name_service_address: "nameservice".to_string(),
        registry_address: "registry".to_string(),
        factory_address: "modulefactory".to_string(),
        gateway_address: Some("gateway".to_string()),
    }
}

fn state() -> FactoryState {
    FactoryState::new("owner".to_string(), config())
}

fn controller_module() -> ModuleDescriptor {
    ModuleDescriptor {
        identifier: "account-controller".to_string(),
        reference: CodeReference::AccountCode { code_id: 11 },
        checksum: vec![0x11u8; 32],
    }
}

fn proxy_module() -> ModuleDescriptor {
    ModuleDescriptor {
        identifier: "account-proxy".to_string(),
        reference: CodeReference::AccountCode { code_id: 22 },
        checksum: vec![0x22u8; 32],
    }
}

fn inputs() -> CreationInputs {
    CreationInputs {
        controller_module: controller_module(),
        proxy_module: proxy_module(),
        install_cost: vec![coin("tokena", 10)],
        namespace_fee: vec![coin("tokenb", 3)],
        creator_address: vec![0x07u8; 20],
    }
}

fn request(caller: &str, deposit: Vec<Coin>) -> CreateRequest {
    CreateRequest {
        caller: caller.to_string(),
        deposit,
        governance: GovernanceSpec::Individual { owner: caller.to_string() },
        name: "my account".to_string(),
        description: None,
        link: None,
        namespace: None,
        base_asset: None,
        install_modules: vec!["adapter-a".to_string()],
        account_id: None,
    }
}

fn metadata_for(module: &ModuleDescriptor) -> DeployedMetadata {
    DeployedMetadata { identifier: module.identifier.clone(), checksum: module.checksum.clone() }
}

fn local_id(sequence: u64) -> AccountIdentifier {
    AccountIdentifier { sequence, origin: OriginTrace::Local }
}

#[test]
fn bootstrap_requires_owner() {
    // Counter unset, non-owner caller, no identifier supplied: the reserved
    // bootstrap sequence is refused before any context is written.
    let mut s = state();
    let r = execute_create_account(&mut s, request("mallory", vec![coin("tokena", 10)]), inputs());
    assert!(matches!(r, Err(FactoryError::NotOwner)));
    assert!(s.context.is_none());
    assert_eq!(s.next_sequence, None);
}

#[test]
fn happy_path_emits_ordered_operations_and_confirms() {
    let mut s = state();
    s.next_sequence = Some(5);
    let out =
        execute_create_account(&mut s, request("owner", vec![coin("tokena", 10)]), inputs())
            .unwrap();

    // Identifier {5, Local} allocated and the context written.
    let ctx = s.context.as_ref().unwrap();
    assert!(ctx.account_id == local_id(5));

    // Three operations, in the mandatory order.
    assert_eq!(out.operations.len(), 3);
    assert!(matches!(out.operations[0], CreationOperation::RegisterAccount { .. }));
    assert!(matches!(out.operations[1], CreationOperation::InstantiateProxy { .. }));
    assert!(matches!(out.operations[2], CreationOperation::InstantiateController { .. }));
    match &out.operations[1] {
        CreationOperation::InstantiateProxy { code_id, funds, .. } => {
            assert_eq!(*code_id, 22);
            // The whole deposit went to installation; nothing is residual.
            assert!(funds.is_empty());
        },
        _ => unreachable!(),
    }
    match &out.operations[2] {
        CreationOperation::InstantiateController { code_id, funds, .. } => {
            assert_eq!(*code_id, 11);
            assert_eq!(funds.len(), 1);
            assert_eq!(funds[0].amount, 10);
        },
        _ => unreachable!(),
    }
    assert_eq!(out.event.sequence, 5);
    assert_eq!(out.event.name, "my account");

    // The deferred validator confirms and advances the counter to 6.
    let cm = metadata_for(&controller_module());
    let pm = metadata_for(&proxy_module());
    let ev = validate_instantiated_account(&mut s, &cm, &pm).unwrap();
    assert!(ev.account_id == local_id(5));
    assert_eq!(s.next_sequence, Some(6));
    assert!(s.context.is_none());

    // The confirmed addresses are independently recomputable.
    let salt = account_salt(&local_id(5));
    let recomputed = predict_account_addresses(
        &vec![0x11u8; 32],
        &vec![0x22u8; 32],
        &vec![0x07u8; 20],
        &salt,
    )
    .unwrap();
    assert_eq!(ev.controller, recomputed.controller);
    assert_eq!(ev.proxy, recomputed.proxy);
}

#[test]
fn remote_creation_leaves_counter_unchanged() {
    let mut s = state();
    s.next_sequence = Some(4);
    let mut req = request("gateway", vec![coin("tokena", 10)]);
    req.account_id = Some(AccountIdentifier {
        sequence: 7,
        origin: OriginTrace::Remote { path: vec!["juno".to_string()] },
    });
    execute_create_account(&mut s, req, inputs()).unwrap();
    assert_eq!(s.context.as_ref().unwrap().account_id.sequence, 7);

    let cm = metadata_for(&controller_module());
    let pm = metadata_for(&proxy_module());
    let ev = validate_instantiated_account(&mut s, &cm, &pm).unwrap();
    assert_eq!(ev.account_id.sequence, 7);
    assert_eq!(s.next_sequence, Some(4));
    assert!(s.context.is_none());
}

#[test]
fn remote_creation_requires_the_gateway_caller() {
    let mut s = state();
    s.next_sequence = Some(4);
    let mut req = request("mallory", vec![coin("tokena", 10)]);
    req.account_id = Some(AccountIdentifier {
        sequence: 7,
        origin: OriginTrace::Remote { path: vec!["juno".to_string()] },
    });
    match execute_create_account(&mut s, req, inputs()) {
        Err(FactoryError::SenderNotGateway { caller, gateway }) => {
            assert_eq!(caller, "mallory");
            assert_eq!(gateway, "gateway");
        },
        other => panic!("expected a gateway error, got {:?}", other),
    }
    assert!(s.context.is_none());
}

#[test]
fn remote_creation_requires_a_configured_gateway() {
    let mut s = state();
    s.config.gateway_address = None;
    s.next_sequence = Some(4);
    let mut req = request("gateway", vec![coin("tokena", 10)]);
    req.account_id = Some(AccountIdentifier {
        sequence: 7,
        origin: OriginTrace::Remote { path: vec!["juno".to_string()] },
    });
    assert!(matches!(
        execute_create_account(&mut s, req, inputs()),
        Err(FactoryError::GatewayNotSet)
    ));
}

#[test]
fn remote_creation_rejects_a_malformed_trace() {
    let mut s = state();
    s.next_sequence = Some(4);
    let mut req = request("gateway", vec![coin("tokena", 10)]);
    req.account_id = Some(AccountIdentifier {
        sequence: 7,
        origin: OriginTrace::Remote { path: vec!["JUNO".to_string()] },
    });
    assert!(matches!(
        execute_create_account(&mut s, req, inputs()),
        Err(FactoryError::InvalidTrace)
    ));
}

#[test]
fn mismatched_prediction_reports_both_identifiers() {
    let mut s = state();
    s.next_sequence = Some(5);
    let mut req = request("owner", vec![coin("tokena", 10)]);
    req.account_id = Some(local_id(9));
    match execute_create_account(&mut s, req, inputs()) {
        Err(FactoryError::IdentifierMismatch { predicted, actual }) => {
            assert!(predicted == local_id(9));
            assert!(actual == local_id(5));
        },
        other => panic!("expected an identifier mismatch, got {:?}", other),
    }
    assert!(s.context.is_none());
    assert_eq!(s.next_sequence, Some(5));
}

#[test]
fn matching_supplied_local_identifier_is_accepted() {
    let mut s = state();
    s.next_sequence = Some(5);
    let mut req = request("owner", vec![coin("tokena", 10)]);
    req.account_id = Some(local_id(5));
    execute_create_account(&mut s, req, inputs()).unwrap();
    assert!(s.context.as_ref().unwrap().account_id == local_id(5));
}

#[test]
fn allocation_is_idempotent_until_confirmed() {
    let mut s = state();
    s.next_sequence = Some(5);
    let caller = "anyone".to_string();
    let first = s.allocate_local(&caller).unwrap();
    let second = s.allocate_local(&caller).unwrap();
    assert!(first == second);

    // A failed creation (fee shortfall) moves nothing: allocation still
    // returns the same identifier afterwards.
    let r = execute_create_account(&mut s, request("anyone", vec![coin("tokena", 1)]), inputs());
    assert!(matches!(r, Err(FactoryError::FeeMismatch { .. })));
    let third = s.allocate_local(&caller).unwrap();
    assert!(first == third);

    // A successful but unconfirmed creation does not advance it either.
    execute_create_account(&mut s, request("anyone", vec![coin("tokena", 10)]), inputs()).unwrap();
    let fourth = s.allocate_local(&caller).unwrap();
    assert!(first == fourth);
}

#[test]
fn sub_account_creation_is_reserved_for_its_controller() {
    let mut s = state();
    s.next_sequence = Some(5);
    let mut req = request("mallory", vec![coin("tokena", 10)]);
    req.governance = GovernanceSpec::SubAccount {
        controller: "parentcontroller".to_string(),
        proxy: "parentproxy".to_string(),
    };
    match execute_create_account(&mut s, req, inputs()) {
        Err(FactoryError::SubAccountCreatorNotController { caller, controller }) => {
            assert_eq!(caller, "mallory");
            assert_eq!(controller, "parentcontroller");
        },
        other => panic!("expected an authorization error, got {:?}", other),
    }
}

#[test]
fn namespace_requests_incur_the_registration_fee() {
    let mut s = state();
    s.next_sequence = Some(5);
    let mut req = request("owner", vec![coin("tokena", 10)]);
    req.namespace = Some("myspace".to_string());
    // The deposit covers the install cost but not the namespace fee.
    assert!(matches!(
        execute_create_account(&mut s, req, inputs()),
        Err(FactoryError::FeeMismatch { .. })
    ));

    let mut req = request("owner", vec![coin("tokena", 10), coin("tokenb", 3)]);
    req.namespace = Some("myspace".to_string());
    let out = execute_create_account(&mut s, req, inputs()).unwrap();
    match &out.operations[0] {
        CreationOperation::RegisterAccount { namespace, funds, .. } => {
            assert_eq!(namespace.as_deref(), Some("myspace"));
            assert_eq!(funds.len(), 1);
            assert_eq!(funds[0].denom, "tokenb");
            assert_eq!(funds[0].amount, 3);
        },
        _ => unreachable!(),
    }
}

#[test]
fn wrong_module_kind_names_the_offender() {
    let mut s = state();
    s.next_sequence = Some(5);
    let mut inp = inputs();
    inp.proxy_module.reference = CodeReference::Addressed { address: "somewhere".to_string() };
    match execute_create_account(&mut s, request("owner", vec![coin("tokena", 10)]), inp) {
        Err(FactoryError::WrongModuleKind { module, expected }) => {
            assert_eq!(module, "account-proxy");
            assert_eq!(expected, "account_base");
        },
        other => panic!("expected a module kind error, got {:?}", other),
    }
}

#[test]
fn malformed_checksum_is_a_resolution_failure() {
    let mut s = state();
    s.next_sequence = Some(5);
    let mut inp = inputs();
    inp.controller_module.checksum = vec![0x11u8; 31];
    match execute_create_account(&mut s, request("owner", vec![coin("tokena", 10)]), inp) {
        Err(FactoryError::InvalidChecksum { module }) => {
            assert_eq!(module, "account-controller");
        },
        other => panic!("expected a checksum error, got {:?}", other),
    }
}

#[test]
fn validator_without_context_is_an_internal_error() {
    let mut s = state();
    let cm = metadata_for(&controller_module());
    let pm = metadata_for(&proxy_module());
    assert!(matches!(
        validate_instantiated_account(&mut s, &cm, &pm),
        Err(FactoryError::InternalConsistency)
    ));
}

#[test]
fn validator_runs_only_once_per_creation() {
    let mut s = state();
    s.next_sequence = Some(5);
    execute_create_account(&mut s, request("owner", vec![coin("tokena", 10)]), inputs()).unwrap();
    let cm = metadata_for(&controller_module());
    let pm = metadata_for(&proxy_module());
    validate_instantiated_account(&mut s, &cm, &pm).unwrap();
    // The context was consumed: firing the continuation again is an
    // internal-consistency failure and the counter stays put.
    assert!(matches!(
        validate_instantiated_account(&mut s, &cm, &pm),
        Err(FactoryError::InternalConsistency)
    ));
    assert_eq!(s.next_sequence, Some(6));
}

#[test]
fn validator_rejects_mismatched_module_metadata() {
    let mut s = state();
    s.next_sequence = Some(5);
    execute_create_account(&mut s, request("owner", vec![coin("tokena", 10)]), inputs()).unwrap();
    let mut cm = metadata_for(&controller_module());
    cm.checksum = vec![0x99u8; 32];
    let pm = metadata_for(&proxy_module());
    match validate_instantiated_account(&mut s, &cm, &pm) {
        Err(FactoryError::ModuleValidity { module }) => {
            assert_eq!(module, "account-controller");
        },
        other => panic!("expected a module validity error, got {:?}", other),
    }
    // The failed validation aborts the run: nothing was consumed or counted.
    assert!(s.context.is_some());
    assert_eq!(s.next_sequence, Some(5));
}

#[test]
fn update_config_requires_the_owner() {
    let mut s = state();
    let caller = "mallory".to_string();
    assert!(matches!(
        execute_update_config(&mut s, &caller, None, Some("newregistry".to_string()), None, None),
        Err(FactoryError::NotOwner)
    ));
    assert_eq!(s.config.registry_address, "registry");
}

#[test]
fn update_config_replaces_only_supplied_fields() {
    let mut s = state();
    let caller = "owner".to_string();
    execute_update_config(&mut s, &caller, None, Some("newregistry".to_string()), None, None)
        .unwrap();
    assert_eq!(s.config.registry_address, "newregistry");
    assert_eq!(s.config.name_service_address, "nameservice");
    assert_eq!(s.config.factory_address, "modulefactory");
    assert_eq!(s.config.gateway_address.as_deref(), Some("gateway"));
}

#[test]
fn update_config_validates_addresses() {
    let mut s = state();
    let caller = "owner".to_string();
    match execute_update_config(&mut s, &caller, Some("Bad Address!".to_string()), None, None, None)
    {
        Err(FactoryError::InvalidAddress { address }) => {
            assert_eq!(address, "Bad Address!");
        },
        other => panic!("expected an address error, got {:?}", other),
    }
    assert_eq!(s.config.name_service_address, "nameservice");
}
