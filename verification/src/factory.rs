//! The creation orchestrator: a two-phase state machine over explicit
//! process-wide state. Phase one validates a creation request, allocates or
//! verifies the account identifier, predicts both addresses, partitions the
//! deposit, persists the transient context and emits the ordered operation
//! list. Phase two — the deferred validator — consumes the context exactly
//! once, re-validates the instantiated sub-entities and advances the local
//! sequence counter.
//!
//! Every operation models one atomic host transaction: on any error the
//! state handle is left exactly as it was, mirroring the host's full
//! rollback of a failed run.

use vstd::prelude::*;

use crate::errors::{FactoryError, FailureView};
use crate::funds::{amount_in, clone_funds, partition_funds, wf_funds, Coin, CoinView};
use crate::ident::{
    verified_remote, AccountIdentifier, IdentifierView, OriginTrace, TraceView,
};
use crate::modules::{
    clone_bytes, descriptor_matches, matches_deployed, CodeReference, CodeReferenceView,
    DeployedMetadata, DeployedMetadataView, ModuleDescriptor, ModuleDescriptorView,
};
use crate::predict::{
    account_salt, derived_address, predict_account_addresses, salt_of, AccountBase,
    AccountBaseView,
};

verus! {

/// The local sequence whose allocation is reserved for the owner: the very
/// first, bootstrap account.
pub const RESERVED_SEQUENCE: u64 = 0;

/// Addresses of the external collaborators, mutated only by the owner.
#[derive(Debug)]
pub struct Configuration {
    pub name_service_address: String,
    pub registry_address: String,
    pub factory_address: String,
    pub gateway_address: Option<String>,
}

/// Mathematical image of a `Configuration`.
pub struct ConfigurationView {
    pub name_service: Seq<char>,
    pub registry: Seq<char>,
    pub factory: Seq<char>,
    pub gateway: Option<Seq<char>>,
}

/// Image of an optional string.
pub open spec fn opt_str_view(o: Option<String>) -> Option<Seq<char>> {
    match o {
        Some(s) => Some(s@),
        None => None,
    }
}

impl View for Configuration {
    type V = ConfigurationView;

    open spec fn view(&self) -> ConfigurationView {
        ConfigurationView {
            name_service: self.name_service_address@,
            registry: self.registry_address@,
            factory: self.factory_address@,
            gateway: opt_str_view(self.gateway_address),
        }
    }
}

/// Transient single-slot record bridging the two phases of one creation run.
/// Created at the start of a run, consumed and deleted exactly once by the
/// deferred validator at its end; at most one exists at any time.
#[derive(Debug)]
pub struct Context {
    pub account_id: AccountIdentifier,
    pub account_base: AccountBase,
    pub controller_module: ModuleDescriptor,
    pub proxy_module: ModuleDescriptor,
}

/// Mathematical image of a `Context`.
pub struct ContextView {
    pub account_id: IdentifierView,
    pub account_base: AccountBaseView,
    pub controller_module: ModuleDescriptorView,
    pub proxy_module: ModuleDescriptorView,
}

impl View for Context {
    type V = ContextView;

    open spec fn view(&self) -> ContextView {
        ContextView {
            account_id: self.account_id@,
            account_base: self.account_base@,
            controller_module: self.controller_module@,
            proxy_module: self.proxy_module@,
        }
    }
}

/// The persisted, process-wide state: configuration, the identifier
/// allocator's counter, and the single context slot. A handle to it is passed
/// explicitly into every operation.
#[derive(Debug)]
pub struct FactoryState {
    pub owner: String,
    pub config: Configuration,
    pub next_sequence: Option<u64>,
    pub context: Option<Context>,
}

/// Mathematical image of a `FactoryState`.
pub struct StateView {
    pub owner: Seq<char>,
    pub config: ConfigurationView,
    pub next_sequence: Option<u64>,
    pub context: Option<ContextView>,
}

impl View for FactoryState {
    type V = StateView;

    open spec fn view(&self) -> StateView {
        StateView {
            owner: self.owner@,
            config: self.config@,
            next_sequence: self.next_sequence,
            context: match self.context {
                Some(c) => Some(c@),
                None => None,
            },
        }
    }
}

impl FactoryState {
    /// Deployment-time state: counter unset, no context in flight.
    pub fn new(owner: String, config: Configuration) -> (r: FactoryState)
        ensures
            r@ == (StateView {
                owner: owner@,
                config: config@,
                next_sequence: None,
                context: None,
            }),
    {
        FactoryState { owner, config, next_sequence: None, context: None }
    }
}

/// The sequence the next local allocation will return: the persisted counter,
/// or the reserved bootstrap sequence while the counter is unset.
pub open spec fn next_sequence_of(s: StateView) -> u64 {
    match s.next_sequence {
        Some(n) => n,
        None => RESERVED_SEQUENCE,
    }
}

/// Whether a caller may allocate the next local identifier: the reserved
/// bootstrap sequence requires the owner capability.
pub open spec fn allocation_grants(s: StateView, caller: Seq<char>) -> bool {
    next_sequence_of(s) != RESERVED_SEQUENCE || caller == s.owner
}

/// The identifier a granted local allocation returns.
pub open spec fn allocated_identifier(s: StateView) -> IdentifierView {
    IdentifierView { sequence: next_sequence_of(s), origin: TraceView::Local }
}

impl FactoryState {
    /// The identifier allocator. Returns the next local identifier without
    /// incrementing the counter — the increment happens only on confirmed
    /// creation — so allocation is idempotent across failed attempts.
    pub fn allocate_local(&self, caller: &String) -> (r: Result<AccountIdentifier, FactoryError>)
        ensures
            (r is Ok) <==> allocation_grants(self@, caller@),
            r matches Ok(id) ==> id@ == allocated_identifier(self@),
            r matches Err(e) ==> e@ == FailureView::NotOwner,
    {
        let next = match self.next_sequence {
            Some(n) => n,
            None => RESERVED_SEQUENCE,
        };
        if next == RESERVED_SEQUENCE && !(self.owner == *caller) {
            return Err(FactoryError::NotOwner);
        }
        Ok(AccountIdentifier { sequence: next, origin: OriginTrace::Local })
    }
}

/// The polymorphic governance specification of the new account, as a closed
/// tagged variant.
#[derive(Debug)]
pub enum GovernanceSpec {
    /// A single owning address.
    Individual { owner: String },
    /// A sub-account of an existing account, governed by its controller.
    SubAccount { controller: String, proxy: String },
    /// Governance delegated to an external service.
    External { address: String },
}

/// Mathematical image of a `GovernanceSpec`.
pub enum GovernanceView {
    Individual { owner: Seq<char> },
    SubAccount { controller: Seq<char>, proxy: Seq<char> },
    External { address: Seq<char> },
}

impl View for GovernanceSpec {
    type V = GovernanceView;

    open spec fn view(&self) -> GovernanceView {
        match self {
            GovernanceSpec::Individual { owner } => GovernanceView::Individual { owner: owner@ },
            GovernanceSpec::SubAccount { controller, proxy } => GovernanceView::SubAccount {
                controller: controller@,
                proxy: proxy@,
            },
            GovernanceSpec::External { address } => GovernanceView::External { address: address@ },
        }
    }
}

/// A creation request as the caller hands it in.
#[derive(Debug)]
pub struct CreateRequest {
    pub caller: String,
    pub deposit: Vec<Coin>,
    pub governance: GovernanceSpec,
    pub name: String,
    pub description: Option<String>,
    pub link: Option<String>,
    pub namespace: Option<String>,
    pub base_asset: Option<String>,
    pub install_modules: Vec<String>,
    pub account_id: Option<AccountIdentifier>,
}

/// Mathematical image of a `CreateRequest`.
pub struct RequestView {
    pub caller: Seq<char>,
    pub deposit: Seq<CoinView>,
    pub governance: GovernanceView,
    pub name: Seq<char>,
    pub description: Option<Seq<char>>,
    pub link: Option<Seq<char>>,
    pub namespace: Option<Seq<char>>,
    pub base_asset: Option<Seq<char>>,
    pub install_modules: Seq<Seq<char>>,
    pub account_id: Option<IdentifierView>,
}

impl View for CreateRequest {
    type V = RequestView;

    open spec fn view(&self) -> RequestView {
        RequestView {
            caller: self.caller@,
            deposit: self.deposit.deep_view(),
            governance: self.governance@,
            name: self.name@,
            description: opt_str_view(self.description),
            link: opt_str_view(self.link),
            namespace: opt_str_view(self.namespace),
            base_asset: opt_str_view(self.base_asset),
            install_modules: self.install_modules.deep_view(),
            account_id: match self.account_id {
                Some(id) => Some(id@),
                None => None,
            },
        }
    }
}

/// What the host resolved from the registry and the sub-component factory
/// before phase one runs: both module descriptors, the simulated installation
/// cost, the namespace registration fee, and the orchestrator's own canonical
/// address, from which the new addresses are derived.
#[derive(Debug)]
pub struct CreationInputs {
    pub controller_module: ModuleDescriptor,
    pub proxy_module: ModuleDescriptor,
    pub install_cost: Vec<Coin>,
    pub namespace_fee: Vec<Coin>,
    pub creator_address: Vec<u8>,
}

/// Mathematical image of `CreationInputs`.
pub struct InputsView {
    pub controller_module: ModuleDescriptorView,
    pub proxy_module: ModuleDescriptorView,
    pub install_cost: Seq<CoinView>,
    pub namespace_fee: Seq<CoinView>,
    pub creator_address: Seq<u8>,
}

impl View for CreationInputs {
    type V = InputsView;

    open spec fn view(&self) -> InputsView {
        InputsView {
            controller_module: self.controller_module@,
            proxy_module: self.proxy_module@,
            install_cost: self.install_cost.deep_view(),
            namespace_fee: self.namespace_fee.deep_view(),
            creator_address: self.creator_address@,
        }
    }
}

/// The event emitted by phase one: the identifier's parts and every supplied
/// metadata field. Emitted before final success is confirmed; the host's
/// atomicity retracts it if the run aborts.
#[derive(Debug)]
pub struct CreationEvent {
    pub sequence: u64,
    pub trace: OriginTrace,
    pub name: String,
    pub description: Option<String>,
    pub link: Option<String>,
    pub namespace: Option<String>,
    pub base_asset: Option<String>,
}

/// One of the ordered creation operations of phase one. The order is
/// mandatory: each operation depends on the previous one having committed,
/// and all three share one atomic execution scope.
#[derive(Debug)]
pub enum CreationOperation {
    /// Register the new account pair under its identifier, forwarding the
    /// namespace registration fee.
    RegisterAccount {
        account_id: AccountIdentifier,
        account_base: AccountBase,
        namespace: Option<String>,
        funds: Vec<Coin>,
    },
    /// Instantiate the proxy at its predicted address with the residual
    /// funds, administered by the controller.
    InstantiateProxy {
        code_id: u64,
        salt: Vec<u8>,
        funds: Vec<Coin>,
        admin: Vec<u8>,
        account_id: AccountIdentifier,
        base_asset: Option<String>,
    },
    /// Instantiate the controller at its predicted address with the
    /// installation funds and the full install list. Its outcome triggers
    /// the deferred validator as a continuation.
    InstantiateController {
        code_id: u64,
        salt: Vec<u8>,
        funds: Vec<Coin>,
        admin: Vec<u8>,
        account_id: AccountIdentifier,
        governance: GovernanceSpec,
        install_modules: Vec<String>,
    },
}

/// Everything phase one returns: the ordered operations and the creation
/// event.
#[derive(Debug)]
pub struct CreateOutcome {
    pub operations: Vec<CreationOperation>,
    pub event: CreationEvent,
}

/// The namespace-registration cost a request actually incurs: the registry's
/// fee if a namespace accompanies the request, nothing otherwise.
pub open spec fn namespace_cost_of(req: RequestView, inp: InputsView) -> Seq<CoinView> {
    if req.namespace is Some {
        inp.namespace_fee
    } else {
        Seq::empty()
    }
}

/// The identifier a successful run uses: the supplied one, or the next local
/// allocation.
pub open spec fn resolved_identifier(s: StateView, req: RequestView) -> IdentifierView {
    match req.account_id {
        Some(id) => id,
        None => allocated_identifier(s),
    }
}

/// Both predicted addresses of the account, as the address predictor derives
/// them from the two checksums and the identifier's salt.
pub open spec fn predicted_base(id: IdentifierView, inp: InputsView) -> AccountBaseView {
    AccountBaseView {
        controller: derived_address(inp.controller_module.checksum, inp.creator_address, salt_of(id)),
        proxy: derived_address(inp.proxy_module.checksum, inp.creator_address, salt_of(id)),
    }
}

/// The context a successful run persists.
pub open spec fn context_of(id: IdentifierView, inp: InputsView) -> ContextView {
    ContextView {
        account_id: id,
        account_base: predicted_base(id, inp),
        controller_module: inp.controller_module,
        proxy_module: inp.proxy_module,
    }
}

/// Sub-account governance may only be requested by the controller it names.
pub open spec fn governance_failure(req: RequestView) -> Option<FailureView> {
    match req.governance {
        GovernanceView::SubAccount { controller, proxy } => if req.caller != controller {
            Some(FailureView::SubAccountCreatorNotController { caller: req.caller, controller })
        } else {
            None
        },
        _ => None,
    }
}

/// How resolving the account identifier can fail: a bootstrap allocation by a
/// non-owner, a mispredicted local identifier, a remote identifier from
/// anyone but the configured gateway, or a malformed remote trace.
pub open spec fn identifier_failure(s: StateView, req: RequestView) -> Option<FailureView> {
    match req.account_id {
        Some(id) => match id.origin {
            TraceView::Local => if !allocation_grants(s, req.caller) {
                Some(FailureView::NotOwner)
            } else if id != allocated_identifier(s) {
                Some(FailureView::IdentifierMismatch {
                    predicted: id,
                    actual: allocated_identifier(s),
                })
            } else {
                None
            },
            TraceView::Remote { .. } => match s.config.gateway {
                None => Some(FailureView::GatewayNotSet),
                Some(gateway) => if req.caller != gateway {
                    Some(FailureView::SenderNotGateway { caller: req.caller, gateway })
                } else if !verified_remote(id.origin) {
                    Some(FailureView::InvalidTrace)
                } else {
                    None
                },
            },
        },
        None => if !allocation_grants(s, req.caller) {
            Some(FailureView::NotOwner)
        } else {
            None
        },
    }
}

/// The deposit must cover installation plus namespace cost on every
/// denomination; on a shortfall the whole expected total and the whole
/// deposit are reported.
pub open spec fn funds_failure(req: RequestView, inp: InputsView) -> Option<FailureView> {
    if !(forall|d: Seq<char>|
        amount_in(req.deposit, d) >= amount_in(inp.install_cost, d) + amount_in(
            namespace_cost_of(req, inp),
            d,
        )) {
        Some(FailureView::FeeMismatch {
            expected: inp.install_cost + namespace_cost_of(req, inp),
            sent: req.deposit,
        })
    } else {
        None
    }
}

/// Both resolved artifacts must be of the account-base kind and carry a
/// checksum of derivation length.
pub open spec fn module_failure(inp: InputsView) -> Option<FailureView> {
    if !(inp.proxy_module.reference is AccountCode) {
        Some(FailureView::WrongModuleKind {
            module: inp.proxy_module.identifier,
            expected: "account_base"@,
        })
    } else if !(inp.controller_module.reference is AccountCode) {
        Some(FailureView::WrongModuleKind {
            module: inp.controller_module.identifier,
            expected: "account_base"@,
        })
    } else if inp.proxy_module.checksum.len() != 32 {
        Some(FailureView::InvalidChecksum { module: inp.proxy_module.identifier })
    } else if inp.controller_module.checksum.len() != 32 {
        Some(FailureView::InvalidChecksum { module: inp.controller_module.identifier })
    } else {
        None
    }
}

/// The first check a creation request fails, in the orchestrator's order:
/// governance, identifier, funds, modules. `None` means the run succeeds.
pub open spec fn create_failure(s: StateView, req: RequestView, inp: InputsView) -> Option<
    FailureView,
> {
    if governance_failure(req) is Some {
        governance_failure(req)
    } else if identifier_failure(s, req) is Some {
        identifier_failure(s, req)
    } else if funds_failure(req, inp) is Some {
        funds_failure(req, inp)
    } else {
        module_failure(inp)
    }
}

/// The creation event carries the identifier's parts and all supplied
/// metadata fields.
pub open spec fn event_matches(ev: CreationEvent, id: IdentifierView, req: RequestView) -> bool {
    &&& ev.sequence == id.sequence
    &&& ev.trace@ == id.origin
    &&& ev.name@ == req.name
    &&& opt_str_view(ev.description) == req.description
    &&& opt_str_view(ev.link) == req.link
    &&& opt_str_view(ev.namespace) == req.namespace
    &&& opt_str_view(ev.base_asset) == req.base_asset
}

/// The three operations of a successful run, in their mandatory order:
/// register the account, instantiate the proxy with the residual funds,
/// instantiate the controller with the installation funds.
pub open spec fn operations_match(
    ops: Seq<CreationOperation>,
    id: IdentifierView,
    req: RequestView,
    inp: InputsView,
) -> bool {
    &&& ops.len() == 3
    &&& ops[0] matches CreationOperation::RegisterAccount {
        account_id,
        account_base,
        namespace,
        funds,
    }
        && account_id@ == id
        && account_base@ == predicted_base(id, inp)
        && opt_str_view(namespace) == req.namespace
        && funds.deep_view() == namespace_cost_of(req, inp)
    &&& ops[1] matches CreationOperation::InstantiateProxy {
        code_id,
        salt,
        funds,
        admin,
        account_id,
        base_asset,
    }
        && inp.proxy_module.reference == (CodeReferenceView::AccountCode { code_id })
        && salt@ == salt_of(id)
        && wf_funds(funds.deep_view())
        && (forall|d: Seq<char>|
            amount_in(funds.deep_view(), d) + amount_in(inp.install_cost, d) + amount_in(
                namespace_cost_of(req, inp),
                d,
            ) == amount_in(req.deposit, d))
        && admin@ == predicted_base(id, inp).controller
        && account_id@ == id
        && opt_str_view(base_asset) == req.base_asset
    &&& ops[2] matches CreationOperation::InstantiateController {
        code_id,
        salt,
        funds,
        admin,
        account_id,
        governance,
        install_modules,
    }
        && inp.controller_module.reference == (CodeReferenceView::AccountCode { code_id })
        && salt@ == salt_of(id)
        && funds.deep_view() == inp.install_cost
        && admin@ == predicted_base(id, inp).controller
        && account_id@ == id
        && governance@ == req.governance
        && install_modules.deep_view() == req.install_modules
}

/// The whole contract of phase one. On the first failing check the matching
/// error is returned and the state is untouched; otherwise the context is
/// persisted, the counter and configuration are untouched, and the ordered
/// operations and the event are returned.
pub open spec fn create_post(
    s0: StateView,
    s1: StateView,
    req: RequestView,
    inp: InputsView,
    r: Result<CreateOutcome, FactoryError>,
) -> bool {
    match create_failure(s0, req, inp) {
        Some(f) => r matches Err(e) && e@ == f && s1 == s0,
        None => {
            let id = resolved_identifier(s0, req);
            &&& r matches Ok(out) && operations_match(out.operations@, id, req, inp)
                && event_matches(out.event, id, req)
            &&& s1.owner == s0.owner
            &&& s1.config == s0.config
            &&& s1.next_sequence == s0.next_sequence
            &&& s1.context == Some(context_of(id, inp))
        },
    }
}

/// Copies an optional string; the image is unchanged.
fn clone_opt_string(o: &Option<String>) -> (r: Option<String>)
    ensures
        opt_str_view(r) == opt_str_view(*o),
{
    match o {
        Some(s) => Some(s.clone()),
        None => None,
    }
}

/// Phase one of account creation: validates every precondition in order,
/// resolves the identifier, partitions the deposit, predicts both addresses,
/// persists the context and returns the ordered operations with the creation
/// event. On any failure the state is left untouched.
#[verifier::rlimit(60)]
#[verifier::spinoff_prover]
pub fn execute_create_account(
    state: &mut FactoryState,
    req: CreateRequest,
    inp: CreationInputs,
) -> (r: Result<CreateOutcome, FactoryError>)
    requires
        wf_funds(req.deposit.deep_view()),
    ensures
        create_post(old(state)@, final(state)@, req@, inp@, r),
{
    // Governance precondition: a sub-account may only be created by the
    // controller it names.
    if let GovernanceSpec::SubAccount { controller, .. } = &req.governance {
        if !(req.caller == *controller) {
            return Err(FactoryError::SubAccountCreatorNotController {
                caller: req.caller.clone(),
                controller: controller.clone(),
            });
        }
    }
    // Resolve the account identifier.
    let account_id: AccountIdentifier = match req.account_id {
        Some(id) => match &id.origin {
            OriginTrace::Local => {
                let generated = match state.allocate_local(&req.caller) {
                    Ok(g) => g,
                    Err(e) => {
                        return Err(e);
                    },
                };
                if !(id == generated) {
                    return Err(FactoryError::IdentifierMismatch {
                        predicted: id,
                        actual: generated,
                    });
                }
                generated
            },
            OriginTrace::Remote { .. } => {
                match &state.config.gateway_address {
                    None => {
                        return Err(FactoryError::GatewayNotSet);
                    },
                    Some(gateway) => {
                        if !(req.caller == *gateway) {
                            return Err(FactoryError::SenderNotGateway {
                                caller: req.caller.clone(),
                                gateway: gateway.clone(),
                            });
                        }
                    },
                }
                match id.origin.verify_remote() {
                    Ok(_) => {},
                    Err(e) => {
                        return Err(e);
                    },
                }
                id
            },
        },
        None => match state.allocate_local(&req.caller) {
            Ok(g) => g,
            Err(e) => {
                return Err(e);
            },
        },
    };
    // Partition the deposit into installation, namespace and residual funds.
    let empty_cost: Vec<Coin> = Vec::new();
    proof {
        assert(empty_cost.deep_view() =~= Seq::<CoinView>::empty());
    }
    let namespace_cost: &Vec<Coin> = if req.namespace.is_some() {
        &inp.namespace_fee
    } else {
        &empty_cost
    };
    proof {
        assert(namespace_cost.deep_view() == namespace_cost_of(req@, inp@));
    }
    let residual = match partition_funds(req.deposit, &inp.install_cost, namespace_cost) {
        Ok(resid) => resid,
        Err(e) => {
            proof {
                assert(governance_failure(req@) is None);
                assert(identifier_failure(old(state)@, req@) is None);
                if (forall|d: Seq<char>|
                    amount_in(req@.deposit, d) >= amount_in(inp@.install_cost, d) + amount_in(
                        namespace_cost_of(req@, inp@),
                        d,
                    )) {
                    assert forall|d: Seq<char>|
                        amount_in(req.deposit.deep_view(), d) >= amount_in(
                            inp.install_cost.deep_view(),
                            d,
                        ) + amount_in(namespace_cost.deep_view(), d) by {
                        assert(amount_in(req@.deposit, d) >= amount_in(inp@.install_cost, d)
                            + amount_in(namespace_cost_of(req@, inp@), d));
                    }
                    assert(false);
                }
                assert(funds_failure(req@, inp@) is Some);
                assert(create_failure(old(state)@, req@, inp@) == funds_failure(req@, inp@));
            }
            return Err(e);
        },
    };
    // Both artifacts must be instantiable account-base code.
    let proxy_code_id = match &inp.proxy_module.reference {
        CodeReference::AccountCode { code_id } => *code_id,
        _ => {
            return Err(FactoryError::WrongModuleKind {
                module: inp.proxy_module.identifier.clone(),
                expected: "account_base".to_owned(),
            });
        },
    };
    let controller_code_id = match &inp.controller_module.reference {
        CodeReference::AccountCode { code_id } => *code_id,
        _ => {
            return Err(FactoryError::WrongModuleKind {
                module: inp.controller_module.identifier.clone(),
                expected: "account_base".to_owned(),
            });
        },
    };
    if inp.proxy_module.checksum.len() != 32 {
        return Err(FactoryError::InvalidChecksum { module: inp.proxy_module.identifier.clone() });
    }
    if inp.controller_module.checksum.len() != 32 {
        return Err(FactoryError::InvalidChecksum {
            module: inp.controller_module.identifier.clone(),
        });
    }
    // Predict both addresses from the identifier-derived salt.
    let salt = account_salt(&account_id);
    let base = match predict_account_addresses(
        &inp.controller_module.checksum,
        &inp.proxy_module.checksum,
        &inp.creator_address,
        &salt,
    ) {
        Some(b) => b,
        None => vstd::pervasive::unreached(),
    };
    // Persist the context for the deferred validator. The operations below
    // execute atomically with this write, so overwriting a stale slot is
    // safe.
    state.context = Some(
        Context {
            account_id: account_id.clone(),
            account_base: base.clone(),
            controller_module: inp.controller_module.clone(),
            proxy_module: inp.proxy_module.clone(),
        },
    );
    // Emit the three operations; the order is mandatory.
    let op_register = CreationOperation::RegisterAccount {
        account_id: account_id.clone(),
        account_base: base.clone(),
        namespace: clone_opt_string(&req.namespace),
        funds: clone_funds(namespace_cost),
    };
    let op_proxy = CreationOperation::InstantiateProxy {
        code_id: proxy_code_id,
        salt: clone_bytes(&salt),
        funds: residual,
        admin: clone_bytes(&base.controller),
        account_id: account_id.clone(),
        base_asset: clone_opt_string(&req.base_asset),
    };
    let op_controller = CreationOperation::InstantiateController {
        code_id: controller_code_id,
        salt,
        funds: clone_funds(&inp.install_cost),
        admin: clone_bytes(&base.controller),
        account_id: account_id.clone(),
        governance: req.governance,
        install_modules: req.install_modules,
    };
    let mut operations: Vec<CreationOperation> = Vec::new();
    operations.push(op_register);
    operations.push(op_proxy);
    operations.push(op_controller);
    let event = CreationEvent {
        sequence: account_id.sequence,
        trace: account_id.origin,
        name: req.name,
        description: req.description,
        link: req.link,
        namespace: req.namespace,
        base_asset: req.base_asset,
    };
    Ok(CreateOutcome { operations, event })
}

/// The confirmation event of phase two: the final identifier and both
/// sub-entity addresses.
#[derive(Debug)]
pub struct ConfirmationEvent {
    pub account_id: AccountIdentifier,
    pub controller: Vec<u8>,
    pub proxy: Vec<u8>,
}

/// Mathematical image of a `ConfirmationEvent`.
pub struct ConfirmationView {
    pub account_id: IdentifierView,
    pub controller: Seq<u8>,
    pub proxy: Seq<u8>,
}

impl View for ConfirmationEvent {
    type V = ConfirmationView;

    open spec fn view(&self) -> ConfirmationView {
        ConfirmationView {
            account_id: self.account_id@,
            controller: self.controller@,
            proxy: self.proxy@,
        }
    }
}

/// The whole contract of phase two. With no context in flight the run is an
/// internal-consistency failure; with one, the two sub-entities are
/// re-validated against their descriptors, the context is consumed, the
/// counter advances by exactly one for local origins and not at all
/// otherwise, and the confirmation reports the context's identifier and
/// addresses. On any failure the state is untouched.
pub open spec fn validate_post(
    s0: StateView,
    s1: StateView,
    cm: DeployedMetadataView,
    pm: DeployedMetadataView,
    r: Result<ConfirmationEvent, FactoryError>,
) -> bool {
    match s0.context {
        None => r matches Err(e) && e@ == FailureView::InternalConsistency && s1 == s0,
        Some(ctx) => {
            if !descriptor_matches(ctx.controller_module, cm) {
                r matches Err(e) && e@ == (FailureView::ModuleValidity {
                    module: ctx.controller_module.identifier,
                }) && s1 == s0
            } else if !descriptor_matches(ctx.proxy_module, pm) {
                r matches Err(e) && e@ == (FailureView::ModuleValidity {
                    module: ctx.proxy_module.identifier,
                }) && s1 == s0
            } else {
                &&& r matches Ok(ev) && ev@ == (ConfirmationView {
                    account_id: ctx.account_id,
                    controller: ctx.account_base.controller,
                    proxy: ctx.account_base.proxy,
                })
                &&& s1.owner == s0.owner
                &&& s1.config == s0.config
                &&& s1.context is None
                &&& (ctx.account_id.origin is Local ==> s1.next_sequence == Some(
                    (ctx.account_id.sequence + 1) as u64,
                ))
                &&& (!(ctx.account_id.origin is Local) ==> s1.next_sequence == s0.next_sequence)
            }
        },
    }
}

/// Phase two: the deferred validator, fired once the controller sub-entity
/// is instantiated. Consumes the context exactly once, re-validates both
/// deployed sub-entities, advances the counter for local origins, and emits
/// the confirmation event.
pub fn validate_instantiated_account(
    state: &mut FactoryState,
    controller_metadata: &DeployedMetadata,
    proxy_metadata: &DeployedMetadata,
) -> (r: Result<ConfirmationEvent, FactoryError>)
    requires
        old(state)@.context matches Some(ctx) ==> (ctx.account_id.origin is Local
            ==> ctx.account_id.sequence < u64::MAX),
    ensures
        validate_post(old(state)@, final(state)@, controller_metadata@, proxy_metadata@, r),
{
    match &state.context {
        None => {
            return Err(FactoryError::InternalConsistency);
        },
        Some(ctx) => {
            if !matches_deployed(&ctx.controller_module, controller_metadata) {
                return Err(FactoryError::ModuleValidity {
                    module: ctx.controller_module.identifier.clone(),
                });
            }
            if !matches_deployed(&ctx.proxy_module, proxy_metadata) {
                return Err(FactoryError::ModuleValidity {
                    module: ctx.proxy_module.identifier.clone(),
                });
            }
        },
    }
    // Consume the context: the single-slot discipline makes a second run of
    // this continuation for the same creation impossible.
    let mut taken: Option<Context> = None;
    core::mem::swap(&mut taken, &mut state.context);
    let ctx = match taken {
        Some(c) => c,
        None => vstd::pervasive::unreached(),
    };
    // Advance the allocator only for confirmed local-origin creations.
    let is_local = match &ctx.account_id.origin {
        OriginTrace::Local => true,
        _ => false,
    };
    if is_local {
        state.next_sequence = Some(ctx.account_id.sequence + 1);
    }
    Ok(
        ConfirmationEvent {
            account_id: ctx.account_id,
            controller: ctx.account_base.controller,
            proxy: ctx.account_base.proxy,
        },
    )
}

/// A syntactically valid collaborator address: bounded length, lowercase
/// alphanumeric characters.
pub open spec fn valid_address_char(c: char) -> bool {
    (97 <= c as u32 && c as u32 <= 122) || (48 <= c as u32 && c as u32 <= 57)
}

/// A syntactically valid collaborator address.
pub open spec fn valid_address(s: Seq<char>) -> bool {
    3 <= s.len() <= 90 && forall|i: int| 0 <= i < s.len() ==> valid_address_char(s[i])
}

fn check_address(s: &String) -> (r: bool)
    ensures
        r == valid_address(s@),
{
    let n = s.as_str().unicode_len();
    if n < 3 || n > 90 {
        return false;
    }
    let mut i: usize = 0;
    while i < n
        invariant
            i <= n,
            n == s@.len(),
            3 <= n <= 90,
            forall|j: int| 0 <= j < i ==> valid_address_char(s@[j]),
        decreases n - i,
    {
        let c = s.as_str().get_char(i);
        let code = c as u32;
        if !((97 <= code && code <= 122) || (48 <= code && code <= 57)) {
            return false;
        }
        i = i + 1;
    }
    true
}

/// The first check a configuration update fails: a non-owner caller, or the
/// first syntactically invalid supplied address, in field order.
pub open spec fn update_failure(
    s: StateView,
    caller: Seq<char>,
    name_service: Option<Seq<char>>,
    registry: Option<Seq<char>>,
    factory: Option<Seq<char>>,
    gateway: Option<Seq<char>>,
) -> Option<FailureView> {
    if caller != s.owner {
        Some(FailureView::NotOwner)
    } else if address_failure(name_service) is Some {
        address_failure(name_service)
    } else if address_failure(registry) is Some {
        address_failure(registry)
    } else if address_failure(factory) is Some {
        address_failure(factory)
    } else {
        address_failure(gateway)
    }
}

/// A supplied address that is not syntactically valid fails the update.
pub open spec fn address_failure(o: Option<Seq<char>>) -> Option<FailureView> {
    match o {
        Some(a) => if !valid_address(a) {
            Some(FailureView::InvalidAddress { address: a })
        } else {
            None
        },
        None => None,
    }
}

/// Configuration mutation: only the owner may update, each supplied address
/// is syntactically validated before it replaces the corresponding field,
/// and omitted fields are left unchanged.
pub fn execute_update_config(
    state: &mut FactoryState,
    caller: &String,
    name_service: Option<String>,
    registry: Option<String>,
    factory: Option<String>,
    gateway: Option<String>,
) -> (r: Result<(), FactoryError>)
    ensures
        match update_failure(
            old(state)@,
            caller@,
            opt_str_view(name_service),
            opt_str_view(registry),
            opt_str_view(factory),
            opt_str_view(gateway),
        ) {
            Some(f) => r matches Err(e) && e@ == f && final(state)@ == old(state)@,
            None => r is Ok && final(state)@.owner == old(state)@.owner
                && final(state)@.next_sequence == old(state)@.next_sequence
                && final(state)@.context == old(state)@.context
                && final(state)@.config == (ConfigurationView {
                name_service: match opt_str_view(name_service) {
                    Some(a) => a,
                    None => old(state)@.config.name_service,
                },
                registry: match opt_str_view(registry) {
                    Some(a) => a,
                    None => old(state)@.config.registry,
                },
                factory: match opt_str_view(factory) {
                    Some(a) => a,
                    None => old(state)@.config.factory,
                },
                gateway: match opt_str_view(gateway) {
                    Some(a) => Some(a),
                    None => old(state)@.config.gateway,
                },
            }),
        },
{
    if !(state.owner == *caller) {
        return Err(FactoryError::NotOwner);
    }
    match &name_service {
        Some(a) => if !check_address(a) {
            return Err(FactoryError::InvalidAddress { address: a.clone() });
        },
        None => {},
    }
    match &registry {
        Some(a) => if !check_address(a) {
            return Err(FactoryError::InvalidAddress { address: a.clone() });
        },
        None => {},
    }
    match &factory {
        Some(a) => if !check_address(a) {
            return Err(FactoryError::InvalidAddress { address: a.clone() });
        },
        None => {},
    }
    match &gateway {
        Some(a) => if !check_address(a) {
            return Err(FactoryError::InvalidAddress { address: a.clone() });
        },
        None => {},
    }
    if let Some(a) = name_service {
        state.config.name_service_address = a;
    }
    if let Some(a) = registry {
        state.config.registry_address = a;
    }
    if let Some(a) = factory {
        state.config.factory_address = a;
    }
    if let Some(a) = gateway {
        state.config.gateway_address = Some(a);
    }
    Ok(())
}

} // verus!
