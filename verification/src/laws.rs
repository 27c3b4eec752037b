//! Cross-function laws of the orchestrator, stated over the same spec-level
//! predicates its contracts use, and proved once and for all.

use vstd::prelude::*;

use crate::errors::{FactoryError, FailureView};
use crate::factory::{
    allocated_identifier, allocation_grants, context_of, create_failure, create_post,
    resolved_identifier, validate_post, ConfirmationEvent, CreateOutcome, InputsView, RequestView,
    StateView,
};
use crate::modules::DeployedMetadataView;
use crate::predict::{derived_address, salt_of};

verus! {

/// Law: local identifier allocation is a pure function of the owner and the
/// persisted counter. Two allocations over states agreeing on both — in
/// particular, two allocations with no intervening confirmed creation —
/// grant alike and return the same identifier.
pub proof fn lemma_allocation_idempotent(s1: StateView, s2: StateView, caller: Seq<char>)
    requires
        s1.owner == s2.owner,
        s1.next_sequence == s2.next_sequence,
    ensures
        allocation_grants(s1, caller) == allocation_grants(s2, caller),
        allocated_identifier(s1) == allocated_identifier(s2),
{
}

/// Law: phase one of a creation run never moves the allocator's counter or
/// the owner — whether it fails or succeeds — so allocation before the
/// request and after it agree until the run is confirmed.
pub proof fn lemma_allocation_stable_across_request(
    s0: StateView,
    s1: StateView,
    req: RequestView,
    inp: InputsView,
    r: Result<CreateOutcome, FactoryError>,
    caller: Seq<char>,
)
    requires
        create_post(s0, s1, req, inp, r),
    ensures
        allocation_grants(s1, caller) == allocation_grants(s0, caller),
        allocated_identifier(s1) == allocated_identifier(s0),
{
    if create_failure(s0, req, inp) is Some {
        assert(s1 == s0);
    }
}

/// Law: the confirmation event of a completed run reports exactly the
/// addresses the address predictor derives from the run's checksums and
/// identifier — the round trip from prediction through instantiation to
/// confirmation is deterministic.
pub proof fn lemma_confirmation_matches_prediction(
    s0: StateView,
    s1: StateView,
    s2: StateView,
    req: RequestView,
    inp: InputsView,
    r1: Result<CreateOutcome, FactoryError>,
    cm: DeployedMetadataView,
    pm: DeployedMetadataView,
    r2: Result<ConfirmationEvent, FactoryError>,
)
    requires
        create_post(s0, s1, req, inp, r1),
        r1 is Ok,
        validate_post(s1, s2, cm, pm, r2),
        r2 is Ok,
    ensures
        r2 matches Ok(ev) ==> {
            let id = resolved_identifier(s0, req);
            &&& ev@.account_id == id
            &&& ev@.controller == derived_address(
                inp.controller_module.checksum,
                inp.creator_address,
                salt_of(id),
            )
            &&& ev@.proxy == derived_address(
                inp.proxy_module.checksum,
                inp.creator_address,
                salt_of(id),
            )
        },
{
    if create_failure(s0, req, inp) is Some {
        assert(r1 is Err);
    }
    let id = resolved_identifier(s0, req);
    assert(s1.context == Some(context_of(id, inp)));
}

/// Law: the deferred validator runs at most once per creation run. A
/// completed run consumes the context, so a second invocation without a
/// fresh run fails with the internal-consistency error and changes nothing.
pub proof fn lemma_deferred_validator_runs_once(
    s0: StateView,
    s1: StateView,
    s2: StateView,
    cm1: DeployedMetadataView,
    pm1: DeployedMetadataView,
    cm2: DeployedMetadataView,
    pm2: DeployedMetadataView,
    r1: Result<ConfirmationEvent, FactoryError>,
    r2: Result<ConfirmationEvent, FactoryError>,
)
    requires
        validate_post(s0, s1, cm1, pm1, r1),
        r1 is Ok,
        validate_post(s1, s2, cm2, pm2, r2),
    ensures
        s1.context is None,
        r2 matches Err(e) && e@ == FailureView::InternalConsistency,
        s2 == s1,
{
    assert(s1.context is None);
}

/// Law: the allocator's counter advances by exactly one when a local-origin
/// creation is confirmed, and never otherwise: not on a remote-origin
/// confirmation, and not on a failed validation.
pub proof fn lemma_counter_advances_only_on_local_confirmation(
    s0: StateView,
    s1: StateView,
    cm: DeployedMetadataView,
    pm: DeployedMetadataView,
    r: Result<ConfirmationEvent, FactoryError>,
)
    requires
        validate_post(s0, s1, cm, pm, r),
    ensures
        r is Err ==> s1.next_sequence == s0.next_sequence,
        r is Ok ==> (s0.context matches Some(ctx) ==> {
            &&& ctx.account_id.origin is Local ==> s1.next_sequence == Some(
                (ctx.account_id.sequence + 1) as u64,
            )
            &&& !(ctx.account_id.origin is Local) ==> s1.next_sequence == s0.next_sequence
        }),
{
}

} // verus!
