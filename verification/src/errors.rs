//! The error taxonomy of the orchestrator. Every error aborts the whole
//! in-flight run: callers roll back all state changes, and nothing is caught
//! or retried internally.

use vstd::prelude::*;

use crate::funds::{Coin, CoinView};
use crate::ident::{AccountIdentifier, IdentifierView};

verus! {

/// Everything that can make a request fail.
#[derive(Debug)]
pub enum FactoryError {
    /// The caller lacks the owner capability.
    NotOwner,
    /// A sub-account was requested by someone other than its controller.
    SubAccountCreatorNotController { caller: String, controller: String },
    /// A remote identifier was supplied but no gateway is configured.
    GatewayNotSet,
    /// A remote identifier was supplied by someone other than the gateway.
    SenderNotGateway { caller: String, gateway: String },
    /// A supplied local identifier disagrees with the next allocatable one.
    IdentifierMismatch { predicted: AccountIdentifier, actual: AccountIdentifier },
    /// A supplied remote identifier does not carry a well-formed remote path.
    InvalidTrace,
    /// A resolved code artifact is not of the expected account-base kind.
    WrongModuleKind { module: String, expected: String },
    /// A resolved code artifact carries a checksum of the wrong length.
    InvalidChecksum { module: String },
    /// The deposit does not cover the required cost partitions.
    FeeMismatch { expected: Vec<Coin>, sent: Vec<Coin> },
    /// Post-creation metadata of a sub-entity disagrees with its descriptor.
    ModuleValidity { module: String },
    /// A supplied configuration address is not syntactically valid.
    InvalidAddress { address: String },
    /// The deferred validator fired without a context; must never occur.
    InternalConsistency,
}

/// Mathematical image of a `FactoryError`.
pub enum FailureView {
    NotOwner,
    SubAccountCreatorNotController { caller: Seq<char>, controller: Seq<char> },
    GatewayNotSet,
    SenderNotGateway { caller: Seq<char>, gateway: Seq<char> },
    IdentifierMismatch { predicted: IdentifierView, actual: IdentifierView },
    InvalidTrace,
    WrongModuleKind { module: Seq<char>, expected: Seq<char> },
    InvalidChecksum { module: Seq<char> },
    FeeMismatch { expected: Seq<CoinView>, sent: Seq<CoinView> },
    ModuleValidity { module: Seq<char> },
    InvalidAddress { address: Seq<char> },
    InternalConsistency,
}

impl View for FactoryError {
    type V = FailureView;

    open spec fn view(&self) -> FailureView {
        match self {
            FactoryError::NotOwner => FailureView::NotOwner,
            FactoryError::SubAccountCreatorNotController { caller, controller } =>
                FailureView::SubAccountCreatorNotController {
                caller: caller@,
                controller: controller@,
            },
            FactoryError::GatewayNotSet => FailureView::GatewayNotSet,
            FactoryError::SenderNotGateway { caller, gateway } => FailureView::SenderNotGateway {
                caller: caller@,
                gateway: gateway@,
            },
            FactoryError::IdentifierMismatch { predicted, actual } =>
                FailureView::IdentifierMismatch { predicted: predicted@, actual: actual@ },
            FactoryError::InvalidTrace => FailureView::InvalidTrace,
            FactoryError::WrongModuleKind { module, expected } => FailureView::WrongModuleKind {
                module: module@,
                expected: expected@,
            },
            FactoryError::InvalidChecksum { module } => FailureView::InvalidChecksum {
                module: module@,
            },
            FactoryError::FeeMismatch { expected, sent } => FailureView::FeeMismatch {
                expected: expected.deep_view(),
                sent: sent.deep_view(),
            },
            FactoryError::ModuleValidity { module } => FailureView::ModuleValidity {
                module: module@,
            },
            FactoryError::InvalidAddress { address } => FailureView::InvalidAddress {
                address: address@,
            },
            FactoryError::InternalConsistency => FailureView::InternalConsistency,
        }
    }
}

} // verus!
