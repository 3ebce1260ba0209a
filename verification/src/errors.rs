//! The closed set of failures that an operation can end in.

use vstd::prelude::*;

verus! {

/// Why a call failed. Every failure is final for that call: nothing is
/// retried, and no failure carries another as its cause.
#[derive(Copy, Clone, Debug, PartialEq, Eq, Structural)]
pub enum Error {
    AlreadyInitialized,
    NotInitialized,
    UnauthorizedAttestor,
    AttestorAlreadyRegistered,
    AttestorNotRegistered,
    AttestationNotFound,
    ReplayAttack,
    InvalidTimestamp,
    EndpointNotFound,
    InvalidEndpointFormat,
    ServicesNotConfigured,
    InvalidServiceType,
    InvalidQuote,
    StaleQuote,
    QuoteNotFound,
    NoQuotesAvailable,
    InvalidTransactionIntent,
    ComplianceNotMet,
    SessionNotFound,
    SessionReplayAttack,
    InvalidCredentialFormat,
}

} // verus!
