use vstd::prelude::*;

verus! {

/// Failure taxonomy of the echo core. Every error is terminal for the current
/// request: the request aborts with no partial header or payload mutation.
#[derive(Clone, Copy, Debug, PartialEq, Eq, Structural)]
pub enum EchoError {
    /// The request bytes do not decode.
    InvalidRequestEncoding,
    /// The identity that must authorize provisioning did not sign the request.
    MissingSignature,
    /// The claimed authority did not sign the current request.
    NotSigner,
    /// The claimed authority does not re-derive the slot's recorded address.
    AuthorityMismatch,
    /// Provisioning collided with an existing slot at the derived address.
    SlotAlreadyExists,
    /// No disambiguation byte in range yields a usable derived address.
    DerivationExhausted,
    /// The requested capacity cannot hold the slot header.
    InvalidCapacity,
    /// The request kind is intentionally unsupported by this version of the core.
    NotImplemented,
    /// Opaque failure of the external ledger: a missing or foreign account, a
    /// size limit, or a funding shortfall.
    LedgerFailure,
}

} // verus!
