//! The error taxonomy of the program. Every failing operation surfaces
//! exactly one of these kinds, and no partial state change is observable.

use vstd::prelude::*;

verus! {

/// One typed failure kind per way a request can be refused.
#[derive(Clone, Copy, Debug, PartialEq, Eq, Structural)]
pub enum CredifyError {
    /// The caller is not a signer, or does not match the stored authority.
    Unauthorized,
    /// A caller-supplied address does not match its expected derivation,
    /// or the derivation itself found no viable nonce.
    InvalidAddress,
    /// The derived address is already occupied by a record.
    AlreadyExists,
    /// A stored record, or the payload behind a recognized opcode,
    /// failed to deserialize.
    CorruptRecord,
    /// The target tree record has been deactivated.
    InactiveTree,
    /// The issuer record has been deactivated.
    InactiveIssuer,
    /// The delegated storage service reported a failure; its reason code
    /// is carried through unchanged.
    DelegatedServiceFailure(u32),
    /// The one-byte opcode is absent, or selects no known operation.
    UnknownOperation,
    /// Proof verification is a stub: it never reports a pass or a fail.
    NotImplemented,
}

} // verus!
