//! The errors that the agent reports to the authority.

use vstd::prelude::*;

verus! {

/// An error result of one of the agent's callbacks, reported to the authority
/// as it stands.
#[derive(Clone, Copy, Debug, PartialEq, Eq, Structural)]
pub enum PolkitError {
    /// The attempt could not run, the helper refused the credential, or the
    /// conversation with it broke down.
    Failed,
    /// The user or the authority called the attempt off.
    Cancelled,
    /// The agent cannot do what was asked of it.
    NotSupported,
    /// The caller may not ask this of the agent.
    NotAuthorized,
    /// The cookie would not tell this attempt from another.
    CancellationIdNotUnique,
}

/// `std::io::Error`: why a read or a write failed.
#[verifier::external_type_specification]
#[verifier::external_body]
pub struct ExIoError(std::io::Error);

impl vstd::std_specs::convert::FromSpecImpl<std::io::Error> for PolkitError {
    open spec fn obeys_from_spec() -> bool {
        true
    }

    open spec fn from_spec(err: std::io::Error) -> PolkitError {
        PolkitError::Failed
    }
}

impl From<std::io::Error> for PolkitError {
    /// Any failure to read from or write to the helper fails the attempt.
    fn from(err: std::io::Error) -> (e: PolkitError)
    {
        PolkitError::Failed
    }
}

} // verus!
