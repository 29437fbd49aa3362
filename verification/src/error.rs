//! Why a request to open a connection is turned down.
use crate::connection::CounterpartyError;
use crate::identifier::IdentifierError;
use crate::signer::SignerError;
use crate::version::VersionError;
use vstd::prelude::*;

verus! {

/// The ways in which a request to open a connection, as sent, can be wrong.
#[derive(Clone, Copy, Debug, PartialEq, Eq, Structural)]
pub enum ConnectionError {
    /// The identifier of the client on this chain breaks the grammar.
    InvalidIdentifier(IdentifierError),
    /// No counterparty was sent.
    MissingCounterparty,
    /// A counterparty was sent and is not well formed.
    CounterpartyInvalid(CounterpartyError),
    /// A version was sent and is not well formed.
    VersionInvalid(VersionError),
    /// The signer is not well formed.
    Signer(SignerError),
}

} // verus!
