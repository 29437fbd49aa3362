//! The other end of a connection, as this chain knows it.
use crate::commitment::CommitmentPrefix;
use crate::identifier::{
    check_client_id, check_connection_id, valid_client_id, valid_connection_id, ClientId,
    ConnectionId, IdentifierError,
};
use crate::wire::{RawCounterparty, RawCounterpartyView, RawMerklePrefix};
use vstd::prelude::*;

verus! {

/// Why a counterparty, as sent, is not well formed.
#[derive(Clone, Copy, Debug, PartialEq, Eq, Structural)]
pub enum CounterpartyError {
    /// The connection identifier is there and breaks the grammar.
    InvalidConnectionId(IdentifierError),
    /// The client identifier breaks the grammar.
    InvalidClientId(IdentifierError),
    /// No commitment prefix was sent.
    MissingPrefix,
    /// The commitment prefix has no bytes.
    EmptyPrefix,
}

/// What a [`Counterparty`] holds.
#[verifier::ext_equal]
pub struct CounterpartyView {
    pub client_id: Seq<char>,
    pub connection_id: Option<Seq<char>>,
    pub prefix: Seq<u8>,
}

impl CounterpartyView {
    /// A counterparty is well formed when its client identifier follows the
    /// grammar, its connection identifier does so if there is one, and its
    /// commitment prefix has at least one byte.
    pub open spec fn is_valid(self) -> bool {
        &&& valid_client_id(self.client_id)
        &&& self.connection_id matches Some(id) ==> valid_connection_id(id)
        &&& self.prefix.len() > 0
    }
}

/// Decoding of a counterparty. An empty connection identifier stands for
/// none. The parts are checked in turn: connection identifier, client
/// identifier, prefix; the first fault is the error.
pub open spec fn decode_counterparty(raw: RawCounterpartyView) -> Result<
    CounterpartyView,
    CounterpartyError,
> {
    if raw.connection_id.len() > 0 && check_connection_id(raw.connection_id) is Err {
        Err(CounterpartyError::InvalidConnectionId(check_connection_id(raw.connection_id)->Err_0))
    } else if check_client_id(raw.client_id) is Err {
        Err(CounterpartyError::InvalidClientId(check_client_id(raw.client_id)->Err_0))
    } else if raw.prefix is None {
        Err(CounterpartyError::MissingPrefix)
    } else if raw.prefix->Some_0.len() == 0 {
        Err(CounterpartyError::EmptyPrefix)
    } else {
        Ok(
            CounterpartyView {
                client_id: raw.client_id,
                connection_id: if raw.connection_id.len() > 0 {
                    Some(raw.connection_id)
                } else {
                    None
                },
                prefix: raw.prefix->Some_0,
            },
        )
    }
}

/// Encoding of a counterparty: an absent connection identifier becomes the
/// empty string, and the prefix is always sent.
pub open spec fn encode_counterparty(counterparty: CounterpartyView) -> RawCounterpartyView {
    RawCounterpartyView {
        client_id: counterparty.client_id,
        connection_id: match counterparty.connection_id {
            Some(id) => id,
            None => Seq::empty(),
        },
        prefix: Some(counterparty.prefix),
    }
}

/// Whatever decodes is well formed.
pub proof fn lemma_decoded_counterparty_is_valid(raw: RawCounterpartyView)
    ensures
        decode_counterparty(raw) matches Ok(counterparty) ==> counterparty.is_valid(),
{
}

/// Encoding undoes decoding: what decodes is sent back as it came.
pub proof fn lemma_encode_counterparty_after_decode(raw: RawCounterpartyView)
    requires
        decode_counterparty(raw) is Ok,
    ensures
        encode_counterparty(decode_counterparty(raw)->Ok_0) == raw,
{
}

/// Decoding undoes encoding: a well-formed counterparty, once sent, decodes
/// to itself.
pub proof fn lemma_decode_counterparty_after_encode(counterparty: CounterpartyView)
    requires
        counterparty.is_valid(),
    ensures
        decode_counterparty(encode_counterparty(counterparty)) == Ok::<
            CounterpartyView,
            CounterpartyError,
        >(counterparty),
{
}

/// The other end of a connection: the client that tracks this chain over
/// there, the connection end over there once it is known, and the prefix of
/// the other chain's commitment store.
#[derive(Clone, Debug, PartialEq, Eq)]
pub struct Counterparty {
    pub client_id: ClientId,
    pub connection_id: Option<ConnectionId>,
    pub prefix: CommitmentPrefix,
}

impl View for Counterparty {
    type V = CounterpartyView;

    open spec fn view(&self) -> CounterpartyView {
        CounterpartyView {
            client_id: self.client_id@,
            connection_id: match self.connection_id {
                Some(id) => Some(id@),
                None => None,
            },
            prefix: self.prefix@,
        }
    }
}

impl Counterparty {
    /// Validates a counterparty as sent.
    pub fn try_from(raw_counterparty: RawCounterparty) -> (r: Result<
        Counterparty,
        CounterpartyError,
    >)
        ensures
            r matches Ok(c) ==> decode_counterparty(raw_counterparty@) == Ok::<
                CounterpartyView,
                CounterpartyError,
            >(c@),
            r matches Err(e) ==> decode_counterparty(raw_counterparty@) == Err::<
                CounterpartyView,
                CounterpartyError,
            >(e),
    {
        let connection_id: Option<ConnectionId> = if raw_counterparty.connection_id.as_str().is_empty() {
            None
        } else {
            match ConnectionId::from_str(raw_counterparty.connection_id.as_str()) {
                Ok(id) => Some(id),
                Err(e) => {
                    return Err(CounterpartyError::InvalidConnectionId(e));
                },
            }
        };
        let client_id = match ClientId::from_str(raw_counterparty.client_id.as_str()) {
            Ok(id) => id,
            Err(e) => {
                return Err(CounterpartyError::InvalidClientId(e));
            },
        };
        let raw_prefix = match raw_counterparty.prefix {
            Some(p) => p,
            None => {
                return Err(CounterpartyError::MissingPrefix);
            },
        };
        let prefix = match CommitmentPrefix::try_from(raw_prefix.key_prefix) {
            Ok(p) => p,
            Err(_) => {
                return Err(CounterpartyError::EmptyPrefix);
            },
        };
        Ok(Counterparty { client_id, connection_id, prefix })
    }
}

impl RawCounterparty {
    /// Renders a counterparty for sending. A counterparty in hand is always
    /// well formed.
    pub fn from(value: Counterparty) -> (raw: RawCounterparty)
        ensures
            raw@ == encode_counterparty(value@),
            value@.is_valid(),
    {
        let client_id = value.client_id.as_str().to_owned();
        let connection_id = match &value.connection_id {
            Some(id) => id.as_str().to_owned(),
            None => String::new(),
        };
        let key_prefix = value.prefix.into_vec();
        RawCounterparty { client_id, connection_id, prefix: Some(RawMerklePrefix { key_prefix }) }
    }
}

} // verus!
