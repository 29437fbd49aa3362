//! The message as it travels: unchecked strings, bytes and integers.
//!
//! Nothing here is validated. A field that the sender left out arrives as an
//! empty string or as `None`.
use vstd::prelude::*;

verus! {

/// The key prefix of a chain's commitment store, as sent.
#[derive(Clone, Debug, PartialEq, Eq)]
pub struct RawMerklePrefix {
    pub key_prefix: Vec<u8>,
}

impl View for RawMerklePrefix {
    type V = Seq<u8>;

    open spec fn view(&self) -> Seq<u8> {
        self.key_prefix@
    }
}

/// The other end of a connection, as sent. An empty `connection_id` stands
/// for "none yet".
#[derive(Clone, Debug, PartialEq, Eq)]
pub struct RawCounterparty {
    pub client_id: String,
    pub connection_id: String,
    pub prefix: Option<RawMerklePrefix>,
}

/// What a [`RawCounterparty`] holds.
#[verifier::ext_equal]
pub struct RawCounterpartyView {
    pub client_id: Seq<char>,
    pub connection_id: Seq<char>,
    pub prefix: Option<Seq<u8>>,
}

impl View for RawCounterparty {
    type V = RawCounterpartyView;

    open spec fn view(&self) -> RawCounterpartyView {
        RawCounterpartyView {
            client_id: self.client_id@,
            connection_id: self.connection_id@,
            prefix: match self.prefix {
                Some(p) => Some(p@),
                None => None,
            },
        }
    }
}

/// A protocol version with the features it offers, as sent.
#[derive(Clone, Debug, PartialEq, Eq)]
pub struct RawVersion {
    pub identifier: String,
    pub features: Vec<String>,
}

/// What a [`RawVersion`] holds.
#[verifier::ext_equal]
pub struct RawVersionView {
    pub identifier: Seq<char>,
    pub features: Seq<Seq<char>>,
}

impl View for RawVersion {
    type V = RawVersionView;

    open spec fn view(&self) -> RawVersionView {
        RawVersionView { identifier: self.identifier@, features: self.features.deep_view() }
    }
}

/// The request to open a connection, as sent. `delay_period` counts
/// nanoseconds.
#[derive(Clone, Debug, PartialEq, Eq)]
pub struct RawMsgConnectionOpenInit {
    pub client_id: String,
    pub counterparty: Option<RawCounterparty>,
    pub version: Option<RawVersion>,
    pub delay_period: u64,
    pub signer: String,
}

/// What a [`RawMsgConnectionOpenInit`] holds.
#[verifier::ext_equal]
pub struct RawMsgConnectionOpenInitView {
    pub client_id: Seq<char>,
    pub counterparty: Option<RawCounterpartyView>,
    pub version: Option<RawVersionView>,
    pub delay_period: u64,
    pub signer: Seq<char>,
}

impl View for RawMsgConnectionOpenInit {
    type V = RawMsgConnectionOpenInitView;

    open spec fn view(&self) -> RawMsgConnectionOpenInitView {
        RawMsgConnectionOpenInitView {
            client_id: self.client_id@,
            counterparty: match self.counterparty {
                Some(c) => Some(c@),
                None => None,
            },
            version: match self.version {
                Some(v) => Some(v@),
                None => None,
            },
            delay_period: self.delay_period,
            signer: self.signer@,
        }
    }
}

} // verus!
