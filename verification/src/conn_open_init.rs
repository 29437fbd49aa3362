//! The message that opens a connection handshake, as sent and as validated.
//!
//! [`MsgConnectionOpenInit::try_from`] turns the message as sent into the
//! validated message, [`RawMsgConnectionOpenInit::from`] turns it back. What
//! they compute is [`decode`] and [`encode`], and how the two relate is
//! proved in the lemmas below.
use crate::connection::{
    decode_counterparty, encode_counterparty, Counterparty, CounterpartyView,
};
use crate::duration::Duration;
use crate::error::ConnectionError;
use crate::identifier::{check_client_id, valid_client_id, valid_connection_id, ClientId};
use crate::signer::{valid_signer, Signer, SignerError};
use crate::text::is_blank;
use crate::version::{
    decode_version, encode_version, has_blank_feature, Version, VersionView,
};
use crate::wire::{
    RawCounterparty, RawCounterpartyView, RawMsgConnectionOpenInit, RawMsgConnectionOpenInitView,
    RawVersion,
};
use vstd::prelude::*;

verus! {

/// The name by which an envelope tells this kind of message from others.
pub const TYPE_URL: &'static str = "/ibc.core.connection.v1.MsgConnectionOpenInit";

/// A request to open a connection, sent to the chain that starts the
/// handshake. Every part of it has passed validation.
#[derive(Clone, Debug, PartialEq, Eq)]
pub struct MsgConnectionOpenInit {
    /// The client on this chain for which the connection is opened.
    pub client_id_on_a: ClientId,
    /// The other end of the connection.
    pub counterparty: Counterparty,
    /// The version proposed, or `None` for any version that is supported.
    pub version: Option<Version>,
    /// How long a packet must wait after its proof before it is processed.
    pub delay_period: Duration,
    /// The account that signs the message.
    pub signer: Signer,
}

/// What a [`MsgConnectionOpenInit`] holds. `delay_period` counts nanoseconds.
#[verifier::ext_equal]
pub struct MsgConnectionOpenInitView {
    pub client_id_on_a: Seq<char>,
    pub counterparty: CounterpartyView,
    pub version: Option<VersionView>,
    pub delay_period: nat,
    pub signer: Seq<char>,
}

impl MsgConnectionOpenInitView {
    /// A message is well formed when each of its parts is.
    pub open spec fn is_valid(self) -> bool {
        &&& valid_client_id(self.client_id_on_a)
        &&& self.counterparty.is_valid()
        &&& self.version matches Some(v) ==> v.is_valid()
        &&& valid_signer(self.signer)
    }
}

impl View for MsgConnectionOpenInit {
    type V = MsgConnectionOpenInitView;

    open spec fn view(&self) -> MsgConnectionOpenInitView {
        MsgConnectionOpenInitView {
            client_id_on_a: self.client_id_on_a@,
            counterparty: self.counterparty@,
            version: match self.version {
                Some(v) => Some(v@),
                None => None,
            },
            delay_period: self.delay_period@,
            signer: self.signer@,
        }
    }
}

/// Decoding: the validated message that `raw` stands for, or why there is
/// none. The parts are checked in turn: client identifier, counterparty,
/// version, signer; the first fault is the error. The delay period is taken
/// as it is.
pub open spec fn decode(raw: RawMsgConnectionOpenInitView) -> Result<
    MsgConnectionOpenInitView,
    ConnectionError,
> {
    if check_client_id(raw.client_id) is Err {
        Err(ConnectionError::InvalidIdentifier(check_client_id(raw.client_id)->Err_0))
    } else if raw.counterparty is None {
        Err(ConnectionError::MissingCounterparty)
    } else if decode_counterparty(raw.counterparty->Some_0) is Err {
        Err(
            ConnectionError::CounterpartyInvalid(
                decode_counterparty(raw.counterparty->Some_0)->Err_0,
            ),
        )
    } else if raw.version is Some && decode_version(raw.version->Some_0) is Err {
        Err(ConnectionError::VersionInvalid(decode_version(raw.version->Some_0)->Err_0))
    } else if !valid_signer(raw.signer) {
        Err(ConnectionError::Signer(SignerError::EmptySigner))
    } else {
        Ok(
            MsgConnectionOpenInitView {
                client_id_on_a: raw.client_id,
                counterparty: decode_counterparty(raw.counterparty->Some_0)->Ok_0,
                version: match raw.version {
                    Some(v) => Some(decode_version(v)->Ok_0),
                    None => None,
                },
                delay_period: raw.delay_period as nat,
                signer: raw.signer,
            },
        )
    }
}

/// Encoding: the message as it is sent. The counterparty's connection
/// identifier is always sent empty, whatever the message holds: while a
/// connection is being opened the other end has none. An absent version stays
/// absent. The delay period is sent as its nanoseconds, of which the low 64
/// bits are kept.
pub open spec fn encode(msg: MsgConnectionOpenInitView) -> RawMsgConnectionOpenInitView {
    RawMsgConnectionOpenInitView {
        client_id: msg.client_id_on_a,
        counterparty: Some(
            RawCounterpartyView {
                connection_id: Seq::empty(),
                ..encode_counterparty(msg.counterparty)
            },
        ),
        version: match msg.version {
            Some(v) => Some(encode_version(v)),
            None => None,
        },
        delay_period: (msg.delay_period % 0x1_0000_0000_0000_0000) as u64,
        signer: msg.signer,
    }
}

impl MsgConnectionOpenInit {
    /// Validates a message as sent: the message that [`decode`] gives, or the
    /// error that it gives. A message that comes out is well formed.
    pub fn try_from(msg: RawMsgConnectionOpenInit) -> (r: Result<
        MsgConnectionOpenInit,
        ConnectionError,
    >)
        ensures
            r matches Ok(m) ==> decode(msg@) == Ok::<MsgConnectionOpenInitView, ConnectionError>(
                m@,
            ) && m@.is_valid(),
            r matches Err(e) ==> decode(msg@) == Err::<MsgConnectionOpenInitView, ConnectionError>(
                e,
            ),
    {
        let client_id_on_a = match ClientId::from_str(msg.client_id.as_str()) {
            Ok(id) => id,
            Err(e) => {
                return Err(ConnectionError::InvalidIdentifier(e));
            },
        };
        let raw_counterparty = match msg.counterparty {
            Some(c) => c,
            None => {
                return Err(ConnectionError::MissingCounterparty);
            },
        };
        let counterparty = match Counterparty::try_from(raw_counterparty) {
            Ok(c) => c,
            Err(e) => {
                return Err(ConnectionError::CounterpartyInvalid(e));
            },
        };
        let version = match msg.version {
            Some(raw_version) => match Version::try_from(raw_version) {
                Ok(v) => Some(v),
                Err(e) => {
                    return Err(ConnectionError::VersionInvalid(e));
                },
            },
            None => None,
        };
        let delay_period = Duration::from_nanos(msg.delay_period);
        let signer = match Signer::from_str(msg.signer.as_str()) {
            Ok(s) => s,
            Err(e) => {
                return Err(ConnectionError::Signer(e));
            },
        };
        proof {
            lemma_decoded_is_valid(msg@);
        }
        Ok(MsgConnectionOpenInit { client_id_on_a, counterparty, version, delay_period, signer })
    }

    /// The name of this kind of message: [`TYPE_URL`].
    pub fn type_url(&self) -> (url: String)
        ensures
            url@ == TYPE_URL@,
    {
        TYPE_URL.to_owned()
    }
}

impl RawMsgConnectionOpenInit {
    /// Renders a message for sending: what [`encode`] gives. It never fails,
    /// and a message in hand is always well formed.
    pub fn from(ics_msg: MsgConnectionOpenInit) -> (raw: RawMsgConnectionOpenInit)
        ensures
            raw@ == encode(ics_msg@),
            ics_msg@.is_valid(),
    {
        let client_id = ics_msg.client_id_on_a.as_str().to_owned();
        let sent = RawCounterparty::from(ics_msg.counterparty);
        let counterparty = RawCounterparty {
            client_id: sent.client_id,
            connection_id: String::new(),
            prefix: sent.prefix,
        };
        let version = match ics_msg.version {
            Some(v) => Some(RawVersion::from(v)),
            None => None,
        };
        let nanos: u128 = ics_msg.delay_period.as_nanos();
        let delay_period: u64 = (nanos % 0x1_0000_0000_0000_0000) as u64;
        let signer = ics_msg.signer.as_str().to_owned();
        RawMsgConnectionOpenInit {
            client_id,
            counterparty: Some(counterparty),
            version,
            delay_period,
            signer,
        }
    }
}

/// What it takes for a message as sent to be accepted: a client identifier
/// that follows the grammar; a counterparty, whose client identifier follows
/// the grammar, whose connection identifier is empty or follows the grammar,
/// and whose prefix is there with at least one byte; no version, or one that
/// is well formed; and a signer that is not blank. The delay period is free.
pub open spec fn is_acceptable(raw: RawMsgConnectionOpenInitView) -> bool {
    &&& valid_client_id(raw.client_id)
    &&& raw.counterparty is Some
    &&& valid_client_id(raw.counterparty->Some_0.client_id)
    &&& raw.counterparty->Some_0.connection_id.len() == 0 || valid_connection_id(
        raw.counterparty->Some_0.connection_id,
    )
    &&& raw.counterparty->Some_0.prefix is Some
    &&& raw.counterparty->Some_0.prefix->Some_0.len() > 0
    &&& raw.version matches Some(v) ==> !is_blank(v.identifier) && !has_blank_feature(v.features)
    &&& valid_signer(raw.signer)
}

/// Decoding succeeds on every acceptable message, whatever its delay period,
/// and on no other.
pub proof fn lemma_decode_succeeds_iff_acceptable(raw: RawMsgConnectionOpenInitView)
    ensures
        decode(raw) is Ok <==> is_acceptable(raw),
{
}

/// Whatever decodes is well formed: a message comes out whole or not at all.
pub proof fn lemma_decoded_is_valid(raw: RawMsgConnectionOpenInitView)
    ensures
        decode(raw) matches Ok(msg) ==> msg.is_valid(),
{
}

/// Encoding always sends a counterparty, and sends its connection identifier
/// empty, whatever the message holds.
pub proof fn lemma_encode_clears_connection_id(msg: MsgConnectionOpenInitView)
    ensures
        encode(msg).counterparty is Some,
        encode(msg).counterparty->Some_0.connection_id == Seq::<char>::empty(),
{
}

/// Decoding and then encoding gives back what was sent in every field but
/// one: the counterparty's connection identifier comes back empty, whatever
/// was sent in it.
pub proof fn lemma_encode_after_decode(raw: RawMsgConnectionOpenInitView)
    requires
        decode(raw) is Ok,
    ensures
        encode(decode(raw)->Ok_0) == (RawMsgConnectionOpenInitView {
            counterparty: Some(
                RawCounterpartyView {
                    connection_id: Seq::empty(),
                    ..raw.counterparty->Some_0
                },
            ),
            ..raw
        }),
{
}

/// Encoding a well-formed message whose delay period fits in 64 bits and then
/// decoding gives the message back, but for the counterparty's connection
/// identifier, which is gone.
pub proof fn lemma_decode_after_encode(msg: MsgConnectionOpenInitView)
    requires
        msg.is_valid(),
        msg.delay_period <= u64::MAX,
    ensures
        decode(encode(msg)) == Ok::<MsgConnectionOpenInitView, ConnectionError>(
            MsgConnectionOpenInitView {
                counterparty: CounterpartyView { connection_id: None, ..msg.counterparty },
                ..msg
            },
        ),
{
}

/// Decoding, encoding and decoding again gives the message that the first
/// decoding gave, with the counterparty's connection identifier gone.
pub proof fn lemma_redecode_normalises(raw: RawMsgConnectionOpenInitView)
    requires
        decode(raw) is Ok,
    ensures
        decode(encode(decode(raw)->Ok_0)) == Ok::<MsgConnectionOpenInitView, ConnectionError>(
            MsgConnectionOpenInitView {
                counterparty: CounterpartyView {
                    connection_id: None,
                    ..decode(raw)->Ok_0.counterparty
                },
                ..decode(raw)->Ok_0
            },
        ),
{
    lemma_decoded_is_valid(raw);
    lemma_decode_after_encode(decode(raw)->Ok_0);
}

/// Where no connection identifier was sent for the counterparty, decoding,
/// encoding and decoding again gives exactly what the first decoding gave.
pub proof fn lemma_redecode_is_stable(raw: RawMsgConnectionOpenInitView)
    requires
        decode(raw) is Ok,
        raw.counterparty->Some_0.connection_id.len() == 0,
    ensures
        decode(encode(decode(raw)->Ok_0)) == decode(raw),
{
    lemma_redecode_normalises(raw);
}

/// A message sent without a version decodes to one without a version, and
/// encoding that one sends none.
pub proof fn lemma_absent_version_stays_absent(raw: RawMsgConnectionOpenInitView)
    requires
        raw.version is None,
        decode(raw) is Ok,
    ensures
        decode(raw)->Ok_0.version is None,
        encode(decode(raw)->Ok_0).version is None,
{
}

} // verus!
