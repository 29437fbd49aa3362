use ibc_conn_open_init::commitment::{CommitmentError, CommitmentPrefix};
use ibc_conn_open_init::connection::{Counterparty, CounterpartyError};
use ibc_conn_open_init::duration::{Duration, NANOS_PER_SEC};
use ibc_conn_open_init::identifier::{ClientId, ConnectionId, IdentifierError};
use ibc_conn_open_init::signer::{Signer, SignerError};
use ibc_conn_open_init::text::{char_is_whitespace, str_is_blank};
use ibc_conn_open_init::version::{Version, VersionError};
use ibc_conn_open_init::wire::{RawCounterparty, RawMerklePrefix, RawVersion};

#[test]
fn whitespace_is_the_unicode_property() {
    let mut code: u32 = 0;
    let mut count = 0;
    while code <= 0x10FFFF {
        if let Some(c) = char::from_u32(code) {
            assert_eq!(char_is_whitespace(c), c.is_whitespace(), "code point {:#x}", code);
            if char_is_whitespace(c) {
                count += 1;
            }
        }
        code += 1;
    }
    assert_eq!(count, 25);
}

#[test]
fn blank_is_what_trims_to_nothing() {
    let samples = [
        "",
        " ",
        "\t\n\r ",
        "\u{85}\u{a0}\u{1680}\u{2000}\u{200a}\u{2028}\u{2029}\u{202f}\u{205f}\u{3000}",
        "a",
        " a",
        "a ",
        "  a  ",
        "\u{200b}",
        " \u{feff}",
        "\u{3000}x",
    ];
    for s in samples {
        assert_eq!(str_is_blank(s), s.trim().is_empty(), "sample {:?}", s);
    }
    assert!(str_is_blank(""));
    assert!(str_is_blank(" \t"));
    assert!(!str_is_blank(" x "));
}

#[test]
fn signer_must_not_be_blank() {
    assert_eq!(Signer::from_str(""), Err(SignerError::EmptySigner));
    assert_eq!(Signer::from_str("   "), Err(SignerError::EmptySigner));
    let signer = Signer::from_str("cosmos1wxeyh7zgn4tctjzs0vtqpc6p5cxq5t2muzl7ng").unwrap();
    assert_eq!(signer.as_str(), "cosmos1wxeyh7zgn4tctjzs0vtqpc6p5cxq5t2muzl7ng");
    assert_eq!(signer.clone(), signer);
}

#[test]
fn signer_keeps_its_text_as_given() {
    let signer = Signer::from_str(" padded ").unwrap();
    assert_eq!(signer.as_str(), " padded ");
}

#[test]
fn commitment_prefix_must_have_a_byte() {
    assert_eq!(
        CommitmentPrefix::try_from(vec![]),
        Err(CommitmentError::EmptyCommitmentPrefix)
    );
    let prefix = CommitmentPrefix::try_from(b"ibc".to_vec()).unwrap();
    assert_eq!(prefix.as_bytes(), b"ibc");
    assert_eq!(prefix.clone(), prefix);
    assert_eq!(prefix.into_vec(), b"ibc".to_vec());
    let zero = CommitmentPrefix::try_from(vec![0u8]).unwrap();
    assert_eq!(zero.into_vec(), vec![0u8]);
}

#[test]
fn version_must_have_an_identifier() {
    let raw = RawVersion {
        identifier: "".to_string(),
        features: vec!["ORDER_ORDERED".to_string()],
    };
    assert_eq!(Version::try_from(raw), Err(VersionError::EmptyVersions));
    let raw = RawVersion {
        identifier: " \t".to_string(),
        features: vec!["".to_string()],
    };
    assert_eq!(Version::try_from(raw), Err(VersionError::EmptyVersions));
}

#[test]
fn version_must_not_have_a_blank_feature() {
    for at in 0..3 {
        let mut features = vec!["A".to_string(), "B".to_string(), "C".to_string()];
        features[at] = " ".to_string();
        let raw = RawVersion {
            identifier: "1".to_string(),
            features,
        };
        assert_eq!(Version::try_from(raw), Err(VersionError::EmptyFeatures));
    }
}

#[test]
fn version_round_trips() {
    let raw = RawVersion {
        identifier: "1".to_string(),
        features: vec!["ORDER_ORDERED".to_string(), "ORDER_UNORDERED".to_string()],
    };
    let version = Version::try_from(raw.clone()).unwrap();
    assert_eq!(version, Version::default());
    assert_eq!(version.identifier(), "1");
    assert_eq!(version.features(), &raw.features);
    assert_eq!(version.clone(), version);
    assert_eq!(RawVersion::from(version), raw);

    let bare = RawVersion {
        identifier: "v".to_string(),
        features: vec![],
    };
    assert_eq!(RawVersion::from(Version::try_from(bare.clone()).unwrap()), bare);
}

fn raw_counterparty(connection_id: &str) -> RawCounterparty {
    RawCounterparty {
        client_id: "07-tendermint-0".to_string(),
        connection_id: connection_id.to_string(),
        prefix: Some(RawMerklePrefix {
            key_prefix: b"ibc".to_vec(),
        }),
    }
}

#[test]
fn counterparty_without_connection_id() {
    let raw = raw_counterparty("");
    let counterparty = Counterparty::try_from(raw.clone()).unwrap();
    assert_eq!(counterparty.client_id, ClientId::default());
    assert_eq!(counterparty.connection_id, None);
    assert_eq!(counterparty.prefix.as_bytes(), b"ibc");
    assert_eq!(RawCounterparty::from(counterparty), raw);
}

#[test]
fn counterparty_with_connection_id() {
    let raw = raw_counterparty("connection-12");
    let counterparty = Counterparty::try_from(raw.clone()).unwrap();
    assert_eq!(
        counterparty.connection_id,
        Some(ConnectionId::from_str("connection-12").unwrap())
    );
    assert_eq!(RawCounterparty::from(counterparty), raw);
}

#[test]
fn counterparty_faults_in_their_order() {
    let raw = RawCounterparty {
        client_id: "".to_string(),
        connection_id: "short".to_string(),
        prefix: None,
    };
    assert_eq!(
        Counterparty::try_from(raw.clone()),
        Err(CounterpartyError::InvalidConnectionId(
            IdentifierError::InvalidLength {
                length: 5,
                min: 10,
                max: 64
            }
        ))
    );
    let raw = RawCounterparty {
        connection_id: "".to_string(),
        ..raw
    };
    assert_eq!(
        Counterparty::try_from(raw.clone()),
        Err(CounterpartyError::InvalidClientId(IdentifierError::Empty))
    );
    let raw = RawCounterparty {
        client_id: "07-tendermint-0".to_string(),
        ..raw
    };
    assert_eq!(
        Counterparty::try_from(raw.clone()),
        Err(CounterpartyError::MissingPrefix)
    );
    let raw = RawCounterparty {
        prefix: Some(RawMerklePrefix { key_prefix: vec![] }),
        ..raw
    };
    assert_eq!(
        Counterparty::try_from(raw),
        Err(CounterpartyError::EmptyPrefix)
    );
}

#[test]
fn duration_from_nanoseconds() {
    assert_eq!(NANOS_PER_SEC, 1_000_000_000);
    let zero = Duration::from_nanos(0);
    assert_eq!((zero.as_secs(), zero.subsec_nanos(), zero.as_nanos()), (0, 0, 0));
    let d = Duration::from_nanos(999_999_999);
    assert_eq!((d.as_secs(), d.subsec_nanos(), d.as_nanos()), (0, 999_999_999, 999_999_999));
    let d = Duration::from_nanos(1_000_000_000);
    assert_eq!((d.as_secs(), d.subsec_nanos(), d.as_nanos()), (1, 0, 1_000_000_000));
    let d = Duration::from_nanos(u64::MAX);
    assert_eq!(
        (d.as_secs(), d.subsec_nanos(), d.as_nanos()),
        (18_446_744_073, 709_551_615, u64::MAX as u128)
    );
}

#[test]
fn duration_carries_nanoseconds_into_seconds() {
    let d = Duration::new(1, 2_500_000_000);
    assert_eq!((d.as_secs(), d.subsec_nanos()), (3, 500_000_000));
    assert_eq!(d.as_nanos(), 3_500_000_000);
    assert_eq!(d, Duration::from_nanos(3_500_000_000));
    let d = Duration::new(u64::MAX, 999_999_999);
    assert_eq!(d.as_nanos(), 18_446_744_073_709_551_615_999_999_999);
    let d = Duration::new(u64::MAX - 4, u32::MAX);
    assert_eq!((d.as_secs(), d.subsec_nanos()), (u64::MAX, 294_967_295));
}

#[test]
fn duration_agrees_with_the_standard_one() {
    for nanos in [0u64, 1, 999_999_999, 1_000_000_000, 123_456_789_012, u64::MAX] {
        let std = core::time::Duration::from_nanos(nanos);
        let d = Duration::from_nanos(nanos);
        assert_eq!(d.as_secs(), std.as_secs());
        assert_eq!(d.subsec_nanos(), std.subsec_nanos());
        assert_eq!(d.as_nanos(), std.as_nanos());
    }
    let std = core::time::Duration::new(7, 3_000_000_001);
    let d = Duration::new(7, 3_000_000_001);
    assert_eq!((d.as_secs(), d.subsec_nanos()), (std.as_secs(), std.subsec_nanos()));
}
