//! Protocol versions and the features they offer.
use crate::text::{is_blank, is_whitespace, str_is_blank};
use crate::wire::{RawVersion, RawVersionView};
use vstd::prelude::*;

verus! {

/// Why a version is not well formed.
#[derive(Clone, Copy, Debug, PartialEq, Eq, Structural)]
pub enum VersionError {
    /// The version's identifier is blank.
    EmptyVersions,
    /// One of the version's features is blank.
    EmptyFeatures,
}

/// What a [`Version`] holds.
#[verifier::ext_equal]
pub struct VersionView {
    pub identifier: Seq<char>,
    pub features: Seq<Seq<char>>,
}

/// Whether one of `features` is blank.
pub open spec fn has_blank_feature(features: Seq<Seq<char>>) -> bool {
    exists|i: int| 0 <= i < features.len() && is_blank(#[trigger] features[i])
}

impl VersionView {
    /// A version is well formed when neither its identifier nor any of its
    /// features is blank.
    pub open spec fn is_valid(self) -> bool {
        !is_blank(self.identifier) && !has_blank_feature(self.features)
    }
}

/// Decoding of a version: the same identifier and features if the version is
/// well formed, else the first fault, the identifier's before a feature's.
pub open spec fn decode_version(raw: RawVersionView) -> Result<VersionView, VersionError> {
    if is_blank(raw.identifier) {
        Err(VersionError::EmptyVersions)
    } else if has_blank_feature(raw.features) {
        Err(VersionError::EmptyFeatures)
    } else {
        Ok(VersionView { identifier: raw.identifier, features: raw.features })
    }
}

/// Encoding of a version: the same identifier and features.
pub open spec fn encode_version(version: VersionView) -> RawVersionView {
    RawVersionView { identifier: version.identifier, features: version.features }
}

/// Encoding undoes decoding: what decodes is sent back as it came.
pub proof fn lemma_encode_version_after_decode(raw: RawVersionView)
    requires
        decode_version(raw) is Ok,
    ensures
        encode_version(decode_version(raw)->Ok_0) == raw,
{
}

/// Decoding undoes encoding: a well-formed version, once sent, decodes to
/// itself.
pub proof fn lemma_decode_version_after_encode(version: VersionView)
    requires
        version.is_valid(),
    ensures
        decode_version(encode_version(version)) == Ok::<VersionView, VersionError>(version),
{
}

/// A protocol version with the features it offers. Neither its identifier nor
/// any of its features is blank.
#[derive(Debug, PartialEq, Eq)]
pub struct Version {
    identifier: String,
    features: Vec<String>,
}

impl Clone for Version {
    fn clone(&self) -> (r: Self)
        ensures
            r@ == self@,
    {
        proof {
            use_type_invariant(self);
        }
        let features = self.features.clone();
        Version { identifier: self.identifier.clone(), features }
    }
}

impl Default for Version {
    /// Version 1, which offers ordered and unordered channels.
    fn default() -> (r: Version)
        ensures
            r@ == (VersionView {
                identifier: "1"@,
                features: seq!["ORDER_ORDERED"@, "ORDER_UNORDERED"@],
            }),
    {
        let identifier = "1".to_owned();
        let mut features: Vec<String> = Vec::new();
        features.push("ORDER_ORDERED".to_owned());
        features.push("ORDER_UNORDERED".to_owned());
        proof {
            reveal_strlit("1");
            reveal_strlit("ORDER_ORDERED");
            reveal_strlit("ORDER_UNORDERED");
            assert(!is_whitespace(identifier@[0]));
            assert(!is_whitespace(features.deep_view()[0][0]));
            assert(!is_whitespace(features.deep_view()[1][0]));
        }
        Version { identifier, features }
    }
}

impl View for Version {
    type V = VersionView;

    closed spec fn view(&self) -> VersionView {
        VersionView { identifier: self.identifier@, features: self.features.deep_view() }
    }
}

impl Version {
    #[verifier::type_invariant]
    closed spec fn well_formed(self) -> bool {
        self@.is_valid()
    }

    /// Validates a version as sent.
    pub fn try_from(value: RawVersion) -> (r: Result<Version, VersionError>)
        ensures
            r matches Ok(v) ==> decode_version(value@) == Ok::<VersionView, VersionError>(v@),
            r matches Err(e) ==> decode_version(value@) == Err::<VersionView, VersionError>(e),
    {
        if str_is_blank(value.identifier.as_str()) {
            return Err(VersionError::EmptyVersions);
        }
        let mut i: usize = 0;
        while i < value.features.len()
            invariant
                i <= value.features.len(),
                !is_blank(value.identifier@),
                forall|j: int| 0 <= j < i ==> !is_blank(#[trigger] value.features.deep_view()[j]),
            decreases value.features.len() - i,
        {
            if str_is_blank(value.features[i].as_str()) {
                assert(is_blank(value.features.deep_view()[i as int]));
                return Err(VersionError::EmptyFeatures);
            }
            i += 1;
        }
        Ok(Version { identifier: value.identifier, features: value.features })
    }

    /// The version's identifier. It is never blank.
    pub fn identifier(&self) -> (s: &str)
        ensures
            s@ == self@.identifier,
            self@.is_valid(),
    {
        proof {
            use_type_invariant(self);
        }
        self.identifier.as_str()
    }

    /// The features that the version offers. None of them is blank.
    pub fn features(&self) -> (f: &Vec<String>)
        ensures
            f.deep_view() == self@.features,
            self@.is_valid(),
    {
        proof {
            use_type_invariant(self);
        }
        &self.features
    }
}

impl RawVersion {
    /// Renders a version for sending. What comes out decodes to the same
    /// version again.
    pub fn from(value: Version) -> (raw: RawVersion)
        ensures
            raw@ == encode_version(value@),
            value@.is_valid(),
    {
        proof {
            use_type_invariant(&value);
        }
        RawVersion { identifier: value.identifier, features: value.features }
    }
}

} // verus!
