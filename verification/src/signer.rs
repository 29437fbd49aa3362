//! The account that signs a message.
use crate::text::{is_blank, str_is_blank};
use vstd::prelude::*;

verus! {

/// Why a string does not name a signer.
#[derive(Clone, Copy, Debug, PartialEq, Eq, Structural)]
pub enum SignerError {
    /// The string is empty or holds white space only.
    EmptySigner,
}

/// Whether `s` can name a signer: it must not be blank.
pub open spec fn valid_signer(s: Seq<char>) -> bool {
    !is_blank(s)
}

/// The address of the account that signs a message. It is never blank.
#[derive(Debug, PartialEq, Eq)]
pub struct Signer {
    address: String,
}

impl Clone for Signer {
    fn clone(&self) -> (r: Self)
        ensures
            r == *self,
    {
        proof {
            use_type_invariant(self);
        }
        Signer { address: self.address.clone() }
    }
}

impl View for Signer {
    type V = Seq<char>;

    closed spec fn view(&self) -> Seq<char> {
        self.address@
    }
}

impl Signer {
    #[verifier::type_invariant]
    closed spec fn well_formed(self) -> bool {
        valid_signer(self.address@)
    }

    /// Reads a signer: `Ok` with the same characters unless `s` is blank.
    pub fn from_str(s: &str) -> (r: Result<Signer, SignerError>)
        ensures
            valid_signer(s@) ==> (r matches Ok(signer) && signer@ == s@),
            !valid_signer(s@) ==> r == Err::<Signer, SignerError>(SignerError::EmptySigner),
    {
        if str_is_blank(s) {
            Err(SignerError::EmptySigner)
        } else {
            Ok(Signer { address: s.to_owned() })
        }
    }

    /// The signer's address as text. It is never blank.
    pub fn as_str(&self) -> (s: &str)
        ensures
            s@ == self@,
            valid_signer(self@),
    {
        proof {
            use_type_invariant(self);
        }
        self.address.as_str()
    }
}

} // verus!
