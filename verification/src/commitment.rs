//! The prefix under which a chain stores what it commits to.
use vstd::prelude::*;

verus! {

/// Why bytes are not a commitment prefix.
#[derive(Clone, Copy, Debug, PartialEq, Eq, Structural)]
pub enum CommitmentError {
    /// There are no bytes.
    EmptyCommitmentPrefix,
}

/// A commitment prefix: opaque bytes, at least one of them.
#[derive(Debug, PartialEq, Eq)]
pub struct CommitmentPrefix {
    bytes: Vec<u8>,
}

impl Clone for CommitmentPrefix {
    fn clone(&self) -> (r: Self)
        ensures
            r@ == self@,
    {
        proof {
            use_type_invariant(self);
        }
        CommitmentPrefix { bytes: self.bytes.clone() }
    }
}

impl View for CommitmentPrefix {
    type V = Seq<u8>;

    closed spec fn view(&self) -> Seq<u8> {
        self.bytes@
    }
}

impl CommitmentPrefix {
    #[verifier::type_invariant]
    closed spec fn well_formed(self) -> bool {
        self.bytes@.len() > 0
    }

    /// Takes `bytes` as a prefix, unless there are none.
    pub fn try_from(bytes: Vec<u8>) -> (r: Result<CommitmentPrefix, CommitmentError>)
        ensures
            bytes@.len() > 0 ==> (r matches Ok(p) && p@ == bytes@),
            bytes@.len() == 0 ==> r == Err::<CommitmentPrefix, CommitmentError>(
                CommitmentError::EmptyCommitmentPrefix,
            ),
    {
        if bytes.len() == 0 {
            Err(CommitmentError::EmptyCommitmentPrefix)
        } else {
            Ok(CommitmentPrefix { bytes })
        }
    }

    /// The bytes of the prefix. There is always at least one.
    pub fn as_bytes(&self) -> (b: &[u8])
        ensures
            b@ == self@,
            self@.len() > 0,
    {
        proof {
            use_type_invariant(self);
        }
        self.bytes.as_slice()
    }

    /// Gives up the prefix for its bytes. There is always at least one.
    pub fn into_vec(self) -> (b: Vec<u8>)
        ensures
            b@ == self@,
            self@.len() > 0,
    {
        proof {
            use_type_invariant(&self);
        }
        self.bytes
    }
}

} // verus!
