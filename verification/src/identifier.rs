//! Host identifiers: the names by which a chain knows its clients and
//! connections.
//!
//! An identifier is a short run of ASCII letters, digits and a few marks. It is
//! never empty and never holds the path separator, so that identifiers can be
//! joined into storage paths and split again.
use vstd::prelude::*;
use vstd::std_specs::iter::IteratorSpec;

verus! {

/// The character that joins identifiers into a path.
pub const PATH_SEPARATOR: char = '/';

/// Fewest characters in a client identifier.
pub const CLIENT_ID_MIN_LEN: usize = 9;

/// Most characters in a client identifier.
pub const CLIENT_ID_MAX_LEN: usize = 64;

/// Fewest characters in a connection identifier.
pub const CONNECTION_ID_MIN_LEN: usize = 10;

/// Most characters in a connection identifier.
pub const CONNECTION_ID_MAX_LEN: usize = 64;

/// Why a string is not an identifier.
#[derive(Clone, Copy, Debug, PartialEq, Eq, Structural)]
pub enum IdentifierError {
    /// The string is empty.
    Empty,
    /// The string holds the path separator.
    ContainSeparator,
    /// The string has `length` characters, outside `min..=max`.
    InvalidLength { length: usize, min: usize, max: usize },
    /// The string holds a character that is neither an ASCII letter, an ASCII
    /// digit nor one of `. _ + - # [ ] < >`.
    InvalidCharacter,
}

/// The characters an identifier is made of.
pub open spec fn is_identifier_char(c: char) -> bool {
    ||| 'a' <= c <= 'z'
    ||| 'A' <= c <= 'Z'
    ||| '0' <= c <= '9'
    ||| c == '.'
    ||| c == '_'
    ||| c == '+'
    ||| c == '-'
    ||| c == '#'
    ||| c == '['
    ||| c == ']'
    ||| c == '<'
    ||| c == '>'
}

/// Whether the path separator occurs in `id`.
pub open spec fn has_separator(id: Seq<char>) -> bool {
    exists|i: int| 0 <= i < id.len() && #[trigger] id[i] == PATH_SEPARATOR
}

/// Whether `id` is made of identifier characters only.
pub open spec fn all_identifier_chars(id: Seq<char>) -> bool {
    forall|i: int| 0 <= i < id.len() ==> is_identifier_char(#[trigger] id[i])
}

/// The identifier grammar: `Ok` for an identifier of `min..=max` characters,
/// else the first fault found, looking in turn for an empty string, a path
/// separator, a bad length and a bad character.
pub open spec fn check_identifier(id: Seq<char>, min: usize, max: usize) -> Result<
    (),
    IdentifierError,
> {
    if id.len() == 0 {
        Err(IdentifierError::Empty)
    } else if has_separator(id) {
        Err(IdentifierError::ContainSeparator)
    } else if id.len() < min || id.len() > max {
        Err(IdentifierError::InvalidLength { length: id.len() as usize, min, max })
    } else if !all_identifier_chars(id) {
        Err(IdentifierError::InvalidCharacter)
    } else {
        Ok(())
    }
}

/// The grammar of a client identifier.
pub open spec fn check_client_id(id: Seq<char>) -> Result<(), IdentifierError> {
    check_identifier(id, CLIENT_ID_MIN_LEN, CLIENT_ID_MAX_LEN)
}

/// The grammar of a connection identifier.
pub open spec fn check_connection_id(id: Seq<char>) -> Result<(), IdentifierError> {
    check_identifier(id, CONNECTION_ID_MIN_LEN, CONNECTION_ID_MAX_LEN)
}

/// Whether `id` names a client.
pub open spec fn valid_client_id(id: Seq<char>) -> bool {
    check_client_id(id) is Ok
}

/// Whether `id` names a connection.
pub open spec fn valid_connection_id(id: Seq<char>) -> bool {
    check_connection_id(id) is Ok
}

/// The grammar accepts exactly the strings of `min..=max` identifier
/// characters, the empty string left out.
pub proof fn lemma_identifier_accepted(id: Seq<char>, min: usize, max: usize)
    ensures
        check_identifier(id, min, max) is Ok <==> id.len() > 0 && min <= id.len() <= max
            && all_identifier_chars(id),
{
}

/// Decides [`is_identifier_char`].
pub fn char_is_identifier(c: char) -> (r: bool)
    ensures
        r == is_identifier_char(c),
{
    ('a' <= c && c <= 'z') || ('A' <= c && c <= 'Z') || ('0' <= c && c <= '9') || c == '.' || c
        == '_' || c == '+' || c == '-' || c == '#' || c == '[' || c == ']' || c == '<' || c == '>'
}

/// Decides [`has_separator`].
pub fn contains_separator(id: &str) -> (r: bool)
    ensures
        r == has_separator(id@),
{
    let mut chars = id.chars();
    let ghost mut seen: int = 0;
    loop
        invariant
            0 <= seen <= id@.len(),
            chars.remaining() == id@.skip(seen),
            forall|j: int| 0 <= j < seen ==> #[trigger] id@[j] != PATH_SEPARATOR,
        decreases id@.len() - seen,
    {
        match chars.next() {
            None => {
                return false;
            },
            Some(c) => {
                if c == PATH_SEPARATOR {
                    return true;
                }
                proof {
                    seen = seen + 1;
                }
            },
        }
    }
}

/// Decides [`all_identifier_chars`].
pub fn only_identifier_chars(id: &str) -> (r: bool)
    ensures
        r == all_identifier_chars(id@),
{
    let mut chars = id.chars();
    let ghost mut seen: int = 0;
    loop
        invariant
            0 <= seen <= id@.len(),
            chars.remaining() == id@.skip(seen),
            forall|j: int| 0 <= j < seen ==> is_identifier_char(#[trigger] id@[j]),
        decreases id@.len() - seen,
    {
        match chars.next() {
            None => {
                return true;
            },
            Some(c) => {
                if !char_is_identifier(c) {
                    return false;
                }
                proof {
                    seen = seen + 1;
                }
            },
        }
    }
}

/// Checks `id` against the identifier grammar with the given bounds on its
/// length in characters.
pub fn validate_identifier(id: &str, min: usize, max: usize) -> (r: Result<(), IdentifierError>)
    requires
        min <= max,
    ensures
        r == check_identifier(id@, min, max),
{
    let length: usize = id.unicode_len();
    if length == 0 {
        return Err(IdentifierError::Empty);
    }
    if contains_separator(id) {
        return Err(IdentifierError::ContainSeparator);
    }
    if length < min || length > max {
        return Err(IdentifierError::InvalidLength { length, min, max });
    }
    if !only_identifier_chars(id) {
        return Err(IdentifierError::InvalidCharacter);
    }
    Ok(())
}

/// Checks `id` against the grammar of client identifiers.
pub fn validate_client_identifier(id: &str) -> (r: Result<(), IdentifierError>)
    ensures
        r == check_client_id(id@),
{
    validate_identifier(id, CLIENT_ID_MIN_LEN, CLIENT_ID_MAX_LEN)
}

/// Checks `id` against the grammar of connection identifiers.
pub fn validate_connection_identifier(id: &str) -> (r: Result<(), IdentifierError>)
    ensures
        r == check_connection_id(id@),
{
    validate_identifier(id, CONNECTION_ID_MIN_LEN, CONNECTION_ID_MAX_LEN)
}

/// The name of a light client on a chain.
///
/// Every value holds a string that [`valid_client_id`] accepts.
#[derive(Debug, PartialEq, Eq)]
pub struct ClientId {
    id: String,
}

impl Clone for ClientId {
    fn clone(&self) -> (r: Self)
        ensures
            r == *self,
    {
        proof {
            use_type_invariant(self);
        }
        ClientId { id: self.id.clone() }
    }
}

impl Default for ClientId {
    /// The first client of the Tendermint kind.
    fn default() -> (r: ClientId)
        ensures
            r@ == "07-tendermint-0"@,
    {
        let id = "07-tendermint-0".to_owned();
        proof {
            reveal_strlit("07-tendermint-0");
        }
        ClientId { id }
    }
}

impl View for ClientId {
    type V = Seq<char>;

    closed spec fn view(&self) -> Seq<char> {
        self.id@
    }
}

impl ClientId {
    #[verifier::type_invariant]
    closed spec fn well_formed(self) -> bool {
        valid_client_id(self.id@)
    }

    /// Reads a client identifier: `Ok` with the same characters if `s`
    /// follows the grammar, else the fault that [`check_client_id`] names.
    pub fn from_str(s: &str) -> (r: Result<ClientId, IdentifierError>)
        ensures
            r matches Ok(id) ==> id@ == s@ && valid_client_id(s@),
            r matches Err(e) ==> check_client_id(s@) == Err::<(), IdentifierError>(e),
    {
        match validate_client_identifier(s) {
            Ok(()) => Ok(ClientId { id: s.to_owned() }),
            Err(e) => Err(e),
        }
    }

    /// The identifier as text. It is always a valid client identifier.
    pub fn as_str(&self) -> (s: &str)
        ensures
            s@ == self@,
            valid_client_id(self@),
    {
        proof {
            use_type_invariant(self);
        }
        self.id.as_str()
    }
}

/// The name of a connection end on a chain.
///
/// Every value holds a string that [`valid_connection_id`] accepts.
#[derive(Debug, PartialEq, Eq)]
pub struct ConnectionId {
    id: String,
}

impl Clone for ConnectionId {
    fn clone(&self) -> (r: Self)
        ensures
            r == *self,
    {
        proof {
            use_type_invariant(self);
        }
        ConnectionId { id: self.id.clone() }
    }
}

impl View for ConnectionId {
    type V = Seq<char>;

    closed spec fn view(&self) -> Seq<char> {
        self.id@
    }
}

impl ConnectionId {
    #[verifier::type_invariant]
    closed spec fn well_formed(self) -> bool {
        valid_connection_id(self.id@)
    }

    /// Reads a connection identifier: `Ok` with the same characters if `s`
    /// follows the grammar, else the fault that [`check_connection_id`] names.
    pub fn from_str(s: &str) -> (r: Result<ConnectionId, IdentifierError>)
        ensures
            r matches Ok(id) ==> id@ == s@ && valid_connection_id(s@),
            r matches Err(e) ==> check_connection_id(s@) == Err::<(), IdentifierError>(e),
    {
        match validate_connection_identifier(s) {
            Ok(()) => Ok(ConnectionId { id: s.to_owned() }),
            Err(e) => Err(e),
        }
    }

    /// The identifier as text. It is always a valid connection identifier.
    pub fn as_str(&self) -> (s: &str)
        ensures
            s@ == self@,
            valid_connection_id(self@),
    {
        proof {
            use_type_invariant(self);
        }
        self.id.as_str()
    }
}

} // verus!
