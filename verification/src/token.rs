//! Caller-chosen identifiers of registrations.

use vstd::prelude::*;
use vstd::std_specs::convert::FromSpecImpl;

verus! {

/// An opaque identifier that the caller attaches to a registration and gets
/// back with every notification for it.
#[derive(Copy, Clone, Debug, PartialEq, Eq, PartialOrd, Ord, Hash, Structural)]
pub struct Token(pub usize);

impl From<Token> for usize {
    fn from(val: Token) -> (n: usize) {
        val.0
    }
}

impl FromSpecImpl<Token> for usize {
    open spec fn obeys_from_spec() -> bool {
        true
    }

    open spec fn from_spec(val: Token) -> usize {
        val.0
    }
}

/// The user-data word that carries `token` through the kernel.
pub open spec fn data_of(token: Token) -> u64 {
    token.0 as u64
}

/// The token that a user-data word carries.
pub open spec fn token_of(data: u64) -> Token {
    Token(data as usize)
}

impl Token {
    /// The user-data word for this token. A token is never wider than the
    /// word, so nothing is cut off.
    pub fn to_data(self) -> (data: u64)
        ensures
            data == data_of(self),
            data as int == self.0 as int,
    {
        self.0 as u64
    }

    /// The token carried by a user-data word: its low bits, as many as a
    /// token has.
    pub fn from_data(data: u64) -> (token: Token)
        ensures
            token == token_of(data),
            data <= usize::MAX ==> token.0 as int == data as int,
    {
        Token(#[verifier::truncate] (data as usize))
    }
}

/// A token survives the trip through a user-data word unchanged.
pub proof fn lemma_token_round_trip(token: Token)
    ensures
        token_of(data_of(token)) == token,
{
}

} // verus!
