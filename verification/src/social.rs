//! Friends: how a friendship is keyed, which friend requests and user
//! searches are accepted.

use vstd::prelude::*;

use crate::text::byte_len;

verus! {

/// The key of a friendship between two accounts: the smaller id first (ids
/// ordered as UUIDs, that is by their 128-bit value).
pub open spec fn friendship_key(a: u128, b: u128) -> (u128, u128) {
    if a < b {
        (a, b)
    } else {
        (b, a)
    }
}

/// The key under which the friendship of `a` and `b` is stored.
pub fn friendship_pair(a: u128, b: u128) -> (r: (u128, u128))
    ensures
        r == friendship_key(a, b),
        r.0 <= r.1,
{
    if a < b {
        (a, b)
    } else {
        (b, a)
    }
}

/// A friendship is the same whichever of the two accounts names it.
pub proof fn friendship_key_is_symmetric(a: u128, b: u128)
    ensures
        friendship_key(a, b) == friendship_key(b, a),
        friendship_key(a, b).0 <= friendship_key(a, b).1,
        (friendship_key(a, b).0 == a && friendship_key(a, b).1 == b) || (friendship_key(a, b).0 == b
            && friendship_key(a, b).1 == a),
{
}

/// Why a social request is refused.
#[derive(Clone, Copy, Debug, PartialEq, Eq, Structural)]
pub enum SocialError {
    SelfRequest,
    QueryTooShort,
}

impl SocialError {
    /// The message sent to the client.
    pub fn message(&self) -> (r: &'static str)
        ensures
            r@ == match *self {
                SocialError::SelfRequest => "Cannot send friend request to yourself"@,
                SocialError::QueryTooShort => "Search query must be at least 2 characters"@,
            },
    {
        match self {
            SocialError::SelfRequest => "Cannot send friend request to yourself",
            SocialError::QueryTooShort => "Search query must be at least 2 characters",
        }
    }
}

/// A friend request to oneself is refused.
pub fn check_friend_request(from: u128, to: u128) -> (r: Result<(), SocialError>)
    ensures
        from == to <==> r == Err::<(), SocialError>(SocialError::SelfRequest),
        from != to <==> r is Ok,
{
    if from == to {
        Err(SocialError::SelfRequest)
    } else {
        Ok(())
    }
}

/// A user search needs a query of at least 2 bytes.
pub fn check_search_query(q: &str) -> (r: Result<(), SocialError>)
    ensures
        byte_len(q@) < 2 <==> r == Err::<(), SocialError>(SocialError::QueryTooShort),
        byte_len(q@) >= 2 <==> r is Ok,
{
    if q.len() < 2 {
        Err(SocialError::QueryTooShort)
    } else {
        Ok(())
    }
}

} // verus!
