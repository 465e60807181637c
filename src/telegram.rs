use vstd::prelude::*;

use crate::error::UsernameResolveError;
use crate::peer::ResolvedPeer;
use crate::text::{signed_decimal, signed_decimal_of};

verus! {

/// What a username lookup on the session-based platform answered.
pub enum Lookup {
    /// A chat, with its numeric id and public username if it has one.
    Found(i64, Option<String>),
    /// The platform knows no chat of that name.
    NotFound,
    /// The lookup failed remotely, described.
    Failed(String),
}

pub open spec fn opt_view(s: Option<String>) -> Option<Seq<char>> {
    match s {
        Some(x) => Some(x@),
        None => None,
    }
}

/// The username recorded for a chat that has no public one.
pub open spec fn private_username() -> Seq<char> {
    "PRIVATE_USERNAME"@
}

/// The peer fields of a found chat: its id in decimal, and its username or
/// the private placeholder.
pub open spec fn peer_fields_of(id: i64, username: Option<Seq<char>>) -> (Seq<char>, Seq<char>) {
    (
        signed_decimal_of(id as int),
        match username {
            Some(u) => u,
            None => private_username(),
        },
    )
}

/// The resolution of a username, as fields: the peer's, or the error's
/// username and message.
pub open spec fn resolution_of(username: Seq<char>, lookup: Lookup) -> Result<
    (Seq<char>, Seq<char>),
    (Seq<char>, Seq<char>),
> {
    match lookup {
        Lookup::Found(id, u) => Ok(peer_fields_of(id, opt_view(u))),
        Lookup::NotFound => Err((username, "No viable chat found"@)),
        Lookup::Failed(e) => Err((username, "Unable to resolve username ("@ + e@ + ")"@)),
    }
}

pub open spec fn outcome_fields(r: Result<ResolvedPeer, UsernameResolveError>) -> Result<
    (Seq<char>, Seq<char>),
    (Seq<char>, Seq<char>),
> {
    match r {
        Ok(p) => Ok((p.peer_id@, p.peer_username@)),
        Err(e) => Err((e.username@, e.message@)),
    }
}

/// The peer of a found chat.
pub fn resolved_peer_of(id: i64, username: Option<String>) -> (r: ResolvedPeer)
    ensures
        (r.peer_id@, r.peer_username@) == peer_fields_of(id, opt_view(username)),
{
    let name = match username {
        Some(u) => u,
        None => String::from_str("PRIVATE_USERNAME"),
    };
    ResolvedPeer::new(signed_decimal(id), name)
}

/// Turns a lookup's answer into the resolved peer or the resolution error.
pub fn resolve_outcome(username: String, lookup: Lookup) -> (r: Result<
    ResolvedPeer,
    UsernameResolveError,
>)
    ensures
        outcome_fields(r) == resolution_of(username@, lookup),
{
    match lookup {
        Lookup::Found(id, u) => Ok(resolved_peer_of(id, u)),
        Lookup::NotFound => Err(
            UsernameResolveError::new(username, String::from_str("No viable chat found")),
        ),
        Lookup::Failed(e) => {
            let mut m = String::from_str("Unable to resolve username (");
            m.append(e.as_str());
            m.append(")");
            Err(UsernameResolveError::new(username, m))
        },
    }
}

/// Resolving a target twice against an unchanged platform, which answers the
/// same lookup, yields the same peer (or the same error) both times.
pub proof fn lemma_resolution_idempotent(username: Seq<char>, first: Lookup, second: Lookup)
    requires
        first == second,
    ensures
        resolution_of(username, first) == resolution_of(username, second),
{
}

/// The author label of a message: `user` and the sender's id, or `userXXX`
/// when the sender is unknown.
pub open spec fn sender_label_of(sender: Option<i64>) -> Seq<char> {
    match sender {
        Some(id) => "user"@ + signed_decimal_of(id as int),
        None => "userXXX"@,
    }
}

pub fn sender_label(sender: Option<i64>) -> (r: String)
    ensures
        r@ == sender_label_of(sender),
{
    match sender {
        Some(id) => {
            let mut s = String::from_str("user");
            s.append(signed_decimal(id).as_str());
            s
        },
        None => String::from_str("userXXX"),
    }
}

} // verus!
