use vstd::prelude::*;

use crate::outside::{render_utc_secs, rfc3339_utc_of, utc_representable};
use crate::text::{decimal, decimal_of, path_safe, path_safe_of};

verus! {

/// The batch start time as it stands in file names: RFC 3339 with whole
/// seconds, `:` and `+` replaced by `_`.
pub open spec fn stamp_of(secs: int) -> Seq<char> {
    path_safe_of(rfc3339_utc_of(secs))
}

/// The file-name form of the instant `secs` seconds after the epoch; `None`
/// where no UTC date-time can hold it.
pub fn execution_stamp(secs: i64) -> (r: Option<String>)
    ensures
        r is Some <==> utc_representable(secs as int),
        r is Some ==> r->0@ == stamp_of(secs as int),
{
    match render_utc_secs(secs) {
        Some(text) => Some(path_safe(text.as_str())),
        None => None,
    }
}

fn push_str(s: &mut String, t: &str)
    ensures
        final(s)@ == old(s)@ + t@,
{
    s.append(t);
}

/// The aggregate dump of the REST platform.
pub open spec fn discord_dump_name_of(count: nat, stamp: Seq<char>) -> Seq<char> {
    "discord_dumped_peers_"@ + decimal_of(count) + "_"@ + stamp + ".json"@
}

pub fn discord_dump_name(count: usize, stamp: &str) -> (r: String)
    ensures
        r@ == discord_dump_name_of(count as nat, stamp@),
{
    let mut s = String::from_str("discord_dumped_peers_");
    push_str(&mut s, decimal(count as u64).as_str());
    push_str(&mut s, "_");
    push_str(&mut s, stamp);
    push_str(&mut s, ".json");
    s
}

/// The resolved-peers file of the session-based platform.
pub open spec fn resolved_peers_name_of(count: nat, stamp: Seq<char>) -> Seq<char> {
    "telegram_resolved_peers_"@ + decimal_of(count) + "_"@ + stamp + ".json"@
}

pub fn resolved_peers_name(count: usize, stamp: &str) -> (r: String)
    ensures
        r@ == resolved_peers_name_of(count as nat, stamp@),
{
    let mut s = String::from_str("telegram_resolved_peers_");
    push_str(&mut s, decimal(count as u64).as_str());
    push_str(&mut s, "_");
    push_str(&mut s, stamp);
    push_str(&mut s, ".json");
    s
}

/// The per-peer dump of the session-based platform, named by the peer's
/// username and, where one was given, the limit.
pub open spec fn telegram_dump_name_of(username: Seq<char>, limit: Option<u32>, stamp: Seq<char>) -> Seq<
    char,
> {
    let lim = match limit {
        Some(l) => "_"@ + decimal_of(l as nat),
        None => Seq::empty(),
    };
    "telegram_"@ + username + lim + "_"@ + stamp + ".json"@
}

pub fn telegram_dump_name(username: &str, limit: Option<u32>, stamp: &str) -> (r: String)
    ensures
        r@ == telegram_dump_name_of(username@, limit, stamp@),
{
    let mut s = String::from_str("telegram_");
    push_str(&mut s, username);
    match limit {
        Some(l) => {
            push_str(&mut s, "_");
            push_str(&mut s, decimal(l as u64).as_str());
        },
        None => {
            assert(s@ + Seq::<char>::empty() =~= s@);
        },
    }
    push_str(&mut s, "_");
    push_str(&mut s, stamp);
    push_str(&mut s, ".json");
    s
}

} // verus!
