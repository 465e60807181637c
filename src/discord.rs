use vstd::prelude::*;

use crate::crawl::{received, run_events, Crawl, CrawlState, FetchEvent};
use crate::error::DateTimeParseError;
use crate::outside::{parse_rfc3339_secs, rfc3339_seconds_of};
use crate::peer::{DumpedPeer, PeerMessage, ResolvedPeer};
use crate::text::{decimal, decimal_of};

verus! {

/// The most messages one page request may ask for.
pub const PAGE_SIZE: usize = 100;

/// The pause between two full-page requests of one channel, in milliseconds.
pub const PAGE_DELAY_MS: u64 = 250;

#[derive(Clone, Debug)]
pub struct User {
    pub id: String,
    pub username: String,
    pub discriminator: String,
    pub avatar: Option<String>,
}

#[derive(Clone, Debug)]
pub struct Guild {
    pub id: String,
    pub name: String,
    pub icon: Option<String>,
    pub owner_id: String,
    pub permissions: String,
}

#[derive(Clone, Debug)]
pub struct PartialGuild {
    pub id: String,
    pub name: String,
    pub icon: Option<String>,
    pub owner: Option<bool>,
    pub permissions: Option<String>,
}

/// A message as the REST API reports it; `timestamp` is RFC 3339.
#[derive(Clone, Debug)]
pub struct Message {
    pub id: String,
    pub channel_id: String,
    pub author: User,
    pub content: String,
    pub timestamp: String,
}

#[derive(Clone, Debug)]
pub struct Channel {
    pub id: String,
    pub guild_id: Option<String>,
    pub name: Option<String>,
    pub kind: u8,
}

#[derive(Clone, Debug)]
pub struct DMChannel {
    pub id: String,
    pub last_message_id: Option<String>,
    pub recipients: Vec<User>,
    pub kind: u8,
}

/// The REST endpoints the client knows.
#[derive(Clone, Debug)]
pub enum DiscordAPIRoutes {
    Users(String),
    Guilds(String),
    GuildChannels(String),
    Messages {
        id: String,
        limit: usize,
        before: Option<String>,
        after: Option<String>,
        around: Option<String>,
    },
    JoinedGuilds,
    JoinedDMChannels,
}

/// The URL of a route. Of the message cursors only the first present one of
/// `before`, `after`, `around` is used.
pub open spec fn route_url(r: DiscordAPIRoutes) -> Seq<char> {
    match r {
        DiscordAPIRoutes::Guilds(id) => "https://discord.com/api/v10/guilds/"@ + id@,
        DiscordAPIRoutes::Users(id) => "https://discord.com/api/v10/users/"@ + id@,
        DiscordAPIRoutes::GuildChannels(id) => "https://discord.com/api/v10/guilds/"@ + id@
            + "/channels"@,
        DiscordAPIRoutes::Messages { id, limit, before, after, around } => {
            let base = "https://discord.com/api/v10/channels/"@ + id@ + "/messages?limit="@
                + decimal_of(limit as nat);
            if before is Some {
                base + "&before="@ + before->0@
            } else if after is Some {
                base + "&after="@ + after->0@
            } else if around is Some {
                base + "&around="@ + around->0@
            } else {
                base
            }
        },
        DiscordAPIRoutes::JoinedGuilds => "https://discord.com/api/v10/users/@me/guilds"@,
        DiscordAPIRoutes::JoinedDMChannels => "https://discord.com/api/v10/users/@me/channels"@,
    }
}

fn joined(a: &str, b: &str) -> (r: String)
    ensures
        r@ == a@ + b@,
{
    let mut s = String::from_str(a);
    s.append(b);
    s
}

impl DiscordAPIRoutes {
    /// The URL to request for this route.
    pub fn build(&self) -> (r: String)
        ensures
            r@ == route_url(*self),
    {
        match self {
            DiscordAPIRoutes::Guilds(id) => joined("https://discord.com/api/v10/guilds/", id.as_str()),
            DiscordAPIRoutes::Users(id) => joined("https://discord.com/api/v10/users/", id.as_str()),
            DiscordAPIRoutes::GuildChannels(id) => {
                let mut s = joined("https://discord.com/api/v10/guilds/", id.as_str());
                s.append("/channels");
                s
            },
            DiscordAPIRoutes::Messages { id, limit, before, after, around } => {
                let mut s = joined("https://discord.com/api/v10/channels/", id.as_str());
                s.append("/messages?limit=");
                s.append(decimal(*limit as u64).as_str());
                match before {
                    Some(b) => {
                        s.append("&before=");
                        s.append(b.as_str());
                        return s;
                    },
                    None => {},
                }
                match after {
                    Some(a) => {
                        s.append("&after=");
                        s.append(a.as_str());
                        return s;
                    },
                    None => {},
                }
                match around {
                    Some(a) => {
                        s.append("&around=");
                        s.append(a.as_str());
                        return s;
                    },
                    None => {},
                }
                s
            },
            DiscordAPIRoutes::JoinedGuilds => String::from_str(
                "https://discord.com/api/v10/users/@me/guilds",
            ),
            DiscordAPIRoutes::JoinedDMChannels => String::from_str(
                "https://discord.com/api/v10/users/@me/channels",
            ),
        }
    }
}

/// `p` is the archived form of the REST message `m`.
pub open spec fn is_peer_message_of(p: PeerMessage, m: Message) -> bool {
    &&& p.id@ == m.id@
    &&& p.user_id@ == "user"@ + m.author.id@
    &&& p.message@ == m.content@
    &&& rfc3339_seconds_of(m.timestamp@) == Some(p.date)
}

/// Turns a REST message into its archived form; fails when its timestamp is
/// not RFC 3339.
pub fn to_peer_message(m: &Message) -> (r: Result<PeerMessage, DateTimeParseError>)
    ensures
        r is Ok <==> rfc3339_seconds_of(m.timestamp@) is Some,
        r is Ok ==> is_peer_message_of(r->Ok_0, *m),
        r is Err ==> r->Err_0.datestring@ == m.timestamp@,
{
    match parse_rfc3339_secs(m.timestamp.as_str()) {
        Some(date) => Ok(
            PeerMessage::new(
                m.id.clone(),
                joined("user", m.author.id.as_str()),
                m.content.clone(),
                date,
            ),
        ),
        None => Err(
            DateTimeParseError::new(m.timestamp.clone(), String::from_str("not an RFC 3339 timestamp")),
        ),
    }
}

/// Turns a page of REST messages into archived ones, in order; fails on the
/// first timestamp that is not RFC 3339.
pub fn convert_page(page: &Vec<Message>) -> (r: Result<Vec<PeerMessage>, DateTimeParseError>)
    ensures
        r is Ok <==> forall|i: int|
            0 <= i < page@.len() ==> (#[trigger] rfc3339_seconds_of(page@[i].timestamp@)) is Some,
        r is Ok ==> r->Ok_0@.len() == page@.len() && forall|i: int|
            0 <= i < page@.len() ==> is_peer_message_of(#[trigger] r->Ok_0@[i], page@[i]),
{
    let mut out: Vec<PeerMessage> = Vec::new();
    let mut i: usize = 0;
    while i < page.len()
        invariant
            i <= page@.len(),
            out@.len() == i,
            forall|k: int| 0 <= k < i ==> (#[trigger] rfc3339_seconds_of(page@[k].timestamp@)) is Some,
            forall|k: int| 0 <= k < i ==> is_peer_message_of(#[trigger] out@[k], page@[k]),
        decreases page@.len() - i,
    {
        match to_peer_message(&page[i]) {
            Ok(p) => out.push(p),
            Err(e) => return Err(e),
        }
        i = i + 1;
    }
    Ok(out)
}

/// How many messages the next request asks for: what the limit still
/// admits, at most a page.
pub open spec fn page_size_for(remaining: Option<u64>) -> nat {
    match remaining {
        Some(r) => if r <= PAGE_SIZE {
            r as nat
        } else {
            PAGE_SIZE as nat
        },
        None => PAGE_SIZE as nat,
    }
}

pub open spec fn remaining_of(limit: Option<u64>, s: CrawlState) -> Option<u64> {
    match limit {
        Some(l) => Some((l - s.messages.len()) as u64),
        None => None,
    }
}

/// The events one page brings: its first `requested` messages, then the end
/// of the history when the page came back short.
pub open spec fn page_events(page: Seq<PeerMessage>, requested: nat) -> Seq<FetchEvent> {
    let taken = if page.len() < requested {
        page
    } else {
        page.take(requested as int)
    };
    if page.len() < requested {
        received(taken).push(FetchEvent::Exhausted)
    } else {
        received(taken)
    }
}

/// What the driver does after a page.
#[derive(Clone, Copy, Debug, PartialEq, Eq, Structural)]
pub enum PageOutcome {
    /// Request the next page after this many milliseconds.
    Continue(u64),
    /// The channel's crawl is over.
    Done,
}

/// The paged crawl of one channel, newest messages first.
pub struct ChannelPager {
    channel: String,
    crawl: Crawl,
    before: Option<String>,
}

impl ChannelPager {
    pub closed spec fn channel(&self) -> Seq<char> {
        self.channel@
    }

    pub closed spec fn crawl(&self) -> Crawl {
        self.crawl
    }

    pub closed spec fn before(&self) -> Option<Seq<char>> {
        match self.before {
            Some(b) => Some(b@),
            None => None,
        }
    }

    pub open spec fn wf(&self) -> bool {
        self.crawl().wf()
    }

    pub fn new(channel: String, limit: Option<u64>, date_point: i64) -> (r: Self)
        ensures
            r.wf(),
            r.channel() == channel@,
            r.crawl().state() == crate::crawl::initial_state(limit),
            r.crawl().limit() == limit,
            r.crawl().date_point() == date_point,
            r.before() is None,
    {
        ChannelPager { channel, crawl: Crawl::new(limit, date_point), before: None }
    }

    pub fn is_finished(&self) -> (r: bool)
        ensures
            r == self.crawl().state().finished,
    {
        self.crawl.is_finished()
    }

    /// The request for the next page, or `None` once the crawl is over.
    pub fn next_request(&self) -> (r: Option<DiscordAPIRoutes>)
        requires
            self.wf(),
        ensures
            r is None <==> self.crawl().state().finished,
            r is Some ==> match r->0 {
                DiscordAPIRoutes::Messages { id, limit, before, after, around } => {
                    &&& id@ == self.channel()
                    &&& limit as nat == page_size_for(
                        remaining_of(self.crawl().limit(), self.crawl().state()),
                    )
                    &&& match before {
                        Some(b) => self.before() == Some(b@),
                        None => self.before() is None,
                    }
                    &&& after is None
                    &&& around is None
                },
                _ => false,
            },
    {
        if self.crawl.is_finished() {
            return None;
        }
        let size = page_size(self.crawl.remaining());
        let before = match &self.before {
            Some(b) => Some(b.clone()),
            None => None,
        };
        Some(
            DiscordAPIRoutes::Messages {
                id: self.channel.clone(),
                limit: size,
                before,
                after: None,
                around: None,
            },
        )
    }

    /// Takes in the page that answered the last request.
    pub fn take_page(&mut self, page: &Vec<PeerMessage>) -> (r: PageOutcome)
        requires
            old(self).wf(),
            !old(self).crawl().state().finished,
        ensures
            final(self).wf(),
            final(self).channel() == old(self).channel(),
            final(self).crawl().limit() == old(self).crawl().limit(),
            final(self).crawl().date_point() == old(self).crawl().date_point(),
            final(self).crawl().state() == run_events(
                old(self).crawl().state(),
                old(self).crawl().limit(),
                old(self).crawl().date_point(),
                page_events(
                    page@,
                    page_size_for(remaining_of(old(self).crawl().limit(), old(self).crawl().state())),
                ),
            ),
            r == PageOutcome::Done <==> final(self).crawl().state().finished,
            r != PageOutcome::Done ==> r == PageOutcome::Continue(PAGE_DELAY_MS)
                && final(self).before() == Some(
                page@[page_size_for(
                    remaining_of(old(self).crawl().limit(), old(self).crawl().state()),
                ) - 1].id@),
    {
        let ghost s0 = self.crawl.state();
        let ghost requested = page_size_for(remaining_of(self.crawl.limit(), s0));
        let size = page_size(self.crawl.remaining());
        let count = if page.len() < size {
            page.len()
        } else {
            size
        };
        let ghost taken = if page@.len() < requested {
            page@
        } else {
            page@.take(requested as int)
        };
        assert(page@.take(count as int) =~= taken);
        self.crawl.feed(page, count);
        if page.len() < size {
            let ghost mid = self.crawl.state();
            assert(received(taken).push(FetchEvent::Exhausted).drop_last() =~= received(taken));
            if !self.crawl.is_finished() {
                self.crawl.handle(FetchEvent::Exhausted);
            }
            proof {
                lemma_run_push(s0, self.crawl.limit(), self.crawl.date_point(), received(taken), FetchEvent::Exhausted);
            }
        }
        if self.crawl.is_finished() {
            PageOutcome::Done
        } else {
            self.before = Some(page[size - 1].id.clone());
            PageOutcome::Continue(PAGE_DELAY_MS)
        }
    }

    /// The channel's dump: the channel id stands for both peer fields.
    pub fn into_dump(self) -> (r: DumpedPeer)
        ensures
            r.peer.peer_id@ == self.channel(),
            r.peer.peer_username@ == self.channel(),
            r.chunks@ == self.crawl().state().messages,
    {
        let peer = ResolvedPeer::new(self.channel.clone(), self.channel);
        DumpedPeer::new(peer, self.crawl.into_messages())
    }
}

proof fn lemma_run_push(
    s: CrawlState,
    limit: Option<u64>,
    date_point: i64,
    evs: Seq<FetchEvent>,
    ev: FetchEvent,
)
    ensures
        run_events(s, limit, date_point, evs.push(ev)) == crate::crawl::next_state(
            run_events(s, limit, date_point, evs),
            limit,
            date_point,
            ev,
        ),
{
    assert(evs.push(ev).drop_last() =~= evs);
}

/// How many messages to request when the limit admits `remaining` more.
pub fn page_size(remaining: Option<u64>) -> (r: usize)
    ensures
        r as nat == page_size_for(remaining),
        r <= PAGE_SIZE,
{
    match remaining {
        Some(n) => if n <= PAGE_SIZE as u64 {
            n as usize
        } else {
            PAGE_SIZE
        },
        None => PAGE_SIZE,
    }
}

} // verus!
