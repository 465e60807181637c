use vstd::prelude::*;

use crate::peer::PeerMessage;

verus! {

/// Seconds to wait after a rate-limit signal that names no duration.
pub const DEFAULT_BACKOFF_SECS: u64 = 30;

/// What one pull on a target's history produced.
pub enum FetchEvent {
    /// The next (older) message.
    Received(PeerMessage),
    /// The history has no more messages.
    Exhausted,
    /// The platform asked to slow down, naming a wait in seconds or not.
    RateLimited(Option<u32>),
    /// An unrecoverable remote error, described.
    Failed(String),
}

/// What the crawl asks its driver to do next.
pub enum CrawlAction {
    /// Pull the next message.
    Fetch,
    /// Sleep this many seconds, then pull again.
    Sleep(u64),
    /// The crawl is over; its messages are final.
    Complete,
    /// The crawl failed; nothing of it is kept.
    Abort(String),
}

/// The abstract state of one crawl.
pub ghost struct CrawlState {
    pub messages: Seq<PeerMessage>,
    pub finished: bool,
    pub failed: bool,
}

pub open spec fn backoff_of(wait: Option<u32>) -> u64 {
    match wait {
        Some(w) => w as u64,
        None => DEFAULT_BACKOFF_SECS,
    }
}

pub open spec fn limit_reached(limit: Option<u64>, n: nat) -> bool {
    match limit {
        Some(l) => n >= l,
        None => false,
    }
}

pub open spec fn initial_state(limit: Option<u64>) -> CrawlState {
    CrawlState { messages: Seq::empty(), finished: limit_reached(limit, 0), failed: false }
}

/// One transition of a crawl. A finished crawl ignores further events; a
/// message at or before the date point is kept and ends the crawl.
pub open spec fn next_state(
    s: CrawlState,
    limit: Option<u64>,
    date_point: i64,
    ev: FetchEvent,
) -> CrawlState {
    if s.finished {
        s
    } else {
        match ev {
            FetchEvent::Received(m) => CrawlState {
                messages: s.messages.push(m),
                finished: m.date <= date_point || limit_reached(limit, s.messages.len() + 1),
                failed: false,
            },
            FetchEvent::Exhausted => CrawlState { messages: s.messages, finished: true, failed: false },
            FetchEvent::RateLimited(_) => s,
            FetchEvent::Failed(_) => CrawlState { messages: Seq::empty(), finished: true, failed: true },
        }
    }
}

/// The action that follows an event on an unfinished crawl.
pub open spec fn action_after(
    s: CrawlState,
    limit: Option<u64>,
    date_point: i64,
    ev: FetchEvent,
) -> CrawlAction {
    match ev {
        FetchEvent::Received(m) => if next_state(s, limit, date_point, ev).finished {
            CrawlAction::Complete
        } else {
            CrawlAction::Fetch
        },
        FetchEvent::Exhausted => CrawlAction::Complete,
        FetchEvent::RateLimited(w) => CrawlAction::Sleep(backoff_of(w)),
        FetchEvent::Failed(e) => CrawlAction::Abort(e),
    }
}

/// The state after a sequence of events, from the given one.
pub open spec fn run_events(
    s: CrawlState,
    limit: Option<u64>,
    date_point: i64,
    evs: Seq<FetchEvent>,
) -> CrawlState
    decreases evs.len(),
{
    if evs.len() == 0 {
        s
    } else {
        next_state(run_events(s, limit, date_point, evs.drop_last()), limit, date_point, evs.last())
    }
}

/// The events of a history delivered without interruption.
pub open spec fn received(history: Seq<PeerMessage>) -> Seq<FetchEvent> {
    history.map_values(|m: PeerMessage| FetchEvent::Received(m))
}

/// The messages kept when a whole history is delivered and then ends.
pub open spec fn crawl_of(history: Seq<PeerMessage>, limit: Option<u64>, date_point: i64) -> Seq<
    PeerMessage,
> {
    run_events(
        initial_state(limit),
        limit,
        date_point,
        received(history).push(FetchEvent::Exhausted),
    ).messages
}

/// What holds of every reachable crawl state: all kept messages but the last
/// lie after the date point; the limit is never exceeded; failure keeps nothing.
pub open spec fn state_wf(s: CrawlState, limit: Option<u64>, date_point: i64) -> bool {
    &&& s.failed ==> s.finished && s.messages.len() == 0
    &&& forall|i: int| 0 <= i < s.messages.len() - 1 ==> #[trigger] s.messages[i].date > date_point
    &&& !s.finished ==> forall|i: int|
        0 <= i < s.messages.len() ==> #[trigger] s.messages[i].date > date_point
    &&& !s.finished ==> !limit_reached(limit, s.messages.len())
    &&& limit is Some ==> s.messages.len() <= limit->0
}

/// A crawl in progress for one target.
pub struct Crawl {
    limit: Option<u64>,
    date_point: i64,
    messages: Vec<PeerMessage>,
    finished: bool,
    failed: bool,
}

impl Crawl {
    pub closed spec fn state(&self) -> CrawlState {
        CrawlState { messages: self.messages@, finished: self.finished, failed: self.failed }
    }

    pub closed spec fn limit(&self) -> Option<u64> {
        self.limit
    }

    pub closed spec fn date_point(&self) -> i64 {
        self.date_point
    }

    pub open spec fn wf(&self) -> bool {
        state_wf(self.state(), self.limit(), self.date_point())
    }

    pub fn new(limit: Option<u64>, date_point: i64) -> (r: Self)
        ensures
            r.state() == initial_state(limit),
            r.limit() == limit,
            r.date_point() == date_point,
            r.wf(),
    {
        let finished = match limit {
            Some(l) => l == 0,
            None => false,
        };
        Crawl { limit, date_point, messages: Vec::new(), finished, failed: false }
    }

    pub fn is_finished(&self) -> (r: bool)
        ensures
            r == self.state().finished,
    {
        self.finished
    }

    /// How many more messages the limit admits; `None` when unbounded.
    pub fn remaining(&self) -> (r: Option<u64>)
        requires
            self.wf(),
        ensures
            match self.limit() {
                Some(l) => r == Some((l - self.state().messages.len()) as u64),
                None => r is None,
            },
    {
        match self.limit {
            Some(l) => Some(l - self.messages.len() as u64),
            None => None,
        }
    }

    /// Takes one event into the crawl and says what to do next.
    pub fn handle(&mut self, ev: FetchEvent) -> (a: CrawlAction)
        requires
            old(self).wf(),
            !old(self).state().finished,
        ensures
            final(self).state() == next_state(
                old(self).state(),
                old(self).limit(),
                old(self).date_point(),
                ev,
            ),
            a == action_after(old(self).state(), old(self).limit(), old(self).date_point(), ev),
            final(self).limit() == old(self).limit(),
            final(self).date_point() == old(self).date_point(),
            final(self).wf(),
    {
        proof {
            lemma_next_state_wf(self.state(), self.limit, self.date_point, ev);
        }
        match ev {
            FetchEvent::Received(m) => {
                let stop_at_date = m.date <= self.date_point;
                self.messages.push(m);
                let at_limit = match self.limit {
                    Some(l) => self.messages.len() as u64 >= l,
                    None => false,
                };
                self.finished = stop_at_date || at_limit;
                if self.finished {
                    CrawlAction::Complete
                } else {
                    CrawlAction::Fetch
                }
            },
            FetchEvent::Exhausted => {
                self.finished = true;
                CrawlAction::Complete
            },
            FetchEvent::RateLimited(w) => CrawlAction::Sleep(backoff_secs(w)),
            FetchEvent::Failed(e) => {
                self.messages = Vec::new();
                self.finished = true;
                self.failed = true;
                CrawlAction::Abort(e)
            },
        }
    }

    /// Delivers the first `count` messages of `msgs`, newest first, stopping
    /// early once the crawl is finished.
    pub fn feed(&mut self, msgs: &Vec<PeerMessage>, count: usize)
        requires
            old(self).wf(),
            count <= msgs@.len(),
        ensures
            final(self).state() == run_events(
                old(self).state(),
                old(self).limit(),
                old(self).date_point(),
                received(msgs@.take(count as int)),
            ),
            final(self).limit() == old(self).limit(),
            final(self).date_point() == old(self).date_point(),
            final(self).wf(),
    {
        let ghost s0 = self.state();
        let ghost evs = received(msgs@.take(count as int));
        let mut i: usize = 0;
        assert(evs.subrange(0, 0) =~= Seq::<FetchEvent>::empty());
        while i < count && !self.finished
            invariant
                i <= count <= msgs@.len(),
                evs == received(msgs@.take(count as int)),
                self.wf(),
                self.limit == old(self).limit,
                self.date_point == old(self).date_point,
                self.state() == run_events(s0, self.limit, self.date_point, evs.subrange(0, i as int)),
            decreases count - i,
        {
            let m = msgs[i].clone();
            self.handle(FetchEvent::Received(m));
            proof {
                assert(evs.subrange(0, i + 1).drop_last() =~= evs.subrange(0, i as int));
            }
            i = i + 1;
        }
        proof {
            let done = evs.subrange(0, i as int);
            let rest = evs.subrange(i as int, evs.len() as int);
            assert(done + rest =~= evs);
            lemma_run_events_append(s0, self.limit, self.date_point, done, rest);
            if self.finished {
                lemma_finished_absorbs(self.state(), self.limit, self.date_point, rest);
            } else {
                assert(done =~= evs);
            }
        }
    }

    /// The kept messages of a crawl that completed.
    pub fn into_messages(self) -> (r: Vec<PeerMessage>)
        ensures
            r@ == self.state().messages,
    {
        self.messages
    }
}

/// The wait after a rate-limit signal: the one the platform named, else the default.
pub fn backoff_secs(wait: Option<u32>) -> (r: u64)
    ensures
        r == backoff_of(wait),
{
    match wait {
        Some(w) => w as u64,
        None => DEFAULT_BACKOFF_SECS,
    }
}

/// Tells a rate-limit status (420, with its optional wait) from a fatal one.
pub fn classify_rpc_error(code: i32, wait: Option<u32>, description: String) -> (r: FetchEvent)
    ensures
        code == 420 ==> r == FetchEvent::RateLimited(wait),
        code != 420 ==> r == FetchEvent::Failed(description),
{
    if code == 420 {
        FetchEvent::RateLimited(wait)
    } else {
        FetchEvent::Failed(description)
    }
}

/// Tells an HTTP answer's status apart: `None` for success (2xx), a rate
/// limit for 429 (with the server's wait, if it named one), else a failure.
pub fn classify_http_status(status: u16, wait: Option<u32>, description: String) -> (r: Option<
    FetchEvent,
>)
    ensures
        200 <= status < 300 ==> r is None,
        status == 429 ==> r == Some(FetchEvent::RateLimited(wait)),
        !(200 <= status < 300) && status != 429 ==> r == Some(FetchEvent::Failed(description)),
{
    if 200 <= status && status < 300 {
        None
    } else if status == 429 {
        Some(FetchEvent::RateLimited(wait))
    } else {
        Some(FetchEvent::Failed(description))
    }
}

/// Runs a crawl over a history that is delivered whole and then ends.
pub fn crawl_history(history: &Vec<PeerMessage>, limit: Option<u64>, date_point: i64) -> (r: Vec<
    PeerMessage,
>)
    ensures
        r@ == crawl_of(history@, limit, date_point),
{
    let mut crawl = Crawl::new(limit, date_point);
    let ghost evs = received(history@);
    crawl.feed(history, history.len());
    assert(history@.take(history.len() as int) =~= history@);
    assert(evs.push(FetchEvent::Exhausted).drop_last() =~= evs);
    if !crawl.is_finished() {
        crawl.handle(FetchEvent::Exhausted);
    }
    crawl.into_messages()
}

pub proof fn lemma_next_state_wf(s: CrawlState, limit: Option<u64>, date_point: i64, ev: FetchEvent)
    requires
        state_wf(s, limit, date_point),
    ensures
        state_wf(next_state(s, limit, date_point, ev), limit, date_point),
{
    let t = next_state(s, limit, date_point, ev);
    if !s.finished {
        if let FetchEvent::Received(m) = ev {
            assert forall|i: int| 0 <= i < t.messages.len() - 1 implies #[trigger] t.messages[i].date > date_point by {
                assert(t.messages[i] == s.messages[i]);
            }
        }
    }
}

pub proof fn lemma_run_events_append(
    s: CrawlState,
    limit: Option<u64>,
    date_point: i64,
    a: Seq<FetchEvent>,
    b: Seq<FetchEvent>,
)
    ensures
        run_events(s, limit, date_point, a + b) == run_events(
            run_events(s, limit, date_point, a),
            limit,
            date_point,
            b,
        ),
    decreases b.len(),
{
    if b.len() == 0 {
        assert(a + b =~= a);
    } else {
        assert((a + b).drop_last() =~= a + b.drop_last());
        assert((a + b).last() == b.last());
        lemma_run_events_append(s, limit, date_point, a, b.drop_last());
    }
}

pub proof fn lemma_finished_absorbs(
    s: CrawlState,
    limit: Option<u64>,
    date_point: i64,
    evs: Seq<FetchEvent>,
)
    requires
        s.finished,
    ensures
        run_events(s, limit, date_point, evs) == s,
    decreases evs.len(),
{
    if evs.len() > 0 {
        lemma_finished_absorbs(s, limit, date_point, evs.drop_last());
    }
}

pub proof fn lemma_run_events_wf(
    s: CrawlState,
    limit: Option<u64>,
    date_point: i64,
    evs: Seq<FetchEvent>,
)
    requires
        state_wf(s, limit, date_point),
    ensures
        state_wf(run_events(s, limit, date_point, evs), limit, date_point),
    decreases evs.len(),
{
    if evs.len() > 0 {
        lemma_run_events_wf(s, limit, date_point, evs.drop_last());
        lemma_next_state_wf(run_events(s, limit, date_point, evs.drop_last()), limit, date_point, evs.last());
    }
}

proof fn lemma_received_prefix(
    h: Seq<PeerMessage>,
    limit: Option<u64>,
    date_point: i64,
    k: int,
)
    requires
        0 <= k <= h.len(),
    ensures
        ({
            let s = run_events(initial_state(limit), limit, date_point, received(h).subrange(0, k));
            &&& !s.failed
            &&& s.messages.len() <= k
            &&& s.messages =~= h.subrange(0, s.messages.len() as int)
            &&& !s.finished ==> s.messages.len() == k
            &&& (forall|i: int| 0 <= i < k ==> h[i].date > date_point)
                && (limit is None || k < limit->0) ==> !s.finished && s.messages.len() == k
        }),
    decreases k,
{
    let evs = received(h);
    if k > 0 {
        lemma_received_prefix(h, limit, date_point, k - 1);
        assert(evs.subrange(0, k).drop_last() =~= evs.subrange(0, k - 1));
        assert(evs.subrange(0, k).last() == FetchEvent::Received(h[k - 1]));
        let prev = run_events(initial_state(limit), limit, date_point, evs.subrange(0, k - 1));
        if !prev.finished {
            assert(prev.messages.push(h[k - 1]) =~= h.subrange(0, k));
        }
    } else {
        assert(evs.subrange(0, 0) =~= Seq::<FetchEvent>::empty());
    }
}

/// A target whose history lies wholly after the date point and is shorter
/// than the limit is crawled to exactly its whole history.
pub proof fn lemma_short_history_complete(h: Seq<PeerMessage>, limit: Option<u64>, date_point: i64)
    requires
        forall|i: int| 0 <= i < h.len() ==> #[trigger] h[i].date > date_point,
        limit is None || h.len() < limit->0,
    ensures
        crawl_of(h, limit, date_point) == h,
{
    let evs = received(h);
    lemma_received_prefix(h, limit, date_point, h.len() as int);
    assert(evs.subrange(0, h.len() as int) =~= evs);
    assert(evs.push(FetchEvent::Exhausted).drop_last() =~= evs);
    assert(h.subrange(0, h.len() as int) =~= h);
}

/// Whatever the date point, a crawl keeps a prefix of the history in which
/// every message but the last lies strictly after the date point, and never
/// more messages than the limit; a last message at or before the date point
/// is the one that ended the crawl.
pub proof fn lemma_date_point_respected(h: Seq<PeerMessage>, limit: Option<u64>, date_point: i64)
    ensures
        ({
            let r = crawl_of(h, limit, date_point);
            &&& r.len() <= h.len()
            &&& r =~= h.subrange(0, r.len() as int)
            &&& forall|i: int| 0 <= i < r.len() - 1 ==> #[trigger] r[i].date > date_point
            &&& limit is Some ==> r.len() <= limit->0
        }),
{
    let evs = received(h);
    let full = evs.push(FetchEvent::Exhausted);
    lemma_received_prefix(h, limit, date_point, h.len() as int);
    assert(evs.subrange(0, h.len() as int) =~= evs);
    assert(full.drop_last() =~= evs);
    lemma_run_events_wf(initial_state(limit), limit, date_point, full);
}

/// A rate-limit signal anywhere among the events of a crawl changes nothing
/// of its outcome: it only delays.
pub proof fn lemma_rate_limit_transparent(
    s: CrawlState,
    limit: Option<u64>,
    date_point: i64,
    evs: Seq<FetchEvent>,
    k: int,
    wait: Option<u32>,
)
    requires
        0 <= k <= evs.len(),
    ensures
        run_events(s, limit, date_point, evs.insert(k, FetchEvent::RateLimited(wait)))
            == run_events(s, limit, date_point, evs),
    decreases evs.len(),
{
    let with = evs.insert(k, FetchEvent::RateLimited(wait));
    if k == evs.len() {
        assert(with.drop_last() =~= evs);
    } else {
        assert(with.drop_last() =~= evs.drop_last().insert(k, FetchEvent::RateLimited(wait)));
        assert(with.last() == evs.last());
        lemma_rate_limit_transparent(s, limit, date_point, evs.drop_last(), k, wait);
    }
}

} // verus!
