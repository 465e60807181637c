use chat_dump::batch::{batch_outcome, JobError};
use chat_dump::crawl::{
    backoff_secs, classify_rpc_error, crawl_history, Crawl, CrawlAction, FetchEvent,
    DEFAULT_BACKOFF_SECS,
};
use chat_dump::governor::{JobBoard, JobPhase, FETCH_PERMITS};
use chat_dump::peer::{DumpedPeer, PeerMessage, ResolvedPeer};

fn msg(id: u32, date: i64) -> PeerMessage {
    PeerMessage::new(id.to_string(), format!("user{}", id), format!("text {}", id), date)
}

/// A history of `n` messages, newest first, the newest at `newest`.
fn history(n: u32, newest: i64) -> Vec<PeerMessage> {
    (0..n).map(|i| msg(i, newest - i as i64)).collect()
}

fn ids(v: &[PeerMessage]) -> Vec<String> {
    v.iter().map(|m| m.id.clone()).collect()
}

#[test]
fn short_history_is_crawled_whole() {
    let h = history(7, 1_000);
    let r = crawl_history(&h, Some(50), 0);
    assert_eq!(ids(&r), ids(&h));
    let unbounded = crawl_history(&h, None, 0);
    assert_eq!(ids(&unbounded), ids(&h));
}

#[test]
fn empty_history_gives_empty_dump() {
    let r = crawl_history(&Vec::new(), Some(10), 0);
    assert!(r.is_empty());
}

#[test]
fn message_at_date_point_is_kept_and_ends_crawl() {
    // dates 105, 104, ..., 96: the crawl keeps 105..=100 and stops there.
    let h = history(10, 105);
    let r = crawl_history(&h, None, 100);
    assert_eq!(r.len(), 6);
    assert_eq!(r.last().unwrap().date, 100);
    for m in &r[..r.len() - 1] {
        assert!(m.date > 100);
    }
}

#[test]
fn limit_caps_the_dump() {
    let h = history(30, 1_000);
    let r = crawl_history(&h, Some(12), 0);
    assert_eq!(ids(&r), ids(&h[..12]));
    let none = crawl_history(&h, Some(0), 0);
    assert!(none.is_empty());
}

#[test]
fn rate_limit_then_success_matches_immediate_success() {
    let h = history(5, 500);
    let mut direct = Crawl::new(Some(10), 0);
    let mut delayed = Crawl::new(Some(10), 0);
    for (i, m) in h.iter().enumerate() {
        assert!(matches!(direct.handle(FetchEvent::Received(m.clone())), CrawlAction::Fetch));
        if i % 2 == 0 {
            match delayed.handle(FetchEvent::RateLimited(Some(7))) {
                CrawlAction::Sleep(s) => assert_eq!(s, 7),
                _ => panic!("a rate limit must lead to a sleep"),
            }
            match delayed.handle(FetchEvent::RateLimited(None)) {
                CrawlAction::Sleep(s) => assert_eq!(s, 30),
                _ => panic!("a rate limit must lead to a sleep"),
            }
        }
        assert!(matches!(delayed.handle(FetchEvent::Received(m.clone())), CrawlAction::Fetch));
    }
    assert!(matches!(direct.handle(FetchEvent::Exhausted), CrawlAction::Complete));
    assert!(matches!(delayed.handle(FetchEvent::Exhausted), CrawlAction::Complete));
    assert_eq!(ids(&direct.into_messages()), ids(&delayed.into_messages()));
}

#[test]
fn fatal_error_discards_partial_messages() {
    let mut c = Crawl::new(None, 0);
    c.handle(FetchEvent::Received(msg(1, 10)));
    match c.handle(FetchEvent::Failed("boom".to_string())) {
        CrawlAction::Abort(e) => assert_eq!(e, "boom"),
        _ => panic!("a failure must abort"),
    }
    assert!(c.is_finished());
    assert!(c.into_messages().is_empty());
}

#[test]
fn remaining_counts_down() {
    let mut c = Crawl::new(Some(3), 0);
    assert_eq!(c.remaining(), Some(3));
    c.handle(FetchEvent::Received(msg(1, 10)));
    assert_eq!(c.remaining(), Some(2));
    assert_eq!(Crawl::new(None, 0).remaining(), None);
}

#[test]
fn backoff_uses_named_wait_or_default() {
    assert_eq!(backoff_secs(Some(12)), 12);
    assert_eq!(backoff_secs(None), DEFAULT_BACKOFF_SECS);
    assert_eq!(DEFAULT_BACKOFF_SECS, 30);
}

#[test]
fn rpc_420_is_rate_limit_other_codes_fatal() {
    assert!(matches!(classify_rpc_error(420, Some(5), "FLOOD".to_string()), FetchEvent::RateLimited(Some(5))));
    assert!(matches!(classify_rpc_error(420, None, "FLOOD".to_string()), FetchEvent::RateLimited(None)));
    match classify_rpc_error(400, None, "BAD".to_string()) {
        FetchEvent::Failed(d) => assert_eq!(d, "BAD"),
        _ => panic!("other codes are fatal"),
    }
}

#[test]
fn governor_admits_at_most_capacity() {
    let mut board = JobBoard::new(5, FETCH_PERMITS);
    for j in 0..5 {
        board.await_permit(j);
    }
    let granted: Vec<bool> = (0..5).map(|j| board.try_begin_fetch(j)).collect();
    assert_eq!(granted, vec![true, true, true, false, false]);
    assert_eq!(board.available(), 0);
    board.finish(1, true);
    assert_eq!(board.phase(1), JobPhase::Completed);
    assert_eq!(board.available(), 1);
    assert!(board.try_begin_fetch(3));
    assert!(!board.try_begin_fetch(4));
    board.finish(0, false);
    assert_eq!(board.phase(0), JobPhase::Failed);
    assert!(board.try_begin_fetch(4));
    assert_eq!(board.available(), 0);
}

#[test]
fn resolution_is_not_gated() {
    let mut board = JobBoard::new(4, 1);
    for j in 0..4 {
        board.start_resolving(j);
        assert_eq!(board.phase(j), JobPhase::Resolving);
    }
    assert_eq!(board.available(), 1);
    board.await_permit(2);
    board.finish(3, false);
    assert_eq!(board.available(), 1);
}

fn dump(name: &str, n: u32) -> DumpedPeer {
    DumpedPeer::new(ResolvedPeer::new(name.to_string(), name.to_string()), history(n, 100))
}

#[test]
fn batch_with_a_failure_yields_no_dump() {
    let results = vec![
        Ok(dump("t1", 2)),
        Ok(dump("t2", 3)),
        Err(JobError::new("t3".to_string(), "fetch failed".to_string())),
        Ok(dump("t4", 1)),
        Err(JobError::new("t5".to_string(), "later".to_string())),
    ];
    match batch_outcome(results) {
        Err(e) => {
            assert_eq!(e.target, "t3");
            assert_eq!(e.reason, "fetch failed");
        }
        Ok(_) => panic!("a failed job must fail the batch"),
    }
}

#[test]
fn batch_without_failure_keeps_every_dump_in_order() {
    let results = vec![Ok(dump("a", 1)), Ok(dump("b", 2))];
    let ok = batch_outcome(results).ok().unwrap();
    assert_eq!(ok.len(), 2);
    assert_eq!(ok[0].peer.peer_id, "a");
    assert_eq!(ok[1].chunks.len(), 2);
    assert!(batch_outcome(Vec::new()).ok().unwrap().is_empty());
}

#[test]
fn two_targets_limit_fifty_epoch_boundary() {
    let targets = ["alice", "bob"];
    let mut results = Vec::new();
    for (k, t) in targets.iter().enumerate() {
        let h = history(80 + k as u32 * 10, 10_000);
        let messages = crawl_history(&h, Some(50), 0);
        results.push(Ok(DumpedPeer::new(ResolvedPeer::new(t.to_string(), t.to_string()), messages)));
    }
    let dumps = batch_outcome(results).ok().unwrap();
    assert_eq!(dumps.len(), 2);
    for d in &dumps {
        assert!(d.chunks.len() <= 50);
        assert!(d.chunks.iter().all(|m| m.date > 0));
    }
}
