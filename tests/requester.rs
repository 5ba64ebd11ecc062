use mangadl::api::API;
use mangadl::governor::{RateState, Slot};
use mangadl::requester::{classify, Dispatch, Outcome, RateLimitedRequester, RequesterError};

#[test]
fn three_concurrent_requests_are_spaced() {
    let mut r = RateLimitedRequester::new();
    r.register("x", "https://x.example", 100);
    // three callers arrive at t = 0: one leaves, two must wait
    assert_eq!(r.request("x", "/1", 0), Ok(Dispatch::Send("https://x.example/1".to_string())));
    assert_eq!(r.request("x", "/2", 0), Ok(Dispatch::Wait(100)));
    assert_eq!(r.request("x", "/3", 0), Ok(Dispatch::Wait(100)));
    // both wake at t = 100: one leaves, the other waits again
    assert_eq!(r.request("x", "/2", 100), Ok(Dispatch::Send("https://x.example/2".to_string())));
    assert_eq!(r.request("x", "/3", 100), Ok(Dispatch::Wait(200)));
    assert_eq!(r.request("x", "/3", 200), Ok(Dispatch::Send("https://x.example/3".to_string())));
}

#[test]
fn spacing_holds_for_many_callers() {
    for n in [1u64, 2, 10, 100] {
        let mut r = RateLimitedRequester::new();
        r.register("x", "https://x.example", 100);
        let mut now: u64 = 0;
        let mut sent: Vec<u64> = Vec::new();
        while (sent.len() as u64) < n {
            match r.request("x", "/p", now).unwrap() {
                Dispatch::Send(_) => sent.push(now),
                Dispatch::Wait(t) => {
                    assert!(t > now);
                    now = t;
                }
            }
            now += 7;
        }
        for w in sent.windows(2) {
            assert!(w[1] - w[0] >= 100);
        }
    }
}

#[test]
fn second_registration_is_ignored() {
    let mut r = RateLimitedRequester::new();
    assert!(r.register("cdn", "https://cdn.example", 50));
    assert!(!r.register("cdn", "https://other.example", 500));
    let s = r.resolve("cdn").unwrap();
    assert_eq!(s.base_url, "https://cdn.example");
    assert_eq!(s.min_interval, 50);
    assert_eq!(r.request("cdn", "/a", 0), Ok(Dispatch::Send("https://cdn.example/a".to_string())));
    // the first interval still governs
    assert_eq!(r.request("cdn", "/b", 10), Ok(Dispatch::Wait(50)));
    assert_eq!(r.request("cdn", "/b", 50), Ok(Dispatch::Send("https://cdn.example/b".to_string())));
}

#[test]
fn unknown_source_fails_without_dispatch() {
    let mut r = RateLimitedRequester::new();
    r.register("main", "https://api.example", 100);
    assert_eq!(r.request("nope", "/a", 0), Err(RequesterError::UnknownSource("nope".to_string())));
    assert_eq!(r.resolve("nope").unwrap_err(), RequesterError::UnknownSource("nope".to_string()));
    // the known source is untouched
    assert_eq!(r.request("main", "/a", 0), Ok(Dispatch::Send("https://api.example/a".to_string())));
}

#[test]
fn sources_are_independent() {
    let mut r = RateLimitedRequester::new();
    r.register("a", "https://a.example", 1000);
    r.register("b", "https://b.example", 10);
    assert!(matches!(r.request("a", "/1", 0), Ok(Dispatch::Send(_))));
    assert_eq!(r.request("a", "/2", 1), Ok(Dispatch::Wait(1000)));
    assert_eq!(r.request("b", "/1", 1), Ok(Dispatch::Send("https://b.example/1".to_string())));
    assert_eq!(r.request("b", "/2", 11), Ok(Dispatch::Send("https://b.example/2".to_string())));
}

#[test]
fn resolve_returns_registration() {
    let mut r = RateLimitedRequester::new();
    r.register("content", "https://static.example", 300);
    let s = r.resolve("content").unwrap();
    assert_eq!(s.name, "content");
    assert_eq!(s.base_url, "https://static.example");
    assert_eq!(s.min_interval, 300);
}

#[test]
fn too_many_requests_is_rate_limited() {
    assert_eq!(classify(Outcome::Responded(429)), Err(RequesterError::RateLimited));
    assert_eq!(classify(Outcome::Responded(200)), Ok(200));
    assert_eq!(classify(Outcome::Responded(299)), Ok(299));
    assert_eq!(classify(Outcome::Responded(404)), Err(RequesterError::Status(404)));
    assert_eq!(classify(Outcome::Responded(503)), Err(RequesterError::Status(503)));
    assert_eq!(classify(Outcome::Responded(199)), Err(RequesterError::Status(199)));
    assert_eq!(
        classify(Outcome::Transport("refused".to_string())),
        Err(RequesterError::Transport("refused".to_string()))
    );
}

#[test]
fn defaults_are_registered() {
    let api = API::new();
    let main = api.requester.resolve("main").unwrap();
    assert_eq!(main.base_url, "https://api.mangadex.org");
    assert!(main.min_interval >= 100);
    assert!(api.requester.resolve("cdn").is_ok());
    assert_eq!(api.requester.resolve("content").unwrap().base_url, "https://uploads.mangadex.org");
}

#[test]
fn governor_waits_until_deadline() {
    let mut s = RateState::new();
    assert_eq!(s.try_acquire(100, 5), Slot::Granted);
    assert_eq!(s.try_acquire(100, 104), Slot::WaitUntil(105));
    assert_eq!(s.try_acquire(100, 105), Slot::Granted);
    // a clock that went back never grants early
    assert_eq!(s.try_acquire(100, 50), Slot::WaitUntil(205));
    assert_eq!(s.try_acquire(u64::MAX, 300), Slot::WaitUntil(u64::MAX));
}
