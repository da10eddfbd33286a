use crawler::crawler::Cfg;
use crawler::crawler::Crawler;
use crawler::crawler::Phase;
use crawler::crawler::Turn;

fn crawler() -> Crawler {
    Crawler::new(Cfg {
        db_url: "http://db.test".to_string(),
        user_agent: "testbot".to_string(),
        lru_cache_capacity: 4,
        http_reqs_timeout_for_thread: 3,
    })
}

#[test]
fn new_crawler_has_not_started() {
    let mut crawler = crawler();
    assert!(!crawler.is_running());
    assert_eq!(crawler.phase(), Phase::NotStarted);
    assert_eq!(crawler.pending(), 0);
    assert_eq!(crawler.cached_count(), 0);
    assert!(!crawler.is_any_busy());
    assert_eq!(crawler.user_agent(), "testbot");
    assert_eq!(crawler.db_url(), "http://db.test");
    assert_eq!(crawler.delay_secs(), 3);
    assert!(matches!(crawler.start_single(0), Turn::Stop));
}

#[test]
fn frontier_is_first_in_first_out() {
    let mut crawler = crawler();
    crawler.push_sites("one".to_string());
    crawler.push_sites("two".to_string());
    crawler.push_sites("one".to_string());
    assert_eq!(crawler.pending(), 3);
    assert_eq!(crawler.pop_sites(), Some("one".to_string()));
    assert_eq!(crawler.pop_sites(), Some("two".to_string()));
    assert_eq!(crawler.pop_sites(), Some("one".to_string()));
    assert_eq!(crawler.pop_sites(), None);
}

#[test]
fn start_seeds_the_frontier_in_order() {
    let mut crawler = crawler();
    crawler.push_sites("zero".to_string());
    crawler.start_threads(vec!["one".to_string(), "two".to_string()], 2);
    assert!(crawler.is_running());
    assert!(!crawler.is_any_busy());
    assert_eq!(crawler.pop_sites(), Some("zero".to_string()));
    assert_eq!(crawler.pop_sites(), Some("one".to_string()));
    assert_eq!(crawler.pop_sites(), Some("two".to_string()));
    assert_eq!(crawler.pop_sites(), None);
}

#[test]
fn worker_visits_and_rests() {
    let mut crawler = crawler();
    crawler.start_threads(vec!["one".to_string()], 2);
    match crawler.start_single(1) {
        Turn::Visit(site) => assert_eq!(site, "one"),
        _ => panic!("nothing to visit"),
    }
    assert!(crawler.is_any_busy());
    assert!(matches!(crawler.start_single(0), Turn::Pause));
    crawler.finish_site(1);
    assert!(!crawler.is_any_busy());
    assert!(matches!(crawler.start_single(0), Turn::Pause));
    assert!(matches!(crawler.start_single(1), Turn::Pause));
}

#[test]
fn worker_ends_when_told_to_stop() {
    let mut crawler = crawler();
    crawler.start_threads(vec!["one".to_string(), "two".to_string()], 1);
    assert_eq!(crawler.phase(), Phase::Running);
    assert!(matches!(crawler.start_single(0), Turn::Visit(_)));
    crawler.stop();
    assert!(!crawler.is_running());
    assert_eq!(crawler.phase(), Phase::Draining);
    crawler.finish_site(0);
    assert_eq!(crawler.phase(), Phase::Stopped);
    assert!(matches!(crawler.start_single(0), Turn::Stop));
    assert_eq!(crawler.pending(), 1);
}

#[test]
fn unknown_worker_is_told_to_end() {
    let mut crawler = crawler();
    crawler.start_threads(vec!["one".to_string()], 2);
    assert!(matches!(crawler.start_single(2), Turn::Stop));
    assert_eq!(crawler.pending(), 1);
    crawler.finish_site(9);
    assert!(!crawler.is_any_busy());
}

#[test]
fn draining_crawl_ends_at_quiescence_only() {
    let mut crawler = crawler();
    crawler.stop_when_drained(true);
    crawler.start_threads(vec!["one".to_string()], 2);
    assert_eq!(crawler.phase(), Phase::Running);
    assert!(matches!(crawler.start_single(0), Turn::Visit(_)));
    assert_eq!(crawler.phase(), Phase::Draining);
    assert!(matches!(crawler.start_single(1), Turn::Recheck));
    crawler.push_sites("two".to_string());
    assert_eq!(crawler.phase(), Phase::Running);
    assert!(matches!(crawler.start_single(1), Turn::Visit(_)));
    crawler.finish_site(0);
    assert!(matches!(crawler.start_single(0), Turn::Recheck));
    crawler.finish_site(1);
    assert_eq!(crawler.phase(), Phase::Stopped);
    assert!(matches!(crawler.start_single(0), Turn::Stop));
    assert!(matches!(crawler.start_single(1), Turn::Stop));
    assert_eq!(crawler.pending(), 0);
    assert!(crawler.is_running());
}

#[test]
fn crawl_without_workers_has_an_empty_table() {
    let mut crawler = crawler();
    crawler.start_threads(vec![], 0);
    assert!(crawler.is_running());
    assert!(matches!(crawler.start_single(0), Turn::Stop));
}
