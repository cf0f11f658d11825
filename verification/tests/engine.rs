use buster::queue::{select_words, WordQueue};
use buster::status_range::parse_status_ranges;
use buster::strategy::{to_strategy, Config, DirStrategy, FilterKind, Mode, StatusFilter};
use buster::target::{build_request_path, effective_port, ResolvedTarget, SetupError, TargetCell};

fn words(items: &[&str]) -> Vec<String> {
    items.iter().map(|w| String::from(*w)).collect()
}

fn include_filter(spec: &str) -> StatusFilter {
    StatusFilter {
        ranges: parse_status_ranges(spec).unwrap(),
        kind: FilterKind::Include,
    }
}

fn test_config(base_path: &str) -> Config {
    Config {
        method: String::from("GET"),
        user_agent: String::from("buster"),
        headers: Vec::new(),
        timeout_ms: 10_000,
        retry: false,
        retry_attempts: 3,
        follow_redirects: false,
        max_redirects: 2,
        delay_ms: 0,
        threads: 10,
        wordlist_offset: 0,
        base_path: String::from(base_path),
    }
}

#[test]
fn base_path_trailing_slash_is_stripped_before_concatenation() {
    assert_eq!(build_request_path("/base/", "admin"), "/base/admin");
}

#[test]
fn path_building_edge_cases() {
    assert_eq!(build_request_path("/base", "admin"), "/base/admin");
    assert_eq!(build_request_path("/base///", "admin"), "/base/admin");
    assert_eq!(build_request_path("/", "admin"), "/admin");
    assert_eq!(build_request_path("", "admin"), "/admin");
    assert_eq!(build_request_path("/base/", ""), "/base/");
}

#[test]
fn effective_port_prefers_explicit_then_scheme_default() {
    assert_eq!(effective_port(Some(8080), true), 8080);
    assert_eq!(effective_port(Some(8080), false), 8080);
    assert_eq!(effective_port(None, true), 443);
    assert_eq!(effective_port(None, false), 80);
}

#[test]
fn target_cell_is_single_assignment() {
    let mut cell = TargetCell::new();
    assert!(!cell.is_set());
    assert!(cell.get().is_none());
    let first = ResolvedTarget {
        authority: String::from("example.com"),
        addr: String::from("192.0.2.1:80"),
    };
    assert!(cell.set(first).is_ok());
    assert!(cell.is_set());
    let second = ResolvedTarget {
        authority: String::from("other.example"),
        addr: String::from("192.0.2.2:80"),
    };
    assert_eq!(cell.set(second), Err(SetupError::AlreadyResolved));
    assert_eq!(cell.get().unwrap().authority, "example.com");
    assert_eq!(cell.get().unwrap().addr, "192.0.2.1:80");
}

#[test]
fn queue_delivers_every_sent_word_exactly_once_then_reports_closed() {
    let mut q = WordQueue::new(8);
    for w in ["alpha", "beta", "gamma"] {
        q.send(String::from(w));
    }
    q.close();
    assert_eq!(q.recv(), Some(String::from("alpha")));
    assert_eq!(q.recv(), Some(String::from("beta")));
    assert_eq!(q.recv(), Some(String::from("gamma")));
    assert_eq!(q.recv(), None);
    assert_eq!(q.recv(), None);
}

#[test]
fn queue_reports_capacity() {
    let mut q = WordQueue::new(2);
    assert!(!q.is_full());
    q.send(String::from("a"));
    q.send(String::from("b"));
    assert!(q.is_full());
    assert_eq!(q.len(), 2);
}

#[test]
fn offset_skips_exactly_the_first_m_words() {
    let selected = select_words(words(&["a", "b", "c", "d", "e"]), 2);
    assert_eq!(selected, words(&["c", "d", "e"]));
}

#[test]
fn offset_at_or_past_the_end_selects_nothing() {
    assert_eq!(select_words(words(&["a", "b", "c"]), 3), words(&[]));
    assert_eq!(select_words(words(&["a", "b", "c"]), 7), words(&[]));
}

#[test]
fn zero_offset_selects_every_word() {
    let selected = select_words(words(&["a", "b"]), 0);
    assert_eq!(selected, words(&["a", "b"]));
}

#[test]
fn distribute_sends_the_words_after_the_offset_then_closes() {
    let mut q = WordQueue::new(8);
    buster::queue::distribute(words(&["a", "b", "c", "d", "e"]), 2, &mut q);
    assert_eq!(q.recv(), Some(String::from("c")));
    assert_eq!(q.recv(), Some(String::from("d")));
    assert_eq!(q.recv(), Some(String::from("e")));
    assert_eq!(q.recv(), None);
}

#[test]
fn only_the_dir_mode_is_implemented() {
    assert!(to_strategy(Mode::Dir, include_filter("404")).is_ok());
    for mode in [Mode::Vhost, Mode::Dns, Mode::Fuzz, Mode::Tftp, Mode::S3, Mode::Gcs] {
        match to_strategy(mode, include_filter("404")) {
            Err(SetupError::ModeNotImplemented) => {}
            _ => panic!("unimplemented mode must fail at construction time"),
        }
    }
}

#[test]
fn prepare_lookup_requires_an_authority() {
    match DirStrategy::prepare_lookup(None, Some(8080), false) {
        Err(SetupError::MissingAuthority) => {}
        _ => panic!("a URL without an authority must be rejected"),
    }
    let plan = DirStrategy::prepare_lookup(Some(String::from("example.com:8080")), Some(8080), false)
        .unwrap();
    assert_eq!(plan.authority, "example.com:8080");
    assert_eq!(plan.port, 8080);
    let plan = DirStrategy::prepare_lookup(Some(String::from("example.com")), None, true).unwrap();
    assert_eq!(plan.port, 443);
}

#[test]
fn setup_runs_exactly_once_per_strategy() {
    let mut strategy = to_strategy(Mode::Dir, include_filter("404")).unwrap();
    assert!(!strategy.is_ready());
    let target = ResolvedTarget {
        authority: String::from("example.com"),
        addr: String::from("192.0.2.1:80"),
    };
    assert!(strategy.complete_setup(target).is_ok());
    assert!(strategy.is_ready());
    let again = ResolvedTarget {
        authority: String::from("example.com"),
        addr: String::from("192.0.2.1:80"),
    };
    assert_eq!(strategy.complete_setup(again), Err(SetupError::AlreadyResolved));
}

#[test]
fn plan_word_builds_the_request_from_the_cached_target() {
    let mut strategy = to_strategy(Mode::Dir, include_filter("404")).unwrap();
    strategy
        .complete_setup(ResolvedTarget {
            authority: String::from("example.com"),
            addr: String::from("192.0.2.1:80"),
        })
        .unwrap();
    let cfg = test_config("/base/");
    let plan = strategy.plan_word(&cfg, "admin");
    assert_eq!(plan.path, "/base/admin");
    assert_eq!(plan.authority, "example.com");
    assert_eq!(plan.addr, "192.0.2.1:80");
    assert_eq!(plan.method, "GET");
    assert_eq!(plan.user_agent, "buster");
    assert_eq!(plan.timeout_ms, 10_000);
    assert!(!plan.follow_redirects);
}

#[test]
fn classify_reports_the_status_and_the_filter_verdict() {
    let strategy = to_strategy(Mode::Dir, include_filter("200-299,404")).unwrap();
    let hit = strategy.classify(404);
    assert_eq!(hit.status, 404);
    assert!(hit.matched);
    let miss = strategy.classify(403);
    assert_eq!(miss.status, 403);
    assert!(!miss.matched);
}
