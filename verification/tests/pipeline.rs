use hdcquery::hubapi::{Summary, Timestamp};
use hdcquery::options::SearchOptions;
use hdcquery::search::channel::{Page, PrefetchChannel, SendError};
use hdcquery::search::consumer::{Phase, Rendered, Reply};
use hdcquery::search::engine::{Action, Search};
use hdcquery::search::fetcher::search_request;
use hdcquery::search::producer::Producer;
use hdcquery::search::table::Layout;
use hdcquery::search::{SearchResult, DEFAULT_SEARCH_URL};
use hdcquery::text::NumberError;

fn hit(slug: &str) -> Summary {
    Summary {
        name: slug.to_string(),
        slug: slug.to_string(),
        updated_at: Timestamp { secs: 0, nanos: 0 },
        pull_count: None,
        star_count: None,
        short_description: None,
    }
}

fn result(hits: usize, count: usize) -> SearchResult {
    let mut summaries = Vec::new();
    for n in 0..hits {
        summaries.push(hit(&format!("repo/{}", n)));
    }
    SearchResult { count, summaries: Some(summaries) }
}

fn options(limit: Option<usize>) -> SearchOptions {
    SearchOptions { limit, search_url: None, terms: vec!["apache".to_string(), "httpd".to_string()] }
}

fn pair(key: &str, value: &str) -> (String, String) {
    (key.to_string(), value.to_string())
}

fn expect_fetch(search: &mut Search, page: usize) {
    match search.next_action() {
        Action::Fetch(request) => assert_eq!(request.page, page),
        other => panic!("expected a request for page {}, got {:?}", page, other),
    }
}

fn expect_show(search: &mut Search) -> Rendered {
    match search.next_action() {
        Action::Show(shown) => shown,
        other => panic!("expected a page to show, got {:?}", other),
    }
}

#[test]
fn search_request_names_page_and_size() {
    let request = search_request("http://localhost/search", "apache httpd", 23, 4);
    assert_eq!(request.url, "http://localhost/search");
    assert_eq!(request.page, 4);
    assert_eq!(
        request.headers,
        vec![pair("Accept", "application/json"), pair("Search-Version", "v3")]
    );
    assert_eq!(
        request.query,
        vec![
            pair("type", "image"),
            pair("q", "apache httpd"),
            pair("page_size", "23"),
            pair("page", "4"),
        ]
    );
}

#[test]
fn producer_asks_for_the_pages_in_their_order() {
    let mut producer = Producer::new(None, "nginx".to_string(), 23);
    for page in 1..20usize {
        assert!(producer.idle());
        assert_eq!(producer.next_page(), page);
        let request = producer.fetch();
        assert_eq!(request.page, page);
        assert_eq!(request.url, DEFAULT_SEARCH_URL);
        assert_eq!(request.query[3], pair("page", &page.to_string()));
        assert!(producer.fetching());
        assert!(!producer.idle());
        producer.sent(true);
    }
}

#[test]
fn producer_stops_when_its_page_is_refused() {
    let mut producer = Producer::new(Some("http://mirror/search".to_string()), "nginx".to_string(), 5);
    let request = producer.fetch();
    assert_eq!(request.url, "http://mirror/search");
    assert_eq!(request.query[2], pair("page_size", "5"));
    producer.sent(false);
    assert!(!producer.idle());
    assert!(!producer.fetching());
    assert_eq!(producer.next_page(), 1);
}

#[test]
fn channel_holds_two_pages_at_most() {
    let mut channel = PrefetchChannel::new();
    assert_eq!(channel.len(), 0);
    assert!(!channel.is_full());
    assert!(channel.send(Page { number: 1, result: result(1, 3) }).is_ok());
    assert!(channel.send(Page { number: 2, result: result(1, 3) }).is_ok());
    assert!(channel.is_full());
    match channel.send(Page { number: 3, result: result(1, 3) }) {
        Err(SendError::Full(page)) => assert_eq!(page.number, 3),
        other => panic!("expected the page back, got {:?}", other),
    }
    assert_eq!(channel.len(), 2);
}

#[test]
fn channel_hands_the_pages_out_in_their_order() {
    let mut channel = PrefetchChannel::new();
    assert!(channel.receive().is_none());
    channel.send(Page { number: 1, result: result(1, 3) }).unwrap();
    channel.send(Page { number: 2, result: result(2, 3) }).unwrap();
    assert_eq!(channel.receive().unwrap().number, 1);
    channel.send(Page { number: 3, result: result(3, 3) }).unwrap();
    assert_eq!(channel.receive().unwrap().number, 2);
    assert_eq!(channel.receive().unwrap().number, 3);
    assert!(channel.receive().is_none());
}

#[test]
fn closed_channel_drops_its_pages_and_refuses_more() {
    let mut channel = PrefetchChannel::new();
    channel.send(Page { number: 1, result: result(1, 3) }).unwrap();
    channel.close();
    assert!(channel.is_closed());
    assert_eq!(channel.len(), 0);
    assert!(channel.receive().is_none());
    match channel.send(Page { number: 2, result: result(1, 3) }) {
        Err(SendError::Closed(page)) => assert_eq!(page.number, 2),
        other => panic!("expected the page back, got {:?}", other),
    }
    assert_eq!(channel.len(), 0);
}

#[test]
fn limit_within_the_first_page_asks_for_no_second_page() {
    let layout = Layout::new(Some((80, 25)));
    assert_eq!(layout.page_size, 23);
    let mut search = Search::new(options(Some(5)), false, layout.page_size);
    match search.next_action() {
        Action::Fetch(request) => {
            assert_eq!(request.page, 1);
            assert_eq!(request.url, DEFAULT_SEARCH_URL);
            assert_eq!(request.query[1], pair("q", "apache httpd"));
            assert_eq!(request.query[2], pair("page_size", "23"));
            assert_eq!(request.query[3], pair("page", "1"));
        },
        other => panic!("expected the first request, got {:?}", other),
    }
    assert!(matches!(search.next_action(), Action::Wait { page: true, line: false }));
    search.fetched(result(23, 230));
    assert_eq!(expect_show(&mut search), Rendered { header: true, first: 0, count: 5, page: 1 });
    assert_eq!(search.consumer().found().len(), 5);
    assert_eq!(search.phase(), Phase::Done);
    assert_eq!(search.waiting(), 0);
    assert!(!search.fetching());
    assert!(matches!(search.next_action(), Action::Stop));
    assert!(matches!(search.next_action(), Action::Stop));
}

#[test]
fn empty_first_page_ends_the_search_with_nothing_shown() {
    for interactive in [false, true] {
        let mut search = Search::new(options(None), interactive, 23);
        expect_fetch(&mut search, 1);
        search.fetched(SearchResult { count: 0, summaries: Some(Vec::new()) });
        assert!(matches!(search.next_action(), Action::Stop));
        assert_eq!(search.phase(), Phase::Done);
        assert!(search.consumer().found().is_empty());
        assert_eq!(search.consumer().pages(), 0);
    }
    let mut search = Search::new(options(None), false, 23);
    expect_fetch(&mut search, 1);
    search.fetched(SearchResult { count: 0, summaries: None });
    assert!(matches!(search.next_action(), Action::Stop));
}

#[test]
fn batch_search_runs_page_after_page_to_the_empty_page() {
    let mut search = Search::new(options(None), false, 3);
    let mut requested = Vec::new();
    let mut shown = Vec::new();
    loop {
        match search.next_action() {
            Action::Fetch(request) => {
                requested.push(request.page);
                let hits = if request.page <= 4 { 3 } else { 0 };
                search.fetched(result(hits, 12));
            },
            Action::Show(rendered) => shown.push(rendered),
            Action::Stop => break,
            other => panic!("a batch search neither prompts nor waits: {:?}", other),
        }
    }
    assert_eq!(requested, vec![1, 2, 3, 4, 5]);
    assert_eq!(
        shown,
        vec![
            Rendered { header: true, first: 0, count: 3, page: 1 },
            Rendered { header: false, first: 3, count: 3, page: 2 },
            Rendered { header: false, first: 6, count: 3, page: 3 },
            Rendered { header: false, first: 9, count: 3, page: 4 },
        ]
    );
    assert_eq!(search.consumer().found().len(), 12);
}

#[test]
fn batch_search_shows_the_smaller_of_limit_and_hits() {
    for limit in 1..15usize {
        let mut search = Search::new(options(Some(limit)), false, 4);
        let mut rows = 0;
        loop {
            match search.next_action() {
                Action::Fetch(request) => {
                    let hits = if request.page <= 2 { 4 } else { 0 };
                    search.fetched(result(hits, 8));
                },
                Action::Show(rendered) => rows += rendered.count,
                Action::Stop => break,
                other => panic!("a batch search neither prompts nor waits: {:?}", other),
            }
        }
        assert_eq!(rows, limit.min(8));
        assert_eq!(search.consumer().found().len(), limit.min(8));
    }
}

#[test]
fn interactive_search_fetches_two_pages_ahead_and_no_more() {
    let mut search = Search::new(options(None), true, 23);
    expect_fetch(&mut search, 1);
    search.fetched(result(23, 100));
    assert_eq!(expect_show(&mut search), Rendered { header: true, first: 0, count: 23, page: 1 });
    assert!(matches!(search.next_action(), Action::Prompt(100)));
    expect_fetch(&mut search, 2);
    assert!(matches!(search.next_action(), Action::Wait { page: true, line: true }));
    search.fetched(result(23, 100));
    assert_eq!(search.waiting(), 1);
    expect_fetch(&mut search, 3);
    search.fetched(result(23, 100));
    assert_eq!(search.waiting(), 2);
    assert!(matches!(search.next_action(), Action::Wait { page: false, line: true }));
    assert!(matches!(search.next_action(), Action::Wait { page: false, line: true }));
    assert_eq!(search.waiting(), 2);
    assert!(!search.fetching());
}

#[test]
fn interactive_search_shows_the_pages_in_their_order() {
    let mut search = Search::new(options(None), true, 2);
    expect_fetch(&mut search, 1);
    search.fetched(result(2, 6));
    assert_eq!(expect_show(&mut search).page, 1);
    assert!(matches!(search.next_action(), Action::Prompt(6)));
    expect_fetch(&mut search, 2);
    search.fetched(result(2, 6));
    expect_fetch(&mut search, 3);
    search.fetched(result(2, 6));
    assert_eq!(search.typed("\n"), Reply::More);
    assert_eq!(expect_show(&mut search), Rendered { header: true, first: 2, count: 2, page: 2 });
    assert!(matches!(search.next_action(), Action::Prompt(6)));
    expect_fetch(&mut search, 4);
    assert_eq!(search.typed(""), Reply::More);
    assert_eq!(expect_show(&mut search), Rendered { header: true, first: 4, count: 2, page: 3 });
    assert!(matches!(search.next_action(), Action::Prompt(6)));
    assert!(matches!(search.next_action(), Action::Wait { page: true, line: true }));
    search.fetched(result(0, 6));
    assert_eq!(search.typed(""), Reply::More);
    assert!(matches!(search.next_action(), Action::Stop));
    assert_eq!(search.consumer().found().len(), 6);
    assert_eq!(search.consumer().pages(), 3);
}

#[test]
fn line_that_is_no_number_is_answered_and_asked_again() {
    let mut search = Search::new(options(None), true, 23);
    expect_fetch(&mut search, 1);
    search.fetched(result(23, 100));
    expect_show(&mut search);
    assert!(matches!(search.next_action(), Action::Prompt(100)));
    expect_fetch(&mut search, 2);
    search.fetched(result(23, 100));
    let waiting = search.waiting();
    assert_eq!(
        search.typed("abc"),
        Reply::Invalid("abc".to_string(), NumberError::InvalidDigit)
    );
    assert_eq!(search.phase(), Phase::AwaitingInput);
    assert_eq!(search.waiting(), waiting);
    assert_eq!(search.consumer().found().len(), 23);
    assert!(matches!(search.next_action(), Action::Prompt(100)));
}

#[test]
fn selection_out_of_range_is_answered_and_asked_again() {
    let mut search = Search::new(options(None), true, 23);
    expect_fetch(&mut search, 1);
    search.fetched(result(23, 100));
    expect_show(&mut search);
    for line in ["0", "24", "1000000"] {
        assert!(matches!(search.next_action(), Action::Prompt(100)));
        assert_eq!(search.typed(line), Reply::NotFound);
        assert_eq!(search.phase(), Phase::AwaitingInput);
    }
    assert!(matches!(search.next_action(), Action::Prompt(100)));
}

#[test]
fn selection_ends_the_search_and_drops_the_pages_that_wait() {
    let mut search = Search::new(options(None), true, 23);
    expect_fetch(&mut search, 1);
    search.fetched(result(23, 100));
    expect_show(&mut search);
    assert!(matches!(search.next_action(), Action::Prompt(100)));
    expect_fetch(&mut search, 2);
    search.fetched(result(23, 100));
    expect_fetch(&mut search, 3);
    assert_eq!(search.typed("23"), Reply::Details("repo/22".to_string()));
    assert_eq!(search.phase(), Phase::Done);
    assert_eq!(search.waiting(), 0);
    assert!(search.fetching());
    search.fetched(result(23, 100));
    assert_eq!(search.waiting(), 0);
    assert!(!search.fetching());
    assert!(matches!(search.next_action(), Action::Stop));
}
