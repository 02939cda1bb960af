use hn_archive::archive::render_archive;
use hn_archive::crawl::{crawl_day, CrawlState, DayCrawler, FetchOutcome};
use hn_archive::rows::{Cell, Elem, Leaf, Page, Row};

fn athing_row(id: &str) -> Row {
    Row {
        class_attr: Some("athing".to_string()),
        id_attr: Some(id.to_string()),
        cells: vec![
            Cell {
                class_attr: Some("title".to_string()),
                elems: vec![Elem {
                    tag: "span".to_string(),
                    class_attr: Some("rank".to_string()),
                    title_attr: None,
                    href: None,
                    text: "1.".to_string(),
                    kids: vec![],
                }],
            },
            Cell {
                class_attr: Some("title".to_string()),
                elems: vec![Elem {
                    tag: "span".to_string(),
                    class_attr: Some("titleline".to_string()),
                    title_attr: None,
                    href: None,
                    text: String::new(),
                    kids: vec![Leaf {
                        tag: "a".to_string(),
                        class_attr: None,
                        title_attr: None,
                        href: Some("http://a".to_string()),
                        text: "Foo".to_string(),
                    }],
                }],
            },
        ],
    }
}

fn subline_row(user: &str) -> Row {
    Row {
        class_attr: None,
        id_attr: None,
        cells: vec![Cell {
            class_attr: Some("subtext".to_string()),
            elems: vec![Elem {
                tag: "span".to_string(),
                class_attr: Some("subline".to_string()),
                title_attr: None,
                href: None,
                text: String::new(),
                kids: vec![
                    Leaf {
                        tag: "span".to_string(),
                        class_attr: Some("score".to_string()),
                        title_attr: None,
                        href: None,
                        text: "10 points".to_string(),
                    },
                    Leaf {
                        tag: "a".to_string(),
                        class_attr: Some("hnuser".to_string()),
                        title_attr: None,
                        href: None,
                        text: user.to_string(),
                    },
                    Leaf {
                        tag: "span".to_string(),
                        class_attr: Some("age".to_string()),
                        title_attr: Some("2007-10-02T00:00:00".to_string()),
                        href: None,
                        text: "1 hour ago".to_string(),
                    },
                    Leaf {
                        tag: "a".to_string(),
                        class_attr: None,
                        title_attr: None,
                        href: Some("item?id=1".to_string()),
                        text: "5 comments".to_string(),
                    },
                ],
            }],
        }],
    }
}

fn page_with_posts(ids: &[&str]) -> Page {
    let mut rows = Vec::new();
    for id in ids {
        rows.push(athing_row(id));
        rows.push(subline_row("alice"));
    }
    Page { table: Some(rows) }
}

#[test]
fn a_failing_second_page_keeps_the_first_pages_posts() {
    let outcomes = vec![
        FetchOutcome::Fetched(page_with_posts(&["1", "2"])),
        FetchOutcome::TransportFailure,
    ];
    let r = crawl_day(&outcomes);
    assert_eq!(r.posts.len(), 2);
    assert_eq!(r.posts[0].id, "1");
    assert_eq!(r.posts[1].id, "2");
    assert_eq!(r.pages_fetched, 2);
    assert_eq!(r.state, CrawlState::Failed);
    let rendered = render_archive(&r.posts);
    assert!(rendered.contains("\"id\":\"1\""));
    assert!(rendered.contains("\"id\":\"2\""));
}

#[test]
fn an_absent_table_completes_the_day_with_an_empty_archive() {
    let outcomes = vec![FetchOutcome::Fetched(Page { table: None })];
    let r = crawl_day(&outcomes);
    assert_eq!(r.posts.len(), 0);
    assert_eq!(r.pages_fetched, 1);
    assert_eq!(r.state, CrawlState::Done);
    assert_eq!(render_archive(&r.posts), "[]");
}

#[test]
fn the_crawl_halts_one_fetch_after_the_nonempty_pages() {
    let outcomes = vec![
        FetchOutcome::Fetched(page_with_posts(&["1"])),
        FetchOutcome::Fetched(page_with_posts(&["2"])),
        FetchOutcome::Fetched(Page { table: Some(vec![]) }),
        FetchOutcome::Fetched(page_with_posts(&["9"])),
    ];
    let r = crawl_day(&outcomes);
    assert_eq!(r.pages_fetched, 3);
    assert_eq!(r.state, CrawlState::Done);
    assert_eq!(r.posts.len(), 2);
    assert_eq!(r.posts[0].id, "1");
    assert_eq!(r.posts[1].id, "2");
}

#[test]
fn pages_concatenate_in_fetch_order() {
    let outcomes = vec![
        FetchOutcome::Fetched(page_with_posts(&["1", "2"])),
        FetchOutcome::Fetched(page_with_posts(&["3"])),
        FetchOutcome::TransportFailure,
    ];
    let r = crawl_day(&outcomes);
    let ids: Vec<&str> = r.posts.iter().map(|p| p.id.as_str()).collect();
    assert_eq!(ids, vec!["1", "2", "3"]);
}

#[test]
fn outcomes_running_out_leave_the_machine_fetching() {
    let outcomes = vec![FetchOutcome::Fetched(page_with_posts(&["1"]))];
    let r = crawl_day(&outcomes);
    assert_eq!(r.pages_fetched, 1);
    assert_eq!(r.state, CrawlState::Fetching(1));
    assert_eq!(r.posts.len(), 1);
}

#[test]
fn the_step_machine_advances_page_by_page() {
    let mut c = DayCrawler::new();
    assert_eq!(c.state, CrawlState::Fetching(0));
    c.on_fetch(&FetchOutcome::Fetched(page_with_posts(&["1"])));
    assert_eq!(c.state, CrawlState::Fetching(1));
    assert_eq!(c.posts.len(), 1);
    c.on_fetch(&FetchOutcome::Fetched(Page { table: Some(vec![]) }));
    assert_eq!(c.state, CrawlState::Done);
    assert_eq!(c.posts.len(), 1);
}

#[test]
fn a_transport_failure_fails_the_machine_but_keeps_posts() {
    let mut c = DayCrawler::new();
    c.on_fetch(&FetchOutcome::Fetched(page_with_posts(&["1"])));
    c.on_fetch(&FetchOutcome::TransportFailure);
    assert_eq!(c.state, CrawlState::Failed);
    assert_eq!(c.posts.len(), 1);
}
