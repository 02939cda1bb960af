use hn_archive::classify::{classify_row, RowType};
use hn_archive::rows::{Cell, Elem, Leaf, Row};

fn rank_cell(rank: &str) -> Cell {
    Cell {
        class_attr: Some("title".to_string()),
        elems: vec![Elem {
            tag: "span".to_string(),
            class_attr: Some("rank".to_string()),
            title_attr: None,
            href: None,
            text: rank.to_string(),
            kids: vec![],
        }],
    }
}

fn title_cell(title: &str, href: Option<&str>) -> Cell {
    Cell {
        class_attr: Some("title".to_string()),
        elems: vec![Elem {
            tag: "span".to_string(),
            class_attr: Some("titleline".to_string()),
            title_attr: None,
            href: None,
            text: String::new(),
            kids: vec![Leaf {
                tag: "a".to_string(),
                class_attr: None,
                title_attr: None,
                href: href.map(|h| h.to_string()),
                text: title.to_string(),
            }],
        }],
    }
}

fn athing_row(id: &str, rank: &str, title: &str, href: &str) -> Row {
    Row {
        class_attr: Some("athing".to_string()),
        id_attr: Some(id.to_string()),
        cells: vec![rank_cell(rank), title_cell(title, Some(href))],
    }
}

fn subline_row(score: &str, user: &str, age_title: &str, comments: &str) -> Row {
    Row {
        class_attr: None,
        id_attr: None,
        cells: vec![Cell {
            class_attr: Some("subtext".to_string()),
            elems: vec![Elem {
                tag: "span".to_string(),
                class_attr: Some("subline".to_string()),
                title_attr: None,
                href: None,
                text: String::new(),
                kids: vec![
                    Leaf {
                        tag: "span".to_string(),
                        class_attr: Some("score".to_string()),
                        title_attr: None,
                        href: None,
                        text: score.to_string(),
                    },
                    Leaf {
                        tag: "a".to_string(),
                        class_attr: Some("hnuser".to_string()),
                        title_attr: None,
                        href: Some("user?id=alice".to_string()),
                        text: user.to_string(),
                    },
                    Leaf {
                        tag: "span".to_string(),
                        class_attr: Some("age".to_string()),
                        title_attr: Some(age_title.to_string()),
                        href: None,
                        text: "1 hour ago".to_string(),
                    },
                    Leaf {
                        tag: "a".to_string(),
                        class_attr: None,
                        title_attr: None,
                        href: Some("hide?id=1".to_string()),
                        text: "hide".to_string(),
                    },
                    Leaf {
                        tag: "a".to_string(),
                        class_attr: None,
                        title_attr: None,
                        href: Some("item?id=1".to_string()),
                        text: comments.to_string(),
                    },
                ],
            }],
        }],
    }
}

#[test]
fn spacer_row_classifies_as_spacer_whatever_it_holds() {
    let row = Row {
        class_attr: Some("spacer".to_string()),
        id_attr: Some("99".to_string()),
        cells: vec![rank_cell("3."), title_cell("junk", Some("http://x"))],
    };
    assert!(matches!(classify_row(&row), RowType::Spacer));
}

#[test]
fn bare_spacer_row_classifies_as_spacer() {
    let row = Row { class_attr: Some("spacer".to_string()), id_attr: None, cells: vec![] };
    assert!(matches!(classify_row(&row), RowType::Spacer));
}

#[test]
fn complete_athing_row_classifies_as_thing() {
    let row = athing_row("1", "1.", "Foo", "http://a");
    match classify_row(&row) {
        RowType::Thing(t) => {
            assert_eq!(t.id, "1");
            assert_eq!(t.rank, "1.");
            assert_eq!(t.title_line, "Foo");
            assert_eq!(t.link, "http://a");
        }
        _ => panic!("expected a Thing classification"),
    }
}

#[test]
fn athing_without_id_attribute_is_unrecognized() {
    let mut row = athing_row("1", "1.", "Foo", "http://a");
    row.id_attr = None;
    assert!(matches!(classify_row(&row), RowType::Unrecognized));
}

#[test]
fn athing_without_anchor_is_unrecognized() {
    let row = Row {
        class_attr: Some("athing".to_string()),
        id_attr: Some("1".to_string()),
        cells: vec![rank_cell("1.")],
    };
    assert!(matches!(classify_row(&row), RowType::Unrecognized));
}

#[test]
fn athing_whose_anchor_lacks_href_is_unrecognized() {
    let row = Row {
        class_attr: Some("athing".to_string()),
        id_attr: Some("1".to_string()),
        cells: vec![rank_cell("1."), title_cell("Foo", None)],
    };
    assert!(matches!(classify_row(&row), RowType::Unrecognized));
}

#[test]
fn athing_without_rank_element_is_unrecognized() {
    let row = Row {
        class_attr: Some("athing".to_string()),
        id_attr: Some("1".to_string()),
        cells: vec![title_cell("Foo", Some("http://a"))],
    };
    assert!(matches!(classify_row(&row), RowType::Unrecognized));
}

#[test]
fn subline_row_classifies_as_info_with_date_from_title_attribute() {
    let row = subline_row("10 points", "alice", "2007-10-02T00:00:00", "5 comments");
    match classify_row(&row) {
        RowType::Info(i) => {
            assert_eq!(i.score, "10 points");
            assert_eq!(i.user, "alice");
            assert_eq!(i.date, "2007-10-02T00:00:00");
            assert_eq!(i.comments, "5 comments");
        }
        _ => panic!("expected an Info classification"),
    }
}

#[test]
fn subline_row_skips_anchors_without_comments_text() {
    let row = subline_row("3 points", "bob", "2007-10-01T12:00:00", "12 comments");
    match classify_row(&row) {
        RowType::Info(i) => assert_eq!(i.comments, "12 comments"),
        _ => panic!("expected an Info classification"),
    }
}

#[test]
fn row_without_subline_is_unrecognized() {
    let row = Row {
        class_attr: Some("morespace".to_string()),
        id_attr: None,
        cells: vec![Cell { class_attr: None, elems: vec![] }],
    };
    assert!(matches!(classify_row(&row), RowType::Unrecognized));
}

#[test]
fn subline_missing_score_is_unrecognized() {
    let mut row = subline_row("10 points", "alice", "2007-10-02T00:00:00", "5 comments");
    row.cells[0].elems[0].kids.remove(0);
    assert!(matches!(classify_row(&row), RowType::Unrecognized));
}

#[test]
fn subline_age_without_title_attribute_is_unrecognized() {
    let mut row = subline_row("10 points", "alice", "2007-10-02T00:00:00", "5 comments");
    row.cells[0].elems[0].kids[2].title_attr = None;
    assert!(matches!(classify_row(&row), RowType::Unrecognized));
}

#[test]
fn subline_without_comment_anchor_is_unrecognized() {
    let row = subline_row("10 points", "alice", "2007-10-02T00:00:00", "discuss");
    assert!(matches!(classify_row(&row), RowType::Unrecognized));
}
