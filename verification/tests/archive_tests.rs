use hn_archive::archive::{archive_path, render_archive};
use hn_archive::assemble::Post;

fn post(id: &str, user: &str) -> Post {
    Post {
        id: id.to_string(),
        rank: "1.".to_string(),
        title_line: "Foo".to_string(),
        link: "http://a".to_string(),
        score: "10 points".to_string(),
        user: user.to_string(),
        date: "2007-10-02T00:00:00".to_string(),
        comments: "5 comments".to_string(),
    }
}

#[test]
fn one_post_renders_with_all_eight_fields() {
    let rendered = render_archive(&vec![post("1", "alice")]);
    assert_eq!(
        rendered,
        "[{\"id\":\"1\",\"rank\":\"1.\",\"title_line\":\"Foo\",\"link\":\"http://a\",\
         \"score\":\"10 points\",\"user\":\"alice\",\"date\":\"2007-10-02T00:00:00\",\
         \"comments\":\"5 comments\"}]"
    );
}

#[test]
fn no_posts_render_as_the_empty_array() {
    let rendered = render_archive(&vec![]);
    assert_eq!(rendered, "[]");
}

#[test]
fn two_posts_are_comma_separated_in_order() {
    let rendered = render_archive(&vec![post("1", "alice"), post("2", "bob")]);
    let first = rendered.find("\"id\":\"1\"").expect("the first post is present");
    let second = rendered.find("\"id\":\"2\"").expect("the second post is present");
    assert!(first < second);
    assert_eq!(rendered.matches("},{").count(), 1);
}

#[test]
fn rendering_twice_gives_byte_identical_content() {
    let posts = vec![post("1", "alice"), post("2", "bob")];
    let once = render_archive(&posts);
    let twice = render_archive(&posts);
    assert_eq!(once.into_bytes(), twice.into_bytes());
}

#[test]
fn quotes_backslashes_and_newlines_are_escaped() {
    let mut p = post("1", "alice");
    p.title_line = "a\"b\\c\nd".to_string();
    let rendered = render_archive(&vec![p]);
    assert!(rendered.contains("\"title_line\":\"a\\\"b\\\\c\\nd\""));
}

#[test]
fn control_characters_are_escaped_as_unicode() {
    let mut p = post("1", "alice");
    p.title_line = "a\u{0001}b".to_string();
    let rendered = render_archive(&vec![p]);
    assert!(rendered.contains("\"title_line\":\"a\\u0001b\""));
}

#[test]
fn tab_and_carriage_return_use_short_escapes() {
    let mut p = post("1", "alice");
    p.score = "x\ty\rz".to_string();
    let rendered = render_archive(&vec![p]);
    assert!(rendered.contains("\"score\":\"x\\ty\\rz\""));
}

#[test]
fn the_per_day_path_derives_from_the_day_string() {
    assert_eq!(archive_path(&"2007-10-01".to_string()), "./data/2007-10-01.json");
}
