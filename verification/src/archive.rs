//! The day archive's persisted form: one JSON array of post objects per
//! crawled day, rendered here character by character so that the exact bytes
//! are pinned down. The host program only writes the rendered text to the
//! per-day path, fully overwriting what was there.

use vstd::prelude::*;
use crate::assemble::{Post, PostModel, post_models};
use crate::text::string_from_chars;

verus! {

/// The character of one hexadecimal digit.
pub open spec fn hex_char(n: int) -> char {
    if n == 0 {
        '0'
    } else if n == 1 {
        '1'
    } else if n == 2 {
        '2'
    } else if n == 3 {
        '3'
    } else if n == 4 {
        '4'
    } else if n == 5 {
        '5'
    } else if n == 6 {
        '6'
    } else if n == 7 {
        '7'
    } else if n == 8 {
        '8'
    } else if n == 9 {
        '9'
    } else if n == 10 {
        'a'
    } else if n == 11 {
        'b'
    } else if n == 12 {
        'c'
    } else if n == 13 {
        'd'
    } else if n == 14 {
        'e'
    } else {
        'f'
    }
}

/// The JSON escape of one character inside a string literal.
pub open spec fn escaped_char(c: char) -> Seq<char> {
    if c == '"' {
        seq!['\\', '"']
    } else if c == '\\' {
        seq!['\\', '\\']
    } else if c == '\n' {
        seq!['\\', 'n']
    } else if c == '\r' {
        seq!['\\', 'r']
    } else if c == '\t' {
        seq!['\\', 't']
    } else if (c as int) < 0x20 {
        seq!['\\', 'u', '0', '0', hex_char(c as int / 16), hex_char(c as int % 16)]
    } else {
        seq![c]
    }
}

/// The JSON escape of a whole string's characters.
pub open spec fn escaped(s: Seq<char>) -> Seq<char>
    decreases s.len(),
{
    if s.len() == 0 {
        Seq::empty()
    } else {
        escaped(s.drop_last()) + escaped_char(s.last())
    }
}

/// A JSON string literal: the escaped text between double quotes.
pub open spec fn quoted(s: Seq<char>) -> Seq<char> {
    seq!['"'] + escaped(s) + seq!['"']
}

/// One `"name":"value"` member of a post object.
pub open spec fn member(name: Seq<char>, value: Seq<char>) -> Seq<char> {
    quoted(name) + seq![':'] + quoted(value)
}

/// The JSON object of one post, with its eight fields in a fixed order.
pub open spec fn post_json(p: PostModel) -> Seq<char> {
    seq!['{'] + member("id"@, p.id) + seq![','] + member("rank"@, p.rank) + seq![','] + member(
        "title_line"@,
        p.title_line,
    ) + seq![','] + member("link"@, p.link) + seq![','] + member("score"@, p.score) + seq![',']
        + member("user"@, p.user) + seq![','] + member("date"@, p.date) + seq![','] + member(
        "comments"@,
        p.comments,
    ) + seq!['}']
}

/// The comma-separated object list of a post sequence.
pub open spec fn posts_body(ps: Seq<PostModel>) -> Seq<char>
    decreases ps.len(),
{
    if ps.len() == 0 {
        Seq::empty()
    } else if ps.len() == 1 {
        post_json(ps[0])
    } else {
        posts_body(ps.drop_last()) + seq![','] + post_json(ps.last())
    }
}

/// The complete day archive: a JSON array of post objects.
pub open spec fn archive_json(ps: Seq<PostModel>) -> Seq<char> {
    seq!['['] + posts_body(ps) + seq![']']
}

/// The character of one hexadecimal digit.
fn hex_digit(n: u32) -> (c: char)
    requires
        n < 16,
    ensures
        c == hex_char(n as int),
{
    if n == 0 {
        '0'
    } else if n == 1 {
        '1'
    } else if n == 2 {
        '2'
    } else if n == 3 {
        '3'
    } else if n == 4 {
        '4'
    } else if n == 5 {
        '5'
    } else if n == 6 {
        '6'
    } else if n == 7 {
        '7'
    } else if n == 8 {
        '8'
    } else if n == 9 {
        '9'
    } else if n == 10 {
        'a'
    } else if n == 11 {
        'b'
    } else if n == 12 {
        'c'
    } else if n == 13 {
        'd'
    } else if n == 14 {
        'e'
    } else {
        'f'
    }
}

/// Append the JSON escape of one character.
fn push_escaped_char(out: &mut Vec<char>, c: char)
    ensures
        final(out)@ == old(out)@ + escaped_char(c),
{
    if c == '"' {
        out.push('\\');
        out.push('"');
    } else if c == '\\' {
        out.push('\\');
        out.push('\\');
    } else if c == '\n' {
        out.push('\\');
        out.push('n');
    } else if c == '\r' {
        out.push('\\');
        out.push('r');
    } else if c == '\t' {
        out.push('\\');
        out.push('t');
    } else if (c as u32) < 0x20 {
        out.push('\\');
        out.push('u');
        out.push('0');
        out.push('0');
        out.push(hex_digit((c as u32) / 16));
        out.push(hex_digit((c as u32) % 16));
    } else {
        out.push(c);
    }
    proof {
        assert(final(out)@ =~= old(out)@ + escaped_char(c));
    }
}

/// Append the JSON escape of a whole string.
fn push_escaped(out: &mut Vec<char>, s: &String)
    ensures
        final(out)@ == old(out)@ + escaped(s@),
{
    let n = s.as_str().unicode_len();
    let mut i: usize = 0;
    proof {
        assert(escaped(s@.take(0)) =~= Seq::<char>::empty());
        assert(out@ + escaped(s@.take(0)) =~= out@);
    }
    while i < n
        invariant
            i <= n,
            n == s@.len(),
            out@ == old(out)@ + escaped(s@.take(i as int)),
        decreases n - i,
    {
        let c = s.as_str().get_char(i);
        push_escaped_char(out, c);
        proof {
            assert(s@.take(i as int + 1).drop_last() =~= s@.take(i as int));
            assert(s@.take(i as int + 1).last() == s@[i as int]);
            assert((old(out)@ + escaped(s@.take(i as int))) + escaped_char(s@[i as int]) =~= old(
                out,
            )@ + escaped(s@.take(i as int + 1)));
        }
        i = i + 1;
    }
    proof {
        assert(s@.take(n as int) =~= s@);
    }
}

/// Append one JSON string literal.
fn push_quoted(out: &mut Vec<char>, s: &String)
    ensures
        final(out)@ == old(out)@ + quoted(s@),
{
    out.push('"');
    push_escaped(out, s);
    out.push('"');
    proof {
        assert(final(out)@ =~= old(out)@ + quoted(s@));
    }
}

/// Append one `"name":"value"` member.
fn push_member(out: &mut Vec<char>, name: &String, value: &String)
    ensures
        final(out)@ == old(out)@ + member(name@, value@),
{
    push_quoted(out, name);
    out.push(':');
    push_quoted(out, value);
    proof {
        assert(final(out)@ =~= old(out)@ + member(name@, value@));
    }
}

/// Append the JSON object of one post.
fn push_post(out: &mut Vec<char>, p: &Post)
    ensures
        final(out)@ == old(out)@ + post_json(p@),
{
    out.push('{');
    push_member(out, &String::from_str("id"), &p.id);
    out.push(',');
    push_member(out, &String::from_str("rank"), &p.rank);
    out.push(',');
    push_member(out, &String::from_str("title_line"), &p.title_line);
    out.push(',');
    push_member(out, &String::from_str("link"), &p.link);
    out.push(',');
    push_member(out, &String::from_str("score"), &p.score);
    out.push(',');
    push_member(out, &String::from_str("user"), &p.user);
    out.push(',');
    push_member(out, &String::from_str("date"), &p.date);
    out.push(',');
    push_member(out, &String::from_str("comments"), &p.comments);
    out.push('}');
    proof {
        assert(final(out)@ =~= old(out)@ + post_json(p@));
    }
}

/// Render one day's accumulated posts as the archive's JSON array. The
/// rendering is a function of the post values alone.
pub fn render_archive(posts: &Vec<Post>) -> (r: String)
    ensures
        r@ == archive_json(post_models(posts@)),
{
    let ghost models = post_models(posts@);
    let mut out: Vec<char> = Vec::new();
    out.push('[');
    let mut i: usize = 0;
    proof {
        assert(posts_body(models.take(0)) =~= Seq::<char>::empty());
        assert(out@ =~= seq!['['] + posts_body(models.take(0)));
    }
    while i < posts.len()
        invariant
            i <= posts@.len(),
            models == post_models(posts@),
            out@ == seq!['['] + posts_body(models.take(i as int)),
        decreases posts@.len() - i,
    {
        if i > 0 {
            out.push(',');
        }
        push_post(&mut out, &posts[i]);
        proof {
            assert(models.take(i as int + 1).drop_last() =~= models.take(i as int));
            assert(models.take(i as int + 1).last() == models[i as int]);
            if i == 0 {
                assert(out@ =~= seq!['['] + posts_body(models.take(1)));
            } else {
                assert((seq!['['] + posts_body(models.take(i as int))) + seq![','] + post_json(
                    models[i as int],
                ) =~= seq!['['] + posts_body(models.take(i as int + 1)));
            }
        }
        i = i + 1;
    }
    out.push(']');
    proof {
        assert(models.take(posts@.len() as int) =~= models);
        assert(out@ =~= archive_json(models));
    }
    string_from_chars(&out)
}

/// The per-day storage path derived from the day string.
pub fn archive_path(day: &String) -> (r: String)
    ensures
        r@ == "./data/"@ + day@ + ".json"@,
{
    let mut p = String::from_str("./data/");
    p.append(day.as_str());
    p.append(".json");
    p
}

/// Law: the rendered archive depends on the post values alone, so archiving
/// the same day twice with the same post sequence writes byte-identical
/// content (the file is fully overwritten, never appended).
pub proof fn lemma_archive_deterministic(a: Seq<PostModel>, b: Seq<PostModel>)
    requires
        a == b,
    ensures
        archive_json(a) == archive_json(b),
{
}

} // verus!
