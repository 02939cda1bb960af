//! The structural model of one listing page's markup, and the fail-soft
//! lookups the classifier runs over it.
//!
//! A listing table row is a small fixed-depth tree of plain values: the row's
//! own attributes, its cells, the elements inside each cell, and the leaf
//! elements inside those. Every lookup returns an absence signal instead of
//! failing, so a malformed row degrades instead of stopping a page.

use vstd::prelude::*;
use crate::text::{contains_sub, contains_substring};

verus! {

/// A leaf element of a row's markup: an anchor, a score span, an age span,
/// and the like. `text` keeps the raw inner markup as-is.
#[derive(Debug, Clone)]
pub struct Leaf {
    /// The element's tag name (an anchor is "a").
    pub tag: String,
    /// The element's class attribute, if present.
    pub class_attr: Option<String>,
    /// The element's title attribute, if present.
    pub title_attr: Option<String>,
    /// The element's link attribute, if present.
    pub href: Option<String>,
    /// The element's inner markup, kept raw.
    pub text: String,
}

/// An element directly inside a cell (a span such as the rank marker or the
/// subline), holding its own leaf elements.
#[derive(Debug, Clone)]
pub struct Elem {
    /// The element's tag name.
    pub tag: String,
    /// The element's class attribute, if present.
    pub class_attr: Option<String>,
    /// The element's title attribute, if present.
    pub title_attr: Option<String>,
    /// The element's link attribute, if present.
    pub href: Option<String>,
    /// The element's inner markup, kept raw.
    pub text: String,
    /// The element's children, in document order.
    pub kids: Vec<Leaf>,
}

/// One cell of a table row.
#[derive(Debug, Clone)]
pub struct Cell {
    /// The cell's class attribute, if present.
    pub class_attr: Option<String>,
    /// The cell's elements, in document order.
    pub elems: Vec<Elem>,
}

/// One row of the listing table: its own attributes and its cells.
#[derive(Debug, Clone)]
pub struct Row {
    /// The row's class attribute, if present.
    pub class_attr: Option<String>,
    /// The identifying attribute on the row itself, if present.
    pub id_attr: Option<String>,
    /// The row's cells, in document order.
    pub cells: Vec<Cell>,
}

/// One fetched listing page: the rows of its listing table, or `None` when
/// the table itself cannot be located in the page.
#[derive(Debug, Clone)]
pub struct Page {
    /// The listing table's rows in document order, or `None` when the table
    /// is structurally absent.
    pub table: Option<Vec<Row>>,
}

/// The text of an optional attribute; an absent attribute reads as empty.
pub open spec fn opt_text(o: Option<String>) -> Seq<char> {
    match o {
        Some(s) => s@,
        None => Seq::empty(),
    }
}

/// Whether an optional class attribute reads exactly as `name`.
pub fn opt_class_is(attr: &Option<String>, name: &String) -> (b: bool)
    ensures
        b == (opt_text(*attr) == name@),
{
    match attr {
        Some(s) => *s == *name,
        None => {
            let b = name.as_str().unicode_len() == 0;
            proof {
                if name@.len() == 0 {
                    assert(Seq::<char>::empty() =~= name@);
                }
            }
            b
        },
    }
}

/// Whether a tag name reads exactly as `name`.
fn tag_is(tag: &String, name: &String) -> (b: bool)
    ensures
        b == (tag@ == name@),
{
    *tag == *name
}

/// The first leaf in `kids` whose class attribute is `name`.
pub open spec fn first_leaf_in_kids(kids: Seq<Leaf>, name: Seq<char>) -> Option<Leaf>
    decreases kids.len(),
{
    if kids.len() <= 0 {
        None
    } else if opt_text(kids[0].class_attr) == name {
        Some(kids[0])
    } else {
        first_leaf_in_kids(kids.skip(1), name)
    }
}

/// Find the first leaf with class `name`, scanning from position `i`.
pub fn find_leaf_in_kids<'a>(kids: &'a Vec<Leaf>, i: usize, name: &String) -> (r: Option<&'a Leaf>)
    requires
        i <= kids.len(),
    ensures
        match r {
            Some(l) => first_leaf_in_kids(kids@.skip(i as int), name@) == Some(*l),
            None => first_leaf_in_kids(kids@.skip(i as int), name@) is None,
        },
    decreases kids.len() - i,
{
    if i == kids.len() {
        None
    } else if opt_class_is(&kids[i].class_attr, name) {
        proof {
            assert(kids@.skip(i as int)[0] == kids@[i as int]);
        }
        Some(&kids[i])
    } else {
        let r = find_leaf_in_kids(kids, i + 1, name);
        proof {
            assert(kids@.skip(i as int)[0] == kids@[i as int]);
            assert(kids@.skip(i as int).skip(1) =~= kids@.skip(i as int + 1));
        }
        r
    }
}

/// The first anchor leaf in `kids` whose text contains "comments".
pub open spec fn first_comment_anchor(kids: Seq<Leaf>) -> Option<Leaf>
    decreases kids.len(),
{
    if kids.len() <= 0 {
        None
    } else if kids[0].tag@ == "a"@ && contains_sub(kids[0].text@, "comments"@) {
        Some(kids[0])
    } else {
        first_comment_anchor(kids.skip(1))
    }
}

/// Find the first anchor leaf whose text contains "comments", scanning from
/// position `i`.
pub fn find_comment_anchor<'a>(kids: &'a Vec<Leaf>, i: usize) -> (r: Option<&'a Leaf>)
    requires
        i <= kids.len(),
    ensures
        match r {
            Some(l) => first_comment_anchor(kids@.skip(i as int)) == Some(*l),
            None => first_comment_anchor(kids@.skip(i as int)) is None,
        },
    decreases kids.len() - i,
{
    if i == kids.len() {
        None
    } else {
        let anchor_tag = String::from_str("a");
        let comments = String::from_str("comments");
        let hit = tag_is(&kids[i].tag, &anchor_tag)
            && contains_substring(kids[i].text.as_str(), comments.as_str());
        proof {
            assert(kids@.skip(i as int)[0] == kids@[i as int]);
        }
        if hit {
            Some(&kids[i])
        } else {
            let r = find_comment_anchor(kids, i + 1);
            proof {
                assert(kids@.skip(i as int).skip(1) =~= kids@.skip(i as int + 1));
            }
            r
        }
    }
}

/// The first element (scanning cells, then each cell's elements, in document
/// order) whose class attribute is `name`.
pub open spec fn first_elem_in_list(elems: Seq<Elem>, name: Seq<char>) -> Option<Elem>
    decreases elems.len(),
{
    if elems.len() <= 0 {
        None
    } else if opt_text(elems[0].class_attr) == name {
        Some(elems[0])
    } else {
        first_elem_in_list(elems.skip(1), name)
    }
}

/// The first element with class `name` across all cells, in document order.
pub open spec fn first_elem_in_cells(cells: Seq<Cell>, name: Seq<char>) -> Option<Elem>
    decreases cells.len(),
{
    if cells.len() <= 0 {
        None
    } else {
        match first_elem_in_list(cells[0].elems@, name) {
            Some(e) => Some(e),
            None => first_elem_in_cells(cells.skip(1), name),
        }
    }
}

/// Find the first element with class `name` in `elems`, scanning from `i`.
fn find_elem_in_list<'a>(elems: &'a Vec<Elem>, i: usize, name: &String) -> (r: Option<&'a Elem>)
    requires
        i <= elems.len(),
    ensures
        match r {
            Some(e) => first_elem_in_list(elems@.skip(i as int), name@) == Some(*e),
            None => first_elem_in_list(elems@.skip(i as int), name@) is None,
        },
    decreases elems.len() - i,
{
    if i == elems.len() {
        None
    } else if opt_class_is(&elems[i].class_attr, name) {
        proof {
            assert(elems@.skip(i as int)[0] == elems@[i as int]);
        }
        Some(&elems[i])
    } else {
        let r = find_elem_in_list(elems, i + 1, name);
        proof {
            assert(elems@.skip(i as int)[0] == elems@[i as int]);
            assert(elems@.skip(i as int).skip(1) =~= elems@.skip(i as int + 1));
        }
        r
    }
}

/// Find the first element with class `name` across the cells, scanning cells
/// from position `i`.
pub fn find_elem_in_cells<'a>(cells: &'a Vec<Cell>, i: usize, name: &String) -> (r: Option<
    &'a Elem,
>)
    requires
        i <= cells.len(),
    ensures
        match r {
            Some(e) => first_elem_in_cells(cells@.skip(i as int), name@) == Some(*e),
            None => first_elem_in_cells(cells@.skip(i as int), name@) is None,
        },
    decreases cells.len() - i,
{
    if i == cells.len() {
        None
    } else {
        proof {
            assert(cells@.skip(i as int)[0] == cells@[i as int]);
        }
        match find_elem_in_list(&cells[i].elems, 0, name) {
            Some(e) => {
                proof {
                    assert(cells@[i as int].elems@.skip(0) =~= cells@[i as int].elems@);
                }
                Some(e)
            },
            None => {
                proof {
                    assert(cells@[i as int].elems@.skip(0) =~= cells@[i as int].elems@);
                }
                let r = find_elem_in_cells(cells, i + 1, name);
                proof {
                    assert(cells@.skip(i as int).skip(1) =~= cells@.skip(i as int + 1));
                }
                r
            },
        }
    }
}

/// The first anchor leaf in `kids`, by tag.
pub open spec fn first_anchor_in_kids(kids: Seq<Leaf>) -> Option<Leaf>
    decreases kids.len(),
{
    if kids.len() <= 0 {
        None
    } else if kids[0].tag@ == "a"@ {
        Some(kids[0])
    } else {
        first_anchor_in_kids(kids.skip(1))
    }
}

/// The title anchor of a row: the first anchor leaf reachable along the path
/// cell, then span element, then anchor, in document order.
pub open spec fn title_anchor_in_elems(elems: Seq<Elem>) -> Option<Leaf>
    decreases elems.len(),
{
    if elems.len() <= 0 {
        None
    } else if elems[0].tag@ == "span"@ {
        match first_anchor_in_kids(elems[0].kids@) {
            Some(a) => Some(a),
            None => title_anchor_in_elems(elems.skip(1)),
        }
    } else {
        title_anchor_in_elems(elems.skip(1))
    }
}

/// The title anchor across all cells, in document order.
pub open spec fn title_anchor_in_cells(cells: Seq<Cell>) -> Option<Leaf>
    decreases cells.len(),
{
    if cells.len() <= 0 {
        None
    } else {
        match title_anchor_in_elems(cells[0].elems@) {
            Some(a) => Some(a),
            None => title_anchor_in_cells(cells.skip(1)),
        }
    }
}

/// Find the first anchor leaf in `kids`, scanning from position `i`.
fn find_anchor_in_kids<'a>(kids: &'a Vec<Leaf>, i: usize) -> (r: Option<&'a Leaf>)
    requires
        i <= kids.len(),
    ensures
        match r {
            Some(l) => first_anchor_in_kids(kids@.skip(i as int)) == Some(*l),
            None => first_anchor_in_kids(kids@.skip(i as int)) is None,
        },
    decreases kids.len() - i,
{
    if i == kids.len() {
        None
    } else {
        let anchor_tag = String::from_str("a");
        proof {
            assert(kids@.skip(i as int)[0] == kids@[i as int]);
        }
        if tag_is(&kids[i].tag, &anchor_tag) {
            Some(&kids[i])
        } else {
            let r = find_anchor_in_kids(kids, i + 1);
            proof {
                assert(kids@.skip(i as int).skip(1) =~= kids@.skip(i as int + 1));
            }
            r
        }
    }
}

/// Find the title anchor in `elems`, scanning from position `i`.
fn find_title_anchor_in_elems<'a>(elems: &'a Vec<Elem>, i: usize) -> (r: Option<&'a Leaf>)
    requires
        i <= elems.len(),
    ensures
        match r {
            Some(l) => title_anchor_in_elems(elems@.skip(i as int)) == Some(*l),
            None => title_anchor_in_elems(elems@.skip(i as int)) is None,
        },
    decreases elems.len() - i,
{
    if i == elems.len() {
        None
    } else {
        let span_tag = String::from_str("span");
        proof {
            assert(elems@.skip(i as int)[0] == elems@[i as int]);
            assert(elems@.skip(i as int).skip(1) =~= elems@.skip(i as int + 1));
        }
        if tag_is(&elems[i].tag, &span_tag) {
            proof {
                assert(elems@[i as int].kids@.skip(0) =~= elems@[i as int].kids@);
            }
            match find_anchor_in_kids(&elems[i].kids, 0) {
                Some(a) => Some(a),
                None => find_title_anchor_in_elems(elems, i + 1),
            }
        } else {
            find_title_anchor_in_elems(elems, i + 1)
        }
    }
}

/// Find the title anchor across the cells, scanning cells from position `i`.
pub fn find_title_anchor_in_cells<'a>(cells: &'a Vec<Cell>, i: usize) -> (r: Option<&'a Leaf>)
    requires
        i <= cells.len(),
    ensures
        match r {
            Some(l) => title_anchor_in_cells(cells@.skip(i as int)) == Some(*l),
            None => title_anchor_in_cells(cells@.skip(i as int)) is None,
        },
    decreases cells.len() - i,
{
    if i == cells.len() {
        None
    } else {
        proof {
            assert(cells@.skip(i as int)[0] == cells@[i as int]);
            assert(cells@.skip(i as int).skip(1) =~= cells@.skip(i as int + 1));
            assert(cells@[i as int].elems@.skip(0) =~= cells@[i as int].elems@);
        }
        match find_title_anchor_in_elems(&cells[i].elems, 0) {
            Some(a) => Some(a),
            None => find_title_anchor_in_cells(cells, i + 1),
        }
    }
}

} // verus!
