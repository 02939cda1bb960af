//! Row classification: one listing-table row resolves once into a tagged
//! variant — a listing entry (`Thing`), its follow-up details (`Info`), a
//! decorative spacer, the end-of-page control, or `Unrecognized`.
//!
//! Classification is structural and fail-soft: a row that cannot be fully
//! decoded never raises an error, it degrades to `Unrecognized`.

use vstd::prelude::*;
use crate::rows::{
    Row, first_elem_in_cells, first_leaf_in_kids, first_comment_anchor, title_anchor_in_cells,
    opt_text, find_elem_in_cells, find_title_anchor_in_cells,
};

verus! {

/// A listing entry's rank/title/link row, with each field carried as opaque
/// text from the source markup.
#[derive(Debug, Clone)]
pub struct Thing {
    /// The forum's opaque item identifier, kept as text.
    pub id: String,
    /// The raw rank text (may hold punctuation such as "1.").
    pub rank: String,
    /// The raw title markup of the entry.
    pub title_line: String,
    /// The entry's link attribute.
    pub link: String,
}

/// The abstract value of a [`Thing`]: its fields as character sequences.
pub struct ThingModel {
    pub id: Seq<char>,
    pub rank: Seq<char>,
    pub title_line: Seq<char>,
    pub link: Seq<char>,
}

impl View for Thing {
    type V = ThingModel;

    open spec fn view(&self) -> ThingModel {
        ThingModel { id: self.id@, rank: self.rank@, title_line: self.title_line@, link: self.link@ }
    }
}

/// A listing entry's score/author/age/comment-count row.
#[derive(Debug, Clone)]
pub struct Info {
    /// The raw score text.
    pub score: String,
    /// The author's username text.
    pub user: String,
    /// The absolute timestamp taken from the age element's title attribute.
    pub date: String,
    /// The raw text of the comments anchor.
    pub comments: String,
}

/// The abstract value of an [`Info`]: its fields as character sequences.
pub struct InfoModel {
    pub score: Seq<char>,
    pub user: Seq<char>,
    pub date: Seq<char>,
    pub comments: Seq<char>,
}

impl View for Info {
    type V = InfoModel;

    open spec fn view(&self) -> InfoModel {
        InfoModel { score: self.score@, user: self.user@, date: self.date@, comments: self.comments@ }
    }
}

/// The classification of one table row.
#[derive(Debug, Clone)]
pub enum RowType {
    /// A listing entry's rank/title/link row.
    Thing(Thing),
    /// The score/author/age/comment-count row following a listing entry.
    Info(Info),
    /// A decorative spacer row.
    Spacer,
    /// The end-of-page control row.
    More,
    /// Any row that is none of the above; dropped silently, never an error.
    Unrecognized,
}

/// The abstract value of a [`RowType`].
pub enum RowTypeModel {
    Thing(ThingModel),
    Info(InfoModel),
    Spacer,
    More,
    Unrecognized,
}

impl View for RowType {
    type V = RowTypeModel;

    open spec fn view(&self) -> RowTypeModel {
        match self {
            RowType::Thing(t) => RowTypeModel::Thing(t@),
            RowType::Info(i) => RowTypeModel::Info(i@),
            RowType::Spacer => RowTypeModel::Spacer,
            RowType::More => RowTypeModel::More,
            RowType::Unrecognized => RowTypeModel::Unrecognized,
        }
    }
}

/// The row's class attribute text; an absent attribute reads as empty.
pub open spec fn row_class(row: Row) -> Seq<char> {
    opt_text(row.class_attr)
}

/// The listing entry a row encodes, when the row carries all of: an
/// identifying attribute, a title anchor with a link attribute, and a rank
/// element.
pub open spec fn thing_of_row(row: Row) -> Option<ThingModel> {
    match row.id_attr {
        Some(id) => match title_anchor_in_cells(row.cells@) {
            Some(a) => match a.href {
                Some(link) => match first_elem_in_cells(row.cells@, "rank"@) {
                    Some(r) => Some(
                        ThingModel { id: id@, rank: r.text@, title_line: a.text@, link: link@ },
                    ),
                    None => None,
                },
                None => None,
            },
            None => None,
        },
        None => None,
    }
}

/// The entry details a row encodes, when the row carries a subline element
/// whose score, user and age elements are all present (the age element's
/// title attribute being the date) together with a comments anchor.
pub open spec fn info_of_row(row: Row) -> Option<InfoModel> {
    match first_elem_in_cells(row.cells@, "subline"@) {
        Some(sub) => match first_leaf_in_kids(sub.kids@, "score"@) {
            Some(score) => match first_leaf_in_kids(sub.kids@, "hnuser"@) {
                Some(user) => match first_leaf_in_kids(sub.kids@, "age"@) {
                    Some(age) => match age.title_attr {
                        Some(date) => match first_comment_anchor(sub.kids@) {
                            Some(ca) => Some(
                                InfoModel {
                                    score: score.text@,
                                    user: user.text@,
                                    date: date@,
                                    comments: ca.text@,
                                },
                            ),
                            None => None,
                        },
                        None => None,
                    },
                    None => None,
                },
                None => None,
            },
            None => None,
        },
        None => None,
    }
}

/// What one row classifies as: "spacer" rows are spacers; "athing" rows are
/// listing entries when fully decodable; any other row is entry details when
/// its subline fully decodes; everything else is `Unrecognized`.
pub open spec fn classify_spec(row: Row) -> RowTypeModel {
    if row_class(row) == "spacer"@ {
        RowTypeModel::Spacer
    } else if row_class(row) == "athing"@ {
        match thing_of_row(row) {
            Some(t) => RowTypeModel::Thing(t),
            None => RowTypeModel::Unrecognized,
        }
    } else {
        match info_of_row(row) {
            Some(i) => RowTypeModel::Info(i),
            None => RowTypeModel::Unrecognized,
        }
    }
}

/// Attempt Thing extraction from an "athing" row.
fn extract_thing(row: &Row) -> (r: Option<Thing>)
    ensures
        match r {
            Some(t) => thing_of_row(*row) == Some(t@),
            None => thing_of_row(*row) is None,
        },
{
    proof {
        assert(row.cells@.skip(0) =~= row.cells@);
    }
    let id = match &row.id_attr {
        Some(s) => s.clone(),
        None => { return None },
    };
    let a = match find_title_anchor_in_cells(&row.cells, 0) {
        Some(a) => a,
        None => { return None },
    };
    let link = match &a.href {
        Some(h) => h.clone(),
        None => { return None },
    };
    let rank_class = String::from_str("rank");
    let rank_elem = match find_elem_in_cells(&row.cells, 0, &rank_class) {
        Some(e) => e,
        None => { return None },
    };
    Some(
        Thing {
            id,
            rank: rank_elem.text.clone(),
            title_line: a.text.clone(),
            link,
        },
    )
}

/// Attempt Info extraction from a row's subline element.
fn extract_info(row: &Row) -> (r: Option<Info>)
    ensures
        match r {
            Some(i) => info_of_row(*row) == Some(i@),
            None => info_of_row(*row) is None,
        },
{
    proof {
        assert(row.cells@.skip(0) =~= row.cells@);
    }
    let subline_class = String::from_str("subline");
    let sub = match find_elem_in_cells(&row.cells, 0, &subline_class) {
        Some(e) => e,
        None => { return None },
    };
    proof {
        assert(sub.kids@.skip(0) =~= sub.kids@);
    }
    let score_class = String::from_str("score");
    let score = match crate::rows::find_leaf_in_kids(&sub.kids, 0, &score_class) {
        Some(l) => l,
        None => { return None },
    };
    let user_class = String::from_str("hnuser");
    let user = match crate::rows::find_leaf_in_kids(&sub.kids, 0, &user_class) {
        Some(l) => l,
        None => { return None },
    };
    let age_class = String::from_str("age");
    let age = match crate::rows::find_leaf_in_kids(&sub.kids, 0, &age_class) {
        Some(l) => l,
        None => { return None },
    };
    let date = match &age.title_attr {
        Some(d) => d.clone(),
        None => { return None },
    };
    let ca = match crate::rows::find_comment_anchor(&sub.kids, 0) {
        Some(l) => l,
        None => { return None },
    };
    Some(
        Info {
            score: score.text.clone(),
            user: user.text.clone(),
            date,
            comments: ca.text.clone(),
        },
    )
}

/// Classify one table row.
pub fn classify_row(row: &Row) -> (r: RowType)
    ensures
        r@ == classify_spec(*row),
{
    let spacer = String::from_str("spacer");
    if crate::rows::opt_class_is(&row.class_attr, &spacer) {
        return RowType::Spacer;
    }
    let athing = String::from_str("athing");
    if crate::rows::opt_class_is(&row.class_attr, &athing) {
        match extract_thing(row) {
            Some(t) => RowType::Thing(t),
            None => RowType::Unrecognized,
        }
    } else {
        match extract_info(row) {
            Some(i) => RowType::Info(i),
            None => RowType::Unrecognized,
        }
    }
}

/// Law: a row whose class attribute reads "spacer" classifies as `Spacer`,
/// whatever its descendant content holds.
pub proof fn lemma_spacer_row_is_spacer(row: Row)
    requires
        row_class(row) == "spacer"@,
    ensures
        classify_spec(row) is Spacer,
{
}

/// Law: a listing-entry row (class "athing") that misses its identifying
/// attribute, its title anchor, the anchor's link attribute, or its rank
/// element classifies as `Unrecognized` — never an error.
pub proof fn lemma_malformed_athing_is_unrecognized(row: Row)
    requires
        row_class(row) == "athing"@,
        row.id_attr is None || title_anchor_in_cells(row.cells@) is None || (
        title_anchor_in_cells(row.cells@) matches Some(a) && a.href is None) || first_elem_in_cells(
            row.cells@,
            "rank"@,
        ) is None,
    ensures
        classify_spec(row) is Unrecognized,
{
    assert("athing"@ != "spacer"@) by {
        reveal_strlit("athing");
        reveal_strlit("spacer");
        assert("athing"@[0] != "spacer"@[0]);
    }
}

} // verus!
