//! Post assembly: pairing each listing-entry row with the details row that
//! immediately follows it.
//!
//! The scan is sequential and never looks backward: on a `Thing`, the very
//! next classified row decides — an `Info` completes a post and the scan
//! resumes after it; anything else drops the `Thing` and is itself
//! re-evaluated as a fresh candidate. Spacer, end-of-page and unrecognized
//! rows outside such a pair are ignored.

use vstd::prelude::*;
use crate::classify::{
    classify_row, classify_spec, Info, InfoModel, RowType, RowTypeModel, Thing, ThingModel,
};
use crate::rows::{Page, Row};

verus! {

/// The flattened merge of one listing entry and its paired details: the unit
/// of persistence.
#[derive(Debug, Clone)]
pub struct Post {
    /// The forum's opaque item identifier, kept as text.
    pub id: String,
    /// The raw rank text.
    pub rank: String,
    /// The raw title markup.
    pub title_line: String,
    /// The entry's link.
    pub link: String,
    /// The raw score text.
    pub score: String,
    /// The author's username.
    pub user: String,
    /// The absolute timestamp string.
    pub date: String,
    /// The raw comments-anchor text.
    pub comments: String,
}

/// The abstract value of a [`Post`]: its fields as character sequences.
pub struct PostModel {
    pub id: Seq<char>,
    pub rank: Seq<char>,
    pub title_line: Seq<char>,
    pub link: Seq<char>,
    pub score: Seq<char>,
    pub user: Seq<char>,
    pub date: Seq<char>,
    pub comments: Seq<char>,
}

impl View for Post {
    type V = PostModel;

    open spec fn view(&self) -> PostModel {
        PostModel {
            id: self.id@,
            rank: self.rank@,
            title_line: self.title_line@,
            link: self.link@,
            score: self.score@,
            user: self.user@,
            date: self.date@,
            comments: self.comments@,
        }
    }
}

/// The post merged from a listing entry and its paired details.
pub open spec fn merge_spec(t: ThingModel, i: InfoModel) -> PostModel {
    PostModel {
        id: t.id,
        rank: t.rank,
        title_line: t.title_line,
        link: t.link,
        score: i.score,
        user: i.user,
        date: i.date,
        comments: i.comments,
    }
}

/// The posts assembled from a sequence of classified rows: a `Thing`
/// immediately followed by an `Info` yields their merge and the scan resumes
/// after the pair; every other row advances the scan by one.
pub open spec fn assemble_spec(rows: Seq<RowTypeModel>) -> Seq<PostModel>
    decreases rows.len(),
{
    if rows.len() == 0 {
        Seq::empty()
    } else if rows[0] is Thing && rows.len() >= 2 && rows[1] is Info {
        seq![merge_spec(rows[0]->Thing_0, rows[1]->Info_0)] + assemble_spec(rows.skip(2))
    } else {
        assemble_spec(rows.skip(1))
    }
}

/// The abstract values of a vector of classified rows.
pub open spec fn row_models(rows: Seq<RowType>) -> Seq<RowTypeModel> {
    rows.map_values(|r: RowType| r@)
}

/// The abstract values of a vector of posts.
pub open spec fn post_models(posts: Seq<Post>) -> Seq<PostModel> {
    posts.map_values(|p: Post| p@)
}

/// Merge a listing entry with its paired details, borrowed from the row
/// sequence.
fn merge_refs(t: &Thing, i: &Info) -> (p: Post)
    ensures
        p@ == merge_spec(t@, i@),
{
    Post {
        id: t.id.clone(),
        rank: t.rank.clone(),
        title_line: t.title_line.clone(),
        link: t.link.clone(),
        score: i.score.clone(),
        user: i.user.clone(),
        date: i.date.clone(),
        comments: i.comments.clone(),
    }
}

/// Assemble the ordered posts of one page from its classified rows.
pub fn assemble_posts(rows: &Vec<RowType>) -> (out: Vec<Post>)
    ensures
        post_models(out@) == assemble_spec(row_models(rows@)),
{
    let ghost models = row_models(rows@);
    let mut out: Vec<Post> = Vec::new();
    let mut i: usize = 0;
    proof {
        assert(models.skip(0) =~= models);
        assert(post_models(out@) =~= Seq::<PostModel>::empty());
        assert(Seq::<PostModel>::empty() + assemble_spec(models) =~= assemble_spec(models));
    }
    while i < rows.len()
        invariant
            i <= rows@.len(),
            models == row_models(rows@),
            assemble_spec(models) == post_models(out@) + assemble_spec(models.skip(i as int)),
        decreases rows@.len() - i,
    {
        let mut paired = false;
        if i + 1 < rows.len() {
            if let RowType::Thing(t) = &rows[i] {
                if let RowType::Info(info) = &rows[i + 1] {
                    let p = merge_refs(t, info);
                    proof {
                        assert(models.skip(i as int)[0] == models[i as int]);
                        assert(models.skip(i as int)[1] == models[i as int + 1]);
                        assert(models.skip(i as int).skip(2) =~= models.skip(i as int + 2));
                        assert(post_models(out@.push(p)) =~= post_models(out@) + seq![p@]);
                    }
                    out.push(p);
                    paired = true;
                }
            }
        }
        if paired {
            i = i + 2;
        } else {
            proof {
                assert(models.skip(i as int)[0] == models[i as int]);
                if models.skip(i as int).len() >= 2 {
                    assert(models.skip(i as int)[1] == models[i as int + 1]);
                }
                assert(models.skip(i as int).skip(1) =~= models.skip(i as int + 1));
            }
            i = i + 1;
        }
    }
    proof {
        assert(models.skip(i as int) =~= Seq::<RowTypeModel>::empty());
        assert(post_models(out@) + Seq::<PostModel>::empty() =~= post_models(out@));
    }
    out
}

/// The classifications of a page's rows, in document order.
pub open spec fn classified_models(rows: Seq<Row>) -> Seq<RowTypeModel> {
    rows.map_values(|r: Row| classify_spec(r))
}

/// The posts of one page: none when its listing table is absent, otherwise
/// the posts assembled from its classified rows in source order.
pub open spec fn page_posts_spec(page: Page) -> Seq<PostModel> {
    match page.table {
        Some(rows) => assemble_spec(classified_models(rows@)),
        None => Seq::empty(),
    }
}

/// Classify every row of one page's listing table, in order, and assemble
/// the page's posts. Reports `None` — a structural failure, not a partial
/// page — when the listing table itself cannot be located, as distinct from
/// a present table with zero rows.
pub fn parse_page(page: &Page) -> (r: Option<Vec<Post>>)
    ensures
        match r {
            Some(posts) => page.table is Some && post_models(posts@) == page_posts_spec(*page),
            None => page.table is None,
        },
{
    let rows = match &page.table {
        Some(rows) => rows,
        None => { return None },
    };
    let mut classified: Vec<RowType> = Vec::new();
    let mut i: usize = 0;
    while i < rows.len()
        invariant
            i <= rows@.len(),
            classified@.len() == i,
            forall|k: int| 0 <= k < i ==> (#[trigger] classified@[k])@ == classify_spec(rows@[k]),
        decreases rows@.len() - i,
    {
        classified.push(classify_row(&rows[i]));
        i = i + 1;
    }
    proof {
        assert(row_models(classified@) =~= classified_models(rows@));
    }
    Some(assemble_posts(&classified))
}

/// Law: every assembled post pairs a listing-entry row with the details row
/// at the very next position of the input sequence — a post never merges
/// rows from non-adjacent positions.
pub proof fn lemma_posts_pair_adjacent_rows(rows: Seq<RowTypeModel>, k: int)
    requires
        0 <= k < assemble_spec(rows).len(),
    ensures
        exists|i: int|
            0 <= i && i + 1 < rows.len() && rows[i] is Thing && (#[trigger] rows[i + 1]) is Info
                && assemble_spec(rows)[k] == merge_spec(rows[i]->Thing_0, rows[i + 1]->Info_0),
    decreases rows.len(),
{
    if rows.len() == 0 {
    } else if rows[0] is Thing && rows.len() >= 2 && rows[1] is Info {
        if k == 0 {
            let w: int = 0;
            assert(0 <= w && w + 1 < rows.len() && rows[w] is Thing && rows[w + 1] is Info
                && assemble_spec(rows)[0] == merge_spec(rows[w]->Thing_0, rows[w + 1]->Info_0));
        } else {
            lemma_posts_pair_adjacent_rows(rows.skip(2), k - 1);
            let i0 = choose|i0: int|
                0 <= i0 && i0 + 1 < rows.skip(2).len() && rows.skip(2)[i0] is Thing && (
                #[trigger] rows.skip(2)[i0 + 1]) is Info && assemble_spec(rows.skip(2))[k - 1]
                    == merge_spec(rows.skip(2)[i0]->Thing_0, rows.skip(2)[i0 + 1]->Info_0);
            assert(rows[i0 + 2] == rows.skip(2)[i0]);
            assert(rows[i0 + 2 + 1] == rows.skip(2)[i0 + 1]);
            assert(0 <= i0 + 2 && i0 + 2 + 1 < rows.len() && rows[i0 + 2] is Thing && rows[i0 + 2
                + 1] is Info && assemble_spec(rows)[k] == merge_spec(
                rows[i0 + 2]->Thing_0,
                rows[i0 + 2 + 1]->Info_0,
            ));
        }
    } else {
        lemma_posts_pair_adjacent_rows(rows.skip(1), k);
        let i0 = choose|i0: int|
            0 <= i0 && i0 + 1 < rows.skip(1).len() && rows.skip(1)[i0] is Thing && (
            #[trigger] rows.skip(1)[i0 + 1]) is Info && assemble_spec(rows.skip(1))[k]
                == merge_spec(rows.skip(1)[i0]->Thing_0, rows.skip(1)[i0 + 1]->Info_0);
        assert(rows[i0 + 1] == rows.skip(1)[i0]);
        assert(rows[i0 + 1 + 1] == rows.skip(1)[i0 + 1]);
        assert(0 <= i0 + 1 && i0 + 1 + 1 < rows.len() && rows[i0 + 1] is Thing && rows[i0 + 1
            + 1] is Info && assemble_spec(rows)[k] == merge_spec(
            rows[i0 + 1]->Thing_0,
            rows[i0 + 1 + 1]->Info_0,
        ));
    }
}

} // verus!
