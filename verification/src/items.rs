//! Typed records of the forum's JSON API: items (stories, comments, jobs,
//! polls, poll options), user profiles, and the recent-updates listing.
//! These are plain data carriers; the host program decodes the API's JSON
//! into them and hands them over as values.

use vstd::prelude::*;

verus! {

/// A story.
#[derive(Debug, Clone)]
pub struct Story {
    /// The item's unique id.
    pub id: u32,
    /// The total comment count.
    pub descendants: u32,
    /// The username of the item's author.
    pub by: String,
    /// The ids of the item's comments, in ranked display order.
    pub kids: Option<Vec<u32>>,
    /// The story's score.
    pub score: u32,
    /// The title of the story.
    pub title: String,
    /// The URL of the story.
    pub url: Option<String>,
    /// The story text. HTML.
    pub text: Option<String>,
    /// Creation date of the item, in Unix Time.
    pub time: u64,
}

/// A comment.
#[derive(Debug, Clone)]
pub struct Comment {
    /// The item's unique id.
    pub id: u32,
    /// The username of the item's author.
    pub by: String,
    /// The ids of the item's comments, in ranked display order.
    pub kids: Option<Vec<u32>>,
    /// The comment's parent: either another comment or the relevant story.
    pub parent: u32,
    /// The comment text. HTML.
    pub text: String,
    /// Creation date of the item, in Unix Time.
    pub time: u64,
}

/// A job.
#[derive(Debug, Clone)]
pub struct Job {
    /// The item's unique id.
    pub id: u32,
    /// The story's score, or the votes for a pollopt.
    pub score: u32,
    /// The job text. HTML.
    pub text: Option<String>,
    /// Creation date of the item, in Unix Time.
    pub time: u64,
    /// The title of the job.
    pub title: String,
    /// The URL of the story.
    pub url: Option<String>,
}

/// A poll.
#[derive(Debug, Clone)]
pub struct Poll {
    /// The item's unique id.
    pub id: u32,
    /// The username of the item's author.
    pub by: String,
    /// The total comment count.
    pub descendants: u32,
    /// The ids of the item's comments, in ranked display order.
    pub kids: Option<Vec<u32>>,
    /// A list of related pollopts, in display order.
    pub parts: Option<Vec<u32>>,
    /// The story's score.
    pub score: u32,
    /// The title of the story.
    pub title: String,
    /// The story text. HTML.
    pub text: Option<String>,
    /// Creation date of the item, in Unix Time.
    pub time: u64,
}

/// A poll option belonging to a poll.
#[derive(Debug, Clone)]
pub struct Pollopt {
    /// The item's unique id.
    pub id: u32,
    /// The username of the item's author.
    pub by: String,
    /// The pollopt's associated poll.
    pub poll: u32,
    /// The votes for a pollopt.
    pub score: u32,
    /// The story text. HTML.
    pub text: Option<String>,
    /// Creation date of the item, in Unix Time.
    pub time: u64,
}

/// A user profile.
#[derive(Debug, Clone)]
pub struct User {
    /// The user's unique username. Case-sensitive.
    pub id: String,
    /// Creation date of the user, in Unix Time.
    pub created: u64,
    /// The user's karma.
    pub karma: u32,
    /// Delay in minutes between a comment's creation and its visibility to
    /// other users.
    pub delay: Option<u32>,
    /// The user's optional self-description. HTML.
    pub about: Option<String>,
    /// List of the user's stories, polls and comments.
    pub submitted: Vec<u32>,
}

/// A list of recently updated items and users.
#[derive(Debug, Clone)]
pub struct Updates {
    /// A list of recently changed items.
    pub items: Vec<u32>,
    /// A list of recently changed usernames.
    pub profiles: Vec<String>,
}

/// An item of the forum: one of the five concrete record kinds.
#[derive(Debug, Clone)]
pub enum Item {
    /// A story.
    Story(Story),
    /// A comment.
    Comment(Comment),
    /// A job.
    Job(Job),
    /// A poll.
    Poll(Poll),
    /// A poll option belonging to a poll.
    Pollopt(Pollopt),
}

impl Item {
    /// The id of this item, whichever kind it is.
    pub open spec fn spec_id(self) -> u32 {
        match self {
            Item::Story(story) => story.id,
            Item::Comment(comment) => comment.id,
            Item::Job(job) => job.id,
            Item::Poll(poll) => poll.id,
            Item::Pollopt(pollopt) => pollopt.id,
        }
    }

    /// The title of this item, if its kind carries one.
    pub open spec fn spec_title(self) -> Option<Seq<char>> {
        match self {
            Item::Story(story) => Some(story.title@),
            Item::Job(job) => Some(job.title@),
            Item::Poll(poll) => Some(poll.title@),
            _ => None,
        }
    }

    /// The author of this item, if its kind carries one.
    pub open spec fn spec_author(self) -> Option<Seq<char>> {
        match self {
            Item::Story(story) => Some(story.by@),
            Item::Comment(comment) => Some(comment.by@),
            Item::Poll(poll) => Some(poll.by@),
            Item::Pollopt(pollopt) => Some(pollopt.by@),
            _ => None,
        }
    }

    /// Return the id of this item.
    pub fn id(&self) -> (r: u32)
        ensures
            r == self.spec_id(),
    {
        match self {
            Item::Story(story) => story.id,
            Item::Comment(comment) => comment.id,
            Item::Job(job) => job.id,
            Item::Poll(poll) => poll.id,
            Item::Pollopt(pollopt) => pollopt.id,
        }
    }

    /// Return the title of this item, if available.
    pub fn title(&self) -> (r: Option<&str>)
        ensures
            match r {
                Some(t) => self.spec_title() == Some(t@),
                None => self.spec_title() is None,
            },
    {
        match self {
            Item::Story(story) => Some(story.title.as_str()),
            Item::Job(job) => Some(job.title.as_str()),
            Item::Poll(poll) => Some(poll.title.as_str()),
            _ => None,
        }
    }

    /// Return the author of this item, if available.
    pub fn author(&self) -> (r: Option<&str>)
        ensures
            match r {
                Some(a) => self.spec_author() == Some(a@),
                None => self.spec_author() is None,
            },
    {
        match self {
            Item::Story(story) => Some(story.by.as_str()),
            Item::Comment(comment) => Some(comment.by.as_str()),
            Item::Poll(poll) => Some(poll.by.as_str()),
            Item::Pollopt(pollopt) => Some(pollopt.by.as_str()),
            Item::Job(_) => None,
        }
    }
}

} // verus!
