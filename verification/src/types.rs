use vstd::prelude::*;

verus! {

/// A score as carried on the wire.
pub type Score = u32;

/// A numeric item identifier assigned by the remote service.
pub type Id = u32;

/// A calendar date as plain year, month and day numbers.
#[derive(Debug, Clone, Copy, PartialEq, Eq, Structural)]
pub struct Date(pub u16, pub u8, pub u8);

/// An account on the remote service.
#[derive(Debug, Clone, PartialEq, Eq)]
pub struct User {
    /// The user's unique username. Case-sensitive.
    pub id: Option<String>,
    /// Delay in minutes between a comment's creation and its visibility to other users.
    pub delay: Option<u32>,
    /// Creation date of the user, in Unix Time.
    pub created: u32,
    /// The user's karma.
    pub karma: Score,
    /// The user's optional self-description. HTML.
    pub about: Option<String>,
    /// List of the user's stories, polls and comments.
    pub submitted: Option<Vec<Id>>,
}

/// A job posting.
#[derive(Debug, Clone, PartialEq, Eq)]
pub struct Job {
    /// The item's unique id.
    pub id: Id,
    /// true if the item is deleted.
    pub deleted: Option<bool>,
    /// The username of the item's author.
    pub by: Option<String>,
    /// Creation date of the item, in Unix Time.
    pub time: u64,
    /// true if the item is dead.
    pub dead: Option<bool>,
    /// The ids of the item's comments, in ranked display order.
    pub kids: Option<Vec<Id>>,
    /// The comment, story or poll text. HTML.
    pub text: Option<String>,
    /// The URL of the story.
    pub url: Option<String>,
    /// The title of the story, poll or job.
    pub title: String,
}

/// A story: the only record kind the ranking pipeline consumes.
#[derive(Debug, Clone, PartialEq, Eq)]
pub struct Story {
    /// The item's unique id.
    pub id: Id,
    /// True if the item is deleted.
    pub deleted: Option<bool>,
    /// The username of the item's author.
    pub by: Option<String>,
    /// Creation date of the item, in Unix Time.
    pub time: u64,
    /// True if the item is dead.
    pub dead: Option<bool>,
    /// The ids of the item's comments, in ranked display order.
    pub kids: Option<Vec<Id>>,
    /// In the case of stories or polls, the total comment count.
    pub descendants: Option<u32>,
    /// The story's score, or the votes for a pollopt.
    pub score: Option<Score>,
    /// The title of the story, poll or job.
    pub title: Option<String>,
    /// The URL of the story.
    pub url: Option<String>,
}

/// A comment on a story, poll or another comment.
#[derive(Debug, Clone, PartialEq, Eq)]
pub struct Comment {
    /// The item's unique id.
    pub id: Id,
    /// true if the item is deleted.
    pub deleted: Option<bool>,
    /// The username of the item's author.
    pub by: Option<String>,
    /// Creation date of the item, in Unix Time.
    pub time: u64,
    /// true if the item is dead.
    pub dead: Option<bool>,
    /// The ids of the item's comments, in ranked display order.
    pub kids: Option<Vec<Id>>,
    /// The comment's parent: either another comment or the relevant story.
    pub parent: Option<Id>,
    /// The comment, story or poll text. HTML.
    pub text: Option<String>,
}

/// A poll.
#[derive(Debug, Clone, PartialEq, Eq)]
pub struct Poll {
    /// The item's unique id.
    pub id: Id,
    /// true if the item is deleted.
    pub deleted: Option<bool>,
    /// The username of the item's author.
    pub by: Option<String>,
    /// Creation date of the item, in Unix Time.
    pub time: u64,
    /// true if the item is dead.
    pub dead: Option<bool>,
    /// The ids of the item's comments, in ranked display order.
    pub kids: Option<Vec<Id>>,
    /// A list of related pollopts, in display order.
    pub parts: Option<Vec<Id>>,
    /// In the case of stories or polls, the total comment count.
    pub descendants: Option<u32>,
    /// The story's score, or the votes for a pollopt.
    pub score: Option<Score>,
    /// The title of the story, poll or job.
    pub title: Option<String>,
    /// The comment, story or poll text. HTML.
    pub text: Option<String>,
}

/// One selectable option of a poll.
#[derive(Debug, Clone, PartialEq, Eq)]
pub struct PollOption {
    /// The item's unique id.
    pub id: Id,
    /// true if the item is deleted.
    pub deleted: Option<bool>,
    /// The username of the item's author.
    pub by: Option<String>,
    /// Creation date of the item, in Unix Time.
    pub time: u64,
    /// true if the item is dead.
    pub dead: Option<bool>,
    /// The ids of the item's comments, in ranked display order.
    pub kids: Option<Vec<Id>>,
    /// The comment's parent: either another comment or the relevant story.
    pub parent: Option<Id>,
    /// The story's score, or the votes for a pollopt.
    pub score: Option<Score>,
}

/// The view of an optional owned string: the character sequence, if present.
pub open spec fn view_opt_string(o: Option<String>) -> Option<Seq<char>> {
    match o {
        Some(s) => Some(s@),
        None => None,
    }
}

/// The view of an optional id list: the id sequence, if present.
pub open spec fn view_opt_ids(o: Option<Vec<Id>>) -> Option<Seq<Id>> {
    match o {
        Some(v) => Some(v@),
        None => None,
    }
}

/// The mathematical model of a `Job`.
#[verifier::ext_equal]
pub struct JobView {
    pub id: Id,
    pub deleted: Option<bool>,
    pub by: Option<Seq<char>>,
    pub time: u64,
    pub dead: Option<bool>,
    pub kids: Option<Seq<Id>>,
    pub text: Option<Seq<char>>,
    pub url: Option<Seq<char>>,
    pub title: Seq<char>,
}

impl View for Job {
    type V = JobView;

    open spec fn view(&self) -> JobView {
        JobView {
            id: self.id,
            deleted: self.deleted,
            by: view_opt_string(self.by),
            time: self.time,
            dead: self.dead,
            kids: view_opt_ids(self.kids),
            text: view_opt_string(self.text),
            url: view_opt_string(self.url),
            title: self.title@,
        }
    }
}

/// The mathematical model of a `Story`.
#[verifier::ext_equal]
pub struct StoryView {
    pub id: Id,
    pub deleted: Option<bool>,
    pub by: Option<Seq<char>>,
    pub time: u64,
    pub dead: Option<bool>,
    pub kids: Option<Seq<Id>>,
    pub descendants: Option<u32>,
    pub score: Option<Score>,
    pub title: Option<Seq<char>>,
    pub url: Option<Seq<char>>,
}

impl View for Story {
    type V = StoryView;

    open spec fn view(&self) -> StoryView {
        StoryView {
            id: self.id,
            deleted: self.deleted,
            by: view_opt_string(self.by),
            time: self.time,
            dead: self.dead,
            kids: view_opt_ids(self.kids),
            descendants: self.descendants,
            score: self.score,
            title: view_opt_string(self.title),
            url: view_opt_string(self.url),
        }
    }
}

/// The mathematical model of a `Comment`.
#[verifier::ext_equal]
pub struct CommentView {
    pub id: Id,
    pub deleted: Option<bool>,
    pub by: Option<Seq<char>>,
    pub time: u64,
    pub dead: Option<bool>,
    pub kids: Option<Seq<Id>>,
    pub parent: Option<Id>,
    pub text: Option<Seq<char>>,
}

impl View for Comment {
    type V = CommentView;

    open spec fn view(&self) -> CommentView {
        CommentView {
            id: self.id,
            deleted: self.deleted,
            by: view_opt_string(self.by),
            time: self.time,
            dead: self.dead,
            kids: view_opt_ids(self.kids),
            parent: self.parent,
            text: view_opt_string(self.text),
        }
    }
}

/// The mathematical model of a `Poll`.
#[verifier::ext_equal]
pub struct PollView {
    pub id: Id,
    pub deleted: Option<bool>,
    pub by: Option<Seq<char>>,
    pub time: u64,
    pub dead: Option<bool>,
    pub kids: Option<Seq<Id>>,
    pub parts: Option<Seq<Id>>,
    pub descendants: Option<u32>,
    pub score: Option<Score>,
    pub title: Option<Seq<char>>,
    pub text: Option<Seq<char>>,
}

impl View for Poll {
    type V = PollView;

    open spec fn view(&self) -> PollView {
        PollView {
            id: self.id,
            deleted: self.deleted,
            by: view_opt_string(self.by),
            time: self.time,
            dead: self.dead,
            kids: view_opt_ids(self.kids),
            parts: view_opt_ids(self.parts),
            descendants: self.descendants,
            score: self.score,
            title: view_opt_string(self.title),
            text: view_opt_string(self.text),
        }
    }
}

/// The mathematical model of a `PollOption`.
#[verifier::ext_equal]
pub struct PollOptionView {
    pub id: Id,
    pub deleted: Option<bool>,
    pub by: Option<Seq<char>>,
    pub time: u64,
    pub dead: Option<bool>,
    pub kids: Option<Seq<Id>>,
    pub parent: Option<Id>,
    pub score: Option<Score>,
}

impl View for PollOption {
    type V = PollOptionView;

    open spec fn view(&self) -> PollOptionView {
        PollOptionView {
            id: self.id,
            deleted: self.deleted,
            by: view_opt_string(self.by),
            time: self.time,
            dead: self.dead,
            kids: view_opt_ids(self.kids),
            parent: self.parent,
            score: self.score,
        }
    }
}

/// The tagged union over the five record kinds the remote item endpoint
/// can return. The wire discriminant decides the variant.
#[derive(Debug, Clone, PartialEq, Eq)]
pub enum Item {
    Job(Job),
    Story(Story),
    Comment(Comment),
    Poll(Poll),
    PollOption(PollOption),
}

impl Item {
    /// The story carried by this item, if it is the story variant:
    /// every other kind is filtered out of the pipeline, silently.
    pub fn into_story(self) -> (r: Option<Story>)
        ensures
            r == self.story_of(),
    {
        match self {
            Item::Story(s) => Some(s),
            _ => None,
        }
    }

    /// What `into_story` yields: the story payload, or nothing.
    pub open spec fn story_of(self) -> Option<Story> {
        match self {
            Item::Story(s) => Some(s),
            _ => None,
        }
    }
}

/// The mathematical model of an `Item`.
#[verifier::ext_equal]
pub enum ItemView {
    Job(JobView),
    Story(StoryView),
    Comment(CommentView),
    Poll(PollView),
    PollOption(PollOptionView),
}

impl View for Item {
    type V = ItemView;

    open spec fn view(&self) -> ItemView {
        match *self {
            Item::Job(j) => ItemView::Job(j@),
            Item::Story(s) => ItemView::Story(s@),
            Item::Comment(c) => ItemView::Comment(c@),
            Item::Poll(p) => ItemView::Poll(p@),
            Item::PollOption(p) => ItemView::PollOption(p@),
        }
    }
}

} // verus!
