//! A blog post's way from draft to publication.
//!
//! A post starts as an empty draft. When the draft is done, a review is
//! requested; when the review approves it, the post is published. Only a
//! published post shows its content, and any other change asked of a post
//! has no effect. [`Post`] keeps its stage as a value; [`DraftPost`],
//! [`PendingReviewPost`] and [`PostImproved`] put the stage into the type.

use vstd::prelude::*;
use vstd::string::StringExecFns;

verus! {

/// Where a post stands in the workflow.
#[derive(Clone, Copy, Debug, PartialEq, Eq, Structural)]
pub enum Stage {
    /// Being written.
    Draft,
    /// Waiting for approval.
    PendingReview,
    /// Approved, and shown.
    Published,
}

impl Stage {
    /// The stage after a review was requested: a draft waits for review,
    /// any other post stays where it is.
    pub open spec fn reviewed(self) -> Stage {
        match self {
            Stage::Draft => Stage::PendingReview,
            s => s,
        }
    }

    /// The stage after an approval: a post that waits for review is
    /// published, any other post stays where it is.
    pub open spec fn approved(self) -> Stage {
        match self {
            Stage::PendingReview => Stage::Published,
            s => s,
        }
    }

    /// Moves on from a request for review.
    pub fn request_review(self) -> (next: Stage)
        ensures
            next == self.reviewed(),
    {
        match self {
            Stage::Draft => Stage::PendingReview,
            s => s,
        }
    }

    /// Moves on from an approval.
    pub fn approve(self) -> (next: Stage)
        ensures
            next == self.approved(),
    {
        match self {
            Stage::PendingReview => Stage::Published,
            s => s,
        }
    }

    /// What a post in this stage shows of `post`'s text: all of it once
    /// published, nothing before.
    pub fn content<'a>(&self, post: &'a Post) -> (shown: &'a str)
        ensures
            shown@ == if *self is Published {
                post.text()
            } else {
                Seq::<char>::empty()
            },
    {
        match self {
            Stage::Published => post.content.as_str(),
            _ => {
                proof {
                    reveal_strlit("");
                }
                ""
            },
        }
    }
}

/// A post that carries its stage with it.
pub struct Post {
    state: Stage,
    content: String,
}

impl Post {
    /// The stage the post is in.
    pub closed spec fn stage(&self) -> Stage {
        self.state
    }

    /// The text written so far, shown or not.
    pub closed spec fn text(&self) -> Seq<char> {
        self.content@
    }

    /// An empty draft.
    pub fn new() -> (post: Post)
        ensures
            post.stage() == Stage::Draft,
            post.text() == Seq::<char>::empty(),
    {
        Post { state: Stage::Draft, content: String::new() }
    }

    /// Appends `text` to the post, in whatever stage it is.
    pub fn add_text(&mut self, text: &str)
        ensures
            final(self).stage() == old(self).stage(),
            final(self).text() == old(self).text() + text@,
    {
        self.content.append(text);
    }

    /// What the post shows: its text once it is published, nothing before.
    pub fn content(&self) -> (shown: &str)
        ensures
            shown@ == if self.stage() is Published {
                self.text()
            } else {
                Seq::<char>::empty()
            },
    {
        self.state.content(self)
    }

    /// Requests a review: a draft then waits for review; a post in any
    /// other stage is left as it is.
    pub fn request_review(&mut self)
        ensures
            final(self).stage() == old(self).stage().reviewed(),
            final(self).text() == old(self).text(),
    {
        self.state = self.state.request_review();
    }

    /// Approves the post: a post that waits for review is then published; a
    /// post in any other stage is left as it is.
    pub fn approve(&mut self)
        ensures
            final(self).stage() == old(self).stage().approved(),
            final(self).text() == old(self).text(),
    {
        self.state = self.state.approve();
    }
}

/// A published post: the only kind of post whose content can be read.
pub struct PostImproved {
    content: String,
}

/// A post that is being written.
pub struct DraftPost {
    content: String,
}

/// A post that waits for approval.
pub struct PendingReviewPost {
    content: String,
}

impl View for PostImproved {
    type V = Seq<char>;

    closed spec fn view(&self) -> Seq<char> {
        self.content@
    }
}

impl View for DraftPost {
    type V = Seq<char>;

    closed spec fn view(&self) -> Seq<char> {
        self.content@
    }
}

impl View for PendingReviewPost {
    type V = Seq<char>;

    closed spec fn view(&self) -> Seq<char> {
        self.content@
    }
}

impl PostImproved {
    /// Every post starts as an empty draft.
    pub fn new() -> (draft: DraftPost)
        ensures
            draft@ == Seq::<char>::empty(),
    {
        DraftPost { content: String::new() }
    }

    /// The text of the published post.
    pub fn content(&self) -> (shown: &str)
        ensures
            shown@ == self@,
    {
        self.content.as_str()
    }
}

impl DraftPost {
    /// Appends `text` to the draft.
    pub fn add_text(&mut self, text: &str)
        ensures
            final(self)@ == old(self)@ + text@,
    {
        self.content.append(text);
    }

    /// Hands the draft in for review, text unchanged.
    pub fn request_review(self) -> (pending: PendingReviewPost)
        ensures
            pending@ == self@,
    {
        PendingReviewPost { content: self.content }
    }
}

impl PendingReviewPost {
    /// Publishes the post, text unchanged.
    pub fn approve(self) -> (published: PostImproved)
        ensures
            published@ == self@,
    {
        PostImproved { content: self.content }
    }
}

/// Takes a post through the workflow: the text is hidden while the post is
/// a draft and while it waits for review, and shown once it is approved.
/// Returns what the published post shows.
pub fn post() -> (shown: String)
    ensures
        shown@ == "I ate a salad for lunch today"@,
{
    let mut post = Post::new();

    post.add_text("I ate a salad for lunch today");
    let hidden = post.content();
    assert(hidden@ == Seq::<char>::empty());

    post.request_review();
    let hidden = post.content();
    assert(hidden@ == Seq::<char>::empty());

    post.approve();
    let shown = post.content();
    assert(shown@ == "I ate a salad for lunch today"@);
    shown.to_owned()
}

/// Takes a post through the workflow in which each stage is a type of its
/// own. Returns what the published post shows.
pub fn post_improved() -> (shown: String)
    ensures
        shown@ == "I ate a salad for lunch today"@,
{
    let mut post = PostImproved::new();

    post.add_text("I ate a salad for lunch today");

    let post = post.request_review();

    let post = post.approve();

    let shown = post.content();
    assert(shown@ == "I ate a salad for lunch today"@);
    shown.to_owned()
}

} // verus!
