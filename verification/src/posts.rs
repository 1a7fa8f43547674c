//! A blog post workflow, twice over: once as a value that changes state
//! internally (draft, pending review, published), and once as one type per
//! state so that misuse cannot compile. The content of a post is visible
//! only once it is published.

use vstd::prelude::*;
use vstd::string::StringExecFns;

verus! {

/// The review state of a post.
pub enum PostState {
    /// Being written; content hidden.
    Draft,
    /// Waiting for review; content hidden.
    PendingReview,
    /// Approved; content visible.
    Published,
}

/// Where a review request takes each state.
pub open spec fn reviewed(s: PostState) -> PostState {
    match s {
        PostState::Draft => PostState::PendingReview,
        PostState::PendingReview => PostState::PendingReview,
        PostState::Published => PostState::Published,
    }
}

/// Where an approval takes each state.
pub open spec fn approved(s: PostState) -> PostState {
    match s {
        PostState::Draft => PostState::Draft,
        PostState::PendingReview => PostState::Published,
        PostState::Published => PostState::Published,
    }
}

/// A post whose state lives inside the value.
pub struct Post {
    state: PostState,
    content: String,
}

impl Post {
    /// The post's current review state.
    pub closed spec fn spec_state(&self) -> PostState {
        self.state
    }

    /// The post's full text, whether or not it is visible yet.
    pub closed spec fn spec_content(&self) -> Seq<char> {
        self.content@
    }

    /// A new, empty draft.
    pub fn new() -> (p: Post)
        ensures
            p.spec_state() is Draft,
            p.spec_content() =~= Seq::<char>::empty(),
    {
        Post { state: PostState::Draft, content: String::new() }
    }

    /// Appends text to the post, in any state.
    pub fn add_text(&mut self, text: &str)
        ensures
            final(self).spec_content() == old(self).spec_content() + text@,
            final(self).spec_state() == old(self).spec_state(),
    {
        self.content.append(text);
    }

    /// Asks for a review: a draft becomes pending; other states are kept.
    pub fn request_review(&mut self)
        ensures
            final(self).spec_state() == reviewed(old(self).spec_state()),
            final(self).spec_content() == old(self).spec_content(),
    {
        let next = match self.state {
            PostState::Draft => PostState::PendingReview,
            PostState::PendingReview => PostState::PendingReview,
            PostState::Published => PostState::Published,
        };
        self.state = next;
    }

    /// Approves the post: a pending post becomes published; a draft is not
    /// approvable and is kept, as is an already published post.
    pub fn approve(&mut self)
        ensures
            final(self).spec_state() == approved(old(self).spec_state()),
            final(self).spec_content() == old(self).spec_content(),
    {
        let next = match self.state {
            PostState::Draft => PostState::Draft,
            PostState::PendingReview => PostState::Published,
            PostState::Published => PostState::Published,
        };
        self.state = next;
    }

    /// The visible text: the full content once published, nothing before.
    pub fn content(&self) -> (r: &str)
        ensures
            self.spec_state() is Published ==> r@ == self.spec_content(),
            !(self.spec_state() is Published) ==> r@ =~= Seq::<char>::empty(),
    {
        match self.state {
            PostState::Published => self.content.as_str(),
            _ => {
                let empty = "";
                proof {
                    reveal_strlit("");
                }
                empty
            },
        }
    }
}

/// A published post in the one-type-per-state workflow.
pub struct TypedPost {
    content: String,
}

/// A draft in the one-type-per-state workflow.
pub struct DraftPost {
    content: String,
}

/// A post waiting for review in the one-type-per-state workflow.
pub struct PendingReviewPost {
    content: String,
}

impl TypedPost {
    /// The published text.
    pub closed spec fn spec_content(&self) -> Seq<char> {
        self.content@
    }

    /// Starting a post yields a draft, never a published value.
    pub fn new() -> (d: DraftPost)
        ensures
            d.spec_content() =~= Seq::<char>::empty(),
    {
        DraftPost { content: String::new() }
    }

    /// The visible text of a published post.
    pub fn content(&self) -> (r: &str)
        ensures
            r@ == self.spec_content(),
    {
        self.content.as_str()
    }
}

impl DraftPost {
    /// The draft's text so far.
    pub closed spec fn spec_content(&self) -> Seq<char> {
        self.content@
    }

    /// Appends text to the draft.
    pub fn add_text(&mut self, text: &str)
        ensures
            final(self).spec_content() == old(self).spec_content() + text@,
    {
        self.content.append(text);
    }

    /// Consumes the draft; only a pending post comes back, with the same text.
    pub fn request_review(self) -> (p: PendingReviewPost)
        ensures
            p.spec_content() == self.spec_content(),
    {
        PendingReviewPost { content: self.content }
    }
}

impl PendingReviewPost {
    /// The pending text.
    pub closed spec fn spec_content(&self) -> Seq<char> {
        self.content@
    }

    /// Consumes the pending post; the published post keeps the same text.
    pub fn approve(self) -> (p: TypedPost)
        ensures
            p.spec_content() == self.spec_content(),
    {
        TypedPost { content: self.content }
    }
}

} // verus!
