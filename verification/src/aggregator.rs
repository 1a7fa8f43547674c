//! Summaries of articles and tweets behind one trait, and generic selection
//! of the greatest element of a slice.

use vstd::prelude::*;
use vstd::string::StringExecFns;
use vstd::std_specs::cmp::PartialOrdSpec;
use core::cmp::Ordering;

verus! {

/// Content that can present itself in one line.
pub trait Summary {
    /// The author tag of this content.
    spec fn spec_author(&self) -> Seq<char>;

    /// The one-line summary of this content.
    spec fn spec_summary(&self) -> Seq<char>;

    /// The author tag, as text.
    fn summarize_author(&self) -> (r: String)
        ensures
            r@ == self.spec_author(),
    ;

    /// The one-line summary, as text.
    fn summarize(&self) -> (r: String)
        ensures
            r@ == self.spec_summary(),
    ;
}

/// A news article.
pub struct NewsArticle {
    /// Title of the article.
    pub headline: String,
    /// Where the story happened.
    pub location: String,
    /// Who wrote it.
    pub author: String,
    /// The article's text.
    pub content: String,
}

impl Summary for NewsArticle {
    open spec fn spec_author(&self) -> Seq<char> {
        "@"@ + self.author@
    }

    open spec fn spec_summary(&self) -> Seq<char> {
        "(Read more from "@ + self.spec_author() + "...)"@
    }

    fn summarize_author(&self) -> (r: String) {
        let mut r = String::from_str("@");
        r.append(self.author.as_str());
        r
    }

    fn summarize(&self) -> (r: String) {
        let author = self.summarize_author();
        let mut r = String::from_str("(Read more from ");
        r.append(author.as_str());
        r.append("...)");
        r
    }
}

/// A short public message.
pub struct Tweet {
    /// Who posted it.
    pub username: String,
    /// What it says.
    pub content: String,
    /// Whether it answers another message.
    pub reply: bool,
    /// Whether it repeats another message.
    pub retweet: bool,
}

impl Summary for Tweet {
    open spec fn spec_author(&self) -> Seq<char> {
        "@"@ + self.username@
    }

    open spec fn spec_summary(&self) -> Seq<char> {
        self.username@ + ": "@ + self.content@
    }

    fn summarize_author(&self) -> (r: String) {
        let mut r = String::from_str("@");
        r.append(self.username.as_str());
        r
    }

    fn summarize(&self) -> (r: String) {
        let mut r = String::new();
        r.append(self.username.as_str());
        r.append(": ");
        r.append(self.content.as_str());
        r
    }
}

/// A fixed example of summarizable content.
pub fn returns_summarizable() -> (r: impl Summary)
    ensures
        r.spec_author() == "@"@ + "horse_ebooks"@,
        r.spec_summary() == "horse_ebooks"@ + ": "@
            + "of course, as you probably already know, people"@,
{
    Tweet {
        username: String::from_str("horse_ebooks"),
        content: String::from_str("of course, as you probably already know, people"),
        reply: false,
        retweet: false,
    }
}

/// What a left-to-right scan keeping the strictly greater element ends with.
/// For a total order this is the maximum of the sequence.
pub open spec fn loop_max<T: PartialOrd>(s: Seq<T>) -> T
    recommends
        s.len() > 0,
    decreases s.len(),
{
    if s.len() <= 1 {
        s[0]
    } else {
        let prev = loop_max(s.drop_last());
        if s.last().partial_cmp_spec(&prev) == Some(Ordering::Greater) {
            s.last()
        } else {
            prev
        }
    }
}

/// A reference to the element a greatest-element scan of `list` ends with.
pub fn largest<T: PartialOrd>(list: &[T]) -> (r: &T)
    requires
        list@.len() > 0,
    ensures
        exists|i: int| 0 <= i < list@.len() && *r == list@[i],
        T::obeys_partial_cmp_spec() ==> *r == loop_max(list@),
{
    let mut best: usize = 0;
    let mut i: usize = 1;
    while i < list.len()
        invariant
            list@.len() > 0,
            best < i <= list@.len(),
            T::obeys_partial_cmp_spec() ==> list@[best as int] == loop_max(
                list@.subrange(0, i as int),
            ),
        decreases list@.len() - i,
    {
        let item = &list[i];
        let cur = &list[best];
        proof {
            assert(list@.subrange(0, i + 1).drop_last() =~= list@.subrange(0, i as int));
        }
        if item.gt(cur) {
            best = i;
        }
        i = i + 1;
    }
    proof {
        assert(list@.subrange(0, list@.len() as int) =~= list@);
    }
    &list[best]
}

/// The element a greatest-element scan of `list` ends with, by value.
pub fn largest2<T: PartialOrd + Copy>(list: &[T]) -> (r: T)
    requires
        list@.len() > 0,
    ensures
        exists|i: int| 0 <= i < list@.len() && r == list@[i],
        T::obeys_partial_cmp_spec() ==> r == loop_max(list@),
{
    let mut best: T = list[0];
    let ghost mut best_at: int = 0;
    let mut i: usize = 1;
    while i < list.len()
        invariant
            list@.len() > 0,
            1 <= i <= list@.len(),
            0 <= best_at < i,
            best == list@[best_at],
            T::obeys_partial_cmp_spec() ==> best == loop_max(list@.subrange(0, i as int)),
        decreases list@.len() - i,
    {
        let item = list[i];
        proof {
            assert(list@.subrange(0, i + 1).drop_last() =~= list@.subrange(0, i as int));
        }
        if item.gt(&best) {
            best = item;
            proof {
                best_at = i as int;
            }
        }
        i = i + 1;
    }
    proof {
        assert(list@.subrange(0, list@.len() as int) =~= list@);
    }
    best
}

} // verus!
