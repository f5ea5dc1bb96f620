//! Summaries of what was written: news articles and tweets.

use std::fmt::{Debug, Display};
use vstd::prelude::*;
use vstd::string::StringExecFns;

verus! {

/// Something that can be summed up in a line.
pub trait Summary {
    /// The name of the author, as it stands in a summary.
    fn summarize_author(&self) -> String;

    /// A line that sums the item up. Where an item has none of its own, the
    /// line points to the author.
    fn summarize(&self) -> (line: String)
        default_ensures
            exists|author: String|
                call_ensures(Self::summarize_author, (self,), author) && line@ == read_more(
                    author@,
                ),
    {
        read_more_from(self.summarize_author().as_str())
    }
}

/// Whether `item` names its author in the words of `text`, and in no
/// others.
pub open spec fn authored_as<T: Summary>(item: &T, text: Seq<char>) -> bool {
    forall|name: String| call_ensures(T::summarize_author, (item,), name) ==> name@ == text
}

/// Whether `item` is summed up in the words of `text`, and in no others.
pub open spec fn sums_up_as<T: Summary>(item: &T, text: Seq<char>) -> bool {
    forall|line: String| call_ensures(T::summarize, (item,), line) ==> line@ == text
}

/// The summary of an item that has no other: a pointer to its author.
pub open spec fn read_more(author: Seq<char>) -> Seq<char> {
    "(Read more from "@ + author + "...)"@
}

/// Builds the summary that points to `author`.
pub fn read_more_from(author: &str) -> (line: String)
    ensures
        line@ == read_more(author@),
{
    String::from_str("(Read more from ").concat(author).concat("...)")
}

/// A news story filed in some place.
pub struct NewsArticle {
    pub headline: String,
    pub location: String,
    pub author: String,
    pub content: String,
}

impl Summary for NewsArticle {
    fn summarize_author(&self) -> (name: String)
        ensures
            name@ == self.author@,
    {
        self.author.clone()
    }

    fn summarize(&self) -> (line: String)
        ensures
            line@ == self.headline@ + ", by "@ + self.author@ + " ("@ + self.location@ + ")"@,
    {
        self.headline.clone().concat(", by ").concat(self.author.as_str()).concat(" (").concat(
            self.location.as_str(),
        ).concat(")")
    }
}

/// A short message, perhaps a reply or a retweet.
pub struct Tweet {
    pub username: String,
    pub content: String,
    pub reply: bool,
    pub retweet: bool,
}

impl Summary for Tweet {
    fn summarize_author(&self) -> (name: String)
        ensures
            name@ == "@"@ + self.username@,
    {
        String::from_str("@").concat(self.username.as_str())
    }

    fn summarize(&self) -> (line: String)
        ensures
            line@ == self.username@ + ": "@ + self.content@,
    {
        self.username.clone().concat(": ").concat(self.content.as_str())
    }
}

/// The announcement of `item`: its summary, as breaking news.
pub fn notify(item: &impl Summary) -> (line: String)
    ensures
        exists|summary: String|
            call_ensures(Summary::summarize, (item,), summary) && line@ == "Breaking news! "@
                + summary@,
{
    String::from_str("Breaking news! ").concat(item.summarize().as_str())
}

/// The announcement of `item`, with the bound written out.
pub fn notify_trait_bound<T: Summary>(item: &T) -> (line: String)
    ensures
        exists|summary: String|
            call_ensures(T::summarize, (item,), summary) && line@ == "Breaking news! "@
                + summary@,
{
    String::from_str("Breaking news! ").concat(item.summarize().as_str())
}

/// Takes an item that can be summed up and displayed.
pub fn notify_multiple_trait_bounds(item: &(impl Summary + Display)) {
}

/// Takes an item that can be summed up and displayed, with the bounds
/// written out.
pub fn notify_multiple_trait_bounds2<T: Summary + Display>(item: &T) {
}

/// Two, whatever it is given.
pub fn some_function<T, U>(t: &T, u: &U) -> (n: i32) where T: Display + Clone, U: Clone + Debug
    ensures
        n == 2,
{
    2
}

/// A tweet, known to the caller only as something that can be summed up.
pub fn returns_summarizable() -> (item: impl Summary)
    ensures
        authored_as(&item, "@"@ + "horse_ebooks"@),
        sums_up_as(
            &item,
            "horse_ebooks"@ + ": "@ + "of course, as you probably already know, people"@,
        ),
{
    Tweet {
        username: String::from_str("horse_ebooks"),
        content: String::from_str("of course, as you probably already know, people"),
        reply: false,
        retweet: false,
    }
}

} // verus!
