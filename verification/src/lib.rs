//! One-line summaries of news items.
//!
//! The [`Summary`] trait is a capability with a single operation: turning a
//! value into a short line of text. Two unrelated record types provide it,
//! each with its own format, and [`announcement`] builds a broadcast line
//! from any value that offers it.

use vstd::prelude::*;

verus! {

/// The capability of being condensed into one line of text.
///
/// Each implementing type fixes its own format through `spec_summary`, and
/// its `summary` method must return exactly that text.
pub trait Summary {
    /// The text that `summary` returns, as a sequence of characters.
    spec fn spec_summary(&self) -> Seq<char>;

    /// A one-line digest of the value.
    fn summary(&self) -> (text: String)
        ensures
            text@ == self.spec_summary(),
    ;
}

/// A full news article: a headline with a byline and a dateline, and the
/// body text of the piece.
pub struct NewsArticle {
    pub headline: String,
    pub location: String,
    pub author: String,
    pub content: String,
}

impl Summary for NewsArticle {
    /// Headline, author and location; the body text is deliberately left out.
    open spec fn spec_summary(&self) -> Seq<char> {
        self.headline@ + " by "@ + self.author@ + " ("@ + self.location@ + ")"@
    }

    fn summary(&self) -> (text: String) {
        let mut text = self.headline.clone();
        text.append(" by ");
        text.append(self.author.as_str());
        text.append(" (");
        text.append(self.location.as_str());
        text.append(")");
        text
    }
}

/// A short post: an author handle, a body, and two flags saying whether the
/// post answers or repeats another one.
pub struct Tweet {
    pub username: String,
    pub content: String,
    pub reply: bool,
    pub retweet: bool,
}

impl Summary for Tweet {
    /// Author handle and body; the reply and retweet flags play no part.
    open spec fn spec_summary(&self) -> Seq<char> {
        self.username@ + ": "@ + self.content@
    }

    fn summary(&self) -> (text: String) {
        let mut text = self.username.clone();
        text.append(": ");
        text.append(self.content.as_str());
        text
    }
}

/// The broadcast line for an item: a fixed prefix followed by the item's
/// own summary. The item is only read; printing the line is the caller's
/// business.
pub fn announcement<T: Summary>(item: &T) -> (line: String)
    ensures
        line@ == "Breaking news! "@ + item.spec_summary(),
{
    let mut line = "Breaking news! ".to_owned();
    line.append(item.summary().as_str());
    line
}

/// Builds some item that offers [`Summary`]; which record type was built
/// stays hidden from the caller, who learns only what its summary says.
pub fn returns_summarizable() -> (item: impl Summary)
    ensures
        item.spec_summary()
            == "horse_ebooks: of course, as your probably already know, people"@,
{
    let item = Tweet {
        username: "horse_ebooks".to_owned(),
        content: "of course, as your probably already know, people".to_owned(),
        reply: false,
        retweet: false,
    };
    proof {
        reveal_strlit("horse_ebooks");
        reveal_strlit(": ");
        reveal_strlit("of course, as your probably already know, people");
        reveal_strlit("horse_ebooks: of course, as your probably already know, people");
        assert(item.spec_summary()
            =~= "horse_ebooks: of course, as your probably already know, people"@);
    }
    item
}

/// An article's summary leaves its body text out: two articles that agree
/// on headline, author and location have the same summary, whatever their
/// `content` fields hold.
pub proof fn lemma_article_summary_ignores_content(a: NewsArticle, b: NewsArticle)
    requires
        a.headline@ == b.headline@,
        a.author@ == b.author@,
        a.location@ == b.location@,
    ensures
        a.spec_summary() == b.spec_summary(),
{
}

/// A tweet's summary is independent of its flags: two tweets that agree on
/// username and content have the same summary, whatever their `reply` and
/// `retweet` fields hold.
pub proof fn lemma_tweet_summary_ignores_flags(a: Tweet, b: Tweet)
    requires
        a.username@ == b.username@,
        a.content@ == b.content@,
    ensures
        a.spec_summary() == b.spec_summary(),
{
}

} // verus!
