//! Things that can be summed up in a line.

use vstd::prelude::*;
use vstd::string::*;

verus! {

/// Something with a one-line summary of its own.
pub trait Summary {
    /// The summary, as a sequence of characters.
    spec fn summary_text(&self) -> Seq<char>;

    /// Writes the summary out.
    fn summarize(&self) -> (text: String)
        ensures
            text@ == self.summary_text(),
    ;
}

/// A news article.
pub struct NewsArticle {
    pub headline: String,
    pub location: String,
    pub author: String,
    pub content: String,
}

/// A short public post.
pub struct Tweet {
    pub username: String,
    pub content: String,
    pub reply: bool,
    pub retweet: bool,
}

impl Summary for NewsArticle {
    /// `headline, by author (location)`.
    open spec fn summary_text(&self) -> Seq<char> {
        self.headline@ + ", by "@ + self.author@ + " ("@ + self.location@ + ")"@
    }

    fn summarize(&self) -> (text: String) {
        let mut text = self.headline.clone();
        text.append(", by ");
        text.append(self.author.as_str());
        text.append(" (");
        text.append(self.location.as_str());
        text.append(")");
        text
    }
}

impl Summary for Tweet {
    /// `username: content`.
    open spec fn summary_text(&self) -> Seq<char> {
        self.username@ + ": "@ + self.content@
    }

    fn summarize(&self) -> (text: String) {
        let mut text = self.username.clone();
        text.append(": ");
        text.append(self.content.as_str());
        text
    }
}

/// A tweet that stands in wherever some summary is wanted.
pub fn returns_summarizable() -> (item: impl Summary)
    ensures
        item.summary_text() == "horse_ebooks"@ + ": "@
            + "of course, as you probably already know, people"@,
{
    Tweet {
        username: String::from_str("horse_ebooks"),
        content: String::from_str("of course, as you probably already know, people"),
        reply: false,
        retweet: false,
    }
}

} // verus!
