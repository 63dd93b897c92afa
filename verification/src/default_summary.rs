//! Summaries with a fallback: a type may write its own or keep the stock line.

use crate::summary::{NewsArticle, Tweet};
use vstd::prelude::*;
use vstd::string::*;

verus! {

/// The line that stands in where a type has no summary of its own.
pub open spec fn stock_summary() -> Seq<char> {
    "(Read more...)"@
}

/// Something with a summary that falls back on a stock line.
pub trait DefaultSummary {
    /// Whether this type keeps the stock line. A type that writes its own
    /// summary says `false` here and states its text on `summarize`.
    open spec fn keeps_stock_summary(&self) -> bool {
        true
    }

    /// Writes the summary out.
    fn summarize(&self) -> (text: String)
        ensures
            self.keeps_stock_summary() ==> text@ == stock_summary(),
    {
        String::from_str("(Read more...)")
    }
}

impl DefaultSummary for NewsArticle {
}

impl DefaultSummary for Tweet {
    open spec fn keeps_stock_summary(&self) -> bool {
        false
    }

    /// `username: content (custom default)`.
    fn summarize(&self) -> (text: String)
        ensures
            text@ == self.username@ + ": "@ + self.content@ + " (custom default)"@,
    {
        let mut text = self.username.clone();
        text.append(": ");
        text.append(self.content.as_str());
        text.append(" (custom default)");
        text
    }
}

} // verus!
