//! A summarisation capability for text-bearing records.
//!
//! `Summarizable` asks each implementing type for an author line and
//! offers a default one-line summary built from it; an implementer may
//! override the summary entirely, and calls resolve to the override
//! where one is supplied.

use vstd::prelude::*;

verus! {

/// A record that can describe its author and summarise itself. The
/// summary defaults to a "read more" line built from the author line,
/// but an implementer may supply its own summary.
pub trait Summarizable {
    /// The author line the default summary is built from.
    spec fn spec_author_summary(&self) -> Seq<char>;

    /// A line naming the record's author.
    fn author_summary(&self) -> (r: String)
        ensures
            r@ == self.spec_author_summary(),
    ;

    /// A one-line summary of the record; unless overridden, a pointer
    /// to the author.
    fn summary(&self) -> (r: String)
        default_ensures
            r@ == "read more from: "@ + self.spec_author_summary(),
    {
        let mut line = String::from_str("read more from: ");
        let author = self.author_summary();
        line.append(author.as_str());
        line
    }
}

/// A news article with a headline, a location, an author and a body.
pub struct NewsArticle {
    pub headline: String,
    pub location: String,
    pub author: String,
    pub content: String,
}

impl Summarizable for NewsArticle {
    open spec fn spec_author_summary(&self) -> Seq<char> {
        "written by "@ + self.author@
    }

    fn author_summary(&self) -> (r: String) {
        let mut line = String::from_str("written by ");
        line.append(self.author.as_str());
        line
    }

    /// An article's own summary: headline, author and location.
    fn summary(&self) -> (r: String)
        ensures
            r@ == self.headline@ + ", by "@ + self.author@ + " ("@ + self.location@ + ")"@,
    {
        let mut line = self.headline.clone();
        line.append(", by ");
        line.append(self.author.as_str());
        line.append(" (");
        line.append(self.location.as_str());
        line.append(")");
        line
    }
}

/// A short post with its author's handle and two reply/repost marks.
pub struct Tweet {
    pub username: String,
    pub content: String,
    pub reply: bool,
    pub retweet: bool,
}

impl Summarizable for Tweet {
    open spec fn spec_author_summary(&self) -> Seq<char> {
        "@"@ + self.username@
    }

    fn author_summary(&self) -> (r: String) {
        let mut line = String::from_str("@");
        line.append(self.username.as_str());
        line
    }
}

} // verus!
