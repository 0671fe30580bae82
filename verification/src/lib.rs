//! Small utilities for picking extreme values, together with a
//! summarisation capability for text-bearing records.
//!
//! The library offers four things:
//! - the maximum element of a non-empty slice (`largest_i32`,
//!   `largest_char`, and the generic `largest`), where an empty slice is
//!   reported as an error rather than a panic;
//! - the longer of two string slices (`longest`), where the first
//!   argument wins a length tie;
//! - generic point types (`Point`, `MultiTypePoint`) whose accessors
//!   return exactly the stored coordinates;
//! - a `Summarizable` trait with a default summary built from an author
//!   line, implemented for news articles and tweets.

pub mod maximum;
pub mod points;
pub mod spans;
pub mod summaries;

pub use maximum::largest;
pub use maximum::largest_char;
pub use maximum::largest_i32;
pub use maximum::EmptyInputError;
pub use points::MultiTypePoint;
pub use points::Point;
pub use spans::longest;
pub use summaries::NewsArticle;
pub use summaries::Summarizable;
pub use summaries::Tweet;
