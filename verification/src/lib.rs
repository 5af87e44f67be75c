//! Release version bumping: find a project's current version, compute the next one,
//! rewrite the files that mention it, and sequence the commit, tag and push that follow.

pub mod locator;
pub mod pattern;
pub mod pipeline;
pub mod precedence;
pub mod rewriter;
pub mod text;
pub mod version;
