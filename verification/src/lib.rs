//! Decides where on the local filesystem a source-control repository should
//! be cloned: a template language over placeholders (`{host}`, `{owner}`, ...),
//! a normalizer that turns loosely-formed input (SSH shorthand, scheme-less
//! hosts) into a canonical URL, an extractor that derives host, path, owner
//! and repository name from that URL, and a renderer that joins the two into
//! a destination path.

pub mod chars;
pub mod clipboard;
pub mod extract;
pub mod grab;
pub mod pattern;
pub mod render;
pub mod urls;
