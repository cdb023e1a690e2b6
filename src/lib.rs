//! Paths whose text is guaranteed to be UTF-8: an owned `Utf8PathBuf` and a
//! borrowed `Utf8Path`.
//!
//! A path is stored as its text, so it is UTF-8 by construction. How the text
//! reads as a path (its components, whether it is absolute, how paths join,
//! how they compare) is the platform's own rule: `native` reaches it through
//! `std::path` and names each result over the text. What the library builds on
//! those rules (file names, stems and extensions, popping, renaming, bulk
//! pushing, iteration) is verified against them, in `model`.
//!
//! Equality and order are the platform's order of components, so `a//b/`
//! equals `a/b`. The path types do not implement `Hash`: a hash of the text
//! would tell such equal paths apart.
use vstd::prelude::*;

pub mod component;
pub mod laws;
pub mod model;
pub mod native;
pub mod path;
pub mod path_buf;
mod text;

pub use component::{Utf8Component, Utf8Components, Utf8PrefixComponent};
pub use path::{StripPrefixError, Utf8Ancestors, Utf8Path};
pub use path_buf::Utf8PathBuf;

verus! {

} // verus!
