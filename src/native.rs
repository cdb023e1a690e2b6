//! The platform's own path rules, reached through `std::path`, and the
//! boundary with its path types.
//!
//! Each rule that reads a path is a name for what its `std::path` function
//! returns on the path's text. A path made from UTF-8 text is cut by those
//! functions only at ASCII characters (separators, `.`, `:`), so every slice
//! they hand back reads as UTF-8 again.
use vstd::prelude::*;
use std::path::{Component, Path, PathBuf};
use crate::component::{Utf8Component, Utf8PrefixComponent};
use crate::path::Utf8Path;
use crate::path_buf::Utf8PathBuf;
use crate::model::{ends_in_root_or_prefix, ComponentView};

verus! {

#[verifier::external_type_specification]
#[verifier::external_body]
pub struct ExPath(Path);

#[verifier::external_type_specification]
#[verifier::external_body]
pub struct ExPathBuf(PathBuf);

/// The components that `Path::components` yields for the text `s`.
pub uninterp spec fn native_components(s: Seq<char>) -> Seq<ComponentView>;

/// Whether `Path::has_root` holds of the text `s`.
pub uninterp spec fn native_has_root(s: Seq<char>) -> bool;

/// Whether `Path::is_absolute` holds of the text `s`.
pub uninterp spec fn native_is_absolute(s: Seq<char>) -> bool;

/// The text of `Path::join` of `s` and `t`.
pub uninterp spec fn native_join(s: Seq<char>, t: Seq<char>) -> Seq<char>;

/// The text of `Path::parent` of `s`.
pub uninterp spec fn native_parent(s: Seq<char>) -> Option<Seq<char>>;

/// Whether `Path::starts_with` holds of `s` and `base`.
pub uninterp spec fn native_starts_with(s: Seq<char>, base: Seq<char>) -> bool;

/// Whether `Path::ends_with` holds of `s` and `child`.
pub uninterp spec fn native_ends_with(s: Seq<char>, child: Seq<char>) -> bool;

/// The text of `Path::strip_prefix` of `s` and `base`.
pub uninterp spec fn native_strip_prefix(s: Seq<char>, base: Seq<char>) -> Option<Seq<char>>;

/// How `Path::cmp` orders `s` and `t`: by components, under the platform's
/// rules for comparing them.
pub uninterp spec fn native_cmp(s: Seq<char>, t: Seq<char>) -> core::cmp::Ordering;

/// Relies on `Path::components`: the components of the path, in order.
#[verifier::external_body]
pub(crate) fn std_components<'a>(s: &'a str) -> (r: Vec<Utf8Component<'a>>)
    ensures
        r@.map_values(|c: Utf8Component<'a>| c@) == native_components(s@),
{
    Path::new(s).components().map(|c| match c {
        Component::Prefix(p) => Utf8Component::Prefix(Utf8PrefixComponent::new(
            p.as_os_str().to_str().unwrap_or_default(),
        )),
        Component::RootDir => Utf8Component::RootDir,
        Component::CurDir => Utf8Component::CurDir,
        Component::ParentDir => Utf8Component::ParentDir,
        Component::Normal(n) => Utf8Component::Normal(n.to_str().unwrap_or_default()),
    }).collect()
}

/// Relies on `Path::has_root`.
#[verifier::external_body]
pub(crate) fn std_has_root(s: &str) -> (r: bool)
    ensures
        r == native_has_root(s@),
{
    Path::new(s).has_root()
}

/// Relies on `Path::is_absolute`.
#[verifier::external_body]
pub(crate) fn std_is_absolute(s: &str) -> (r: bool)
    ensures
        r == native_is_absolute(s@),
{
    Path::new(s).is_absolute()
}

/// Relies on `Path::join`, which pushes `t` onto a copy of `s`: an absolute
/// `t` replaces the whole.
#[verifier::external_body]
pub(crate) fn std_join(s: &str, t: &str) -> (r: String)
    ensures
        r@ == native_join(s@, t@),
        native_is_absolute(t@) ==> r@ == t@,
{
    Path::new(s).join(t).into_os_string().into_string().unwrap_or_default()
}

/// Relies on `Path::parent`: the path without its final component, which is
/// `None` for the empty path and for one that ends in a root or a prefix.
#[verifier::external_body]
pub(crate) fn std_parent<'a>(s: &'a str) -> (r: Option<&'a str>)
    ensures
        r is None ==> native_parent(s@) is None,
        r matches Some(p) ==> native_parent(s@) == Some(p@),
        r is None <==> (s@.len() == 0 || ends_in_root_or_prefix(native_components(s@))),
        r matches Some(p) ==> native_components(p@) == native_components(s@).drop_last(),
{
    Path::new(s).parent().map(|p| p.to_str().unwrap_or_default())
}

/// Relies on `Path::starts_with`.
#[verifier::external_body]
pub(crate) fn std_starts_with(s: &str, base: &str) -> (r: bool)
    ensures
        r == native_starts_with(s@, base@),
{
    Path::new(s).starts_with(base)
}

/// Relies on `Path::ends_with`.
#[verifier::external_body]
pub(crate) fn std_ends_with(s: &str, child: &str) -> (r: bool)
    ensures
        r == native_ends_with(s@, child@),
{
    Path::new(s).ends_with(child)
}

/// Relies on `Path::strip_prefix`: it fails exactly where `starts_with` does
/// not hold, and what it returns, joined onto `base`, gives the path back.
#[verifier::external_body]
pub(crate) fn std_strip_prefix<'a>(s: &'a str, base: &str) -> (r: Option<&'a str>)
    ensures
        r is None ==> native_strip_prefix(s@, base@) is None,
        r matches Some(q) ==> native_strip_prefix(s@, base@) == Some(q@),
        r is Some <==> native_starts_with(s@, base@),
        r matches Some(q) ==> native_cmp(native_join(base@, q@), s@) == core::cmp::Ordering::Equal,
{
    Path::new(s).strip_prefix(base).ok().map(|p| p.to_str().unwrap_or_default())
}

/// Relies on `Path::cmp`.
#[verifier::external_body]
pub(crate) fn std_cmp(s: &str, t: &str) -> (r: core::cmp::Ordering)
    ensures
        r == native_cmp(s@, t@),
{
    Path::new(s).cmp(Path::new(t))
}

/// Relies on `std::path::MAIN_SEPARATOR_STR`, the text of a root: one
/// character.
#[verifier::external_body]
pub(crate) fn main_separator() -> (r: &'static str)
    ensures
        r@.len() == 1,
{
    std::path::MAIN_SEPARATOR_STR
}

/// The text of a native path, where its bytes are valid UTF-8.
pub uninterp spec fn native_text(p: &Path) -> Option<Seq<char>>;

/// Relies on `Path::to_str`: the text of the path where it is valid Unicode,
/// else `None`.
#[verifier::external_body]
fn path_to_str(p: &Path) -> (r: Option<&str>)
    ensures
        r matches Some(s) ==> native_text(p) == Some(s@),
        r is None ==> native_text(p) is None,
{
    p.to_str()
}

/// The text of a native owned path, where its bytes are valid UTF-8.
pub uninterp spec fn native_buf_text(p: &PathBuf) -> Option<Seq<char>>;

/// Relies on `Path::to_str`, reached through `PathBuf`'s `Deref`: the text of
/// the path where it is valid Unicode, else `None`.
#[verifier::external_body]
fn path_buf_to_str(p: &PathBuf) -> (r: Option<&str>)
    ensures
        r matches Some(s) ==> native_buf_text(p) == Some(s@),
        r is None ==> native_buf_text(p) is None,
{
    p.to_str()
}

/// Relies on `PathBuf::from(String)`: the path holds the string's bytes, so
/// its text is the string.
#[verifier::external_body]
fn path_buf_from_string(s: String) -> (r: PathBuf)
    ensures
        native_buf_text(&r) == Some(s@),
{
    PathBuf::from(s)
}

/// Relies on `Path::new`: the path wraps the string's bytes, so its text is
/// the string.
#[verifier::external_body]
fn path_of_str(s: &str) -> (r: &Path)
    ensures
        native_text(r) == Some(s@),
{
    Path::new(s)
}

/// Relies on `Path::join` where `path` is not UTF-8: the result holds its
/// bytes, so it is not UTF-8 either.
#[verifier::external_body]
fn std_join_os(base: &Path, path: &Path) -> (r: PathBuf)
    ensures
        native_text(path) is None ==> native_buf_text(&r) is None,
{
    base.join(path)
}

impl Utf8PathBuf {
    /// The native path as a UTF-8 path; where it is not valid UTF-8, the
    /// native path itself comes back, untouched, as the error.
    pub fn from_path_buf(path: PathBuf) -> (r: Result<Utf8PathBuf, PathBuf>)
        ensures
            native_buf_text(&path) matches Some(t) ==> r matches Ok(u) && u@ == t,
            native_buf_text(&path) is None ==> r == Err::<Utf8PathBuf, PathBuf>(path),
    {
        let text = match path_buf_to_str(&path) {
            Some(s) => Some(s.to_owned()),
            None => None,
        };
        match text {
            Some(t) => Ok(Utf8PathBuf::from_string(t)),
            None => Err(path),
        }
    }

    /// The path as a native one, with the same text.
    pub fn into_std_path_buf(self) -> (r: PathBuf)
        ensures
            native_buf_text(&r) == Some(self@),
    {
        path_buf_from_string(self.into_string())
    }
}

impl From<Utf8PathBuf> for PathBuf {
    fn from(p: Utf8PathBuf) -> (r: PathBuf) {
        p.into_std_path_buf()
    }
}

impl vstd::std_specs::convert::FromSpecImpl<Utf8PathBuf> for PathBuf {
    open spec fn obeys_from_spec() -> bool {
        false
    }

    closed spec fn from_spec(p: Utf8PathBuf) -> PathBuf {
        arbitrary()
    }
}

impl<'a> Utf8Path<'a> {
    /// The path as a native one, with the same text.
    pub fn as_std_path(&self) -> (r: &'a Path)
        ensures
            native_text(r) == Some(self@),
    {
        path_of_str(self.as_str())
    }

    /// The path with a native path appended. Where `path` is UTF-8 this is
    /// `join`; else the platform joins the two.
    pub fn join_os(&self, path: &Path) -> (r: PathBuf)
        ensures
            native_text(path) matches Some(t) ==> native_buf_text(&r) == Some(native_join(self@, t)),
            native_text(path) is None ==> native_buf_text(&r) is None,
    {
        match path_to_str(path) {
            Some(t) => self.join(t).into_std_path_buf(),
            None => std_join_os(self.as_std_path(), path),
        }
    }

    /// The native path as a UTF-8 path, without copying; `None` where it is
    /// not valid UTF-8.
    pub fn from_path(path: &'a Path) -> (r: Option<Utf8Path<'a>>)
        ensures
            r matches Some(q) ==> native_text(path) == Some(q@),
            r is None ==> native_text(path) is None,
    {
        match path_to_str(path) {
            Some(s) => Some(Utf8Path::new(s)),
            None => None,
        }
    }
}

} // verus!

verus! {

impl AsRef<Path> for Utf8PathBuf {
    fn as_ref(&self) -> &Path {
        path_of_str(self.as_str())
    }
}

impl<'a> AsRef<Path> for Utf8Path<'a> {
    fn as_ref(&self) -> &Path {
        path_of_str(self.as_str())
    }
}

impl<'a> AsRef<str> for Utf8Path<'a> {
    fn as_ref(&self) -> &str {
        self.as_str()
    }
}

} // verus!
