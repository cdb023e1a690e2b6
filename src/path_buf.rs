//! The owned path: a growable UTF-8 text, read as a path.
use vstd::prelude::*;
use vstd::utf8::encode_utf8;
use crate::model::{file_name, join_all, set_extension, set_file_name, with_extension_name};
use crate::native::{
    native_cmp, native_is_absolute, native_join, native_parent, std_cmp, std_join, std_parent,
};
use crate::path::Utf8Path;

verus! {

/// An owned path whose text is UTF-8.
#[derive(Clone, Debug)]
pub struct Utf8PathBuf {
    inner: String,
}

impl View for Utf8PathBuf {
    type V = Seq<char>;

    closed spec fn view(&self) -> Seq<char> {
        self.inner@
    }
}

impl Utf8PathBuf {
    /// An empty path.
    pub fn new() -> (r: Utf8PathBuf)
        ensures
            r@ == Seq::<char>::empty(),
    {
        Utf8PathBuf { inner: String::new() }
    }

    /// An empty path with room for `capacity` bytes.
    pub fn with_capacity(capacity: usize) -> (r: Utf8PathBuf)
        requires
            capacity <= isize::MAX,
        ensures
            r@ == Seq::<char>::empty(),
    {
        Utf8PathBuf { inner: string_with_capacity(capacity) }
    }

    /// The path that `s` spells.
    pub fn from_string(s: String) -> (r: Utf8PathBuf)
        ensures
            r@ == s@,
    {
        Utf8PathBuf { inner: s }
    }

    /// The path as a borrowed one.
    pub fn as_path(&self) -> (r: Utf8Path<'_>)
        ensures
            r@ == self@,
    {
        Utf8Path::new(self.inner.as_str())
    }

    /// The text of the path.
    pub fn as_str(&self) -> (r: &str)
        ensures
            r@ == self@,
    {
        self.inner.as_str()
    }

    /// Pushes `path` onto the path, by the platform's rules: an absolute
    /// `path` replaces the whole.
    pub fn push(&mut self, path: &str)
        ensures
            final(self)@ == native_join(old(self)@, path@),
            native_is_absolute(path@) ==> final(self)@ == path@,
    {
        self.inner = std_join(self.inner.as_str(), path);
    }

    /// Cuts the path back to its parent. Returns `false`, and leaves the path
    /// as it was, where there is no parent.
    pub fn pop(&mut self) -> (r: bool)
        ensures
            r == native_parent(old(self)@) is Some,
            r ==> final(self)@ == native_parent(old(self)@)->0,
            !r ==> final(self)@ == old(self)@,
    {
        let cut = match std_parent(self.inner.as_str()) {
            Some(p) => Some(p.to_owned()),
            None => None,
        };
        match cut {
            Some(s) => {
                self.inner = s;
                true
            },
            None => false,
        }
    }

    /// Replaces the file name by `file_name`, or pushes it where there is none.
    pub fn set_file_name(&mut self, file_name: &str)
        ensures
            final(self)@ == set_file_name(old(self)@, file_name@),
    {
        if self.as_path().file_name().is_some() {
            self.pop();
        }
        self.push(file_name);
    }

    /// Replaces the extension of the file name by `extension`, or removes it
    /// where `extension` is empty. Returns `false`, and leaves the path as it
    /// was, where there is no file name.
    pub fn set_extension(&mut self, extension: &str) -> (r: bool)
        ensures
            r == file_name(old(self)@) is Some,
            r ==> final(self)@ == set_extension(old(self)@, extension@)->0,
            !r ==> final(self)@ == old(self)@,
    {
        let ghost name = file_name(self@);
        let stem = match self.as_path().file_stem() {
            Some(stem) => stem.to_owned(),
            None => {
                return false;
            },
        };
        let mut new_name = stem;
        if extension.unicode_len() > 0 {
            proof {
                reveal_strlit(".");
            }
            new_name.append(".");
            new_name.append(extension);
            assert("."@ =~= seq!['.']);
        }
        assert(new_name@ =~= with_extension_name(name->0, extension@));
        self.set_file_name(new_name.as_str());
        true
    }

    /// Pushes each of `paths` in turn.
    pub fn extend(&mut self, paths: &[&str])
        ensures
            final(self)@ == join_all(old(self)@, paths@.map_values(|t: &str| t@)),
    {
        let ghost ts = paths@.map_values(|t: &str| t@);
        let mut i: usize = 0;
        while i < paths.len()
            invariant
                i <= paths@.len(),
                ts == paths@.map_values(|t: &str| t@),
                self@ == join_all(old(self)@, ts.take(i as int)),
            decreases paths@.len() - i,
        {
            assert(ts.take(i + 1).drop_last() =~= ts.take(i as int));
            self.push(paths[i]);
            i += 1;
        }
        assert(ts.take(paths@.len() as int) =~= ts);
    }

    /// The path that pushing each of `paths` onto an empty one builds.
    pub fn from_paths(paths: &[&str]) -> (r: Utf8PathBuf)
        ensures
            r@ == join_all(Seq::empty(), paths@.map_values(|t: &str| t@)),
    {
        let mut buf = Utf8PathBuf::new();
        buf.extend(paths);
        buf
    }

    /// The text of the path, as a `String`.
    pub fn into_string(self) -> (r: String)
        ensures
            r@ == self@,
    {
        self.inner
    }

    /// How many bytes the path can hold before it must grow.
    pub fn capacity(&self) -> (r: usize)
        ensures
            r >= encode_utf8(self@).len(),
    {
        string_capacity(&self.inner)
    }

    /// Empties the path.
    pub fn clear(&mut self)
        ensures
            final(self)@ == Seq::<char>::empty(),
    {
        string_clear(&mut self.inner);
    }

    /// Makes room for at least `additional` more bytes.
    pub fn reserve(&mut self, additional: usize)
        requires
            encode_utf8(old(self)@).len() + additional <= isize::MAX,
        ensures
            final(self)@ == old(self)@,
    {
        string_reserve(&mut self.inner, additional);
    }

    /// Makes room for exactly `additional` more bytes, where there is less.
    pub fn reserve_exact(&mut self, additional: usize)
        requires
            encode_utf8(old(self)@).len() + additional <= isize::MAX,
        ensures
            final(self)@ == old(self)@,
    {
        string_reserve_exact(&mut self.inner, additional);
    }

    /// Gives back the room that the path does not use.
    pub fn shrink_to_fit(&mut self)
        ensures
            final(self)@ == old(self)@,
    {
        string_shrink_to_fit(&mut self.inner);
    }
}

/// Relies on `String::with_capacity`: an empty string; it panics only past
/// `isize::MAX` bytes.
#[verifier::external_body]
fn string_with_capacity(capacity: usize) -> (r: String)
    requires
        capacity <= isize::MAX,
    ensures
        r@ == Seq::<char>::empty(),
{
    String::with_capacity(capacity)
}

/// Relies on `String::capacity`: never less than the length in bytes.
#[verifier::external_body]
fn string_capacity(s: &String) -> (r: usize)
    ensures
        r >= encode_utf8(s@).len(),
{
    s.capacity()
}

/// Relies on `String::clear`: the string becomes empty.
#[verifier::external_body]
fn string_clear(s: &mut String)
    ensures
        final(s)@ == Seq::<char>::empty(),
{
    s.clear()
}

/// Relies on `String::reserve`: the text stays; it panics only past
/// `isize::MAX` bytes.
#[verifier::external_body]
fn string_reserve(s: &mut String, additional: usize)
    requires
        encode_utf8(old(s)@).len() + additional <= isize::MAX,
    ensures
        final(s)@ == old(s)@,
{
    s.reserve(additional)
}

/// Relies on `String::reserve_exact`: the text stays; it panics only past
/// `isize::MAX` bytes.
#[verifier::external_body]
fn string_reserve_exact(s: &mut String, additional: usize)
    requires
        encode_utf8(old(s)@).len() + additional <= isize::MAX,
    ensures
        final(s)@ == old(s)@,
{
    s.reserve_exact(additional)
}

/// Relies on `String::shrink_to_fit`: the text stays.
#[verifier::external_body]
fn string_shrink_to_fit(s: &mut String)
    ensures
        final(s)@ == old(s)@,
{
    s.shrink_to_fit()
}

} // verus!

verus! {

impl PartialEq for Utf8PathBuf {
    fn eq(&self, other: &Utf8PathBuf) -> (r: bool) {
        match std_cmp(self.inner.as_str(), other.inner.as_str()) {
            core::cmp::Ordering::Equal => true,
            _ => false,
        }
    }
}

impl vstd::std_specs::cmp::PartialEqSpecImpl for Utf8PathBuf {
    open spec fn obeys_eq_spec() -> bool {
        true
    }

    open spec fn eq_spec(&self, other: &Utf8PathBuf) -> bool {
        native_cmp(self@, other@) == core::cmp::Ordering::Equal
    }
}

impl Eq for Utf8PathBuf {

}

impl Default for Utf8PathBuf {
    fn default() -> (r: Utf8PathBuf)
        ensures
            r@ == Seq::<char>::empty(),
    {
        Utf8PathBuf::new()
    }
}

impl PartialOrd for Utf8PathBuf {
    fn partial_cmp(&self, other: &Utf8PathBuf) -> (r: Option<core::cmp::Ordering>) {
        Some(std_cmp(self.inner.as_str(), other.inner.as_str()))
    }
}

impl vstd::std_specs::cmp::PartialOrdSpecImpl for Utf8PathBuf {
    open spec fn obeys_partial_cmp_spec() -> bool {
        true
    }

    open spec fn partial_cmp_spec(&self, other: &Utf8PathBuf) -> Option<core::cmp::Ordering> {
        Some(native_cmp(self@, other@))
    }
}

impl From<String> for Utf8PathBuf {
    fn from(s: String) -> (r: Utf8PathBuf) {
        Utf8PathBuf { inner: s }
    }
}

impl vstd::std_specs::convert::FromSpecImpl<String> for Utf8PathBuf {
    open spec fn obeys_from_spec() -> bool {
        true
    }

    closed spec fn from_spec(s: String) -> Utf8PathBuf {
        Utf8PathBuf { inner: s }
    }
}

impl<'b> From<&'b str> for Utf8PathBuf {
    fn from(s: &'b str) -> (r: Utf8PathBuf) {
        Utf8PathBuf { inner: s.to_owned() }
    }
}

impl<'b> vstd::std_specs::convert::FromSpecImpl<&'b str> for Utf8PathBuf {
    open spec fn obeys_from_spec() -> bool {
        false
    }

    closed spec fn from_spec(s: &'b str) -> Utf8PathBuf {
        arbitrary()
    }
}

impl From<Utf8PathBuf> for String {
    fn from(p: Utf8PathBuf) -> (r: String) {
        p.into_string()
    }
}

impl vstd::std_specs::convert::FromSpecImpl<Utf8PathBuf> for String {
    open spec fn obeys_from_spec() -> bool {
        false
    }

    closed spec fn from_spec(p: Utf8PathBuf) -> String {
        arbitrary()
    }
}

} // verus!

verus! {

impl AsRef<str> for Utf8PathBuf {
    fn as_ref(&self) -> &str {
        self.inner.as_str()
    }
}

} // verus!
