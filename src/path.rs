//! The borrowed path: a view of UTF-8 text, read by the platform's rules.
use vstd::prelude::*;
use crate::component::{Utf8Component, Utf8Components};
use crate::model::{
    ends_in_root_or_prefix, extension, file_name, file_stem, last_dot, set_extension,
    set_file_name, stem_of,
};
use crate::native::{
    native_cmp, native_components, native_ends_with, native_has_root, native_is_absolute,
    native_join, native_parent, native_starts_with, native_strip_prefix, std_cmp, std_components,
    std_ends_with, std_has_root, std_is_absolute, std_parent, std_starts_with, std_strip_prefix,
};
use crate::path_buf::Utf8PathBuf;
use crate::text::{chars_of, last_dot_in};

verus! {

/// A path borrowed from UTF-8 text. It never owns its text.
#[derive(Clone, Copy, Debug)]
pub struct Utf8Path<'a> {
    inner: &'a str,
}

impl<'a> View for Utf8Path<'a> {
    type V = Seq<char>;

    closed spec fn view(&self) -> Seq<char> {
        self.inner@
    }
}

/// Why a path could not be stripped of a base: the base's components are not
/// the first ones of the path.
#[derive(Clone, Copy, Debug, PartialEq, Eq)]
pub struct StripPrefixError;

impl<'a> Utf8Path<'a> {
    /// Wraps UTF-8 text as a path, without copying it.
    pub fn new(s: &'a str) -> (r: Utf8Path<'a>)
        ensures
            r@ == s@,
    {
        Utf8Path { inner: s }
    }

    /// The text of the path.
    pub fn as_str(&self) -> (r: &'a str)
        ensures
            r@ == self@,
    {
        self.inner
    }

    /// Whether the path has a root, by the platform's rules.
    pub fn has_root(&self) -> (r: bool)
        ensures
            r == native_has_root(self@),
    {
        std_has_root(self.inner)
    }

    /// Whether the path is absolute, by the platform's rules.
    pub fn is_absolute(&self) -> (r: bool)
        ensures
            r == native_is_absolute(self@),
    {
        std_is_absolute(self.inner)
    }

    /// Whether the path is relative, that is not absolute.
    pub fn is_relative(&self) -> (r: bool)
        ensures
            r == !native_is_absolute(self@),
    {
        !self.is_absolute()
    }

    /// The components of the path, front to back.
    pub fn components(&self) -> (r: Utf8Components<'a>)
        ensures
            r.wf(),
            r@ == native_components(self@),
    {
        Utf8Components::from_vec(std_components(self.inner))
    }

    /// The last component when it is a normal one: `None` for a path that
    /// ends in `..`, a root or a prefix, or is empty.
    pub fn file_name(&self) -> (r: Option<&'a str>)
        ensures
            r matches Some(n) ==> file_name(self@) == Some(n@),
            r is None ==> file_name(self@) is None,
    {
        let cs = std_components(self.inner);
        let n = cs.len();
        if n == 0 {
            return None;
        }
        assert(cs@.map_values(|c: Utf8Component<'a>| c@).last() == cs@[n - 1]@);
        match cs[n - 1] {
            Utf8Component::Normal(t) => Some(t),
            _ => None,
        }
    }

    /// The file name without its extension.
    pub fn file_stem(&self) -> (r: Option<&'a str>)
        ensures
            r matches Some(n) ==> file_stem(self@) == Some(n@),
            r is None ==> file_stem(self@) is None,
    {
        match self.file_name() {
            Some(name) => {
                let cs = chars_of(name);
                match last_dot_in(&cs) {
                    Some(d) if d > 0 => {
                        let stem = name.substring_char(0, d);
                        assert(stem@ =~= stem_of(name@));
                        Some(stem)
                    },
                    _ => Some(name),
                }
            },
            None => None,
        }
    }

    /// What follows the last `.` of the file name, unless that `.` begins it.
    pub fn extension(&self) -> (r: Option<&'a str>)
        ensures
            r matches Some(e) ==> extension(self@) == Some(e@),
            r is None ==> extension(self@) is None,
    {
        match self.file_name() {
            Some(name) => {
                let cs = chars_of(name);
                match last_dot_in(&cs) {
                    Some(d) if d > 0 => {
                        let n = name.unicode_len();
                        let ext = name.substring_char(d + 1, n);
                        assert(ext@ =~= name@.skip(last_dot(name@) + 1));
                        Some(ext)
                    },
                    _ => None,
                }
            },
            None => None,
        }
    }

    /// The path without its final component; `None` for the empty path and
    /// for one that ends in a root or a prefix.
    pub fn parent(&self) -> (r: Option<Utf8Path<'a>>)
        ensures
            r matches Some(q) ==> native_parent(self@) == Some(q@),
            r is None ==> native_parent(self@) is None,
            r is None <==> (self@.len() == 0 || ends_in_root_or_prefix(native_components(self@))),
            r matches Some(q) ==> native_components(q@) == native_components(self@).drop_last(),
    {
        match std_parent(self.inner) {
            Some(p) => Some(Utf8Path { inner: p }),
            None => None,
        }
    }

    /// Whether the components of `base` are the first ones of the path.
    pub fn starts_with(&self, base: &str) -> (r: bool)
        ensures
            r == native_starts_with(self@, base@),
    {
        std_starts_with(self.inner, base)
    }

    /// Whether the components of `child` are the last ones of the path.
    pub fn ends_with(&self, child: &str) -> (r: bool)
        ensures
            r == native_ends_with(self@, child@),
    {
        std_ends_with(self.inner, child)
    }

    /// The path without the components of `base`, which must be its first
    /// ones. Joined onto `base`, the rest gives back a path equal to this one.
    pub fn strip_prefix(&self, base: &str) -> (r: Result<Utf8Path<'a>, StripPrefixError>)
        ensures
            r is Ok <==> native_starts_with(self@, base@),
            r is Err ==> native_strip_prefix(self@, base@) is None,
            r matches Ok(q) ==> native_strip_prefix(self@, base@) == Some(q@),
            r matches Ok(q) ==> native_cmp(native_join(base@, q@), self@)
                == core::cmp::Ordering::Equal,
    {
        match std_strip_prefix(self.inner, base) {
            Some(q) => Ok(Utf8Path { inner: q }),
            None => Err(StripPrefixError),
        }
    }

    /// A copy of the path, owned.
    pub fn to_path_buf(&self) -> (r: Utf8PathBuf)
        ensures
            r@ == self@,
    {
        Utf8PathBuf::from_string(self.inner.to_owned())
    }

    /// The path with `path` pushed onto it; an absolute `path` replaces it.
    pub fn join(&self, path: &str) -> (r: Utf8PathBuf)
        ensures
            r@ == native_join(self@, path@),
            native_is_absolute(path@) ==> r@ == path@,
    {
        let mut buf = self.to_path_buf();
        buf.push(path);
        buf
    }

    /// The path with its file name replaced by `file_name`.
    pub fn with_file_name(&self, file_name: &str) -> (r: Utf8PathBuf)
        ensures
            r@ == set_file_name(self@, file_name@),
    {
        let mut buf = self.to_path_buf();
        buf.set_file_name(file_name);
        buf
    }

    /// The path with the extension of its file name replaced by `extension`;
    /// the path unchanged where there is no file name.
    pub fn with_extension(&self, extension: &str) -> (r: Utf8PathBuf)
        ensures
            set_extension(self@, extension@) matches Some(t) ==> r@ == t,
            set_extension(self@, extension@) is None ==> r@ == self@,
    {
        let mut buf = self.to_path_buf();
        buf.set_extension(extension);
        buf
    }

    /// The path and each of its ancestors in turn, up to the last one that
    /// has no parent.
    pub fn ancestors(&self) -> (r: Utf8Ancestors<'a>)
        ensures
            r@ == Some(self@),
    {
        Utf8Ancestors { next: Some(*self) }
    }
}

/// The ancestors of a path still to come: the path itself, then its parent,
/// its parent's parent, and so on.
#[derive(Clone, Copy, Debug)]
pub struct Utf8Ancestors<'a> {
    next: Option<Utf8Path<'a>>,
}

impl<'a> View for Utf8Ancestors<'a> {
    type V = Option<Seq<char>>;

    closed spec fn view(&self) -> Option<Seq<char>> {
        match self.next {
            Some(p) => Some(p@),
            None => None,
        }
    }
}

impl<'a> Utf8Ancestors<'a> {
    /// Hands out the next ancestor, and moves on to its parent.
    pub fn next(&mut self) -> (r: Option<Utf8Path<'a>>)
        ensures
            old(self)@ is None ==> r is None && final(self)@ is None,
            old(self)@ matches Some(p) ==> r is Some && r->0@ == p && final(self)@
                == native_parent(p),
    {
        match self.next {
            Some(p) => {
                self.next = p.parent();
                Some(p)
            },
            None => None,
        }
    }
}

impl<'a> PartialEq for Utf8Path<'a> {
    fn eq(&self, other: &Utf8Path<'a>) -> (r: bool) {
        match std_cmp(self.inner, other.inner) {
            core::cmp::Ordering::Equal => true,
            _ => false,
        }
    }
}

impl<'a> vstd::std_specs::cmp::PartialEqSpecImpl for Utf8Path<'a> {
    open spec fn obeys_eq_spec() -> bool {
        true
    }

    open spec fn eq_spec(&self, other: &Utf8Path<'a>) -> bool {
        native_cmp(self@, other@) == core::cmp::Ordering::Equal
    }
}

impl<'a> Eq for Utf8Path<'a> {

}

impl<'a> PartialOrd for Utf8Path<'a> {
    fn partial_cmp(&self, other: &Utf8Path<'a>) -> (r: Option<core::cmp::Ordering>) {
        Some(std_cmp(self.inner, other.inner))
    }
}

impl<'a> vstd::std_specs::cmp::PartialOrdSpecImpl for Utf8Path<'a> {
    open spec fn obeys_partial_cmp_spec() -> bool {
        true
    }

    open spec fn partial_cmp_spec(&self, other: &Utf8Path<'a>) -> Option<core::cmp::Ordering> {
        Some(native_cmp(self@, other@))
    }
}

} // verus!
