//! What the library states of paths. How a path is read (its components,
//! whether it is absolute, how two paths join) is the platform's own rule,
//! named in `native`; what the library computes on top of it is stated here.
use vstd::prelude::*;
use crate::native::{native_components, native_join, native_parent};

verus! {

/// What a component is, as a value: prefixes and normal components carry
/// their text.
pub enum ComponentView {
    Prefix(Seq<char>),
    RootDir,
    CurDir,
    ParentDir,
    Normal(Seq<char>),
}

/// Whether a run of components ends in a root or a prefix.
pub open spec fn ends_in_root_or_prefix(cs: Seq<ComponentView>) -> bool {
    cs.len() > 0 && (cs.last() is RootDir || cs.last() is Prefix)
}

/// The last component, where it is a normal one.
pub open spec fn file_name(s: Seq<char>) -> Option<Seq<char>> {
    let cs = native_components(s);
    if cs.len() > 0 && cs.last() is Normal {
        Some(cs.last()->Normal_0)
    } else {
        None
    }
}

/// The index of the last `.` of a name, or -1.
pub open spec fn last_dot(name: Seq<char>) -> int
    decreases name.len(),
{
    if name.len() == 0 {
        -1
    } else if name.last() == '.' {
        name.len() - 1
    } else {
        last_dot(name.drop_last())
    }
}

/// The name without its extension; a name with no `.` but a leading one is
/// all stem.
pub open spec fn stem_of(name: Seq<char>) -> Seq<char> {
    if last_dot(name) <= 0 {
        name
    } else {
        name.take(last_dot(name))
    }
}

/// What follows the last `.` of a name, where that `.` is not its first
/// character.
pub open spec fn extension_of(name: Seq<char>) -> Option<Seq<char>> {
    if last_dot(name) <= 0 {
        None
    } else {
        Some(name.skip(last_dot(name) + 1))
    }
}

pub open spec fn file_stem(s: Seq<char>) -> Option<Seq<char>> {
    match file_name(s) {
        Some(n) => Some(stem_of(n)),
        None => None,
    }
}

pub open spec fn extension(s: Seq<char>) -> Option<Seq<char>> {
    match file_name(s) {
        Some(n) => extension_of(n),
        None => None,
    }
}

/// The path with its file name replaced by `name`: the parent with `name`
/// pushed, or `name` pushed onto the path where there is no file name.
pub open spec fn set_file_name(s: Seq<char>, name: Seq<char>) -> Seq<char> {
    if file_name(s) is Some && native_parent(s) is Some {
        native_join(native_parent(s)->0, name)
    } else {
        native_join(s, name)
    }
}

/// The file name that carries the stem of `name` and the extension `ext`,
/// or no extension where `ext` is empty.
pub open spec fn with_extension_name(name: Seq<char>, ext: Seq<char>) -> Seq<char> {
    if ext.len() == 0 {
        stem_of(name)
    } else {
        stem_of(name) + seq!['.'] + ext
    }
}

/// The path with the extension of its file name replaced by `ext`; `None`
/// where there is no file name.
pub open spec fn set_extension(s: Seq<char>, ext: Seq<char>) -> Option<Seq<char>> {
    match file_name(s) {
        Some(n) => Some(set_file_name(s, with_extension_name(n, ext))),
        None => None,
    }
}

/// `s` with each of `ts` pushed in turn.
pub open spec fn join_all(s: Seq<char>, ts: Seq<Seq<char>>) -> Seq<char>
    decreases ts.len(),
{
    if ts.len() == 0 {
        s
    } else {
        native_join(join_all(s, ts.drop_last()), ts.last())
    }
}

} // verus!
