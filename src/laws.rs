//! Laws of the parts that the library itself decides.
use vstd::prelude::*;
use crate::model::{extension_of, last_dot, stem_of, with_extension_name};

verus! {

/// Where a name has a last `.`, it stands inside the name, and nothing after
/// it is a `.`.
pub proof fn last_dot_is_last(name: Seq<char>)
    ensures
        -1 <= last_dot(name) < name.len(),
        last_dot(name) >= 0 ==> name[last_dot(name)] == '.',
        forall|i: int| last_dot(name) < i < name.len() ==> name[i] != '.',
    decreases name.len(),
{
    if name.len() > 0 {
        let t = name.drop_last();
        last_dot_is_last(t);
        assert forall|i: int| last_dot(name) < i < name.len() implies name[i] != '.' by {
            if i < name.len() - 1 {
                assert(name[i] == t[i]);
            }
        }
    }
}

/// A name with an extension is its stem, a `.`, and the extension.
pub proof fn stem_dot_extension(name: Seq<char>)
    ensures
        extension_of(name) matches Some(e) ==> stem_of(name) + seq!['.'] + e == name,
        extension_of(name) is None ==> stem_of(name) == name,
{
    last_dot_is_last(name);
    if let Some(e) = extension_of(name) {
        assert(stem_of(name) + seq!['.'] + e =~= name);
    }
}

/// Giving a name the extension it already has leaves it as it was.
pub proof fn same_extension_keeps_name(name: Seq<char>)
    requires
        extension_of(name) is Some,
        extension_of(name)->0.len() > 0,
    ensures
        with_extension_name(name, extension_of(name)->0) == name,
{
    stem_dot_extension(name);
}

/// Once an extension is set, it is the extension: a new extension without a
/// `.` in it is what the name then has.
pub proof fn set_extension_then_read(name: Seq<char>, ext: Seq<char>)
    requires
        ext.len() > 0,
        forall|i: int| 0 <= i < ext.len() ==> ext[i] != '.',
        stem_of(name).len() > 0,
    ensures
        extension_of(with_extension_name(name, ext)) == Some(ext),
        stem_of(with_extension_name(name, ext)) == stem_of(name),
{
    let n2 = with_extension_name(name, ext);
    let st = stem_of(name);
    last_dot_is_last(n2);
    let d = st.len() as int;
    assert(n2[d] == '.');
    if last_dot(n2) < d {
        assert(last_dot(n2) < d < n2.len());
    }
    if last_dot(n2) > d {
        assert(n2[last_dot(n2)] == ext[last_dot(n2) - d - 1]);
    }
    assert(last_dot(n2) == d);
    assert(n2.skip(d + 1) =~= ext);
    assert(n2.take(d) =~= st);
}

} // verus!
