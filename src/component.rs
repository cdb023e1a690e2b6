//! Components of a path, and the sequence of them that a path yields.
use vstd::prelude::*;
use crate::model::ComponentView;
use crate::native::main_separator;

verus! {

/// A platform prefix such as a drive (`C:`) or a share (`\\server\share`),
/// held as its text. Only platforms that have prefixes produce one.
#[derive(Clone, Copy, Debug, PartialEq, Eq)]
pub struct Utf8PrefixComponent<'a> {
    text: &'a str,
}

impl<'a> View for Utf8PrefixComponent<'a> {
    type V = Seq<char>;

    closed spec fn view(&self) -> Seq<char> {
        self.text@
    }
}

impl<'a> Utf8PrefixComponent<'a> {
    /// The prefix whose text is `text`.
    pub(crate) fn new(text: &'a str) -> (r: Self)
        ensures
            r@ == text@,
    {
        Utf8PrefixComponent { text }
    }

    /// The text of the prefix.
    pub fn as_str(&self) -> (r: &'a str)
        ensures
            r@ == self@,
    {
        self.text
    }
}

/// One component of a path.
#[derive(Clone, Copy, Debug, PartialEq, Eq)]
pub enum Utf8Component<'a> {
    Prefix(Utf8PrefixComponent<'a>),
    RootDir,
    CurDir,
    ParentDir,
    Normal(&'a str),
}

impl<'a> View for Utf8Component<'a> {
    type V = ComponentView;

    open spec fn view(&self) -> ComponentView {
        match self {
            Utf8Component::Prefix(p) => ComponentView::Prefix(p@),
            Utf8Component::RootDir => ComponentView::RootDir,
            Utf8Component::CurDir => ComponentView::CurDir,
            Utf8Component::ParentDir => ComponentView::ParentDir,
            Utf8Component::Normal(n) => ComponentView::Normal(n@),
        }
    }
}

impl<'a> Utf8Component<'a> {
    /// The text of the component: the platform's separator for the root, `.`
    /// and `..` for the markers, its own text for a prefix or a normal one.
    pub fn as_str(&self) -> (r: &'a str)
        ensures
            self@ matches ComponentView::Prefix(p) ==> r@ == p,
            self@ matches ComponentView::Normal(n) ==> r@ == n,
            self@ is RootDir ==> r@.len() == 1,
            self@ is CurDir ==> r@ == seq!['.'],
            self@ is ParentDir ==> r@ == seq!['.', '.'],
    {
        match self {
            Utf8Component::Prefix(p) => p.as_str(),
            Utf8Component::RootDir => main_separator(),
            Utf8Component::CurDir => {
                proof {
                    reveal_strlit(".");
                }
                assert("."@ =~= seq!['.']);
                "."
            },
            Utf8Component::ParentDir => {
                proof {
                    reveal_strlit("..");
                }
                assert(".."@ =~= seq!['.', '.']);
                ".."
            },
            Utf8Component::Normal(n) => n,
        }
    }
}

/// The components of a path that are still to come, from either end.
pub struct Utf8Components<'a> {
    items: Vec<Utf8Component<'a>>,
    front: usize,
    back: usize,
}

impl<'a> View for Utf8Components<'a> {
    type V = Seq<ComponentView>;

    closed spec fn view(&self) -> Seq<ComponentView> {
        self.items@.map_values(|c: Utf8Component<'a>| c@).subrange(
            self.front as int,
            self.back as int,
        )
    }
}

impl<'a> Utf8Components<'a> {
    pub closed spec fn wf(&self) -> bool {
        self.front <= self.back <= self.items@.len()
    }

    /// All of `items`, in order.
    pub(crate) fn from_vec(items: Vec<Utf8Component<'a>>) -> (r: Self)
        ensures
            r.wf(),
            r@ == items@.map_values(|c: Utf8Component<'a>| c@),
    {
        let back = items.len();
        let r = Utf8Components { items, front: 0, back };
        assert(r@ =~= r.items@.map_values(|c: Utf8Component<'a>| c@));
        r
    }

    /// Takes the first remaining component; `None` once none remains, and
    /// then ever after.
    pub fn next(&mut self) -> (r: Option<Utf8Component<'a>>)
        requires
            old(self).wf(),
        ensures
            final(self).wf(),
            old(self)@.len() == 0 ==> r is None && final(self)@ == old(self)@,
            old(self)@.len() > 0 ==> r is Some && r->0@ == old(self)@[0] && final(self)@
                == old(self)@.drop_first(),
    {
        if self.front < self.back {
            let c = self.items[self.front];
            self.front = self.front + 1;
            assert(self@ =~= old(self)@.drop_first());
            Some(c)
        } else {
            None
        }
    }

    /// Takes the last remaining component; `None` once none remains, and
    /// then ever after.
    pub fn next_back(&mut self) -> (r: Option<Utf8Component<'a>>)
        requires
            old(self).wf(),
        ensures
            final(self).wf(),
            old(self)@.len() == 0 ==> r is None && final(self)@ == old(self)@,
            old(self)@.len() > 0 ==> r is Some && r->0@ == old(self)@.last() && final(self)@
                == old(self)@.drop_last(),
    {
        if self.front < self.back {
            let c = self.items[self.back - 1];
            self.back = self.back - 1;
            assert(self@ =~= old(self)@.drop_last());
            Some(c)
        } else {
            None
        }
    }
}

} // verus!
