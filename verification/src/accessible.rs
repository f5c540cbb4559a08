//! Named properties that are looked up by a dotted path.

use crate::text::{split, split_text, texts};
use vstd::prelude::*;
use vstd::slice::slice_subrange;

verus! {

/// A path of property names, outermost first.
#[derive(Clone)]
pub struct AccessPath {
    segments: Vec<String>,
}

impl AccessPath {
    pub closed spec fn segments(&self) -> Seq<Seq<char>> {
        texts(self.segments@)
    }

    /// The path that a text with dots between its segments stands for.
    pub fn from(string: String) -> (path: AccessPath)
        ensures
            path.segments() == split(string@, '.'),
    {
        let segments = split_text(string.as_str(), '.');
        AccessPath { segments }
    }

    /// The whole path, borrowed.
    pub fn view(&self) -> (view: AccessPathView<'_>)
        ensures
            view.segments() == self.segments(),
    {
        AccessPathView { segments: self.segments.as_slice() }
    }
}

/// A borrowed part of a path.
pub struct AccessPathView<'a> {
    segments: &'a [String],
}

impl<'a> AccessPathView<'a> {
    pub closed spec fn segments(&self) -> Seq<Seq<char>> {
        texts(self.segments@)
    }

    pub fn len(&self) -> (len: usize)
        ensures
            len == self.segments().len(),
    {
        self.segments.len()
    }

    /// The outermost segment.
    pub fn first(&self) -> (segment: &'a str)
        requires
            self.segments().len() > 0,
        ensures
            segment@ == self.segments()[0],
    {
        self.segments[0].as_str()
    }

    /// The path below the outermost segment.
    pub fn rest(&self) -> (rest: AccessPathView<'a>)
        requires
            self.segments().len() > 0,
        ensures
            rest.segments() == self.segments().drop_first(),
    {
        let rest = AccessPathView { segments: slice_subrange(self.segments, 1, self.segments.len()) };
        assert(rest.segments() =~~= self.segments().drop_first());
        rest
    }
}

/// Something whose properties, and whose children's, can be looked up.
pub trait Accessible {
    /// Looks a path up: a single segment as `lookup_local` does, a longer
    /// path as `lookup_child` does for its first segment and the rest. The
    /// empty path leads nowhere.
    fn lookup(&self, path: AccessPathView) -> (found: Option<String>)
        ensures
            path.segments().len() == 0 ==> found is None,
            path.segments().len() == 1 ==> exists|property: &str|
                property@ == path.segments()[0] && #[trigger] call_ensures(
                    Self::lookup_local,
                    (self, property),
                    found,
                ),
            path.segments().len() > 1 ==> exists|child: &str, rest: AccessPathView|
                child@ == path.segments()[0] && rest.segments() == path.segments().drop_first()
                    && #[trigger] call_ensures(Self::lookup_child, (self, child, rest), found),
    {
        if path.len() == 0 {
            return None;
        }
        if path.len() == 1 {
            return self.lookup_local(path.first());
        }
        self.lookup_child(path.first(), path.rest())
    }

    /// The property of that name, if `self` has one.
    fn lookup_local(&self, property: &str) -> Option<String>;

    /// Looks a path up in the child of that name, if `self` has one. Unless
    /// an implementation says otherwise there are no children, and nothing
    /// is found.
    fn lookup_child(&self, _child: &str, _path: AccessPathView) -> (found: Option<String>)
        default_ensures
            found is None,
    {
        None
    }
}

} // verus!
