//! Paths of files.
//!
//! How two paths are joined differs from machine to machine, so a path is kept as what it is joined
//! from.

use vstd::prelude::*;

verus! {

/// A path: one that was given as text, or one that is joined to another.
#[derive(Debug)]
pub enum FilePath {
    Plain(String),
    Joined(Box<FilePath>, Box<FilePath>),
}

/// A path with its texts by content.
pub enum PathView {
    Plain(Seq<char>),
    Joined(Box<PathView>, Box<PathView>),
}

impl FilePath {
    /// The path with its texts by content.
    pub open spec fn shape(self) -> PathView
        decreases self,
    {
        match self {
            FilePath::Plain(text) => PathView::Plain(text@),
            FilePath::Joined(base, part) => PathView::Joined(
                Box::new(base.shape()),
                Box::new(part.shape()),
            ),
        }
    }
}

impl View for FilePath {
    type V = PathView;

    open spec fn view(&self) -> PathView {
        self.shape()
    }
}

impl PathView {
    /// Whether the path has no text at all.
    pub open spec fn is_empty(self) -> bool
        decreases self,
    {
        match self {
            PathView::Plain(text) => text.len() == 0,
            PathView::Joined(base, part) => base.is_empty() && part.is_empty(),
        }
    }

    /// The path that another is from this one.
    pub open spec fn join(self, part: PathView) -> PathView {
        PathView::Joined(Box::new(self), Box::new(part))
    }

    /// The path that all of this one is seen from.
    pub open spec fn root(self) -> Seq<char>
        decreases self,
    {
        match self {
            PathView::Plain(text) => text,
            PathView::Joined(base, _) => base.root(),
        }
    }
}

impl Clone for FilePath {
    fn clone(&self) -> (r: Self)
        ensures
            r == *self,
        decreases self,
    {
        match self {
            FilePath::Plain(text) => FilePath::Plain(text.clone()),
            FilePath::Joined(base, part) => FilePath::Joined(
                Box::new((&**base).clone()),
                Box::new((&**part).clone()),
            ),
        }
    }
}

impl FilePath {
    /// The path that a text gives.
    pub fn of(text: &str) -> (r: Self)
        ensures
            r@ == PathView::Plain(text@),
    {
        FilePath::Plain(text.to_owned())
    }

    /// The path that another is from this one.
    pub fn join(self, part: FilePath) -> (r: Self)
        ensures
            r@ == self@.join(part@),
    {
        FilePath::Joined(Box::new(self), Box::new(part))
    }

    /// Whether the path has no text at all.
    pub fn is_empty(&self) -> (r: bool)
        ensures
            r == self@.is_empty(),
        decreases self,
    {
        match self {
            FilePath::Plain(text) => text.as_str().is_empty(),
            FilePath::Joined(base, part) => base.is_empty() && part.is_empty(),
        }
    }
}

/// A path that is joined keeps both its parts, and is empty only if both are.
pub proof fn law_joining_keeps_both_parts(base: PathView, part: PathView)
    ensures
        base.join(part) == PathView::Joined(Box::new(base), Box::new(part)),
        base.join(part).is_empty() <==> base.is_empty() && part.is_empty(),
        base.join(part).root() == base.root(),
{
}

/// A text gives an empty path exactly if it is empty.
pub proof fn law_only_empty_texts_give_empty_paths(text: Seq<char>)
    ensures
        PathView::Plain(text).is_empty() <==> text.len() == 0,
        PathView::Plain(text).root() == text,
{
}

} // verus!
