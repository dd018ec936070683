//! The three ways to walk a list: by value, by shared reference and by
//! exclusive reference. Each hands out the elements top first.

use super::{List, Node};
use crate::model::{pushed, rest, top};
use vstd::prelude::*;

verus! {

/// Walks a list that it owns; each step pops the top. Its view is what it has
/// yet to hand out.
pub struct IntoIter<T>(List<T>);

impl<T> View for IntoIter<T> {
    type V = Seq<T>;

    closed spec fn view(&self) -> Seq<T> {
        self.0@
    }
}

impl<T> IntoIter<T> {
    /// The next element by value, or `None` once all are gone.
    pub fn next(&mut self) -> (item: Option<T>)
        ensures
            item == top(old(self)@),
            final(self)@ == rest(old(self)@),
    {
        self.0.pop()
    }
}

/// Walks a list by shared reference. Its view is what it has yet to hand out.
pub struct Iter<'a, T> {
    next: Option<&'a Node<T>>,
}

impl<'a, T> View for Iter<'a, T> {
    type V = Seq<T>;

    closed spec fn view(&self) -> Seq<T> {
        match self.next {
            None => Seq::empty(),
            Some(node) => node@,
        }
    }
}

impl<'a, T> Iter<'a, T> {
    /// A reference to the next element, or `None` once the walk is over.
    pub fn next(&mut self) -> (item: Option<&'a T>)
        ensures
            item == (match top(old(self)@) {
                Some(v) => Some(&v),
                None => None,
            }),
            final(self)@ == rest(old(self)@),
    {
        match self.next {
            None => None,
            Some(node) => {
                self.next = match &node.next {
                    None => None,
                    Some(behind) => Some(&**behind),
                };
                Some(&node.elem)
            },
        }
    }
}

/// Walks a list by exclusive reference. Its view is what it has yet to hand
/// out, as those elements are now.
pub struct IterMut<'a, T> {
    next: Option<&'a mut Node<T>>,
}

impl<'a, T> View for IterMut<'a, T> {
    type V = Seq<T>;

    open spec fn view(&self) -> Seq<T> {
        match self.cursor() {
            None => Seq::empty(),
            Some(node) => node@,
        }
    }
}

impl<'a, T> IterMut<'a, T> {
    /// The node whose element the next step hands out, as borrowed from the
    /// list; `None` once the walk is over.
    pub closed spec fn cursor(&self) -> Option<&'a mut Node<T>> {
        self.next
    }

    /// An exclusive reference to the next element, or `None` once the walk is
    /// over. The cursor moves on through the very borrow that is handed out,
    /// so the node it stood on ends up holding what the caller writes,
    /// followed by whatever the rest of the walk leaves behind it.
    pub fn next(&mut self) -> (item: Option<&'a mut T>)
        ensures
            match top(old(self)@) {
                Some(v) => item is Some && *item->0 == v,
                None => item is None,
            },
            final(self)@ == rest(old(self)@),
            old(self).cursor() matches Some(node) ==> item is Some && final(node)@ == pushed(
                match final(self).cursor() {
                    None => Seq::empty(),
                    Some(behind) => final(behind)@,
                },
                *final(item->0),
            ),
    {
        match self.next.take() {
            None => None,
            Some(node) => {
                self.next = match &mut node.next {
                    None => None,
                    Some(behind) => Some(&mut **behind),
                };
                Some(&mut node.elem)
            },
        }
    }

    /// An iterator that is used no more leaves what it had not handed out as
    /// it is.
    pub proof fn lemma_released(self)
        requires
            has_resolved(self),
        ensures
            match self.cursor() {
                None => true,
                Some(node) => *final(node) == *node,
            },
    {
    }
}

impl<T> List<T> {
    /// Gives the list up to an iterator over its elements by value.
    pub fn into_iter(self) -> (it: IntoIter<T>)
        ensures
            it@ == self@,
    {
        IntoIter(self)
    }

    /// An iterator over shared references to the elements.
    pub fn iter(&self) -> (it: Iter<'_, T>)
        ensures
            it@ == self@,
    {
        Iter {
            next: match &self.head {
                None => None,
                Some(node) => Some(&**node),
            },
        }
    }

    /// An iterator over exclusive references to the elements. When the walk
    /// is over the list holds what was written through them.
    pub fn iter_mut(&mut self) -> (it: IterMut<'_, T>)
        ensures
            it@ == old(self)@,
            final(self)@ == (match it.cursor() {
                None => Seq::empty(),
                Some(node) => final(node)@,
            }),
    {
        IterMut {
            next: match &mut self.head {
                None => None,
                Some(node) => Some(&mut **node),
            },
        }
    }
}

} // verus!
