//! The stack itself: a chain of nodes owned from the head.

pub mod iter;

use crate::model::{pushed, rest, top, with_top};
use vstd::prelude::*;

verus! {

/// One link of the chain. A node owns its element and, through `next`, every
/// node behind it.
pub struct Node<T> {
    elem: T,
    next: Option<Box<Node<T>>>,
}

/// The elements of a chain, front first.
spec fn link_seq<T>(link: Option<Box<Node<T>>>) -> Seq<T>
    decreases link,
{
    match link {
        None => Seq::empty(),
        Some(node) => pushed(link_seq(node.next), node.elem),
    }
}

impl<T> Node<T> {
    /// The element that this node holds.
    pub closed spec fn elem(&self) -> T {
        self.elem
    }

    /// The elements of the nodes behind this one, nearest first.
    pub closed spec fn tail(&self) -> Seq<T> {
        link_seq(self.next)
    }
}

impl<T> View for Node<T> {
    type V = Seq<T>;

    /// The node's element on top of those behind it: never empty.
    open spec fn view(&self) -> Seq<T> {
        pushed(self.tail(), self.elem())
    }
}

/// A last-in-first-out list. Its view is the sequence of its elements, the
/// one pushed last at index 0.
pub struct List<T> {
    head: Option<Box<Node<T>>>,
}

impl<T> View for List<T> {
    type V = Seq<T>;

    closed spec fn view(&self) -> Seq<T> {
        link_seq(self.head)
    }
}

impl<T> List<T> {
    /// An empty list.
    pub fn new() -> (list: Self)
        ensures
            list@ == Seq::<T>::empty(),
    {
        List { head: None }
    }

    /// Puts `val` on top. The new node takes over the chain that was there.
    pub fn push(&mut self, val: T)
        ensures
            final(self)@ == pushed(old(self)@, val),
    {
        let new_node = Node { elem: val, next: self.head.take() };
        self.head = Some(Box::new(new_node));
    }

    /// Takes the top off and returns it; `None`, and no change, on an empty
    /// list.
    pub fn pop(&mut self) -> (popped: Option<T>)
        ensures
            popped == top(old(self)@),
            final(self)@ == rest(old(self)@),
    {
        match self.head.take() {
            None => None,
            Some(node) => {
                let node = *node;
                self.head = node.next;
                Some(node.elem)
            },
        }
    }

    /// The top, if there is one.
    pub fn peek(&self) -> (front: Option<&T>)
        ensures
            front == (match top(self@) {
                Some(v) => Some(&v),
                None => None,
            }),
    {
        match &self.head {
            None => None,
            Some(node) => Some(&node.elem),
        }
    }

    /// The top, if there is one, for writing: what the caller leaves in it is
    /// the top of the list afterwards, above the same elements as before.
    pub fn peek_mut(&mut self) -> (front: Option<&mut T>)
        ensures
            match top(old(self)@) {
                Some(v) => front is Some && *front->0 == v && final(self)@ == with_top(
                    old(self)@,
                    *final(front->0),
                ),
                None => front is None && final(self)@ == old(self)@,
            },
    {
        match &mut self.head {
            None => None,
            Some(node) => Some(&mut node.elem),
        }
    }
}

impl<T> Drop for List<T> {
    /// Releases the chain in a loop, one node per turn: each node is cut off
    /// from those behind it before it goes, so that no node's release sets
    /// off the next one's and the call stack stays flat however long the
    /// list is.
    ///
    /// The links are moved out with `swap`, which is known not to unwind, as
    /// a destructor must not.
    fn drop(&mut self)
        ensures
            final(self)@ == Seq::<T>::empty(),
        opens_invariants none
        no_unwind
    {
        let mut link = None;
        core::mem::swap(&mut link, &mut self.head);
        loop
            decreases link,
        {
            match link {
                None => break,
                Some(mut node) => {
                    let mut behind = None;
                    core::mem::swap(&mut behind, &mut node.next);
                    link = behind;
                },
            }
        }
    }
}

} // verus!
