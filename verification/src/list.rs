//! A persistent, immutable singly-linked list.
//!
//! Every "modification" (`prepend`, `tail`) returns a new list handle and
//! leaves the receiver untouched; handles share their common suffix through
//! reference-counted nodes.  The abstract value of a list is the sequence of
//! its elements from head to tail.
//!
//! Dropping a list handle must not recurse over the chain: an exclusively
//! owned chain can be arbitrarily long, and a recursive teardown would grow
//! the stack with its length.  The `Drop` implementation therefore walks the
//! chain iteratively and stops at the first node that another handle still
//! shares.

use std::rc::Rc;
use vstd::prelude::*;

verus! {

/// A shared, nullable link to a node; `None` marks the end of the list.
pub type Link<T> = Option<Rc<Node<T>>>;

/// One node of the chain: an element and the link to the rest.
#[derive(Debug)]
pub struct Node<T> {
    pub elem: T,
    pub next: Link<T>,
}

/// The sequence of elements reachable from a link, head first.
pub open spec fn link_view<T>(link: Link<T>) -> Seq<T>
    decreases link,
{
    match link {
        None => Seq::empty(),
        Some(node) => seq![(*node).elem] + link_view((*node).next),
    }
}

/// The sequence of a list after an element was put in front.
pub open spec fn prepended<T>(l: Seq<T>, elem: T) -> Seq<T> {
    seq![elem] + l
}

/// The first element of a list's sequence, or `None` when it is empty.
pub open spec fn head_of<T>(l: Seq<T>) -> Option<T> {
    if l.len() == 0 {
        None
    } else {
        Some(l[0])
    }
}

/// A list's sequence without its first element; empty stays empty.
pub open spec fn tail_of<T>(l: Seq<T>) -> Seq<T> {
    if l.len() == 0 {
        Seq::empty()
    } else {
        l.drop_first()
    }
}

/// A persistent list: a single link to the head node.
#[derive(Debug)]
pub struct List<T> {
    head: Link<T>,
}

impl<T> View for List<T> {
    type V = Seq<T>;

    closed spec fn view(&self) -> Seq<T> {
        link_view(self.head)
    }
}

impl<T> Node<T> {
    /// Wraps one element together with the rest of a chain.
    pub fn new(elem: T, next: Link<T>) -> (node: Node<T>)
        ensures
            node.elem == elem,
            node.next == next,
    {
        Node { elem, next }
    }
}

impl<T> List<T> {
    /// The empty list.
    pub fn new() -> (list: List<T>)
        ensures
            list@ == Seq::<T>::empty(),
    {
        List { head: None }
    }

    /// A new list with `elem` in front of all elements of `self`.
    /// The receiver is only read and keeps its value; the new list shares
    /// the receiver's whole chain.
    pub fn prepend(&self, elem: T) -> (list: List<T>)
        ensures
            list@ == prepended(self@, elem),
    {
        let next = match &self.head {
            Some(rc) => Some(rc.clone()),
            None => None,
        };
        List { head: Some(Rc::new(Node::new(elem, next))) }
    }

    /// A borrow of the first element, or `None` on the empty list.
    pub fn head(&self) -> (r: Option<&T>)
        ensures
            match r {
                Some(e) => head_of(self@) == Some(*e),
                None => head_of(self@) is None,
            },
    {
        match &self.head {
            Some(node) => Some(&node.elem),
            None => None,
        }
    }

    /// A new list holding all elements of `self` but the first; the empty
    /// list when `self` has at most one element.  The receiver is only read
    /// and keeps its value; the new list shares the receiver's chain past
    /// the first node.
    pub fn tail(&self) -> (list: List<T>)
        ensures
            list@ == tail_of(self@),
    {
        let head = match &self.head {
            Some(node) => match &node.next {
                Some(rc) => Some(rc.clone()),
                None => None,
            },
            None => None,
        };
        proof {
            if self.head is Some {
                assert(link_view(head) =~= tail_of(self@));
            }
        }
        List { head }
    }

    /// A forward iterator over borrows of the elements, head first.
    pub fn iter(&self) -> (it: Iter<'_, T>)
        ensures
            it@ == self@,
    {
        let next = match &self.head {
            Some(node) => Some(&**node),
            None => None,
        };
        Iter { next }
    }
}

/// A borrowing iterator over a list; it never copies or changes a node.
pub struct Iter<'a, T> {
    next: Option<&'a Node<T>>,
}

impl<'a, T> View for Iter<'a, T> {
    type V = Seq<T>;

    closed spec fn view(&self) -> Seq<T> {
        match self.next {
            None => Seq::empty(),
            Some(node) => seq![node.elem] + link_view(node.next),
        }
    }
}

impl<'a, T> Iter<'a, T> {
    /// A borrow of the next element, or `None` when the iteration is done.
    pub fn next(&mut self) -> (r: Option<&'a T>)
        ensures
            match r {
                Some(e) => head_of(old(self)@) == Some(*e) && final(self)@ == tail_of(old(self)@),
                None => old(self)@.len() == 0 && final(self)@ == old(self)@,
            },
    {
        match self.next {
            Some(node) => {
                self.next = match &node.next {
                    Some(rc) => Some(&**rc),
                    None => None,
                };
                proof {
                    assert(self@ =~= tail_of(old(self)@));
                }
                Some(&node.elem)
            },
            None => None,
        }
    }
}

/// Empties a link and hands out what it held.
fn take_link<T>(link: &mut Link<T>) -> (r: Link<T>)
    ensures
        r == *old(link),
        (*final(link)) is None,
    opens_invariants none
    no_unwind
{
    let mut r: Link<T> = None;
    core::mem::swap(&mut r, link);
    r
}

/// Relies on `Rc::try_unwrap`: it returns the inner value when this pointer
/// is the last one to the allocation, and the unchanged pointer otherwise;
/// it frees at most the node's own allocation and does not unwind.
#[verifier::external_body]
fn try_unwrap_node<T>(rc: Rc<Node<T>>) -> (r: Result<Node<T>, Rc<Node<T>>>)
    ensures
        match r {
            Ok(node) => node == rc,
            Err(same) => same == rc,
        },
    opens_invariants none
    no_unwind
{
    Rc::try_unwrap(rc)
}

impl<T> List<T> {
    /// Empties the list in place, without recursing over the chain: each
    /// exclusively owned node is reclaimed in turn, and the walk stops at
    /// the first node that another handle still shares, leaving that suffix
    /// to its other owners.
    pub fn clear(&mut self)
        ensures
            final(self)@ == Seq::<T>::empty(),
        opens_invariants none
        no_unwind
    {
        let mut cur_link = take_link(&mut self.head);
        loop
            decreases link_view(cur_link).len(),
        {
            match cur_link {
                Some(rc) => {
                    match try_unwrap_node(rc) {
                        Ok(mut node) => {
                            cur_link = take_link(&mut node.next);
                        },
                        Err(_) => {
                            break;
                        },
                    }
                },
                None => {
                    break;
                },
            }
        }
    }
}

impl<T> Drop for List<T> {
    /// Hands teardown to `clear`, which walks the chain iteratively and
    /// does not unwind.
    fn drop(&mut self)
        opens_invariants none
        no_unwind
    {
        self.clear();
    }
}

/// Law: the head of a list after prepending `elem` is `elem`.
pub proof fn lemma_prepend_head<T>(l: Seq<T>, elem: T)
    ensures
        head_of(prepended(l, elem)) == Some(elem),
{
}

/// Law: the tail of a list after prepending `elem` is the original list.
pub proof fn lemma_prepend_tail<T>(l: Seq<T>, elem: T)
    ensures
        tail_of(prepended(l, elem)) == l,
{
    assert(tail_of(prepended(l, elem)) =~= l);
}

/// Law: the empty list has no head, and its tail is empty again.
pub proof fn lemma_empty_boundary<T>()
    ensures
        head_of(Seq::<T>::empty()) is None,
        tail_of(Seq::<T>::empty()) == Seq::<T>::empty(),
        head_of(tail_of(Seq::<T>::empty())) is None,
{
}

/// Law: reading the head is a function of the list value alone, so two
/// calls of `head` on the same list return the same result.
pub proof fn lemma_head_deterministic<T>(l: List<T>, r1: Option<&T>, r2: Option<&T>)
    requires
        call_ensures(List::<T>::head, (&l,), r1),
        call_ensures(List::<T>::head, (&l,), r2),
    ensures
        r1 == r2,
{
}

/// Law: two iterators made from the same list walk the same sequence.
pub proof fn lemma_iter_deterministic<'a, T>(l: &'a List<T>, i1: Iter<'a, T>, i2: Iter<'a, T>)
    requires
        call_ensures(List::<T>::iter, (l,), i1),
        call_ensures(List::<T>::iter, (l,), i2),
    ensures
        i1@ == i2@,
{
}

/// Law: after prepending `elem`, `head` returns a borrow of `elem`.
pub proof fn lemma_prepend_then_head<T>(l: &List<T>, elem: T, l2: List<T>, r: Option<&T>)
    requires
        call_ensures(List::<T>::prepend, (l, elem), l2),
        call_ensures(List::<T>::head, (&l2,), r),
    ensures
        r matches Some(e) && *e == elem,
{
}

/// Law: after prepending `elem`, `tail` returns a list with the receiver's
/// own sequence.
pub proof fn lemma_prepend_then_tail<T>(l: &List<T>, elem: T, l2: List<T>, l3: List<T>)
    requires
        call_ensures(List::<T>::prepend, (l, elem), l2),
        call_ensures(List::<T>::tail, (&l2,), l3),
    ensures
        l3@ == l@,
{
    assert(tail_of(prepended(l@, elem)) =~= l@);
}

/// Law: a non-empty list is its head prepended onto its tail, so the
/// iterator's head-first walk visits exactly the list's sequence.
pub proof fn lemma_head_tail_decomposition<T>(l: Seq<T>)
    requires
        l.len() > 0,
    ensures
        prepended(tail_of(l), head_of(l).unwrap()) == l,
{
    assert(prepended(tail_of(l), l[0]) =~= l);
}

} // verus!
