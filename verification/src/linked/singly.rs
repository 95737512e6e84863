//! A one-directional linked list: a chain of individually owned heap nodes.
//!
//! Each [`Node`] owns its value and, through `next`, the entire rest of the
//! chain. The list owns the head node and records the chain's length. All
//! operations are specified against the sequence of values read off the chain
//! in link order.

use vstd::prelude::*;
use vstd::std_specs::cmp::PartialEqSpec;

verus! {

/// A node of a [`SinglyLinkedList`]: one owned value and the owned remainder
/// of the chain.
pub struct Node<T> {
    /// The next node in the chain, absent at the end of the list.
    pub next: Option<Box<Node<T>>>,

    /// The value held by this node.
    pub value: T,
}

/// The values stored in the chain hanging off `link`, in link order.
pub open spec fn link_view<T>(link: Option<Box<Node<T>>>) -> Seq<T>
    decreases link,
{
    match link {
        None => Seq::empty(),
        Some(node) => seq![node.value] + link_view(node.next),
    }
}

impl<T> Node<T> {
    /// The values stored in the chain starting at this node.
    pub open spec fn view(self) -> Seq<T> {
        seq![self.value] + link_view(self.next)
    }

    /// Creates a detached node holding `value`.
    pub fn new(value: T) -> (r: Self)
        ensures
            r.next is None,
            r.value == value,
    {
        Node { next: None, value }
    }

    /// Moves the node to the heap.
    pub fn into_box(self) -> (r: Box<Self>)
        ensures
            *r == self,
    {
        Box::new(self)
    }
}

/// A one-directional linked list.
pub struct SinglyLinkedList<T> {
    /// The node at the front of the list, absent when the list is empty.
    head: Option<Box<Node<T>>>,

    /// The number of nodes in the chain.
    len: usize,
}

impl<T> SinglyLinkedList<T> {
    /// The recorded length always matches the length of the chain.
    #[verifier::type_invariant]
    spec fn well_formed(self) -> bool {
        self.len == link_view(self.head).len()
    }

    /// The mathematical contents of the list: the chain's values in order.
    pub closed spec fn view(&self) -> Seq<T> {
        link_view(self.head)
    }

    /// Constructs a new, empty list.
    pub fn new() -> (r: Self)
        ensures
            r@ == Seq::<T>::empty(),
    {
        SinglyLinkedList { head: None, len: 0 }
    }

    /// Returns the number of nodes in the list.
    pub fn len(&self) -> (r: usize)
        ensures
            r == self@.len(),
    {
        proof {
            use_type_invariant(self);
        }
        self.len
    }

    /// Resets the list to its empty state, freeing every node one at a time
    /// rather than through nested drops, so that teardown never recurses.
    pub fn clear(&mut self)
        ensures
            final(self)@ == Seq::<T>::empty(),
    {
        let mut tmp = SinglyLinkedList::new();
        core::mem::swap(self, &mut tmp);
        let SinglyLinkedList { head, len: _ } = tmp;
        let mut link = head;
        loop
            decreases link_view(link).len(),
        {
            match link {
                None => {
                    break;
                }
                Some(node) => {
                    let n = *node;
                    link = n.next;
                }
            }
        }
    }

    /// Returns a reference to the value at the front of the list, absent when
    /// the list is empty.
    pub fn front(&self) -> (r: Option<&T>)
        ensures
            self@.len() > 0 ==> (r matches Some(p) && *p == self@[0]),
            self@.len() == 0 ==> r is None,
    {
        match &self.head {
            None => None,
            Some(node) => Some(&node.value),
        }
    }

    /// Returns a mutable reference to the value at the front of the list,
    /// absent when the list is empty.
    pub fn front_mut(&mut self) -> (r: Option<&mut T>)
        ensures
            old(self)@.len() > 0 ==> (r matches Some(p) && *p == old(self)@[0]
                && final(self)@ =~= old(self)@.update(0, *final(p))),
            old(self)@.len() == 0 ==> (r is None && *final(self) == *old(self)),
    {
        proof {
            use_type_invariant(&*self);
        }
        front_mut_link(&mut self.head)
    }

    /// Returns a reference to the value at the back of the list, absent when
    /// the list is empty.
    pub fn back(&self) -> (r: Option<&T>)
        ensures
            self@.len() > 0 ==> (r matches Some(p) && *p == self@[self@.len() - 1]),
            self@.len() == 0 ==> r is None,
    {
        match &self.head {
            None => None,
            Some(node) => Some(back_link(node)),
        }
    }

    /// Pushes `value` at the front of the list, making it the new head.
    pub fn push_front(&mut self, value: T)
        requires
            old(self)@.len() < usize::MAX,
        ensures
            final(self)@ == seq![value] + old(self)@,
    {
        proof {
            use_type_invariant(&*self);
        }
        let mut tmp = SinglyLinkedList::new();
        core::mem::swap(self, &mut tmp);
        let SinglyLinkedList { head, len } = tmp;
        let node = Node { next: head, value };
        *self = SinglyLinkedList { head: Some(node.into_box()), len: len + 1 };
    }

    /// Pushes `value` at the back of the list, walking the chain to its last
    /// node.
    pub fn push_back(&mut self, value: T)
        requires
            old(self)@.len() < usize::MAX,
        ensures
            final(self)@ == old(self)@.push(value),
    {
        proof {
            use_type_invariant(&*self);
        }
        let mut tmp = SinglyLinkedList::new();
        core::mem::swap(self, &mut tmp);
        let SinglyLinkedList { mut head, len } = tmp;
        push_back_link(&mut head, value);
        *self = SinglyLinkedList { head, len: len + 1 };
    }

    /// Detaches the head node, returning its value and freeing the node;
    /// absent when the list is empty, which leaves the list untouched.
    pub fn pop_front(&mut self) -> (r: Option<T>)
        ensures
            old(self)@.len() > 0 ==> (r matches Some(v) && v == old(self)@[0]
                && final(self)@ =~= old(self)@.drop_first()),
            old(self)@.len() == 0 ==> (r is None && *final(self) == *old(self)),
    {
        proof {
            use_type_invariant(&*self);
        }
        let mut tmp = SinglyLinkedList::new();
        core::mem::swap(self, &mut tmp);
        let SinglyLinkedList { head, len } = tmp;
        match head {
            None => {
                *self = SinglyLinkedList { head: None, len };
                None
            }
            Some(node) => {
                let n = *node;
                *self = SinglyLinkedList { head: n.next, len: len - 1 };
                Some(n.value)
            }
        }
    }

    /// Removes the node at the front of the list, discarding its value.
    pub fn remove_front(&mut self)
        ensures
            old(self)@.len() > 0 ==> final(self)@ =~= old(self)@.drop_first(),
            old(self)@.len() == 0 ==> *final(self) == *old(self),
    {
        let _ = self.pop_front();
    }

    /// Returns a mutable reference to the value at the back of the list,
    /// absent when the list is empty.
    pub fn back_mut(&mut self) -> (r: Option<&mut T>)
        ensures
            old(self)@.len() > 0 ==> (r matches Some(p) && *p == old(self)@[old(self)@.len() - 1]
                && final(self)@ =~= old(self)@.update(old(self)@.len() - 1, *final(p))),
            old(self)@.len() == 0 ==> (r is None && *final(self) == *old(self)),
    {
        proof {
            use_type_invariant(&*self);
        }
        back_mut_link(&mut self.head)
    }

    /// Returns a reference to the value at position `index`, absent when
    /// `index` is out of bounds.
    pub fn get(&self, index: usize) -> (r: Option<&T>)
        ensures
            index < self@.len() ==> (r matches Some(p) && *p == self@[index as int]),
            index >= self@.len() ==> r is None,
    {
        proof {
            use_type_invariant(self);
        }
        if index >= self.len {
            return None;
        }
        Some(get_link(&self.head, index))
    }

    /// Returns a mutable reference to the value at position `index`, absent
    /// when `index` is out of bounds.
    pub fn get_mut(&mut self, index: usize) -> (r: Option<&mut T>)
        ensures
            index < old(self)@.len() ==> (r matches Some(p) && *p == old(self)@[index as int]
                && final(self)@ =~= old(self)@.update(index as int, *final(p))),
            index >= old(self)@.len() ==> (r is None && *final(self) == *old(self)),
    {
        proof {
            use_type_invariant(&*self);
        }
        if index >= self.len {
            return None;
        }
        Some(get_mut_link(&mut self.head, index))
    }

    /// Consumes the list into an iterator that yields the values in list
    /// order, front first.
    pub fn into_iter(self) -> (r: Iter<T>)
        ensures
            r@ == self@,
    {
        Iter { list: self }
    }
}

/// A consuming iterator over a [`SinglyLinkedList`]: it owns the list and
/// hands out its values front to back.
pub struct Iter<T> {
    /// The not-yet-yielded remainder of the list.
    list: SinglyLinkedList<T>,
}

impl<T> Iter<T> {
    /// The values not yet yielded, in the order they will come out.
    pub closed spec fn view(&self) -> Seq<T> {
        self.list@
    }

    /// Yields the next value, absent once the list is exhausted.
    pub fn next(&mut self) -> (r: Option<T>)
        ensures
            old(self)@.len() > 0 ==> (r matches Some(v) && v == old(self)@[0]
                && final(self)@ =~= old(self)@.drop_first()),
            old(self)@.len() == 0 ==> (r is None && final(self)@ == old(self)@),
    {
        self.list.pop_front()
    }

    /// Returns the exact number of values still to come, as a lower and an
    /// upper bound.
    pub fn size_hint(&self) -> (r: (usize, Option<usize>))
        ensures
            r.0 == self@.len(),
            r.1 == Some(r.0),
    {
        let n = self.list.len();
        (n, Some(n))
    }
}

impl<T: PartialEq> PartialEq for Node<T> {
    /// Two nodes are equal when their values are; the links play no part.
    fn eq(&self, other: &Self) -> (r: bool) {
        self.value == other.value
    }
}

impl<T: PartialEq> vstd::std_specs::cmp::PartialEqSpecImpl for Node<T> {
    open spec fn obeys_eq_spec() -> bool {
        T::obeys_eq_spec()
    }

    open spec fn eq_spec(&self, other: &Self) -> bool {
        self.value.eq_spec(&other.value)
    }
}

impl<T: PartialEq> PartialEq<T> for Node<T> {
    /// A node compares equal to a bare value when its own value does.
    fn eq(&self, other: &T) -> (r: bool) {
        self.value == *other
    }
}

impl<T: PartialEq> vstd::std_specs::cmp::PartialEqSpecImpl<T> for Node<T> {
    open spec fn obeys_eq_spec() -> bool {
        T::obeys_eq_spec()
    }

    open spec fn eq_spec(&self, other: &T) -> bool {
        self.value.eq_spec(other)
    }
}

impl<T: PartialEq> PartialEq for SinglyLinkedList<T> {
    /// Two lists are equal when they have the same length and their values
    /// are pairwise equal, compared in traversal order.
    fn eq(&self, other: &Self) -> (r: bool) {
        proof {
            use_type_invariant(self);
            use_type_invariant(other);
        }
        if self.len != other.len {
            return false;
        }
        link_eq(&self.head, &other.head)
    }
}

impl<T: PartialEq> vstd::std_specs::cmp::PartialEqSpecImpl for SinglyLinkedList<T> {
    open spec fn obeys_eq_spec() -> bool {
        T::obeys_eq_spec()
    }

    open spec fn eq_spec(&self, other: &Self) -> bool {
        crate::pairwise_eq(self@, other@)
    }
}

impl<T: Eq> Eq for SinglyLinkedList<T> {

}

/// Returns a reference to the value of the last node of the chain starting at
/// `node`.
fn back_link<T>(node: &Node<T>) -> (r: &T)
    ensures
        *r == node.view().last(),
    decreases *node,
{
    match &node.next {
        None => &node.value,
        Some(next) => {
            let r = back_link(&**next);
            proof {
                assert(node.view() == seq![node.value] + (**next).view());
                assert(node.view().last() == (**next).view().last());
            }
            r
        }
    }
}

/// Returns a mutable reference to the value of the first node of the chain
/// hanging off `link`, absent when the chain is empty.
fn front_mut_link<T>(link: &mut Option<Box<Node<T>>>) -> (r: Option<&mut T>)
    ensures
        link_view(*old(link)).len() > 0 ==> (r matches Some(p)
            && *p == link_view(*old(link))[0]
            && link_view(*final(link)) =~= link_view(*old(link)).update(0, *final(p))),
        link_view(*old(link)).len() == 0 ==> (r is None && *final(link) == *old(link)),
    no_unwind
{
    match link {
        None => None,
        Some(node) => Some(&mut node.value),
    }
}

/// Returns a mutable reference to the value of the last node of the chain
/// hanging off `link`, absent when the chain is empty.
fn back_mut_link<T>(link: &mut Option<Box<Node<T>>>) -> (r: Option<&mut T>)
    ensures
        link_view(*old(link)).len() > 0 ==> (r matches Some(p)
            && *p == link_view(*old(link)).last()
            && link_view(*final(link)) =~= link_view(*old(link)).update(
                link_view(*old(link)).len() - 1,
                *final(p),
            )),
        link_view(*old(link)).len() == 0 ==> (r is None && *final(link) == *old(link)),
    no_unwind
{
    match link {
        None => None,
        Some(node) => Some(back_mut_node(node)),
    }
}

/// Returns a mutable reference to the value of the last node of the chain
/// starting at `node`.
fn back_mut_node<T>(node: &mut Box<Node<T>>) -> (r: &mut T)
    ensures
        *r == old(node).view().last(),
        final(node).view() =~= old(node).view().update(old(node).view().len() - 1, *final(r)),
    decreases **old(node),
    no_unwind
{
    match &mut node.next {
        None => &mut node.value,
        Some(next) => back_mut_node(next),
    }
}

/// Returns a reference to the value at position `index` of the chain hanging
/// off `link`.
fn get_link<T>(link: &Option<Box<Node<T>>>, index: usize) -> (r: &T)
    requires
        index < link_view(*link).len(),
    ensures
        *r == link_view(*link)[index as int],
    decreases *link,
{
    match link {
        None => vstd::pervasive::unreached(),
        Some(node) => {
            if index == 0 {
                &node.value
            } else {
                get_link(&node.next, index - 1)
            }
        }
    }
}

/// Returns a mutable reference to the value at position `index` of the chain
/// hanging off `link`.
fn get_mut_link<T>(link: &mut Option<Box<Node<T>>>, index: usize) -> (r: &mut T)
    requires
        index < link_view(*old(link)).len(),
    ensures
        *r == link_view(*old(link))[index as int],
        link_view(*final(link)) =~= link_view(*old(link)).update(index as int, *final(r)),
    decreases *old(link),
    no_unwind
{
    match link {
        None => vstd::pervasive::unreached(),
        Some(node) => {
            if index == 0 {
                &mut node.value
            } else {
                get_mut_link(&mut node.next, index - 1)
            }
        }
    }
}

/// Compares the chains hanging off `a` and `b` node by node.
fn link_eq<T: PartialEq>(a: &Option<Box<Node<T>>>, b: &Option<Box<Node<T>>>) -> (r: bool)
    ensures
        T::obeys_eq_spec() ==> (r <==> crate::pairwise_eq(link_view(*a), link_view(*b))),
    decreases *a,
{
    match (a, b) {
        (None, None) => true,
        (Some(x), Some(y)) => {
            proof {
                crate::lemma_pairwise_eq_cons(
                    x.value,
                    y.value,
                    link_view(x.next),
                    link_view(y.next),
                );
            }
            if x.value == y.value {
                link_eq(&x.next, &y.next)
            } else {
                false
            }
        }
        _ => false,
    }
}

/// Appends a node holding `value` at the end of the chain hanging off `link`.
fn push_back_link<T>(link: &mut Option<Box<Node<T>>>, value: T)
    ensures
        link_view(*final(link)) == link_view(*old(link)).push(value),
    decreases *old(link),
{
    match link {
        None => {
            *link = Some(Box::new(Node { next: None, value }));
            proof {
                assert(link_view(*final(link)) =~= link_view(*old(link)).push(value));
            }
        }
        Some(node) => {
            push_back_link(&mut node.next, value);
            proof {
                assert(link_view(*final(link)) =~= link_view(*old(link)).push(value));
            }
        }
    }
}

} // verus!
