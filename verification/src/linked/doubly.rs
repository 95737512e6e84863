//! A two-directional linked list with O(1) access to both ends.
//!
//! The nodes live in a slot store owned by the list; each [`Node`] names the
//! slots of its neighbours, `next` pointing towards the tail and `prev`
//! towards the head. The forward chain is the authoritative order of the
//! list; `prev` is the matching back-reference, and the list's invariant
//! keeps the two directions mutually consistent. Slots of removed nodes are
//! kept on a free list and reused by later pushes, so every slot is either
//! live or free, never both.

use vstd::prelude::*;
use vstd::std_specs::cmp::PartialEqSpec;

verus! {

/// A node of a [`DoublyLinkedList`]: one owned value and the slots of the
/// neighbouring nodes.
pub struct Node<T> {
    /// The slot of the next node, absent at the back of the list.
    pub next: Option<usize>,

    /// The slot of the previous node, absent at the front of the list.
    pub prev: Option<usize>,

    /// The value held by this node.
    pub value: T,
}

impl<T> Node<T> {
    /// Creates a detached node holding `value`.
    pub fn new(value: T) -> (r: Self)
        ensures
            r.next is None,
            r.prev is None,
            r.value == value,
    {
        Node { next: None, prev: None, value }
    }
}

/// A two-directional linked list.
pub struct DoublyLinkedList<T> {
    /// The slot store: live nodes sit in their slots, free slots are empty.
    nodes: Vec<Option<Node<T>>>,

    /// The slot of the first node, absent when the list is empty.
    head: Option<usize>,

    /// The slot of the last node, absent when the list is empty.
    tail: Option<usize>,

    /// The number of live nodes.
    len: usize,

    /// The slots that hold no node and are free for reuse.
    free: Vec<usize>,

    /// The slots of the live nodes, in list order from head to tail.
    order: Ghost<Seq<usize>>,
}

impl<T> DoublyLinkedList<T> {
    /// The forward and backward links both agree with the list order: the
    /// node at position `k` names the slot at position `k + 1` as `next` and
    /// the slot at position `k - 1` as `prev`, with absent links at the ends.
    spec fn linked(self) -> bool {
        forall|k: int|
            #![trigger self.order@[k]]
            0 <= k < self.order@.len() ==> {
                &&& self.order@[k] < self.nodes@.len()
                &&& self.nodes@[self.order@[k] as int] is Some
                &&& self.nodes@[self.order@[k] as int].unwrap().next == (if k + 1
                    < self.order@.len() {
                    Some(self.order@[k + 1])
                } else {
                    None::<usize>
                })
                &&& self.nodes@[self.order@[k] as int].unwrap().prev == (if k > 0 {
                    Some(self.order@[k - 1])
                } else {
                    None::<usize>
                })
            }
    }

    /// Every free slot is an empty slot of the store.
    spec fn free_ok(self) -> bool {
        forall|j: int|
            #![trigger self.free@[j]]
            0 <= j < self.free@.len() ==> (self.free@[j] < self.nodes@.len()
                && self.nodes@[self.free@[j] as int] is None)
    }

    /// The list's structural invariant: the recorded length is the length of
    /// the order, the links are mutually consistent, `head` and `tail` name
    /// the ends of the order, no slot appears twice, and every slot of the
    /// store is exactly one of live and free.
    #[verifier::type_invariant]
    pub closed spec fn well_formed(self) -> bool {
        &&& self.len == self.order@.len()
        &&& self.linked()
        &&& self.order@.no_duplicates()
        &&& self.head == (if self.order@.len() > 0 {
            Some(self.order@[0])
        } else {
            None::<usize>
        })
        &&& self.tail == (if self.order@.len() > 0 {
            Some(self.order@[self.order@.len() - 1])
        } else {
            None::<usize>
        })
        &&& self.free_ok()
        &&& self.free@.no_duplicates()
        &&& self.nodes@.len() == self.order@.len() + self.free@.len()
    }

    /// The mathematical contents of the list: the node values in list order,
    /// head first.
    pub closed spec fn view(&self) -> Seq<T> {
        Seq::new(self.order@.len(), |k: int| self.nodes@[self.order@[k] as int].unwrap().value)
    }

    /// Constructs a new, empty list.
    pub fn new() -> (r: Self)
        ensures
            r@ == Seq::<T>::empty(),
    {
        DoublyLinkedList {
            nodes: Vec::new(),
            head: None,
            tail: None,
            len: 0,
            free: Vec::new(),
            order: Ghost(Seq::empty()),
        }
    }

    /// Returns the number of nodes in the list.
    pub fn len(&self) -> (r: usize)
        ensures
            r == self@.len(),
    {
        proof {
            use_type_invariant(self);
        }
        self.len
    }

    /// Resets the list to its empty state. The whole slot store is released
    /// in one sweep, so teardown never recurses along the chain.
    pub fn clear(&mut self)
        ensures
            final(self)@ == Seq::<T>::empty(),
    {
        let mut tmp = DoublyLinkedList::new();
        core::mem::swap(self, &mut tmp);
    }

    /// Pushes `value` at the back of the list, linking the new node behind
    /// the old tail.
    #[verifier::rlimit(60)]
    pub fn push_back(&mut self, value: T)
        requires
            old(self)@.len() < usize::MAX,
        ensures
            final(self)@ == old(self)@.push(value),
    {
        proof {
            use_type_invariant(&*self);
        }
        let mut tmp = DoublyLinkedList::new();
        core::mem::swap(self, &mut tmp);
        let DoublyLinkedList { mut nodes, head, tail, len, mut free, order } = tmp;
        let ghost ord = order@;
        let node = Node { next: None, prev: tail, value };
        let idx = place_node(&mut nodes, &mut free, node);
        match tail {
            Some(t) => {
                proof {
                    assert(t == ord[ord.len() - 1]);
                }
                set_next(&mut nodes, t, Some(idx));
            }
            None => {}
        }
        let new_head = match head {
            Some(h) => Some(h),
            None => Some(idx),
        };
        let ghost new_ord = ord.push(idx);
        proof {
            assert forall|k: int| 0 <= k < ord.len() implies new_ord[k] == ord[k] by {}
            assert(new_ord[ord.len() as int] == idx);
            assert(new_ord.no_duplicates());
        }
        *self = DoublyLinkedList {
            nodes,
            head: new_head,
            tail: Some(idx),
            len: len + 1,
            free,
            order: Ghost(new_ord),
        };
        proof {
            assert(self@ =~= old(self)@.push(value));
        }
    }

    /// Pushes `value` at the front of the list, linking the new node before
    /// the old head.
    #[verifier::rlimit(60)]
    pub fn push_front(&mut self, value: T)
        requires
            old(self)@.len() < usize::MAX,
        ensures
            final(self)@ == seq![value] + old(self)@,
    {
        proof {
            use_type_invariant(&*self);
        }
        let mut tmp = DoublyLinkedList::new();
        core::mem::swap(self, &mut tmp);
        let DoublyLinkedList { mut nodes, head, tail, len, mut free, order } = tmp;
        let ghost ord = order@;
        let node = Node { next: head, prev: None, value };
        let idx = place_node(&mut nodes, &mut free, node);
        match head {
            Some(h) => {
                proof {
                    assert(h == ord[0]);
                }
                set_prev(&mut nodes, h, Some(idx));
            }
            None => {}
        }
        let new_tail = match tail {
            Some(t) => Some(t),
            None => Some(idx),
        };
        let ghost new_ord = seq![idx] + ord;
        proof {
            assert forall|k: int| 0 <= k < ord.len() implies new_ord[k + 1] == ord[k] by {}
            assert(new_ord[0] == idx);
            assert(new_ord.no_duplicates());
        }
        *self = DoublyLinkedList {
            nodes,
            head: Some(idx),
            tail: new_tail,
            len: len + 1,
            free,
            order: Ghost(new_ord),
        };
        proof {
            assert(self@ =~= seq![value] + old(self)@);
        }
    }

    /// Detaches the head node, returning its value and freeing its slot;
    /// absent when the list is empty, which leaves the list untouched.
    pub fn pop_front(&mut self) -> (r: Option<T>)
        ensures
            old(self)@.len() > 0 ==> (r matches Some(v) && v == old(self)@[0]
                && final(self)@ == old(self)@.drop_first()),
            old(self)@.len() == 0 ==> (r is None && *final(self) == *old(self)),
    {
        proof {
            use_type_invariant(&*self);
        }
        let mut tmp = DoublyLinkedList::new();
        core::mem::swap(self, &mut tmp);
        let DoublyLinkedList { mut nodes, head, tail, len, mut free, order } = tmp;
        let ghost ord = order@;
        match head {
            None => {
                *self = DoublyLinkedList { nodes, head, tail, len, free, order };
                None
            }
            Some(h) => {
                proof {
                    assert(h == ord[0]);
                }
                let node = take_node(&mut nodes, h);
                let new_head = node.next;
                let new_tail = match new_head {
                    Some(h2) => {
                        proof {
                            assert(h2 == ord[1]);
                        }
                        set_prev(&mut nodes, h2, None);
                        tail
                    }
                    None => None,
                };
                free.push(h);
                let ghost new_ord = ord.drop_first();
                proof {
                    assert forall|k: int| 0 <= k < new_ord.len() implies new_ord[k] == ord[k + 1]
                    by {}
                    assert(new_ord.no_duplicates());
                }
                *self = DoublyLinkedList {
                    nodes,
                    head: new_head,
                    tail: new_tail,
                    len: len - 1,
                    free,
                    order: Ghost(new_ord),
                };
                proof {
                    assert(self@ =~= old(self)@.drop_first());
                }
                Some(node.value)
            }
        }
    }

    /// Detaches the tail node, returning its value and freeing its slot;
    /// absent when the list is empty, which leaves the list untouched.
    pub fn pop_back(&mut self) -> (r: Option<T>)
        ensures
            old(self)@.len() > 0 ==> (r matches Some(v) && v == old(self)@[old(self)@.len() - 1]
                && final(self)@ == old(self)@.drop_last()),
            old(self)@.len() == 0 ==> (r is None && *final(self) == *old(self)),
    {
        proof {
            use_type_invariant(&*self);
        }
        let mut tmp = DoublyLinkedList::new();
        core::mem::swap(self, &mut tmp);
        let DoublyLinkedList { mut nodes, head, tail, len, mut free, order } = tmp;
        let ghost ord = order@;
        match tail {
            None => {
                *self = DoublyLinkedList { nodes, head, tail, len, free, order };
                None
            }
            Some(t) => {
                proof {
                    assert(t == ord[ord.len() - 1]);
                }
                let node = take_node(&mut nodes, t);
                let new_tail = node.prev;
                let new_head = match new_tail {
                    Some(t2) => {
                        proof {
                            assert(t2 == ord[ord.len() - 2]);
                        }
                        set_next(&mut nodes, t2, None);
                        head
                    }
                    None => None,
                };
                free.push(t);
                let ghost new_ord = ord.drop_last();
                proof {
                    assert forall|k: int| 0 <= k < new_ord.len() implies new_ord[k] == ord[k] by {}
                    assert(new_ord.no_duplicates());
                }
                *self = DoublyLinkedList {
                    nodes,
                    head: new_head,
                    tail: new_tail,
                    len: len - 1,
                    free,
                    order: Ghost(new_ord),
                };
                proof {
                    assert(self@ =~= old(self)@.drop_last());
                }
                Some(node.value)
            }
        }
    }

    /// Removes the node at the front of the list, discarding its value.
    pub fn remove_front(&mut self)
        ensures
            old(self)@.len() > 0 ==> final(self)@ == old(self)@.drop_first(),
            old(self)@.len() == 0 ==> *final(self) == *old(self),
    {
        let _ = self.pop_front();
    }

    /// Removes the node at the back of the list, discarding its value.
    pub fn remove_back(&mut self)
        ensures
            old(self)@.len() > 0 ==> final(self)@ == old(self)@.drop_last(),
            old(self)@.len() == 0 ==> *final(self) == *old(self),
    {
        let _ = self.pop_back();
    }

    /// Returns a reference to the value at the front of the list, absent
    /// when the list is empty.
    pub fn front(&self) -> (r: Option<&T>)
        ensures
            self@.len() > 0 ==> (r matches Some(p) && *p == self@[0]),
            self@.len() == 0 ==> r is None,
    {
        proof {
            use_type_invariant(self);
        }
        match self.head {
            None => None,
            Some(h) => {
                let node = read_node(&self.nodes, h);
                Some(&node.value)
            }
        }
    }

    /// Returns a reference to the value at the back of the list, absent when
    /// the list is empty.
    pub fn back(&self) -> (r: Option<&T>)
        ensures
            self@.len() > 0 ==> (r matches Some(p) && *p == self@[self@.len() - 1]),
            self@.len() == 0 ==> r is None,
    {
        proof {
            use_type_invariant(self);
        }
        match self.tail {
            None => None,
            Some(t) => {
                let node = read_node(&self.nodes, t);
                Some(&node.value)
            }
        }
    }

    /// Returns a mutable reference to the value at the front of the list,
    /// absent when the list is empty.
    pub fn front_mut(&mut self) -> (r: Option<&mut T>)
        ensures
            old(self)@.len() > 0 ==> (r matches Some(p) && *p == old(self)@[0]
                && final(self)@ =~= old(self)@.update(0, *final(p))),
            old(self)@.len() == 0 ==> (r is None && *final(self) == *old(self)),
    {
        proof {
            use_type_invariant(&*self);
        }
        match self.head {
            None => None,
            Some(h) => node_value_mut(&mut self.nodes, h),
        }
    }

    /// Returns a mutable reference to the value at the back of the list,
    /// absent when the list is empty.
    pub fn back_mut(&mut self) -> (r: Option<&mut T>)
        ensures
            old(self)@.len() > 0 ==> (r matches Some(p) && *p == old(self)@[old(self)@.len() - 1]
                && final(self)@ =~= old(self)@.update(old(self)@.len() - 1, *final(p))),
            old(self)@.len() == 0 ==> (r is None && *final(self) == *old(self)),
    {
        proof {
            use_type_invariant(&*self);
        }
        match self.tail {
            None => None,
            Some(t) => node_value_mut(&mut self.nodes, t),
        }
    }

    /// Returns a reference to the value at position `index`, counted from
    /// the head, absent when `index` is out of bounds.
    pub fn get(&self, index: usize) -> (r: Option<&T>)
        ensures
            index < self@.len() ==> (r matches Some(p) && *p == self@[index as int]),
            index >= self@.len() ==> r is None,
    {
        proof {
            use_type_invariant(self);
        }
        if index >= self.len {
            return None;
        }
        if index == 0 {
            return self.front();
        }
        if index == self.len - 1 {
            return self.back();
        }
        let node = read_node(&self.nodes, self.walk_to(index));
        Some(&node.value)
    }

    /// Returns a mutable reference to the value at position `index`, counted
    /// from the head, absent when `index` is out of bounds.
    pub fn get_mut(&mut self, index: usize) -> (r: Option<&mut T>)
        ensures
            index < old(self)@.len() ==> (r matches Some(p) && *p == old(self)@[index as int]
                && final(self)@ =~= old(self)@.update(index as int, *final(p))),
            index >= old(self)@.len() ==> (r is None && *final(self) == *old(self)),
    {
        proof {
            use_type_invariant(&*self);
        }
        if index >= self.len {
            return None;
        }
        if index == 0 {
            return self.front_mut();
        }
        if index == self.len - 1 {
            return self.back_mut();
        }
        let cur = self.walk_to(index);
        node_value_mut(&mut self.nodes, cur)
    }

    /// Walks the forward chain from the head and returns the slot of the
    /// node at position `index`.
    fn walk_to(&self, index: usize) -> (r: usize)
        requires
            self.well_formed(),
            index < self@.len(),
        ensures
            r == self.order@[index as int],
    {
        let h = match self.head {
            Some(h) => h,
            None => vstd::pervasive::unreached(),
        };
        let mut cur: usize = h;
        let mut i: usize = 0;
        while i < index
            invariant
                self.well_formed(),
                0 <= i <= index,
                index < self@.len(),
                cur == self.order@[i as int],
            decreases index - i,
        {
            let node = read_node(&self.nodes, cur);
            match node.next {
                Some(nx) => {
                    cur = nx;
                }
                None => {
                    proof {
                        assert(false);
                    }
                }
            }
            i += 1;
        }
        cur
    }

    /// Consumes the list into an iterator that can yield the values from
    /// either end.
    pub fn into_iter(self) -> (r: Iter<T>)
        ensures
            r@ == self@,
    {
        Iter { list: self }
    }

    /// The slot reached from the head by following `next` links `n` times.
    closed spec fn seek_from_front(self, n: nat) -> Option<usize>
        decreases n,
    {
        if n == 0 {
            self.head
        } else {
            match self.seek_from_front((n - 1) as nat) {
                None => None,
                Some(s) => if s < self.nodes@.len() && self.nodes@[s as int] is Some {
                    self.nodes@[s as int].unwrap().next
                } else {
                    None
                },
            }
        }
    }

    /// The slot reached from the tail by following `prev` links `n` times.
    closed spec fn seek_from_back(self, n: nat) -> Option<usize>
        decreases n,
    {
        if n == 0 {
            self.tail
        } else {
            match self.seek_from_back((n - 1) as nat) {
                None => None,
                Some(s) => if s < self.nodes@.len() && self.nodes@[s as int] is Some {
                    self.nodes@[s as int].unwrap().prev
                } else {
                    None
                },
            }
        }
    }

    /// The value of the node reached from the head by `n` forward steps.
    pub closed spec fn value_from_front(self, n: nat) -> Option<T> {
        match self.seek_from_front(n) {
            None => None,
            Some(s) => if s < self.nodes@.len() && self.nodes@[s as int] is Some {
                Some(self.nodes@[s as int].unwrap().value)
            } else {
                None
            },
        }
    }

    /// The value of the node reached from the tail by `n` backward steps.
    pub closed spec fn value_from_back(self, n: nat) -> Option<T> {
        match self.seek_from_back(n) {
            None => None,
            Some(s) => if s < self.nodes@.len() && self.nodes@[s as int] is Some {
                Some(self.nodes@[s as int].unwrap().value)
            } else {
                None
            },
        }
    }

    /// Following the forward chain `n` steps from the head reaches the node
    /// at position `n` of the list order.
    proof fn lemma_seek_front_hits(self, n: int)
        requires
            self.well_formed(),
            0 <= n < self@.len(),
        ensures
            self.seek_from_front(n as nat) == Some(self.order@[n]),
        decreases n,
    {
        if n > 0 {
            self.lemma_seek_front_hits(n - 1);
            assert(self.order@[n - 1] < self.nodes@.len());
        }
    }

    /// Following the backward chain `n` steps from the tail reaches the node
    /// at position `len - 1 - n` of the list order.
    proof fn lemma_seek_back_hits(self, n: int)
        requires
            self.well_formed(),
            0 <= n < self@.len(),
        ensures
            self.seek_from_back(n as nat) == Some(self.order@[self@.len() - 1 - n]),
        decreases n,
    {
        if n > 0 {
            self.lemma_seek_back_hits(n - 1);
            assert(self.order@[self@.len() - 1 - n + 1] < self.nodes@.len());
        }
    }

    /// Symmetry of the two traversal directions: for every valid index `i`,
    /// walking `i` forward steps from the head and walking `len - 1 - i`
    /// backward steps from the tail reach the same node, whose value is the
    /// `i`-th element of the list.
    pub proof fn lemma_traversal_symmetry(self, i: int)
        requires
            self.well_formed(),
            0 <= i < self@.len(),
        ensures
            self.value_from_front(i as nat) == Some(self@[i]),
            self.value_from_back((self@.len() - 1 - i) as nat) == Some(self@[i]),
            self.value_from_front(i as nat) == self.value_from_back(
                (self@.len() - 1 - i) as nat,
            ),
    {
        self.lemma_seek_front_hits(i);
        self.lemma_seek_back_hits(self@.len() - 1 - i);
        assert(self.order@[i] < self.nodes@.len());
    }
}

/// A consuming iterator over a [`DoublyLinkedList`]: it owns the list and
/// can hand out its values from either end.
pub struct Iter<T> {
    /// The not-yet-yielded remainder of the list.
    list: DoublyLinkedList<T>,
}

impl<T> Iter<T> {
    /// The values not yet yielded, in list order, front first.
    pub closed spec fn view(&self) -> Seq<T> {
        self.list@
    }

    /// Yields the next value from the front, absent once the list is
    /// exhausted.
    pub fn next(&mut self) -> (r: Option<T>)
        ensures
            old(self)@.len() > 0 ==> (r matches Some(v) && v == old(self)@[0]
                && final(self)@ == old(self)@.drop_first()),
            old(self)@.len() == 0 ==> (r is None && final(self)@ == old(self)@),
    {
        self.list.pop_front()
    }

    /// Yields the next value from the back, absent once the list is
    /// exhausted.
    pub fn next_back(&mut self) -> (r: Option<T>)
        ensures
            old(self)@.len() > 0 ==> (r matches Some(v) && v == old(self)@[old(self)@.len() - 1]
                && final(self)@ == old(self)@.drop_last()),
            old(self)@.len() == 0 ==> (r is None && final(self)@ == old(self)@),
    {
        self.list.pop_back()
    }

    /// Returns the exact number of values still to come, as a lower and an
    /// upper bound.
    pub fn size_hint(&self) -> (r: (usize, Option<usize>))
        ensures
            r.0 == self@.len(),
            r.1 == Some(r.0),
    {
        let n = self.list.len();
        (n, Some(n))
    }
}

impl<T: PartialEq> PartialEq for Node<T> {
    /// Two nodes are equal when their values are; the links play no part.
    fn eq(&self, other: &Self) -> (r: bool) {
        self.value == other.value
    }
}

impl<T: PartialEq> vstd::std_specs::cmp::PartialEqSpecImpl for Node<T> {
    open spec fn obeys_eq_spec() -> bool {
        T::obeys_eq_spec()
    }

    open spec fn eq_spec(&self, other: &Self) -> bool {
        self.value.eq_spec(&other.value)
    }
}

impl<T: PartialEq> PartialEq<T> for Node<T> {
    /// A node compares equal to a bare value when its own value does.
    fn eq(&self, other: &T) -> (r: bool) {
        self.value == *other
    }
}

impl<T: PartialEq> vstd::std_specs::cmp::PartialEqSpecImpl<T> for Node<T> {
    open spec fn obeys_eq_spec() -> bool {
        T::obeys_eq_spec()
    }

    open spec fn eq_spec(&self, other: &T) -> bool {
        self.value.eq_spec(other)
    }
}

impl<T: PartialEq> PartialEq for DoublyLinkedList<T> {
    /// Two lists are equal when they have the same length and their values
    /// are pairwise equal, compared in forward traversal order.
    fn eq(&self, other: &Self) -> (r: bool) {
        proof {
            use_type_invariant(self);
            use_type_invariant(other);
        }
        if self.len != other.len {
            return false;
        }
        let mut a = self.head;
        let mut b = other.head;
        let mut i: usize = 0;
        while i < self.len
            invariant
                self.well_formed(),
                other.well_formed(),
                self.len == other.len,
                0 <= i <= self.len,
                i < self.len ==> a == Some(self.order@[i as int]),
                i < self.len ==> b == Some(other.order@[i as int]),
                T::obeys_eq_spec() ==> forall|j: int|
                    0 <= j < i ==> self@[j].eq_spec(&other@[j]),
            decreases self.len - i,
        {
            let ai = match a {
                Some(x) => x,
                None => vstd::pervasive::unreached(),
            };
            let bi = match b {
                Some(x) => x,
                None => vstd::pervasive::unreached(),
            };
            let na = read_node(&self.nodes, ai);
            let nb = read_node(&other.nodes, bi);
            if !(na.value == nb.value) {
                proof {
                    assert(self@[i as int] == na.value);
                    assert(other@[i as int] == nb.value);
                }
                return false;
            }
            a = na.next;
            b = nb.next;
            i += 1;
        }
        true
    }
}

impl<T: PartialEq> vstd::std_specs::cmp::PartialEqSpecImpl for DoublyLinkedList<T> {
    open spec fn obeys_eq_spec() -> bool {
        T::obeys_eq_spec()
    }

    open spec fn eq_spec(&self, other: &Self) -> bool {
        crate::pairwise_eq(self@, other@)
    }
}

impl<T: Eq> Eq for DoublyLinkedList<T> {

}

/// Stores `node` in an empty slot, reusing a free one when there is any, and
/// returns the slot it went to.
fn place_node<T>(nodes: &mut Vec<Option<Node<T>>>, free: &mut Vec<usize>, node: Node<T>) -> (idx:
    usize)
    requires
        forall|j: int|
            #![trigger old(free)@[j]]
            0 <= j < old(free)@.len() ==> (old(free)@[j] < old(nodes)@.len()
                && old(nodes)@[old(free)@[j] as int] is None),
        old(free)@.no_duplicates(),
    ensures
        final(free)@ == (if old(free)@.len() > 0 {
            old(free)@.drop_last()
        } else {
            old(free)@
        }),
        idx < final(nodes)@.len(),
        old(free)@.len() > 0 ==> (idx == old(free)@.last() && final(nodes)@ == old(nodes)@.update(
            idx as int,
            Some(node),
        )),
        old(free)@.len() == 0 ==> (idx == old(nodes)@.len() && final(nodes)@ == old(nodes)@.push(
            Some(node),
        )),
{
    match free.pop() {
        Some(i) => {
            replace_slot(nodes, i, Some(node));
            i
        }
        None => {
            push_slot(nodes, Some(node));
            nodes.len() - 1
        }
    }
}

/// Overwrites the slot `i` of the store with `slot`.
fn replace_slot<T>(nodes: &mut Vec<Option<Node<T>>>, i: usize, slot: Option<Node<T>>)
    requires
        i < old(nodes)@.len(),
    ensures
        final(nodes)@ == old(nodes)@.update(i as int, slot),
    no_unwind
{
    let place = &mut nodes[i];
    *place = slot;
}

/// Appends a fresh slot holding `slot` at the end of the store.
fn push_slot<T>(nodes: &mut Vec<Option<Node<T>>>, slot: Option<Node<T>>)
    ensures
        final(nodes)@ == old(nodes)@.push(slot),
{
    nodes.push(slot);
}

/// Removes and returns the node in slot `i`, leaving the slot empty.
fn take_node<T>(nodes: &mut Vec<Option<Node<T>>>, i: usize) -> (r: Node<T>)
    requires
        i < old(nodes)@.len(),
        old(nodes)@[i as int] is Some,
    ensures
        r == old(nodes)@[i as int].unwrap(),
        final(nodes)@ == old(nodes)@.update(i as int, None::<Node<T>>),
{
    let place = &mut nodes[i];
    match place.take() {
        Some(node) => node,
        None => vstd::pervasive::unreached(),
    }
}

/// Returns a reference to the node in slot `i`.
fn read_node<'a, T>(nodes: &'a Vec<Option<Node<T>>>, i: usize) -> (r: &'a Node<T>)
    requires
        i < nodes@.len(),
        nodes@[i as int] is Some,
    ensures
        *r == nodes@[i as int].unwrap(),
{
    match &nodes[i] {
        Some(node) => node,
        None => vstd::pervasive::unreached(),
    }
}

/// Returns a mutable reference to the value of the node in slot `i`, absent
/// when the slot is empty. The node's links are left untouched.
fn node_value_mut<'a, T>(nodes: &'a mut Vec<Option<Node<T>>>, i: usize) -> (r: Option<&'a mut T>)
    requires
        i < old(nodes)@.len(),
    ensures
        old(nodes)@[i as int] is Some ==> (r matches Some(p)
            && *p == old(nodes)@[i as int].unwrap().value
            && final(nodes)@ =~= old(nodes)@.update(
            i as int,
            Some(
                Node {
                    next: old(nodes)@[i as int].unwrap().next,
                    prev: old(nodes)@[i as int].unwrap().prev,
                    value: *final(p),
                },
            ),
        )),
        old(nodes)@[i as int] is None ==> (r is None && final(nodes)@ =~= old(nodes)@),
    no_unwind
{
    let place = &mut nodes[i];
    match place {
        Some(node) => Some(&mut node.value),
        None => None,
    }
}

/// Redirects the `next` link of the node in slot `i`.
fn set_next<T>(nodes: &mut Vec<Option<Node<T>>>, i: usize, next: Option<usize>)
    requires
        i < old(nodes)@.len(),
        old(nodes)@[i as int] is Some,
    ensures
        final(nodes)@ == old(nodes)@.update(
            i as int,
            Some(
                Node {
                    next,
                    prev: old(nodes)@[i as int].unwrap().prev,
                    value: old(nodes)@[i as int].unwrap().value,
                },
            ),
        ),
    no_unwind
{
    let place = &mut nodes[i];
    match place {
        Some(node) => {
            node.next = next;
        }
        None => {}
    }
}

/// Redirects the `prev` link of the node in slot `i`.
fn set_prev<T>(nodes: &mut Vec<Option<Node<T>>>, i: usize, prev: Option<usize>)
    requires
        i < old(nodes)@.len(),
        old(nodes)@[i as int] is Some,
    ensures
        final(nodes)@ == old(nodes)@.update(
            i as int,
            Some(
                Node {
                    next: old(nodes)@[i as int].unwrap().next,
                    prev,
                    value: old(nodes)@[i as int].unwrap().value,
                },
            ),
        ),
    no_unwind
{
    let place = &mut nodes[i];
    match place {
        Some(node) => {
            node.prev = prev;
        }
        None => {}
    }
}

} // verus!
