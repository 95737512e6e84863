//! Sequence containers with verified contracts: a growable contiguous array
//! ([`List`]), a singly-linked list ([`SinglyLinkedList`]) and a doubly-linked
//! list ([`DoublyLinkedList`]).
//!
//! Each container is an ordered sequence of owned values. Its behaviour is
//! specified against a mathematical view (`Seq<T>`) of its contents: pushing,
//! popping, indexed lookup, truncation and equality are all stated and proved
//! in terms of that view.

use vstd::prelude::*;
use vstd::std_specs::cmp::PartialEqSpec;

pub mod dynamic;
pub mod linked;

pub use dynamic::list::List;
pub use linked::doubly::DoublyLinkedList;
pub use linked::singly::SinglyLinkedList;

verus! {

/// Pairwise element equality of two value sequences: the same length, and at
/// every index elements that compare equal. This is what the equality test of
/// each container decides, for element types whose `==` obeys its
/// specification.
pub open spec fn pairwise_eq<T: PartialEq>(a: Seq<T>, b: Seq<T>) -> bool {
    a.len() == b.len() && (forall|i: int| 0 <= i < a.len() ==> a[i].eq_spec(&b[i]))
}

/// Prepending one element to each of two sequences preserves and reflects
/// pairwise equality: the heads must compare equal and the tails pairwise so.
pub(crate) proof fn lemma_pairwise_eq_cons<T: PartialEq>(v: T, w: T, t1: Seq<T>, t2: Seq<T>)
    ensures
        pairwise_eq(seq![v] + t1, seq![w] + t2) <==> (v.eq_spec(&w) && pairwise_eq(t1, t2)),
{
    let a = seq![v] + t1;
    let b = seq![w] + t2;
    assert(a[0] == v);
    assert(b[0] == w);
    assert forall|i: int| 0 <= i < t1.len() implies a[i + 1] == t1[i] by {}
    assert forall|i: int| 0 <= i < t2.len() implies b[i + 1] == t2[i] by {}
    if v.eq_spec(&w) && pairwise_eq(t1, t2) {
        assert forall|i: int| 0 <= i < a.len() implies a[i].eq_spec(&b[i]) by {
            if i > 0 {
                assert(t1[i - 1].eq_spec(&t2[i - 1]));
            }
        }
    }
    if pairwise_eq(a, b) {
        assert forall|i: int| 0 <= i < t1.len() implies t1[i].eq_spec(&t2[i]) by {
            assert(a[i + 1].eq_spec(&b[i + 1]));
        }
    }
}

/// Container equality decides exactly equality of contents: for element types
/// whose equality test agrees with mathematical equality, two containers are
/// equal if and only if their views are the same sequence — so equal push
/// sequences give equal containers, and a differing length or any differing
/// element makes them unequal.
pub proof fn lemma_eq_characterization<T: PartialEq>(a: Seq<T>, b: Seq<T>)
    requires
        forall|x: T, y: T| #[trigger] x.eq_spec(&y) <==> x == y,
    ensures
        pairwise_eq(a, b) <==> a =~= b,
{
    if pairwise_eq(a, b) {
        assert forall|i: int| 0 <= i < a.len() implies a[i] == b[i] by {
            assert(a[i].eq_spec(&b[i]));
        }
    }
    if a =~= b {
        assert forall|i: int| 0 <= i < a.len() implies a[i].eq_spec(&b[i]) by {
            assert(a[i] == b[i]);
        }
    }
}

} // verus!
