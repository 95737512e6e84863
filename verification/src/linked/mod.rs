//! Linked sequences: chains of individually owned nodes.

use vstd::prelude::*;

pub mod doubly;
pub mod singly;


pub use doubly::DoublyLinkedList;
pub use singly::SinglyLinkedList;

verus! {

/// Pushing a value at the back of an empty sequence and then popping at the
/// front returns that same value and leaves the sequence empty. This is the
/// round trip that `push_back` followed by `pop_front` performs on an empty
/// list, stated over the view that both contracts use.
pub proof fn lemma_push_pop_round_trip<T>(x: T)
    ensures
        Seq::<T>::empty().push(x)[0] == x,
        Seq::<T>::empty().push(x).drop_first() =~= Seq::<T>::empty(),
{
}

} // verus!
