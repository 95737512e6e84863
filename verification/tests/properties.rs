use lists::{DoublyLinkedList, List, SinglyLinkedList};

#[test]
fn pushed_values_are_indexed() {
    let mut list = List::new();
    let values = [7, 1, 8, 2, 8, 1, 8, 2, 8, 4];

    for (n, v) in values.iter().enumerate() {
        assert_eq!(list.len(), n);
        list.push(*v);
    }

    assert_eq!(list.len(), values.len());
    for (i, v) in values.iter().enumerate() {
        assert_eq!(list.get(i), Some(v));
    }
    assert_eq!(list.get(values.len()), None);
}

#[test]
fn growth_doubles_capacity() {
    let mut list = List::new();
    assert_eq!(list.capacity(), 0);

    list.push(10);
    assert_eq!(list.capacity(), 4);
    list.push(11);
    list.push(12);
    list.push(13);
    assert_eq!(list.capacity(), 4);

    list.push(14);
    assert_eq!(list.capacity(), 8);

    for (i, v) in [10, 11, 12, 13, 14].iter().enumerate() {
        assert_eq!(list.get(i), Some(v));
    }

    for v in 15..=18 {
        list.push(v);
    }
    assert_eq!(list.capacity(), 16);
    assert_eq!(list.get(8), Some(&18));
}

#[test]
fn round_trip_singly() {
    let mut list = SinglyLinkedList::new();
    list.push_back(42);
    assert_eq!(list.pop_front(), Some(42));
    assert_eq!(list.len(), 0);
    assert_eq!(list.front(), None);
}

#[test]
fn round_trip_doubly() {
    let mut list = DoublyLinkedList::new();
    list.push_back(42);
    assert_eq!(list.pop_front(), Some(42));
    assert_eq!(list.len(), 0);
    assert_eq!(list.front(), None);
}

#[test]
fn clear_is_idempotent() {
    let mut array = List::new();
    array.push(1);
    array.push(2);
    array.clear();
    assert!(array.is_empty());
    array.clear();
    assert!(array.is_empty());

    let mut singly = SinglyLinkedList::new();
    singly.push_back(1);
    singly.push_back(2);
    singly.clear();
    assert_eq!(singly.len(), 0);
    singly.clear();
    assert_eq!(singly.len(), 0);

    let mut doubly = DoublyLinkedList::new();
    doubly.push_back(1);
    doubly.push_back(2);
    doubly.clear();
    assert_eq!(doubly.len(), 0);
    doubly.clear();
    assert_eq!(doubly.len(), 0);
}

#[test]
fn truncate_beyond_length_is_noop() {
    let mut list = List::new();
    list.push(1);
    list.push(2);
    list.push(3);

    list.truncate(3);
    assert_eq!(list.len(), 3);
    list.truncate(10);
    assert_eq!(list.len(), 3);
    assert_eq!(list.get(0), Some(&1));
    assert_eq!(list.get(2), Some(&3));
}

#[test]
fn truncate_to_zero_clears() {
    let mut truncated = List::new();
    truncated.push(1);
    truncated.push(2);
    let mut cleared = List::new();
    cleared.push(1);
    cleared.push(2);

    truncated.truncate(0);
    cleared.clear();

    assert!(truncated == cleared);
    assert!(truncated.is_empty());
    assert_eq!(truncated.capacity(), cleared.capacity());
}

#[test]
fn equality_follows_contents() {
    let values = [4, 4, 2];

    let mut singly_a = SinglyLinkedList::new();
    let mut singly_b = SinglyLinkedList::new();
    for v in values {
        singly_a.push_back(v);
        singly_b.push_back(v);
    }
    assert!(singly_a == singly_b);
    singly_b.push_back(9);
    assert!(singly_a != singly_b);

    let mut doubly_a = DoublyLinkedList::new();
    let mut doubly_b = DoublyLinkedList::new();
    for v in values {
        doubly_a.push_back(v);
        doubly_b.push_back(v);
    }
    assert!(doubly_a == doubly_b);
    *doubly_b.get_mut(1).unwrap() = 7;
    assert!(doubly_a != doubly_b);
}

#[test]
fn doubly_traversal_symmetry() {
    let values = [10, 20, 30, 40];
    let mut list = DoublyLinkedList::new();
    for v in values {
        list.push_back(v);
    }

    for (i, v) in values.iter().enumerate() {
        assert_eq!(list.get(i), Some(v));
    }

    let mut it = list.into_iter();
    let mut reversed = Vec::new();
    while let Some(v) = it.next_back() {
        reversed.push(v);
    }
    assert_eq!(reversed, vec![40, 30, 20, 10]);
}

#[test]
fn array_sum_by_consuming() {
    let mut list = List::new();
    for v in [1, 2, 3, 4, 5] {
        list.push(v);
    }

    let mut sum = 0;
    while !list.is_empty() {
        sum += *list.back().unwrap();
        let shorter = list.len() - 1;
        list.truncate(shorter);
    }

    assert_eq!(sum, 15);
    assert!(list.is_empty());
}

#[test]
fn singly_push_front_order() {
    let mut list = SinglyLinkedList::new();
    list.push_front(1);
    list.push_front(2);
    list.push_front(3);

    assert_eq!(list.front(), Some(&3));
    assert_eq!(list.len(), 3);

    let mut it = list.into_iter();
    assert_eq!(it.next(), Some(3));
    assert_eq!(it.next(), Some(2));
    assert_eq!(it.next(), Some(1));
    assert_eq!(it.next(), None);
}

#[test]
fn doubly_pop_both_ends() {
    let mut list = DoublyLinkedList::new();
    list.push_back(1);
    list.push_back(2);
    list.push_back(3);

    assert_eq!(list.pop_front(), Some(1));
    assert_eq!(list.pop_back(), Some(3));
    assert_eq!(list.len(), 1);
    assert_eq!(list.front(), Some(&2));
    assert_eq!(list.back(), Some(&2));
}

#[test]
fn singly_mutation_through_references() {
    let mut list = SinglyLinkedList::new();
    list.push_back(5);
    list.push_back(6);
    list.push_back(7);

    *list.front_mut().unwrap() = 50;
    *list.back_mut().unwrap() = 70;
    *list.get_mut(1).unwrap() = 60;

    assert_eq!(list.get(0), Some(&50));
    assert_eq!(list.get(1), Some(&60));
    assert_eq!(list.get(2), Some(&70));
}

#[test]
fn doubly_mutation_through_references() {
    let mut list = DoublyLinkedList::new();
    list.push_back(5);
    list.push_back(6);
    list.push_back(7);

    *list.front_mut().unwrap() = 50;
    *list.back_mut().unwrap() = 70;
    *list.get_mut(1).unwrap() = 60;

    assert_eq!(list.get(0), Some(&50));
    assert_eq!(list.get(1), Some(&60));
    assert_eq!(list.get(2), Some(&70));
}

#[test]
fn empty_containers_give_absent_results() {
    let mut array = List::<i32>::new();
    assert_eq!(array.get(0), None);
    assert_eq!(array.front(), None);
    assert_eq!(array.back(), None);
    assert_eq!(array.front_mut(), None);
    assert_eq!(array.back_mut(), None);

    let mut singly = SinglyLinkedList::<i32>::new();
    assert_eq!(singly.pop_front(), None);
    assert_eq!(singly.back(), None);
    assert_eq!(singly.get(0), None);

    let mut doubly = DoublyLinkedList::<i32>::new();
    assert_eq!(doubly.pop_front(), None);
    assert_eq!(doubly.pop_back(), None);
    assert_eq!(doubly.get(0), None);
}

#[test]
fn doubly_slot_reuse_keeps_order() {
    let mut list = DoublyLinkedList::new();
    for v in 1..=4 {
        list.push_back(v);
    }
    assert_eq!(list.pop_front(), Some(1));
    assert_eq!(list.pop_back(), Some(4));

    list.push_front(0);
    list.push_back(9);

    let mut it = list.into_iter();
    assert_eq!(it.size_hint(), (4, Some(4)));
    assert_eq!(it.next(), Some(0));
    assert_eq!(it.next(), Some(2));
    assert_eq!(it.next(), Some(3));
    assert_eq!(it.next(), Some(9));
    assert_eq!(it.next(), None);
}
