use lists::DoublyLinkedList;

fn build(values: &[i32]) -> DoublyLinkedList<i32> {
    let mut list = DoublyLinkedList::new();
    for v in values {
        list.push_back(*v);
    }
    list
}

#[test]
fn tests_new() {
    let list = DoublyLinkedList::<()>::new();

    assert_eq!(list.len(), 0);
    assert_eq!(list.front(), None);
    assert_eq!(list.back(), None);
}

#[test]
fn tests_front_back() {
    let mut list = build(&[1, 2]);

    assert_eq!(list.front_mut(), Some(&mut 1));
    assert_eq!(list.back_mut(), Some(&mut 2));
    assert_eq!(list.front(), Some(&1));
    assert_eq!(list.back(), Some(&2));
}

#[test]
fn tests_push() {
    let mut list = DoublyLinkedList::new();

    list.push_front(1);
    list.push_front(2);

    assert_eq!(list.len(), 2);
    assert_eq!(list.front(), Some(&2));
    assert_eq!(list.back(), Some(&1));

    let mut list = DoublyLinkedList::new();

    list.push_back(1);
    list.push_back(2);

    assert_eq!(list.len(), 2);
    assert_eq!(list.front(), Some(&1));
    assert_eq!(list.back(), Some(&2));
}

#[test]
fn get_at_index() {
    let mut list = build(&[1, 2, 3]);

    assert_eq!(list.get_mut(0), Some(&mut 1));
    assert_eq!(list.get_mut(1), Some(&mut 2));
    assert_eq!(list.get_mut(2), Some(&mut 3));
    assert_eq!(list.get(0), Some(&1));
    assert_eq!(list.get(1), Some(&2));
    assert_eq!(list.get(2), Some(&3));
}

#[test]
fn pop() {
    let mut list = build(&[1, 2, 3]);
    let front = list.pop_front();
    let back = list.pop_back();

    assert_eq!(front, Some(1));
    assert_eq!(back, Some(3));
    assert!(list == build(&[2]));
}

#[test]
fn remove() {
    let mut list = build(&[1, 2, 3]);
    list.remove_front();
    list.remove_back();

    assert!(list == build(&[2]));
}

#[test]
fn tests_eq() {
    let list_a = build(&[4, 0, 0, 5]);
    let list_b = build(&[4, 0, 0, 5]);

    assert!(list_a == list_b);
}

#[test]
fn tests_iter() {
    let list = build(&[5, 5, 5, 5]);
    let mut it = list.into_iter();
    let mut sum = 0;
    while let Some(v) = it.next() {
        sum += v;
    }
    assert_eq!(sum, 20);
}

#[test]
fn tests_index() {
    let mut list = build(&[1, 2, 3]);

    *list.get_mut(0).unwrap() = 4;
    *list.get_mut(1).unwrap() = 5;
    *list.get_mut(2).unwrap() = 6;

    assert_eq!(list.get(0), Some(&4));
    assert_eq!(list.get(1), Some(&5));
    assert_eq!(list.get(2), Some(&6));
}

#[test]
fn from_iter() {
    let arr = [1, 2, 3];
    let vec = vec![1, 2, 3];

    let mut list_a = DoublyLinkedList::new();
    for x in arr.iter() {
        list_a.push_back(x);
    }
    let mut list_b = DoublyLinkedList::new();
    for x in vec.iter() {
        list_b.push_back(x);
    }

    let mut expected = DoublyLinkedList::new();
    expected.push_back(&1);
    expected.push_back(&2);
    expected.push_back(&3);

    assert!(list_a == expected);
    assert!(list_b == expected);
}
