use lists::List;

#[test]
fn push() {
    let mut list = List::<usize>::new();

    for i in 0..32000 {
        list.push(i);
        assert_eq!(*list.index(i), i);
    }
}

#[test]
fn list_macro() {
    let mut list = List::new();
    list.push(1);
    list.push(2);
    list.push(3);
    list.push(4);
    list.push(5);

    assert_eq!(list.len(), 5);

    for i in 0..5usize {
        assert_eq!(*list.index(i), i as i32 + 1);
    }
}

#[test]
fn get() {
    let mut list = List::new();
    list.push(1);
    list.push(2);
    list.push(3);

    *list.get_mut(0).unwrap() = 4;
    assert_eq!(list.get(0), Some(&4));
}

#[test]
fn index() {
    let mut list = List::new();
    list.push(1);
    list.push(2);
    list.push(3);

    *list.index_mut(0) = 4;
    *list.index_mut(1) = 5;
    *list.index_mut(2) = 6;

    assert_eq!(*list.index(0), 4);
    assert_eq!(*list.index(1), 5);
    assert_eq!(*list.index(2), 6);
}

#[test]
fn truncate() {
    let mut list = List::new();
    list.push(3);
    list.push(2);
    list.push(1);
    list.truncate(1);

    let mut expected = List::new();
    expected.push(3);
    assert!(list == expected);
}

#[test]
fn clear() {
    let mut list = List::new();
    list.push("List");
    list.push("is");
    list.push("not");
    list.push("clear");
    assert_eq!(list.is_empty(), false);

    list.clear();
    assert_eq!(list.is_empty(), true);
}

#[test]
fn eq_ne() {
    let mut list = List::new();
    for v in [1, 2, 3, 4, 5] {
        list.push(v);
    }

    let mut same = List::new();
    for v in [1, 2, 3, 4, 5] {
        same.push(v);
    }
    assert!(list == same);

    let mut shifted = List::new();
    for v in [0, 1, 2, 3, 4] {
        shifted.push(v);
    }
    assert!(list != shifted);

    let mut longer = List::new();
    for v in [1, 2, 3, 4, 5, 6] {
        longer.push(v);
    }
    assert!(list != longer);
}

#[test]
fn display() {
    let mut list = List::new();
    for v in [5, 4, 3, 2, 1] {
        list.push(v);
    }

    assert_eq!(list.display_string().as_str(), "[5, 4, 3, 2, 1]");
}

#[test]
fn display_edges() {
    let empty = List::<i32>::new();
    assert_eq!(empty.display_string().as_str(), "[]");

    let mut list = List::new();
    for v in [-12, 0, 7] {
        list.push(v);
    }
    assert_eq!(list.display_string().as_str(), "[-12, 0, 7]");

    let mut extreme = List::new();
    extreme.push(i32::MIN);
    extreme.push(i32::MAX);
    assert_eq!(extreme.display_string().as_str(), "[-2147483648, 2147483647]");
}

#[test]
fn front_back() {
    let mut list = List::new();
    list.push("front");
    list.push("_");
    list.push("back");

    *list.front_mut().unwrap() = "FRONT";
    *list.back_mut().unwrap() = "BACK";

    assert_eq!(list.front(), Some(&"FRONT"));
    assert_eq!(list.back(), Some(&"BACK"));
}

#[test]
fn with_capacity() {
    let mut list = List::with_capacity(3);

    list.push(1);
    list.push(2);
    list.push(3);
    assert_eq!(list.capacity(), 3);

    list.push(4);
    assert!(list.capacity() > 3);
}
