use exercises::list::List;

#[test]
fn prepend() {
    let list: List<i32> = List::new();
    assert_eq!(list.head(), None);

    let list1 = list.prepend(1).prepend(2).prepend(3);
    println!("third:prepend:list1 = {:?}", list1);
    assert_eq!(list1.head(), Some(&3));

    let list2 = list1.tail();
    println!("third:prepend:list1 = {:?}", list2);
    assert_eq!(list2.head(), Some(&2));

    assert_eq!(list1.head(), Some(&3));

    let list = list2.tail().tail().tail();
    println!("third:prepend:list = {:?}", list);
    assert_eq!(list.head(), None);
}

#[test]
fn iter() {
    let list = List::new().prepend(1).prepend(2).prepend(3);
    let mut iter = list.iter();
    assert_eq!(iter.next(), Some(&3));
    assert_eq!(iter.next(), Some(&2));
    assert_eq!(iter.next(), Some(&1));
}

#[test]
fn empty_list_boundary() {
    let list: List<u32> = List::new();
    assert_eq!(list.head(), None);
    assert_eq!(list.tail().head(), None);
    let mut it = list.iter();
    assert_eq!(it.next(), None);
}

#[test]
fn iteration_order() {
    let list = List::new().prepend(1).prepend(2).prepend(3);
    let mut it = list.iter();
    assert_eq!(it.next(), Some(&3));
    assert_eq!(it.next(), Some(&2));
    assert_eq!(it.next(), Some(&1));
    assert_eq!(it.next(), None);
}

#[test]
fn reads_are_idempotent() {
    let list = List::new().prepend(10).prepend(20);
    assert_eq!(list.head(), list.head());
    assert_eq!(list.head(), Some(&20));

    let mut it1 = list.iter();
    let mut it2 = list.iter();
    for _ in 0..3 {
        assert_eq!(it1.next(), it2.next());
    }
}

#[test]
fn sharing_between_branches() {
    let l0: List<i32> = List::new();
    let l1 = l0.prepend(1).prepend(2).prepend(3);
    let l2 = l1.tail();

    assert_eq!(l1.head(), Some(&3));
    assert_eq!(l2.head(), Some(&2));
    assert_eq!(l1.head(), Some(&3));
    assert_eq!(l2.tail().tail().tail().head(), None);

    drop(l2);
    let mut it = l1.iter();
    assert_eq!(it.next(), Some(&3));
    assert_eq!(it.next(), Some(&2));
    assert_eq!(it.next(), Some(&1));
    assert_eq!(it.next(), None);
}

#[test]
fn teardown_under_sharing() {
    let l1 = List::new().prepend(1).prepend(2).prepend(3);
    let l2 = l1.tail();
    drop(l1);

    let mut it = l2.iter();
    assert_eq!(it.next(), Some(&2));
    assert_eq!(it.next(), Some(&1));
    assert_eq!(it.next(), None);
}

#[test]
fn deep_list_teardown() {
    let mut list: List<u32> = List::new();
    for i in 0..100_000u32 {
        list = list.prepend(i);
    }
    assert_eq!(list.head(), Some(&99_999));
    drop(list);
}

#[test]
fn clear_empties_only_this_handle() {
    let l1 = List::new().prepend(1).prepend(2).prepend(3);
    let mut l2 = l1.prepend(4);
    l2.clear();
    assert_eq!(l2.head(), None);
    assert_eq!(l1.head(), Some(&3));
}

