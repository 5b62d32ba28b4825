//! Construction, state inspection and read access.

use std::borrow::Borrow;

use trait_adapters::Bow;

#[test]
fn from_reference_is_borrowed() {
    let v = String::from("value");
    let b = Bow::<String>::from(&v);
    assert!(b.is_borrowed());
    assert!(!b.is_owned());
    assert_eq!(b.as_ref(), "value");
}

#[test]
fn from_value_is_owned() {
    let v = String::from("value");
    let b = Bow::<String>::from(v.clone());
    assert!(b.is_owned());
    assert!(!b.is_borrowed());
    assert_eq!(b.as_ref(), &v);
}

#[test]
fn from_box_is_owned() {
    let b = Bow::<u32>::from(Box::new(9u32));
    assert!(b.is_owned());
    assert!(!b.is_borrowed());
    assert_eq!(*b.as_ref(), 9);
}

#[test]
fn from_box_keeps_the_allocation() {
    let boxed = Box::new(9u32);
    let before = format!("{:p}", &*boxed);
    let b = Bow::<u32>::from(boxed);
    assert_eq!(format!("{:p}", b.as_ref()), before);
}

#[test]
fn variants_can_be_built_directly() {
    let v = 5u8;
    let borrowed = Bow::Borrowed(&v);
    let owned: Bow<u8> = Bow::Owned(Box::new(6));
    assert!(borrowed.is_borrowed());
    assert!(owned.is_owned());
    assert_eq!(*borrowed.as_ref(), 5);
    assert_eq!(*owned.as_ref(), 6);
}

#[test]
fn exactly_one_state_holds() {
    let v = 1i64;
    let borrowed = Bow::<i64>::from(&v);
    let owned = Bow::<i64>::from(1i64);
    assert_ne!(borrowed.is_borrowed(), borrowed.is_owned());
    assert_ne!(owned.is_borrowed(), owned.is_owned());
}

#[test]
fn read_access_keeps_a_borrowed_bow_borrowed() {
    let v = vec![1, 2, 3];
    let b = Bow::<Vec<i32>>::from(&v);
    for _ in 0..5 {
        assert_eq!(b.as_ref(), &vec![1, 2, 3]);
        assert!(b.is_borrowed());
        assert!(!b.is_owned());
    }
}

#[test]
fn read_access_keeps_an_owned_bow_owned() {
    let b = Bow::<Vec<i32>>::from(vec![1, 2, 3]);
    for _ in 0..5 {
        assert_eq!(b.as_ref(), &vec![1, 2, 3]);
        assert!(b.is_owned());
        assert!(!b.is_borrowed());
    }
}

#[test]
fn read_access_to_a_borrowed_bow_does_not_copy() {
    let v = 77u64;
    let b = Bow::<u64>::from(&v);
    assert_eq!(format!("{:p}", b.as_ref()), format!("{:p}", &v));
}

#[test]
fn deref_reads_the_value_in_both_states() {
    let v = String::from("abc");
    let borrowed = Bow::<String>::from(&v);
    let owned = Bow::<String>::from(String::from("abcd"));
    assert_eq!(borrowed.len(), 3);
    assert_eq!(owned.len(), 4);
    assert_eq!(*borrowed, "abc");
    assert_eq!(*owned, "abcd");
}

#[test]
fn borrow_reads_the_value_in_both_states() {
    let v = 12u16;
    let borrowed = Bow::<u16>::from(&v);
    let owned = Bow::<u16>::from(13u16);
    let a: &u16 = borrowed.borrow();
    let b: &u16 = owned.borrow();
    assert_eq!(*a, 12);
    assert_eq!(*b, 13);
}

#[test]
fn default_is_owned_and_holds_the_default() {
    let n: Bow<i32> = Bow::default();
    assert!(n.is_owned());
    assert!(!n.is_borrowed());
    assert_eq!(*n.as_ref(), i32::default());

    let s: Bow<String> = Bow::default();
    assert!(s.is_owned());
    assert_eq!(s.as_ref(), &String::default());

    let v: Bow<Vec<u8>> = Bow::default();
    assert!(v.is_owned());
    assert_eq!(v.as_ref(), &Vec::<u8>::default());
}
