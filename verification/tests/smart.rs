use rust_tour::smart::{basic, cons, deref, hello, List, MyBox, SharedList};
use std::ops::Deref;
use std::rc::Rc;

fn numbers(list: &List) -> Vec<i32> {
    let mut out = Vec::new();
    let mut at = list;
    while let List::Cons(n, rest) = at {
        out.push(*n);
        at = rest;
    }
    out
}

fn shared_numbers(list: &SharedList) -> Vec<i32> {
    let mut out = Vec::new();
    let mut at = list;
    while let SharedList::Cons(n, rest) = at {
        out.push(*n);
        at = rest;
    }
    out
}

#[test]
fn the_boxed_list_holds_one_two_three() {
    assert_eq!(numbers(&cons()), vec![1, 2, 3]);
}

#[test]
fn two_lists_share_their_rest() {
    let (b, c) = basic();
    assert_eq!(shared_numbers(&b), vec![3, 5, 10]);
    assert_eq!(shared_numbers(&c), vec![4, 5, 10]);
    match (&b, &c) {
        (SharedList::Cons(_, rest_b), SharedList::Cons(_, rest_c)) => {
            assert!(Rc::ptr_eq(rest_b, rest_c));
            assert_eq!(Rc::strong_count(rest_b), 2);
        }
        _ => panic!("both lists have a first item"),
    }
}

#[test]
fn a_box_of_ones_own_gives_out_its_value() {
    let x = 5;
    let y = MyBox::new(x);
    assert_eq!(5, x);
    assert_eq!(5, *y);
    assert_eq!(*y.deref(), 5);
    let m = MyBox::new(String::from("Rust"));
    assert_eq!(hello(&m), "Hello, Rust!");
    assert_eq!(deref(), "Hello, Rust!");
}
