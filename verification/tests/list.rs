use linked_stack::List;
use std::rc::Rc;

#[test]
fn list_test() {
    let mut list = List::new();

    assert_eq!(list.pop(), None);

    list.push(1);
    list.push(2);
    list.push(3);

    assert_eq!(list.pop(), Some(3));
    assert_eq!(list.pop(), Some(2));

    list.push(4);
    list.push(5);

    assert_eq!(list.pop(), Some(5));
    assert_eq!(list.pop(), Some(4));

    assert_eq!(list.pop(), Some(1));
    assert_eq!(list.pop(), None);
}

#[test]
fn peek_test() {
    let mut list: List<i32> = List::new();

    assert_eq!(list.peek(), None);
    assert_eq!(list.peek_mut(), None);

    list.push(1);
    assert_eq!(list.peek(), Some(&1));
    assert_eq!(list.peek_mut(), Some(&mut 1));

    list.push(3);
    list.peek_mut().map(|val| *val = 42);
}

#[test]
fn pops_come_in_reverse_of_pushes() {
    let mut list = List::new();
    for v in 1..=10u32 {
        list.push(v);
    }
    for v in (1..=10u32).rev() {
        assert_eq!(list.pop(), Some(v));
    }
    assert_eq!(list.pop(), None);
}

#[test]
fn pops_leave_what_was_below_the_pushes() {
    let mut list = List::new();
    list.push(7);
    list.push(8);
    for v in [10, 20, 30] {
        list.push(v);
    }
    assert_eq!(list.pop(), Some(30));
    assert_eq!(list.pop(), Some(20));
    assert_eq!(list.pop(), Some(10));
    assert_eq!(list.peek(), Some(&8));
    assert_eq!(list.pop(), Some(8));
    assert_eq!(list.pop(), Some(7));
    assert_eq!(list.pop(), None);
}

#[test]
fn pop_on_empty_stays_empty() {
    let mut list: List<u8> = List::new();
    for _ in 0..5 {
        assert_eq!(list.pop(), None);
    }
    list.push(9);
    assert_eq!(list.pop(), Some(9));
    for _ in 0..5 {
        assert_eq!(list.pop(), None);
    }
    assert_eq!(list.peek(), None);
}

#[test]
fn push_after_exhaustion_works_again() {
    let mut list = List::new();
    list.push(1);
    assert_eq!(list.pop(), Some(1));
    assert_eq!(list.pop(), None);
    list.push(2);
    assert_eq!(list.peek(), Some(&2));
    assert_eq!(list.pop(), Some(2));
    assert_eq!(list.pop(), None);
}

#[test]
fn peek_is_the_last_push_not_yet_popped() {
    let mut list = List::new();
    list.push(1);
    assert_eq!(list.peek(), Some(&1));
    list.push(2);
    assert_eq!(list.peek(), Some(&2));
    assert_eq!(list.peek_mut(), Some(&mut 2));
    assert_eq!(list.pop(), Some(2));
    assert_eq!(list.peek(), Some(&1));
    assert_eq!(list.peek_mut(), Some(&mut 1));
    assert_eq!(list.pop(), Some(1));
    assert_eq!(list.peek(), None);
    assert_eq!(list.peek_mut(), None);
}

#[test]
fn peek_does_not_change_the_list() {
    let mut list = List::new();
    list.push(1);
    list.push(2);
    assert_eq!(list.peek(), Some(&2));
    assert_eq!(list.peek(), Some(&2));
    assert_eq!(list.pop(), Some(2));
    assert_eq!(list.pop(), Some(1));
}

#[test]
fn write_through_peek_mut_is_what_pop_returns() {
    let mut list = List::new();
    list.push(1);
    list.push(3);
    list.peek_mut().map(|val| *val = 42);
    assert_eq!(list.peek(), Some(&42));
    assert_eq!(list.pop(), Some(42));
    assert_eq!(list.pop(), Some(1));
    assert_eq!(list.pop(), None);
}

#[test]
fn peek_mut_on_empty_writes_nothing() {
    let mut list: List<i32> = List::new();
    assert_eq!(list.peek_mut().map(|val| *val = 42), None);
    assert_eq!(list.pop(), None);
}

#[test]
fn elements_need_not_be_copyable() {
    let mut list = List::new();
    list.push(String::from("a"));
    list.push(String::from("b"));
    if let Some(top) = list.peek_mut() {
        top.push('!');
    }
    assert_eq!(list.peek().map(|s| s.as_str()), Some("b!"));
    assert_eq!(list.pop(), Some(String::from("b!")));
    assert_eq!(list.pop(), Some(String::from("a")));
    assert_eq!(list.pop(), None);
}

#[test]
fn dropping_a_long_list_keeps_the_call_stack_flat() {
    let mut list = List::new();
    for v in 0..100_000u32 {
        list.push(v);
    }
    assert_eq!(list.peek(), Some(&99_999));
    drop(list);
}

#[test]
fn dropping_a_very_long_list_keeps_the_call_stack_flat() {
    let mut list = List::new();
    for v in 0..2_000_000u64 {
        list.push(v);
    }
    drop(list);
}

#[test]
fn dropping_a_list_drops_each_element_once() {
    let token = Rc::new(());
    let mut list = List::new();
    for _ in 0..10 {
        list.push(Rc::clone(&token));
    }
    assert_eq!(Rc::strong_count(&token), 11);
    let popped = list.pop();
    assert_eq!(Rc::strong_count(&token), 11);
    drop(popped);
    assert_eq!(Rc::strong_count(&token), 10);
    drop(list);
    assert_eq!(Rc::strong_count(&token), 1);
}
