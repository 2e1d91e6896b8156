use history_stack::{HistoryStack, UndoStack};

#[test]
fn undo_stack() {
    let mut g = UndoStack::new(0u8);

    *g.save() += 1;

    assert_eq!(g, 1);

    assert_eq!(*g.undo().unwrap(), 0);

    assert_eq!(*g.redo().unwrap(), 1);

    assert!(g.undo().is_ok());

    *g.save() += 2;

    assert!(g.redo().is_err());
}

#[test]
fn history_stack() {
    let mut g = HistoryStack::new(0u8);

    g.push_value(5);

    assert_eq!(g, 5);

    assert_eq!(g.pop(), Some(5));

    assert_eq!(g, 0);
}

#[test]
fn history_pop_is_lifo() {
    let mut g = HistoryStack::new(1u32);
    g.push_value(2);
    g.push_value(3);
    g.push_value(4);
    assert_eq!(*g.get(), 4);
    assert_eq!(g.pop(), Some(4));
    assert_eq!(*g.get(), 3);
    assert_eq!(g.pop(), Some(3));
    assert_eq!(*g.get(), 2);
    assert_eq!(g.pop(), Some(2));
    assert_eq!(*g.get(), 1);
    assert_eq!(g.pop(), None);
    assert_eq!(*g.get(), 1);
}

#[test]
fn history_push_saves_a_clone() {
    let mut g = HistoryStack::new(String::from("a"));
    g.push();
    g.get_mut().push('b');
    assert_eq!(g.get().as_str(), "ab");
    assert_eq!(g.pop(), Some(String::from("ab")));
    assert_eq!(g.get().as_str(), "a");
    assert_eq!(g.pop(), None);
    assert_eq!(g.get().as_str(), "a");
}

#[test]
fn history_pop_on_empty_is_noop() {
    let mut g = HistoryStack::new(7i64);
    assert_eq!(g.pop(), None);
    assert_eq!(g.pop(), None);
    assert_eq!(*g.get(), 7);
    g.push_value(8);
    assert_eq!(g.pop(), Some(8));
    assert_eq!(g.pop(), None);
    assert_eq!(*g, 7);
}

#[test]
fn history_deref_reaches_current() {
    let mut g = HistoryStack::new(vec![1u8, 2]);
    g.push();
    (*g).push(3);
    assert_eq!(g.len(), 3);
    assert_eq!(g.pop(), Some(vec![1, 2, 3]));
    assert_eq!(g.len(), 2);
}

#[test]
fn history_compares_like_current() {
    let mut a = HistoryStack::new(3u8);
    let b = HistoryStack::new(3u8);
    a.push_value(9);
    a.push_value(3);
    assert!(a == b);
    assert!(a == 3u8);
    assert!(a != 9u8);
    assert!(a < 4u8);
    assert_eq!(a.partial_cmp(&2u8), Some(std::cmp::Ordering::Greater));
    a.push_value(1);
    assert!(a < b);
    assert!(a != b);
}

#[test]
fn undo_walks_back_in_reverse_order() {
    let mut g = UndoStack::new(10u32);
    g.push(11);
    g.push(12);
    *g.save() += 1;
    assert_eq!(*g.get(), 13);
    assert_eq!(*g.undo().unwrap(), 12);
    assert_eq!(*g.undo().unwrap(), 11);
    assert_eq!(*g.undo().unwrap(), 10);
    assert_eq!(g.undo(), Err(&mut 10));
    assert_eq!(*g.get(), 10);
    assert!(g.invariant_ck());
}

#[test]
fn undo_failure_still_gives_access() {
    let mut g = UndoStack::new(1u8);
    match g.undo() {
        Ok(_) => panic!("nothing to undo"),
        Err(v) => *v = 5,
    }
    assert_eq!(g, 5);
    match g.redo() {
        Ok(_) => panic!("nothing to redo"),
        Err(v) => *v += 1,
    }
    assert_eq!(g, 6);
}

#[test]
fn save_undo_redo_round_trip() {
    let mut g = UndoStack::new(String::from("x"));
    g.save().push('y');
    assert_eq!(g.get().as_str(), "xy");
    assert_eq!(g.undo().unwrap().as_str(), "x");
    assert_eq!(g.redo().unwrap().as_str(), "xy");
    assert_eq!(g.get().as_str(), "xy");
    assert!(g.redo().is_err());
    assert!(g.invariant_ck());
}

#[test]
fn write_after_undo_drops_future() {
    let mut g = UndoStack::new(0u8);
    g.push(1);
    g.push(2);
    g.push(3);
    assert!(g.undo().is_ok());
    assert!(g.undo().is_ok());
    assert_eq!(*g.get(), 1);
    g.push(7);
    assert!(g.redo().is_err());
    assert_eq!(*g.undo().unwrap(), 1);
    assert_eq!(*g.undo().unwrap(), 0);
    assert!(g.undo().is_err());
    assert_eq!(*g.redo().unwrap(), 1);
    assert_eq!(*g.redo().unwrap(), 7);
    assert!(g.redo().is_err());
}

#[test]
fn undo_compares_like_current() {
    let mut a = UndoStack::new(5i32);
    let b = UndoStack::new(5i32);
    a.push(8);
    assert!(a != b);
    assert!(a > b);
    assert!(a == 8);
    assert_eq!(a.partial_cmp(&9), Some(std::cmp::Ordering::Less));
    a.undo().unwrap();
    assert!(a == b);
    assert!(a == 5);
}

#[test]
fn undo_default_and_get_mut() {
    let mut g: UndoStack<u16> = UndoStack::default();
    assert_eq!(g, 0);
    *g.get_mut() = 4;
    assert_eq!(g, 4);
    assert!(g.undo().is_err());
    assert!(g.redo().is_err());
    assert!(g.invariant_ck());
}
