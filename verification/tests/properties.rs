use std::cell::Cell;
use std::rc::Rc;
use std::sync::Arc;

use quinine::{MonoArc, MonoBox};

/// A value that counts, in a shared tally, how many times it is
/// dropped.
struct Tally {
    hits: Rc<Cell<u32>>,
}

impl Drop for Tally {
    fn drop(&mut self) {
        self.hits.set(self.hits.get() + 1);
    }
}

#[test]
fn box_populate_once_scenario() {
    let mut cell = MonoBox::<i64>::empty();
    assert!(cell.is_none());

    assert!(cell.store_value(5));

    match cell.store(Box::new(7)) {
        Err(rejected) => assert_eq!(*rejected, 7),
        Ok(()) => panic!("a populated cell accepted a second store"),
    }

    assert_eq!(cell.as_ref(), Some(&5));
    assert_eq!(cell.take(), Some(Box::new(5)));
    assert!(cell.is_none());
}

#[test]
fn arc_shared_handles_scenario() {
    let cell: MonoArc<String> = MonoArc::new(Some(Arc::new("x".to_string())));
    let cloned_cell = cell.clone();

    let first = cell.get().unwrap();
    let second = cloned_cell.get().unwrap();
    assert_eq!(first.as_str(), "x");
    assert_eq!(second.as_str(), "x");

    drop(cell);
    drop(first);

    assert_eq!(second.as_str(), "x");
    assert_eq!(cloned_cell.as_ref().unwrap().as_str(), "x");

    drop(cloned_cell);
    assert_eq!(Arc::strong_count(&second), 1);
    assert_eq!(second.as_str(), "x");
}

#[test]
fn box_populated_stays_populated() {
    let mut cell = MonoBox::<u32>::empty();
    assert!(cell.store_value(1));

    for attempt in 2u32..10 {
        assert!(!cell.store_value(attempt));
        assert!(cell.is_some());
        assert_eq!(cell.as_ref(), Some(&1));
    }
}

#[test]
fn arc_single_winner() {
    let mut cell = MonoArc::<u32>::empty();
    let mut accepted: u32 = 0;

    for value in 10u32..15 {
        if cell.store_value(value) {
            accepted += 1;
        }
    }

    assert_eq!(accepted, 1);
    assert_eq!(cell.as_ref(), Some(&10));
}

#[test]
fn box_round_trip() {
    let cell: MonoBox<String> = "value".to_string().into();
    assert_eq!(cell.into_inner(), Some(Box::new("value".to_string())));
}

#[test]
fn arc_round_trip() {
    let cell: MonoArc<String> = "value".to_string().into();
    assert_eq!(cell.into_inner(), Some(Arc::new("value".to_string())));
}

#[test]
fn box_take_on_empty() {
    let mut cell = MonoBox::<u8>::empty();
    assert_eq!(cell.take(), None);
    assert!(cell.is_none());

    assert_eq!(cell.swap(Some(Box::new(3u8))), None);
    assert_eq!(cell.swap(None), Some(Box::new(3u8)));
    assert!(cell.is_none());
}

#[test]
fn box_drop_releases_exactly_once() {
    let hits: Rc<Cell<u32>> = Rc::new(Cell::new(0));

    let full = MonoBox::new(Some(Box::new(Tally { hits: Rc::clone(&hits) })));
    drop(full);
    assert_eq!(hits.get(), 1);

    let empty = MonoBox::<Tally>::empty();
    drop(empty);
    assert_eq!(hits.get(), 1);
}

#[test]
fn arc_release_decrements_exactly_once() {
    let payload = Arc::new(41u32);
    assert_eq!(Arc::strong_count(&payload), 1);

    let mut cell = MonoArc::new(Some(Arc::clone(&payload)));
    assert_eq!(Arc::strong_count(&payload), 2);

    let handle = cell.get().unwrap();
    assert_eq!(Arc::strong_count(&payload), 3);

    drop(handle);
    assert_eq!(Arc::strong_count(&payload), 2);

    assert_eq!(cell.take(), Some(Arc::new(41u32)));
    assert_eq!(Arc::strong_count(&payload), 1);

    drop(cell);
    assert_eq!(Arc::strong_count(&payload), 1);
}

#[test]
fn box_to_arc_conversion_keeps_value() {
    let exclusive: MonoBox<String> = "moved".to_string().into();
    let shared: MonoArc<String> = exclusive.into();

    let handle = shared.get().unwrap();
    assert_eq!(handle.as_str(), "moved");
    assert_eq!(Arc::strong_count(&handle), 2);
}
