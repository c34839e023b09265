use lifetime_thread::drop_inner;
use lifetime_thread::drop_outer;
use lifetime_thread::is_outer_live;
use lifetime_thread::new_pair;
use lifetime_thread::Inner;
use lifetime_thread::Outer;
use lifetime_thread::SharedCell;
use std::cell::Cell;
use std::rc::Rc;
use std::sync::Arc;

struct Counted {
    payload: i32,
    hits: Rc<Cell<u32>>,
}

impl Drop for Counted {
    fn drop(&mut self) {
        self.hits.set(self.hits.get() + 1);
    }
}

#[test]
fn owner_reads_value() {
    let (outer, inner) = new_pair(String::from("xxx"));
    assert_eq!(outer.get(), "xxx");
    assert_eq!(inner.get().map(String::as_str), Some("xxx"));
    assert_eq!(outer.get(), "xxx");
}

#[test]
fn owner_unaffected_by_worker_drop() {
    let (outer, inner) = new_pair(String::from("xxx"));
    drop(inner);
    assert_eq!(outer.get(), "xxx");
    assert_eq!(outer.get(), "xxx");
}

#[test]
fn worker_absent_after_owner_drop() {
    let (outer, inner) = new_pair(7i32);
    assert_eq!(inner.get().copied(), Some(7));
    drop(outer);
    assert!(inner.get().is_none());
    assert!(inner.get().is_none());
}

#[test]
fn recorded_value_survives_owner() {
    let (outer, inner) = new_pair(42i32);
    let recorded: Option<i32> = inner.get().copied();
    drop(outer);
    assert_eq!(recorded, Some(42));
    assert!(inner.get().is_none());
}

#[test]
fn polling_is_monotone() {
    let (outer, inner) = new_pair(5i32);
    let mut owner_slot: Option<Outer<i32>> = Some(outer);
    let mut results: Vec<bool> = Vec::new();
    for i in 0..50usize {
        if i == 5 {
            owner_slot = None;
        }
        results.push(inner.get().is_some());
    }
    assert!(owner_slot.is_none());
    for (i, present) in results.iter().enumerate() {
        assert_eq!(*present, i < 5);
    }
}

#[test]
fn destructor_runs_once_owner_first() {
    let hits: Rc<Cell<u32>> = Rc::new(Cell::new(0));
    let (outer, inner) = new_pair(Counted { payload: 123, hits: hits.clone() });
    assert_eq!(outer.get().payload, 123);
    drop(outer);
    assert_eq!(hits.get(), 0);
    drop(inner);
    assert_eq!(hits.get(), 1);
}

#[test]
fn destructor_runs_once_worker_first() {
    let hits: Rc<Cell<u32>> = Rc::new(Cell::new(0));
    let (outer, inner) = new_pair(Counted { payload: 123, hits: hits.clone() });
    drop(inner);
    assert_eq!(hits.get(), 0);
    assert_eq!(outer.get().payload, 123);
    drop(outer);
    assert_eq!(hits.get(), 1);
}

#[test]
fn stress_many_pairs() {
    let total: Rc<Cell<u32>> = Rc::new(Cell::new(0));
    for i in 0..10_000usize {
        let hits: Rc<Cell<u32>> = Rc::new(Cell::new(0));
        let (outer, inner) = new_pair(Counted {
            payload: i as i32,
            hits: hits.clone(),
        });
        assert_eq!(outer.get().payload, i as i32);
        if i % 2 == 0 {
            drop(outer);
            assert!(inner.get().is_none());
            drop(inner);
        } else {
            drop(inner);
            assert_eq!(outer.get().payload, i as i32);
            drop(outer);
        }
        assert_eq!(hits.get(), 1);
        total.set(total.get() + hits.get());
    }
    assert_eq!(total.get(), 10_000);
}

#[test]
fn flag_transitions() {
    assert_eq!(drop_inner(0b11), 0b01);
    assert_eq!(drop_inner(0b01), 0b01);
    assert_eq!(drop_inner(0b10), 0);
    assert_eq!(drop_outer(0b11), 0b10);
    assert_eq!(drop_outer(0b10), 0b10);
    assert_eq!(drop_outer(0b01), 0);
    assert!(is_outer_live(0b11));
    assert!(is_outer_live(0b01));
    assert!(!is_outer_live(0b10));
    assert!(!is_outer_live(0));
    assert_eq!(drop_inner(drop_outer(0b11)), 0);
    assert_eq!(drop_outer(drop_inner(0b11)), 0);
}

#[test]
fn handles_from_one_cell() {
    let cell = Arc::new(SharedCell::new(10i32));
    let inner: Inner<i32> = Inner::new(cell.clone());
    let outer: Outer<i32> = Outer::new(cell);
    assert_eq!(*outer.get(), 10);
    assert_eq!(inner.get().copied(), Some(10));
    drop(outer);
    assert!(inner.get().is_none());
}
