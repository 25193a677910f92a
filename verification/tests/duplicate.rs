use slog::duplicate;
use slog::join_results;
use slog::BorrowedKV;
use slog::Discard;
use slog::Drain;
use slog::Duplicate;
use slog::Level;
use slog::OwnedKVList;
use slog::Record;
use slog::RecordStatic;
use std::cell::Cell;
use std::cell::RefCell;

/// Counts its calls, notes its turn, and returns what it was built with.
struct Fixed<'a, T, E> {
    name: &'static str,
    calls: &'a Cell<usize>,
    order: &'a RefCell<Vec<&'static str>>,
    answer: Result<T, E>,
}

impl<'a, T: Clone, E: Clone> Drain for Fixed<'a, T, E> {
    type Ok = T;
    type Err = E;
    fn log(&self, _: &Record, _: &OwnedKVList) -> Result<T, E> {
        self.calls.set(self.calls.get() + 1);
        self.order.borrow_mut().push(self.name);
        self.answer.clone()
    }
}

fn log_once<D: Drain>(drain: &D) -> Result<D::Ok, D::Err> {
    let meta = RecordStatic {
        level: Level::Info,
        file: "tests/duplicate.rs",
        line: 1,
        column: 1,
        function: "f",
        module: "duplicate",
        target: "t",
    };
    drain.log(&Record::new(&meta, "x", BorrowedKV(&[])), &OwnedKVList::root(Vec::new()))
}

#[test]
fn join_results_of_two_successes() {
    let out = join_results::<u8, String, char, i32>(Ok(1), Ok('b'));
    assert_eq!(out, Ok((1, 'b')));
}

#[test]
fn join_results_keeps_both_when_the_first_failed() {
    let out = join_results::<u8, String, char, i32>(Err("e".to_string()), Ok('b'));
    assert_eq!(out, Err((Err("e".to_string()), Ok('b'))));
}

#[test]
fn join_results_keeps_both_when_the_second_failed() {
    let out = join_results::<u8, String, char, i32>(Ok(1), Err(-4));
    assert_eq!(out, Err((Ok(1), Err(-4))));
}

#[test]
fn join_results_keeps_both_when_both_failed() {
    let out = join_results::<u8, String, char, i32>(Err("e".to_string()), Err(-4));
    assert_eq!(out, Err((Err("e".to_string()), Err(-4))));
}

fn run(first: Result<u8, String>, second: Result<char, i32>) -> (
    Result<(u8, char), (Result<u8, String>, Result<char, i32>)>,
    usize,
    usize,
    Vec<&'static str>,
) {
    let c1 = Cell::new(0);
    let c2 = Cell::new(0);
    let order = RefCell::new(Vec::new());
    let both = Duplicate::new(
        Fixed { name: "first", calls: &c1, order: &order, answer: first },
        Fixed { name: "second", calls: &c2, order: &order, answer: second },
    );
    let out = log_once(&both);
    (out, c1.get(), c2.get(), order.into_inner())
}

#[test]
fn duplicate_succeeds_when_both_succeed() {
    let (out, c1, c2, order) = run(Ok(1), Ok('b'));
    assert_eq!(out, Ok((1, 'b')));
    assert_eq!((c1, c2), (1, 1));
    assert_eq!(order, vec!["first", "second"]);
}

#[test]
fn duplicate_asks_the_second_after_the_first_failed() {
    let (out, c1, c2, order) = run(Err("e".to_string()), Ok('b'));
    assert_eq!(out, Err((Err("e".to_string()), Ok('b'))));
    assert_eq!((c1, c2), (1, 1));
    assert_eq!(order, vec!["first", "second"]);
}

#[test]
fn duplicate_keeps_the_success_of_the_first_when_the_second_failed() {
    let (out, c1, c2, order) = run(Ok(1), Err(-4));
    assert_eq!(out, Err((Ok(1), Err(-4))));
    assert_eq!((c1, c2), (1, 1));
    assert_eq!(order, vec!["first", "second"]);
}

#[test]
fn duplicate_keeps_both_errors() {
    let (out, c1, c2, order) = run(Err("e".to_string()), Err(-4));
    assert_eq!(out, Err((Err("e".to_string()), Err(-4))));
    assert_eq!((c1, c2), (1, 1));
    assert_eq!(order, vec!["first", "second"]);
}

#[test]
fn duplicate_of_discards() {
    let both = duplicate(Discard, Discard);
    assert_eq!(log_once(&both), Ok(((), ())));
}

#[test]
fn duplicates_nest_for_three_drains() {
    let c1 = Cell::new(0);
    let c2 = Cell::new(0);
    let c3 = Cell::new(0);
    let order = RefCell::new(Vec::new());
    let three = duplicate(
        Fixed { name: "a", calls: &c1, order: &order, answer: Ok::<u8, String>(1) },
        duplicate(
            Fixed { name: "b", calls: &c2, order: &order, answer: Err::<u8, String>("b".to_string()) },
            Fixed { name: "c", calls: &c3, order: &order, answer: Ok::<u8, String>(3) },
        ),
    );
    let out = log_once(&three);
    assert_eq!(out, Err((Ok(1), Err((Err("b".to_string()), Ok(3))))));
    assert_eq!((c1.get(), c2.get(), c3.get()), (1, 1, 1));
    assert_eq!(order.into_inner(), vec!["a", "b", "c"]);
}

#[test]
fn duplicate_asks_both_on_every_call() {
    let c1 = Cell::new(0);
    let c2 = Cell::new(0);
    let order = RefCell::new(Vec::new());
    let both = Duplicate::new(
        Fixed { name: "first", calls: &c1, order: &order, answer: Err::<u8, u8>(0) },
        Fixed { name: "second", calls: &c2, order: &order, answer: Err::<u8, u8>(1) },
    );
    for _ in 0..5 {
        let _ = log_once(&both);
    }
    assert_eq!((c1.get(), c2.get()), (5, 5));
}
