use slog::BorrowedKV;
use slog::Level;
use slog::Record;
use slog::RecordStatic;

#[test]
fn record_hands_back_what_it_was_built_from() {
    let meta = RecordStatic {
        level: Level::Warning,
        file: "src/place.rs",
        line: 17,
        column: 5,
        function: "run",
        module: "app::place",
        target: "audit",
    };
    let pairs = [("user", "ann"), ("try", "3")];
    let record = Record::new(&meta, "it happened", BorrowedKV(&pairs));
    assert_eq!(record.msg(), "it happened");
    assert_eq!(record.level(), Level::Warning);
    assert_eq!(record.line(), 17);
    assert_eq!(record.column(), 5);
    assert_eq!(record.file(), "src/place.rs");
    assert_eq!(record.target(), "audit");
    assert_eq!(record.module(), "app::place");
    assert_eq!(record.function(), "run");
    assert_eq!(record.kv().0, &[("user", "ann"), ("try", "3")]);
}

#[test]
fn record_with_empty_parts() {
    let meta = RecordStatic {
        level: Level::Trace,
        file: "",
        line: 0,
        column: 0,
        function: "",
        module: "",
        target: "",
    };
    let record = Record::new(&meta, "", BorrowedKV(&[]));
    assert_eq!(record.msg(), "");
    assert_eq!(record.level(), Level::Trace);
    assert_eq!(record.line(), 0);
    assert_eq!(record.column(), 0);
    assert_eq!(record.file(), "");
    assert_eq!(record.target(), "");
    assert_eq!(record.module(), "");
    assert_eq!(record.function(), "");
    assert!(record.kv().0.is_empty());
}

#[test]
fn record_keeps_the_largest_line_and_column() {
    let meta = RecordStatic {
        level: Level::Critical,
        file: "f",
        line: u32::MAX,
        column: u32::MAX,
        function: "g",
        module: "m",
        target: "t",
    };
    let record = Record::new(&meta, "m", BorrowedKV(&[]));
    assert_eq!(record.line(), 4294967295);
    assert_eq!(record.column(), 4294967295);
}

#[test]
fn kv_can_be_taken_more_than_once() {
    let meta = RecordStatic {
        level: Level::Info,
        file: "f",
        line: 1,
        column: 1,
        function: "g",
        module: "m",
        target: "t",
    };
    let pairs = [("a", "1")];
    let record = Record::new(&meta, "m", BorrowedKV(&pairs));
    let first = record.kv().to_vec();
    let second = record.kv().to_vec();
    assert_eq!(first, second);
    assert_eq!(first, vec![("a".to_string(), "1".to_string())]);
}
