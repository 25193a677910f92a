use slog::Level;

const ALL: [Level; 6] = [
    Level::Critical,
    Level::Error,
    Level::Warning,
    Level::Info,
    Level::Debug,
    Level::Trace,
];

#[test]
fn as_usize_counts_from_the_most_severe() {
    assert_eq!(Level::Critical.as_usize(), 0);
    assert_eq!(Level::Error.as_usize(), 1);
    assert_eq!(Level::Warning.as_usize(), 2);
    assert_eq!(Level::Info.as_usize(), 3);
    assert_eq!(Level::Debug.as_usize(), 4);
    assert_eq!(Level::Trace.as_usize(), 5);
}

#[test]
fn every_level_is_at_least_itself() {
    for level in ALL {
        assert!(level.is_at_least(level));
    }
}

#[test]
fn is_at_least_follows_the_order_of_severity() {
    for (i, a) in ALL.iter().enumerate() {
        for (j, b) in ALL.iter().enumerate() {
            assert_eq!(a.is_at_least(*b), i <= j);
        }
    }
}

#[test]
fn is_at_least_examples() {
    assert!(Level::Critical.is_at_least(Level::Trace));
    assert!(Level::Error.is_at_least(Level::Warning));
    assert!(!Level::Warning.is_at_least(Level::Error));
    assert!(!Level::Trace.is_at_least(Level::Debug));
    assert!(Level::Info.is_at_least(Level::Info));
}

#[test]
fn any_two_levels_compare() {
    for a in ALL {
        for b in ALL {
            assert!(a.is_at_least(b) || b.is_at_least(a));
            if a.is_at_least(b) && b.is_at_least(a) {
                assert_eq!(a, b);
            }
        }
    }
}

#[test]
fn is_at_least_is_transitive() {
    for a in ALL {
        for b in ALL {
            for c in ALL {
                if a.is_at_least(b) && b.is_at_least(c) {
                    assert!(a.is_at_least(c));
                }
            }
        }
    }
}
