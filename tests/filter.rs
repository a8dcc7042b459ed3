use solana_logger::{debug, decimal, enabled, error, info, level, level_from_flags, record, warn, Level};

const FILE: &str = "src/lib.rs";

#[test]
fn ignore_info() {
    assert_eq!(info(Level::Warn, FILE, 110, "should not display"), None);
}

#[test]
fn include_self() {
    assert_eq!(
        warn(Level::Warn, FILE, 115, "should display"),
        Some("[src/lib.rs:115 WARN] should display".to_string())
    );
}

#[test]
fn include_above() {
    assert_eq!(
        error(Level::Warn, FILE, 120, "should display"),
        Some("[src/lib.rs:120 ERROR] should display".to_string())
    );
}

#[test]
fn apply_formatting() {
    let content = format!("hello {}", "world");
    assert_eq!(
        error(Level::Warn, FILE, 125, &content),
        Some("[src/lib.rs:125 ERROR] hello world".to_string())
    );
}

#[test]
fn warn_threshold_scenario() {
    assert_eq!(debug(Level::Warn, "a.rs", 7, "x"), None);
    assert_eq!(warn(Level::Warn, "a.rs", 8, "y"), Some("[a.rs:8 WARN] y".to_string()));
    let content = format!("z {}", "w");
    assert_eq!(error(Level::Warn, "a.rs", 9, &content), Some("[a.rs:9 ERROR] z w".to_string()));
}

const ALL: [Level; 5] = [Level::Debug, Level::Info, Level::Warn, Level::Error, Level::Disabled];
const MESSAGE_LEVELS: [Level; 4] = [Level::Debug, Level::Info, Level::Warn, Level::Error];

#[test]
fn threshold_splits_levels() {
    for (ti, threshold) in ALL.iter().enumerate() {
        for (ai, at) in MESSAGE_LEVELS.iter().enumerate() {
            assert_eq!(enabled(*threshold, *at), ai >= ti);
        }
    }
}

#[test]
fn disabled_suppresses_every_level() {
    for at in ALL.iter() {
        assert!(!enabled(Level::Disabled, *at));
        assert_eq!(record(Level::Disabled, *at, FILE, 1, "m"), None);
    }
}

#[test]
fn disabled_level_never_emitted() {
    for threshold in ALL.iter() {
        assert!(!enabled(*threshold, Level::Disabled));
        assert_eq!(record(*threshold, Level::Disabled, FILE, 1, "m"), None);
    }
}

#[test]
fn unconfigured_level_is_disabled() {
    assert_eq!(level(), Level::Disabled);
    assert_eq!(level_from_flags(false, false, false, false), Level::Disabled);
    for at in ALL.iter() {
        assert!(!enabled(level(), *at));
    }
}

#[test]
fn flags_select_least_severe() {
    assert_eq!(level_from_flags(true, true, true, true), Level::Debug);
    assert_eq!(level_from_flags(false, true, false, true), Level::Info);
    assert_eq!(level_from_flags(false, false, true, true), Level::Warn);
    assert_eq!(level_from_flags(false, false, false, true), Level::Error);
    assert_eq!(level_from_flags(true, false, false, false), Level::Debug);
}

#[test]
fn message_keeps_content_after_prefix() {
    let content = "a {} b ] [x:1 INFO] c";
    let m = record(Level::Debug, Level::Info, "m.rs", 4294967295, content).unwrap();
    assert_eq!(m, "[m.rs:4294967295 INFO] a {} b ] [x:1 INFO] c");
    assert!(m.ends_with(content));
}

#[test]
fn empty_content_and_file() {
    assert_eq!(record(Level::Debug, Level::Debug, "", 0, ""), Some("[:0 DEBUG] ".to_string()));
}

#[test]
fn filter_is_deterministic() {
    for threshold in ALL.iter() {
        for at in ALL.iter() {
            assert_eq!(enabled(*threshold, *at), enabled(*threshold, *at));
            assert_eq!(record(*threshold, *at, FILE, 3, "q"), record(*threshold, *at, FILE, 3, "q"));
        }
    }
}

#[test]
fn decimal_line_numbers() {
    assert_eq!(decimal(0), "0");
    assert_eq!(decimal(9), "9");
    assert_eq!(decimal(10), "10");
    assert_eq!(decimal(305), "305");
    assert_eq!(decimal(4294967295), "4294967295");
}

#[test]
fn levels_order_and_labels() {
    assert_eq!(Level::Debug.severity(), 0);
    assert_eq!(Level::Disabled.severity(), 4);
    assert!(Level::Debug.is_below(&Level::Info));
    assert!(!Level::Error.is_below(&Level::Warn));
    assert!(Level::Error < Level::Disabled);
    assert_eq!(Level::Warn.label(), Some("WARN"));
    assert_eq!(Level::Debug.label(), Some("DEBUG"));
    assert_eq!(Level::Info.label(), Some("INFO"));
    assert_eq!(Level::Error.label(), Some("ERROR"));
    assert_eq!(Level::Disabled.label(), None);
}
