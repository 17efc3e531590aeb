use aether::logs::{LogCursor, TailEmission};

fn lines(v: &[&str]) -> Vec<String> {
    v.iter().map(|s| s.to_string()).collect()
}

#[test]
fn tail_emits_only_new_lines() {
    // Fetches ["a"], ["a","b"], ["a","b","c"] emit exactly "b" then "c",
    // never re-emitting "a". The first fetch is the baseline.
    let mut cursor = LogCursor::from_baseline(lines(&["a"]));
    match cursor.tick(lines(&["a", "b"])) {
        TailEmission::NewLines(v) => assert_eq!(v, lines(&["b"])),
        _ => panic!("expected the new suffix"),
    }
    match cursor.tick(lines(&["a", "b", "c"])) {
        TailEmission::NewLines(v) => assert_eq!(v, lines(&["c"])),
        _ => panic!("expected the new suffix"),
    }
}

#[test]
fn tail_truncated_window_emits_one_latest_notice() {
    // ["a","b","c"] then ["c","d"]: the window shifted without growing, so
    // at most one latest-changed notice referencing "d" comes out — not a
    // duplicate of "c" — and repeating the fetch emits nothing more.
    let mut cursor = LogCursor::from_baseline(lines(&["a", "b", "c"]));
    match cursor.tick(lines(&["c", "d"])) {
        TailEmission::LatestChanged(s) => assert_eq!(s, "d"),
        _ => panic!("expected a latest-changed notice"),
    }
    assert!(matches!(cursor.tick(lines(&["c", "d"])), TailEmission::Nothing));
}

#[test]
fn tail_empty_fetch_keeps_history() {
    let mut cursor = LogCursor::from_baseline(lines(&["a", "b"]));
    assert!(matches!(cursor.tick(lines(&[])), TailEmission::Nothing));
    // History survived: the same two lines still count as seen.
    assert!(matches!(cursor.tick(lines(&["a", "b"])), TailEmission::Nothing));
}

#[test]
fn tail_identical_fetch_is_quiet() {
    let mut cursor = LogCursor::from_baseline(lines(&["x"]));
    assert!(matches!(cursor.tick(lines(&["x"])), TailEmission::Nothing));
}

#[test]
fn tail_from_empty_baseline_emits_everything_once() {
    let mut cursor = LogCursor::new();
    match cursor.tick(lines(&["first", "second"])) {
        TailEmission::NewLines(v) => assert_eq!(v, lines(&["first", "second"])),
        _ => panic!("expected the new suffix"),
    }
    assert!(matches!(cursor.tick(lines(&["first", "second"])), TailEmission::Nothing));
}

#[test]
fn tail_same_count_different_last_line() {
    let mut cursor = LogCursor::from_baseline(lines(&["a", "b"]));
    match cursor.tick(lines(&["b", "e"])) {
        TailEmission::LatestChanged(s) => assert_eq!(s, "e"),
        _ => panic!("expected a latest-changed notice"),
    }
}
