use buggle::report::{summarize_buggle, BuggleResult};

fn entry(id: &str, count: Option<u64>) -> BuggleResult {
    BuggleResult { id: id.to_string(), count }
}

#[test]
fn empty_list_gives_the_prefix_alone() {
    assert_eq!(summarize_buggle(vec![]), "Daily buggle: ");
}

#[test]
fn one_known_count() {
    assert_eq!(summarize_buggle(vec![entry("cmake", Some(7))]), "Daily buggle: 7 (cmake)");
}

#[test]
fn one_unknown_count() {
    assert_eq!(summarize_buggle(vec![entry("me", None)]), "Daily buggle: ? (me)");
}

#[test]
fn two_counts_are_separated_once() {
    assert_eq!(
        summarize_buggle(vec![entry("a", Some(3)), entry("b", Some(5))]),
        "Daily buggle: 3 (a) / 5 (b)"
    );
}

#[test]
fn three_entries_keep_their_order() {
    assert_eq!(
        summarize_buggle(vec![entry("z", Some(10)), entry("a", None), entry("m", Some(0))]),
        "Daily buggle: 10 (z) / ? (a) / 0 (m)"
    );
}

#[test]
fn single_entry_holds_no_separator() {
    let s = summarize_buggle(vec![entry("kde", Some(42))]);
    assert!(!s.contains(" / "));
    assert!(!s.contains('/'));
}

#[test]
fn summary_never_ends_with_a_separator() {
    let lists = vec![
        vec![],
        vec![entry("a", Some(1))],
        vec![entry("a", Some(1)), entry("b", None)],
        vec![entry("a", None), entry("b", None), entry("c", Some(9))],
    ];
    for list in lists {
        let n = list.len();
        let s = summarize_buggle(list);
        assert!(!s.ends_with(" / "));
        assert!(!s.ends_with('/'));
        assert_eq!(s.matches(" / ").count(), if n == 0 { 0 } else { n - 1 });
    }
}

#[test]
fn formatting_twice_gives_the_same_line() {
    let list = vec![entry("a", Some(3)), entry("b", None), entry("c", Some(120))];
    let first = summarize_buggle(list.clone());
    let second = summarize_buggle(list);
    assert_eq!(first, second);
    assert_eq!(first, "Daily buggle: 3 (a) / ? (b) / 120 (c)");
}

#[test]
fn counts_are_written_in_decimal() {
    assert_eq!(summarize_buggle(vec![entry("n", Some(0))]), "Daily buggle: 0 (n)");
    assert_eq!(summarize_buggle(vec![entry("n", Some(9))]), "Daily buggle: 9 (n)");
    assert_eq!(summarize_buggle(vec![entry("n", Some(10))]), "Daily buggle: 10 (n)");
    assert_eq!(summarize_buggle(vec![entry("n", Some(1009))]), "Daily buggle: 1009 (n)");
    assert_eq!(
        summarize_buggle(vec![entry("n", Some(4294967296))]),
        "Daily buggle: 4294967296 (n)"
    );
    assert_eq!(
        summarize_buggle(vec![entry("n", Some(u64::MAX))]),
        "Daily buggle: 18446744073709551615 (n)"
    );
}

#[test]
fn names_are_shown_as_they_are() {
    assert_eq!(
        summarize_buggle(vec![entry("", Some(1)), entry("x11/kde (all)", Some(2))]),
        "Daily buggle: 1 () / 2 (x11/kde (all))"
    );
    assert_eq!(summarize_buggle(vec![entry("größe", None)]), "Daily buggle: ? (größe)");
}

#[test]
fn a_name_with_a_separator_shows_in_a_single_entry() {
    let s = summarize_buggle(vec![entry("a / b", Some(1))]);
    assert_eq!(s, "Daily buggle: 1 (a / b)");
    assert!(s.contains(" / "));
}
