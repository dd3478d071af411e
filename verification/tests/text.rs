use graph_repo::text::remove_quotes;

#[test]
fn strips_single_quotes_at_both_ends() {
    assert_eq!(remove_quotes("'123'"), "123");
}

#[test]
fn strips_double_quotes_at_both_ends() {
    assert_eq!(remove_quotes("\"John Doe\""), "John Doe");
}

#[test]
fn strips_runs_of_mixed_quotes() {
    assert_eq!(remove_quotes("\"''john-doe'\"\""), "john-doe");
}

#[test]
fn keeps_quotes_inside_the_text() {
    assert_eq!(remove_quotes("'it's'"), "it's");
    assert_eq!(remove_quotes("a\"b"), "a\"b");
}

#[test]
fn strips_one_sided_quotes() {
    assert_eq!(remove_quotes("'left"), "left");
    assert_eq!(remove_quotes("right\""), "right");
}

#[test]
fn text_of_quotes_alone_becomes_empty() {
    assert_eq!(remove_quotes("''"), "");
    assert_eq!(remove_quotes("\""), "");
    assert_eq!(remove_quotes("'\"'\"'"), "");
}

#[test]
fn empty_text_stays_empty() {
    assert_eq!(remove_quotes(""), "");
}

#[test]
fn plain_text_is_unchanged() {
    assert_eq!(remove_quotes("1990-01-01"), "1990-01-01");
}

#[test]
fn text_beyond_ascii_is_cut_by_characters() {
    assert_eq!(remove_quotes("'Zoë Æther'"), "Zoë Æther");
    assert_eq!(remove_quotes("\"日本語\""), "日本語");
}

#[test]
fn stripping_twice_changes_nothing_more() {
    let once = remove_quotes("'\"Ada\"'");
    let twice = remove_quotes(&once);
    assert_eq!(once, "Ada");
    assert_eq!(twice, once);
}
