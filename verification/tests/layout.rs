use markdown_spans::layout::{new_list_item, new_paragraph, push_indent};
use markdown_spans::transform::parse_markdown;

fn paragraph(text: &str, stack: Vec<(Option<u64>, bool)>) -> (String, Vec<(Option<u64>, bool)>) {
    let mut text = text.to_string();
    let mut stack = stack;
    new_paragraph(&mut text, &mut stack);
    (text, stack)
}

fn item(text: &str, stack: Vec<(Option<u64>, bool)>) -> (String, Vec<(Option<u64>, bool)>) {
    let mut text = text.to_string();
    let mut stack = stack;
    new_list_item(&mut text, &mut stack);
    (text, stack)
}

#[test]
fn ordered_list_is_numbered_from_its_start() {
    let parsed = parse_markdown("1. a\n2. b\n");
    assert_eq!(parsed.text, "1. a\n2. b");
}

#[test]
fn ordered_list_counts_on_whatever_the_markers_say() {
    assert_eq!(parse_markdown("1. a\n1. b\n1. c\n").text, "1. a\n2. b\n3. c");
    assert_eq!(parse_markdown("7. a\n3. b\n").text, "7. a\n8. b");
}

#[test]
fn ordered_list_reaches_two_digits() {
    assert_eq!(parse_markdown("9. a\n1. b\n1. c\n").text, "9. a\n10. b\n11. c");
}

#[test]
fn unordered_list_uses_dashes() {
    assert_eq!(parse_markdown("* a\n* b\n").text, "- a\n- b");
}

#[test]
fn nested_items_are_indented_two_spaces_a_level() {
    let parsed = parse_markdown("- a\n  - b\n    - c\n");
    assert_eq!(parsed.text, "- a\n  - b\n    - c");
}

#[test]
fn nested_ordered_list_counts_on_its_own() {
    let parsed = parse_markdown("1. a\n   1. x\n   2. y\n2. b\n");
    assert_eq!(parsed.text, "1. a\n  1. x\n  2. y\n2. b");
}

#[test]
fn list_after_a_paragraph_starts_on_the_next_line() {
    assert_eq!(parse_markdown("intro\n\n- a\n- b").text, "intro\n- a\n- b");
}

#[test]
fn second_paragraph_of_an_item_is_aligned_under_the_marker() {
    assert_eq!(parse_markdown("- a\n\n  b\n").text, "- a\n\n  b");
}

#[test]
fn second_paragraph_of_a_nested_item_is_indented_further() {
    assert_eq!(parse_markdown("- a\n\n  - b\n\n    c\n").text, "- a\n  - b\n\n    c");
}

#[test]
fn paragraph_break_outside_lists() {
    assert_eq!(paragraph("", vec![]), (String::new(), vec![]));
    assert_eq!(paragraph("abc", vec![]), ("abc\n\n".to_string(), vec![]));
    assert_eq!(paragraph("abc\n", vec![]), ("abc\n\n".to_string(), vec![]));
}

#[test]
fn paragraph_break_leaves_a_blank_line_ending_alone() {
    assert_eq!(paragraph("a\n\n", vec![]), ("a\n\n".to_string(), vec![]));
    assert_eq!(paragraph("abc\n\n", vec![]), ("abc\n\n".to_string(), vec![]));
    assert_eq!(paragraph("\n\n", vec![]), ("\n\n".to_string(), vec![]));
    assert_eq!(paragraph("a\n\n\n", vec![]), ("a\n\n\n".to_string(), vec![]));
}

#[test]
fn paragraph_break_completes_a_single_newline() {
    assert_eq!(paragraph("\n", vec![]), ("\n\n".to_string(), vec![]));
    assert_eq!(paragraph("a\nb\n", vec![]), ("a\nb\n\n".to_string(), vec![]));
}

#[test]
fn blank_line_ending_inside_an_item_still_gets_its_indentation() {
    assert_eq!(
        paragraph("- a\n\n", vec![(None, true)]),
        ("- a\n\n  ".to_string(), vec![(None, true)])
    );
    assert_eq!(
        paragraph("x\n\n", vec![(None, true), (Some(3), true)]),
        ("x\n\n    ".to_string(), vec![(None, true), (Some(3), true)])
    );
}

#[test]
fn paragraph_after_code_that_ends_with_a_blank_line_adds_no_newline() {
    assert_eq!(parse_markdown("```\nfoo\n\n```\n\nbar").text, "foo\n\nbar");
    assert_eq!(parse_markdown("```\nfoo\n```\n\nbar").text, "foo\n\nbar");
}

#[test]
fn first_paragraph_of_an_item_stays_on_the_marker_line() {
    assert_eq!(
        paragraph("- ", vec![(None, false)]),
        ("- ".to_string(), vec![(None, true)])
    );
    assert_eq!(
        paragraph("1. ", vec![(None, true), (Some(2), false)]),
        ("1. ".to_string(), vec![(None, true), (Some(2), true)])
    );
}

#[test]
fn later_paragraph_of_an_item_is_broken_and_indented() {
    assert_eq!(
        paragraph("- a", vec![(None, true)]),
        ("- a\n\n  ".to_string(), vec![(None, true)])
    );
    assert_eq!(
        paragraph("x", vec![(None, true), (Some(3), true)]),
        ("x\n\n    ".to_string(), vec![(None, true), (Some(3), true)])
    );
    assert_eq!(
        paragraph("", vec![(None, false), (None, true)]),
        ("    ".to_string(), vec![(None, false), (None, true)])
    );
}

#[test]
fn list_item_writes_newline_indentation_and_marker() {
    assert_eq!(item("", vec![(None, true)]), ("- ".to_string(), vec![(None, false)]));
    assert_eq!(
        item("a", vec![(Some(4), true)]),
        ("a\n4. ".to_string(), vec![(Some(5), false)])
    );
    assert_eq!(
        item("a\n", vec![(None, true), (Some(0), false)]),
        ("a\n  0. ".to_string(), vec![(None, true), (Some(1), false)])
    );
    assert_eq!(
        item("a", vec![(None, true), (None, true), (None, true)]),
        ("a\n    - ".to_string(), vec![(None, true), (None, true), (None, false)])
    );
}

#[test]
fn list_item_without_a_list_is_a_no_op() {
    assert_eq!(item("abc", vec![]), ("abc".to_string(), vec![]));
}

#[test]
fn largest_ordinal_is_written_and_kept() {
    assert_eq!(
        item("", vec![(Some(u64::MAX), false)]),
        ("18446744073709551615. ".to_string(), vec![(Some(u64::MAX), false)])
    );
    assert_eq!(
        item("", vec![(Some(u64::MAX - 1), false)]),
        ("18446744073709551614. ".to_string(), vec![(Some(u64::MAX), false)])
    );
}

#[test]
fn indentation_is_two_spaces_a_level() {
    let mut text = "x".to_string();
    push_indent(&mut text, 0);
    assert_eq!(text, "x");
    push_indent(&mut text, 1);
    assert_eq!(text, "x  ");
    push_indent(&mut text, 2);
    assert_eq!(text, "x      ");
}
