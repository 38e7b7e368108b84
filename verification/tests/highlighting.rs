use markdown_spans::event::{tokenize, CodeKind, MarkdownEvent, MarkdownTag};
use markdown_spans::highlight::{
    HighlightId, HighlightStyle, MarkdownHighlight, MarkdownHighlightStyle, Underline, Weight,
};
use markdown_spans::output::{
    highlight_code, highlight_code_if_within, push_style, ranges_within, ParsedMarkdown,
};
use markdown_spans::transform::{Action, TraversalState};
use std::ops::Range;

/// Stands for a highlighter: one range for each occurrence of `foo`.
fn highlight_foo(code: &str) -> Vec<(Range<usize>, HighlightId)> {
    code.match_indices("foo").map(|(at, word)| (at..at + word.len(), HighlightId(7))).collect()
}

/// Runs the transformer as an application does: languages are resolved by
/// `known`, and code is highlighted by `highlight_foo`.
fn transform(markdown: &str, default_language: Option<u8>, known: &str) -> ParsedMarkdown {
    let mut out = ParsedMarkdown::new();
    let mut state: TraversalState<u8> = TraversalState::new();
    for event in tokenize(markdown) {
        assert!(state.bold_depth < usize::MAX && state.italic_depth < usize::MAX);
        let action = state.process_event(
            &event,
            &default_language,
            &mut out.text,
            &mut out.highlights,
            &mut out.region_ranges,
            &mut out.regions,
        );
        match action {
            Action::Continue => {}
            Action::ResolveLanguage(name) => {
                state.set_language(if name == known { Some(1) } else { None });
            }
            Action::HighlightCode(code) => {
                assert!(state.current_language.is_some());
                let ranges = highlight_foo(&code);
                highlight_code(&mut out.text, &mut out.highlights, &code, &ranges);
            }
        }
    }
    assert_eq!(state.bold_depth, 0);
    assert_eq!(state.italic_depth, 0);
    assert!(state.list_stack.is_empty());
    assert!(state.link_url.is_none());
    assert!(state.current_language.is_none());
    out
}

#[test]
fn fenced_code_is_highlighted_at_its_place_in_the_text() {
    let parsed = transform("intro\n\n```rust\nfn foo() {}\n```", None, "rust");
    assert_eq!(parsed.text, "intro\n\nfn foo() {}\n");
    assert_eq!(parsed.highlights, vec![(10..13, MarkdownHighlight::Code(HighlightId(7)))]);
    assert_eq!(&parsed.text[10..13], "foo");
    assert!(parsed.regions.is_empty());
}

#[test]
fn fenced_code_in_an_unknown_language_is_raw_text() {
    let parsed = transform("```klingon\nfoo\n```", None, "rust");
    assert_eq!(parsed.text, "foo\n");
    assert!(parsed.highlights.is_empty());
}

#[test]
fn indented_code_takes_the_default_language() {
    let parsed = transform("a\n\n    foo bar foo\n", Some(3), "rust");
    assert_eq!(parsed.text, "a\n\nfoo bar foo\n");
    assert_eq!(
        parsed.highlights,
        vec![
            (3..6, MarkdownHighlight::Code(HighlightId(7))),
            (11..14, MarkdownHighlight::Code(HighlightId(7))),
        ]
    );
}

#[test]
fn indented_code_without_a_default_language_is_raw_text() {
    let parsed = transform("a\n\n    foo\n", None, "rust");
    assert_eq!(parsed.text, "a\n\nfoo\n");
    assert!(parsed.highlights.is_empty());
}

#[test]
fn text_after_a_code_block_is_no_longer_highlighted() {
    let parsed = transform("```rust\nfoo\n```\n\nfoo **foo**", None, "rust");
    assert_eq!(parsed.text, "foo\n\nfoo foo");
    assert_eq!(
        parsed.highlights,
        vec![
            (0..3, MarkdownHighlight::Code(HighlightId(7))),
            (
                9..12,
                MarkdownHighlight::Style(MarkdownHighlightStyle {
                    italic: false,
                    underline: false,
                    weight: Weight::Bold,
                })
            ),
        ]
    );
}

#[test]
fn fence_asks_for_its_language_and_code_for_its_highlights() {
    let mut out = ParsedMarkdown::new();
    let mut state: TraversalState<u8> = TraversalState::new();
    let fence = MarkdownEvent::Start(MarkdownTag::CodeBlock(CodeKind::Fenced("rust".to_string())));
    let action = state.process_event(
        &fence,
        &None,
        &mut out.text,
        &mut out.highlights,
        &mut out.region_ranges,
        &mut out.regions,
    );
    assert_eq!(action, Action::ResolveLanguage("rust".to_string()));
    assert!(state.current_language.is_none());
    state.set_language(Some(9));
    assert_eq!(state.current_language, Some(9));
    let code = MarkdownEvent::Text("let x;".to_string());
    let action = state.process_event(
        &code,
        &None,
        &mut out.text,
        &mut out.highlights,
        &mut out.region_ranges,
        &mut out.regions,
    );
    assert_eq!(action, Action::HighlightCode("let x;".to_string()));
    assert_eq!(out.text, "");
    let end = MarkdownEvent::End(MarkdownTag::CodeBlock(CodeKind::Fenced("rust".to_string())));
    let action = state.process_event(
        &end,
        &None,
        &mut out.text,
        &mut out.highlights,
        &mut out.region_ranges,
        &mut out.regions,
    );
    assert_eq!(action, Action::Continue);
    assert!(state.current_language.is_none());
}

#[test]
fn syntax_ranges_are_moved_and_never_merged() {
    let mut text = "12345".to_string();
    let mut highlights = vec![(0..5, MarkdownHighlight::Code(HighlightId(1)))];
    let ranges = vec![(0..2, HighlightId(1)), (2..4, HighlightId(1)), (4..4, HighlightId(2))];
    highlight_code(&mut text, &mut highlights, "abcd", &ranges);
    assert_eq!(text, "12345abcd");
    assert_eq!(
        highlights,
        vec![
            (0..5, MarkdownHighlight::Code(HighlightId(1))),
            (5..7, MarkdownHighlight::Code(HighlightId(1))),
            (7..9, MarkdownHighlight::Code(HighlightId(1))),
            (9..9, MarkdownHighlight::Code(HighlightId(2))),
        ]
    );
}

#[test]
fn code_without_syntax_ranges_is_only_appended() {
    let mut text = "a".to_string();
    let mut highlights = Vec::new();
    highlight_code(&mut text, &mut highlights, "bc", &Vec::new());
    assert_eq!(text, "abc");
    assert!(highlights.is_empty());
}

#[test]
fn style_entry_is_extended_only_by_an_adjacent_run_of_the_same_style() {
    let bold = MarkdownHighlightStyle { italic: false, underline: false, weight: Weight::Bold };
    let italic = MarkdownHighlightStyle { italic: true, underline: false, weight: Weight::Normal };
    let mut highlights = Vec::new();
    push_style(&mut highlights, 0, 3, MarkdownHighlightStyle::default());
    assert!(highlights.is_empty());
    push_style(&mut highlights, 0, 3, bold);
    push_style(&mut highlights, 3, 5, bold);
    assert_eq!(highlights, vec![(0..5, MarkdownHighlight::Style(bold))]);
    push_style(&mut highlights, 6, 7, bold);
    push_style(&mut highlights, 7, 8, italic);
    assert_eq!(
        highlights,
        vec![
            (0..5, MarkdownHighlight::Style(bold)),
            (6..7, MarkdownHighlight::Style(bold)),
            (7..8, MarkdownHighlight::Style(italic)),
        ]
    );
    let mut after_code = vec![(0..2, MarkdownHighlight::Code(HighlightId(0)))];
    push_style(&mut after_code, 2, 3, bold);
    assert_eq!(after_code.len(), 2);
}

#[test]
fn structural_style_sets_only_what_it_switches_on() {
    let plain = MarkdownHighlight::Style(MarkdownHighlightStyle::default());
    assert_eq!(
        plain.to_highlight_style(None),
        Some(HighlightStyle { italic: None, underline: None, weight: None })
    );
    let full = MarkdownHighlight::Style(MarkdownHighlightStyle {
        italic: true,
        underline: true,
        weight: Weight::Bold,
    });
    let themed = HighlightStyle { italic: Some(false), underline: None, weight: None };
    assert_eq!(
        full.to_highlight_style(Some(themed)),
        Some(HighlightStyle {
            italic: Some(true),
            underline: Some(Underline { thickness: 1 }),
            weight: Some(Weight::Bold),
        })
    );
}

#[test]
fn syntax_class_takes_the_style_of_the_theme() {
    let themed = HighlightStyle { italic: Some(true), underline: None, weight: Some(Weight::Bold) };
    let code = MarkdownHighlight::Code(HighlightId(4));
    assert_eq!(code.to_highlight_style(Some(themed)), Some(themed));
    assert_eq!(code.to_highlight_style(None), None);
}

#[test]
fn default_style_is_plain() {
    assert_eq!(
        MarkdownHighlightStyle::default(),
        MarkdownHighlightStyle { italic: false, underline: false, weight: Weight::Normal }
    );
    assert_eq!(Weight::default(), Weight::Normal);
}

#[test]
fn ranges_are_within_when_each_is_ordered_and_ends_in_the_code() {
    assert!(ranges_within(&vec![], 0));
    assert!(ranges_within(&vec![(0..0, HighlightId(1)), (0..4, HighlightId(2))], 4));
    assert!(!ranges_within(&vec![(0..5, HighlightId(1))], 4));
    assert!(!ranges_within(&vec![(0..1, HighlightId(1)), (3..2, HighlightId(2))], 4));
}

#[test]
fn ranges_within_the_code_are_taken() {
    let mut text = "ab".to_string();
    let mut highlights = Vec::new();
    let ranges = vec![(1..3, HighlightId(5))];
    assert!(highlight_code_if_within(&mut text, &mut highlights, "foo", &ranges));
    assert_eq!(text, "abfoo");
    assert_eq!(highlights, vec![(3..5, MarkdownHighlight::Code(HighlightId(5)))]);
}

#[test]
fn ranges_outside_the_code_leave_it_as_raw_text() {
    let mut text = "ab".to_string();
    let mut highlights = vec![(0..2, MarkdownHighlight::Code(HighlightId(1)))];
    let ranges = vec![(0..1, HighlightId(5)), (2..4, HighlightId(6))];
    assert!(!highlight_code_if_within(&mut text, &mut highlights, "foo", &ranges));
    assert_eq!(text, "abfoo");
    assert_eq!(highlights, vec![(0..2, MarkdownHighlight::Code(HighlightId(1)))]);
}
