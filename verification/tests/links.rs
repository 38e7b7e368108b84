use markdown_spans::highlight::{MarkdownHighlight, MarkdownHighlightStyle, Weight};
use markdown_spans::link::Link;
use markdown_spans::transform::parse_markdown;
use std::path::PathBuf;

fn underlined(bold: bool) -> MarkdownHighlight {
    MarkdownHighlight::Style(MarkdownHighlightStyle {
        italic: false,
        underline: true,
        weight: if bold { Weight::Bold } else { Weight::Normal },
    })
}

fn is_web(link: &Option<Link>, expected: &str) -> bool {
    matches!(link, Some(Link::Web { url }) if url == expected)
}

fn is_path(link: &Option<Link>, expected: &str) -> bool {
    matches!(link, Some(Link::Path { path }) if *path == PathBuf::from(expected))
}

#[test]
fn web_destination_is_identified() {
    assert!(is_web(&Link::identify("http://example.com".to_string()), "http://example.com"));
    assert!(is_web(&Link::identify("https://example.com/a?b".to_string()), "https://example.com/a?b"));
}

#[test]
fn anything_that_begins_with_http_counts_as_web() {
    assert!(is_web(&Link::identify("httpfoo".to_string()), "httpfoo"));
    assert!(is_web(&Link::identify("http".to_string()), "http"));
}

#[test]
fn absolute_path_is_identified() {
    assert!(is_path(&Link::identify("/etc/hosts".to_string()), "/etc/hosts"));
    assert!(is_path(&Link::identify("/".to_string()), "/"));
}

#[test]
fn other_destinations_are_no_link() {
    assert!(Link::identify("relative/path".to_string()).is_none());
    assert!(Link::identify("".to_string()).is_none());
    assert!(Link::identify("htt".to_string()).is_none());
    assert!(Link::identify("ftp://example.com".to_string()).is_none());
    assert!(Link::identify("xhttp://example.com".to_string()).is_none());
    assert!(Link::identify("HTTP://example.com".to_string()).is_none());
}

#[test]
fn classification_goes_by_prefix_then_by_absoluteness() {
    assert!(is_web(&Link::classify("http://a".to_string(), false), "http://a"));
    assert!(is_web(&Link::classify("http://a".to_string(), true), "http://a"));
    assert!(is_path(&Link::classify("/a/b".to_string(), true), "/a/b"));
    assert!(is_path(&Link::classify("C:/a".to_string(), true), "C:/a"));
    assert!(Link::classify("/a/b".to_string(), false).is_none());
}

#[test]
fn web_link_text_is_an_underlined_region() {
    let parsed = parse_markdown("see [here](http://example.com) now");
    assert_eq!(parsed.text, "see here now");
    assert_eq!(parsed.region_ranges, vec![4..8]);
    assert_eq!(parsed.regions.len(), 1);
    assert!(!parsed.regions[0].code);
    assert!(is_web(&parsed.regions[0].link, "http://example.com"));
    assert_eq!(parsed.highlights, vec![(4..8, underlined(false))]);
}

#[test]
fn path_link_text_is_an_underlined_region() {
    let parsed = parse_markdown("[hosts](/etc/hosts)");
    assert_eq!(parsed.text, "hosts");
    assert_eq!(parsed.region_ranges, vec![0..5]);
    assert_eq!(parsed.regions.len(), 1);
    assert!(!parsed.regions[0].code);
    assert!(is_path(&parsed.regions[0].link, "/etc/hosts"));
    assert_eq!(parsed.highlights, vec![(0..5, underlined(false))]);
}

#[test]
fn relative_link_text_is_plain() {
    let parsed = parse_markdown("[there](relative/path)");
    assert_eq!(parsed.text, "there");
    assert!(parsed.region_ranges.is_empty());
    assert!(parsed.regions.is_empty());
    assert!(parsed.highlights.is_empty());
}

#[test]
fn bold_link_text_is_bold_and_underlined() {
    let parsed = parse_markdown("**[x](http://a.b)**");
    assert_eq!(parsed.text, "x");
    assert_eq!(parsed.highlights, vec![(0..1, underlined(true))]);
}

#[test]
fn text_after_a_link_is_no_longer_linked() {
    let parsed = parse_markdown("[a](http://a.b)c");
    assert_eq!(parsed.text, "ac");
    assert_eq!(parsed.region_ranges, vec![0..1]);
    assert_eq!(parsed.highlights, vec![(0..1, underlined(false))]);
}

#[test]
fn each_run_of_link_text_is_a_region_of_its_own() {
    let parsed = parse_markdown("[a *b*](http://a.b)");
    assert_eq!(parsed.text, "a b");
    assert_eq!(parsed.region_ranges, vec![0..2, 2..3]);
    assert!(is_web(&parsed.regions[0].link, "http://a.b"));
    assert!(is_web(&parsed.regions[1].link, "http://a.b"));
}

#[test]
fn inline_code_is_a_region_without_a_link() {
    let parsed = parse_markdown("`x`");
    assert_eq!(parsed.text, "x");
    assert_eq!(parsed.region_ranges, vec![0..1]);
    assert_eq!(parsed.regions.len(), 1);
    assert!(parsed.regions[0].code);
    assert!(parsed.regions[0].link.is_none());
    assert!(parsed.highlights.is_empty());
}

#[test]
fn inline_code_inside_a_link_is_an_underlined_region_with_the_link() {
    let parsed = parse_markdown("[`x`](http://a.b)");
    assert_eq!(parsed.text, "x");
    assert_eq!(parsed.region_ranges, vec![0..1]);
    assert_eq!(parsed.regions.len(), 1);
    assert!(parsed.regions[0].code);
    assert!(is_web(&parsed.regions[0].link, "http://a.b"));
    assert_eq!(parsed.highlights, vec![(0..1, underlined(false))]);
}

#[test]
fn inline_code_inside_a_relative_link_is_a_region_without_a_link() {
    let parsed = parse_markdown("[`x`](somewhere)");
    assert_eq!(parsed.region_ranges, vec![0..1]);
    assert!(parsed.regions[0].code);
    assert!(parsed.regions[0].link.is_none());
    assert!(parsed.highlights.is_empty());
}

#[test]
fn inline_code_inside_bold_text_is_underlined_only_by_a_link() {
    let parsed = parse_markdown("**[`x`](/abs)**");
    assert_eq!(parsed.region_ranges, vec![0..1]);
    assert!(is_path(&parsed.regions[0].link, "/abs"));
    assert_eq!(parsed.highlights, vec![(0..1, underlined(false))]);
}
