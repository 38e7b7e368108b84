//! The flattened output as data, and the operations that append to it.

use crate::highlight::{HighlightId, MarkdownHighlight, MarkdownHighlightStyle, Weight};
use crate::link::{link_view, Link, ParsedRegion, RegionView};
use crate::model::{
    code_highlights, empty_output, styled, well_formed, with_code, with_text, OutputView, Span,
};
use crate::text::{byte_len, lemma_byte_len_concat, text_len};
use std::ops::Range;
use vstd::prelude::*;
use vstd::string::StringExecFns;

verus! {

/// A Markdown source flattened to plain text, with its annotations.
///
/// `highlights` holds byte ranges of `text` with a style or a syntax class
/// each, in order of appearance. `region_ranges` holds the byte ranges of the
/// inline code spans and link texts, and `regions` says of each, at the same
/// index, what it is.
#[derive(Debug, Clone)]
pub struct ParsedMarkdown {
    pub text: String,
    pub highlights: Vec<(Range<usize>, MarkdownHighlight)>,
    pub region_ranges: Vec<Range<usize>>,
    pub regions: Vec<ParsedRegion>,
}

/// The span of a range of offsets.
pub open spec fn span_of(range: Range<usize>) -> Span {
    Span { start: range.start as int, end: range.end as int }
}

/// The values of a list of highlight entries, one for one.
pub open spec fn highlight_views(entries: Seq<(Range<usize>, MarkdownHighlight)>) -> Seq<
    (Span, MarkdownHighlight),
> {
    entries.map_values(|entry: (Range<usize>, MarkdownHighlight)| (span_of(entry.0), entry.1))
}

/// The values of a list of ranges, one for one.
pub open spec fn span_views(ranges: Seq<Range<usize>>) -> Seq<Span> {
    ranges.map_values(|range: Range<usize>| span_of(range))
}

/// The values of a list of regions, one for one.
pub open spec fn region_views(regions: Seq<ParsedRegion>) -> Seq<RegionView> {
    regions.map_values(|region: ParsedRegion| region@)
}

/// The values of the syntax ranges that a highlighter returned, one for one.
pub open spec fn syntax_views(ranges: Seq<(Range<usize>, HighlightId)>) -> Seq<
    (Span, HighlightId),
> {
    ranges.map_values(|entry: (Range<usize>, HighlightId)| (span_of(entry.0), entry.1))
}

/// The output that four collections stand for together.
pub open spec fn output_view(
    text: Seq<char>,
    highlights: Seq<(Range<usize>, MarkdownHighlight)>,
    region_ranges: Seq<Range<usize>>,
    regions: Seq<ParsedRegion>,
) -> OutputView {
    OutputView {
        text,
        highlights: highlight_views(highlights),
        region_ranges: span_views(region_ranges),
        regions: region_views(regions),
    }
}

impl View for ParsedMarkdown {
    type V = OutputView;

    open spec fn view(&self) -> OutputView {
        output_view(self.text@, self.highlights@, self.region_ranges@, self.regions@)
    }
}

impl ParsedMarkdown {
    /// Whether every region has its metadata and every range lies within
    /// the text.
    pub open spec fn wf(&self) -> bool {
        well_formed(self@)
    }

    /// The output that holds nothing yet.
    pub fn new() -> (out: ParsedMarkdown)
        ensures
            out@ == empty_output(),
            out.wf(),
    {
        let out = ParsedMarkdown {
            text: String::new(),
            highlights: Vec::new(),
            region_ranges: Vec::new(),
            regions: Vec::new(),
        };
        assert(out@.highlights =~= Seq::empty());
        assert(out@.region_ranges =~= Seq::empty());
        assert(out@.regions =~= Seq::empty());
        out
    }
}

/// Records a text run over `start..end` in `style`. A plain run records
/// nothing. A run that begins where the last entry ends, in the same
/// structural style, extends that entry, so that one styled run never
/// falls into adjacent entries; any other run adds an entry.
pub fn push_style(
    highlights: &mut Vec<(Range<usize>, MarkdownHighlight)>,
    start: usize,
    end: usize,
    style: MarkdownHighlightStyle,
)
    ensures
        highlight_views(final(highlights)@) == styled(
            highlight_views(old(highlights)@),
            Span { start: start as int, end: end as int },
            style,
        ),
{
    let plain = MarkdownHighlightStyle::default();
    if style == plain {
        return ;
    }
    let count = highlights.len();
    if count > 0 {
        let last_start = highlights[count - 1].0.start;
        let last_end = highlights[count - 1].0.end;
        let last = highlights[count - 1].1;
        assert(highlight_views(highlights@).last() == (
            span_of(highlights@[count - 1].0),
            highlights@[count - 1].1,
        ));
        if last_end == start && last == MarkdownHighlight::Style(style) {
            highlights.set(count - 1, (Range { start: last_start, end }, last));
            assert(highlight_views(highlights@) =~= styled(
                highlight_views(old(highlights)@),
                Span { start: start as int, end: end as int },
                style,
            ));
            return ;
        }
    }
    highlights.push((Range { start, end }, MarkdownHighlight::Style(style)));
    assert(highlight_views(highlights@) =~= styled(
        highlight_views(old(highlights)@),
        Span { start: start as int, end: end as int },
        style,
    ));
}

/// Appends a text run that stands outside highlighted code. The run is
/// styled by the constructs around it. `link` is what the current link
/// destination resolved to: where it resolved, the run becomes a region of
/// that link and is underlined.
pub fn push_text_run(
    text: &mut String,
    highlights: &mut Vec<(Range<usize>, MarkdownHighlight)>,
    region_ranges: &mut Vec<Range<usize>>,
    regions: &mut Vec<ParsedRegion>,
    run: &str,
    bold: bool,
    italic: bool,
    link: Option<Link>,
)
    ensures
        output_view(final(text)@, final(highlights)@, final(region_ranges)@, final(regions)@)
            == with_text(
            output_view(old(text)@, old(highlights)@, old(region_ranges)@, old(regions)@),
            bold,
            italic,
            run@,
            link_view(link),
        ),
{
    let prev_len = text_len(text.as_str());
    text.append(run);
    let len = text_len(text.as_str());
    proof {
        lemma_byte_len_concat(old(text)@, run@);
    }
    let mut style = MarkdownHighlightStyle::default();
    if bold {
        style.weight = Weight::Bold;
    }
    if italic {
        style.italic = true;
    }
    if link.is_some() {
        region_ranges.push(Range { start: prev_len, end: len });
        regions.push(ParsedRegion { code: false, link });
        style.underline = true;
        assert(span_views(region_ranges@) =~= span_views(old(region_ranges)@).push(
            Span { start: prev_len as int, end: len as int },
        ));
        assert(region_views(regions@) =~= region_views(old(regions)@).push(
            RegionView { code: false, link: link_view(link) },
        ));
    }
    push_style(highlights, prev_len, len, style);
}

/// Appends an inline code span, which is always a region. `link` is what the
/// current link destination resolved to: where it resolved, the span is
/// underlined and its region carries the link.
pub fn push_code_span(
    text: &mut String,
    highlights: &mut Vec<(Range<usize>, MarkdownHighlight)>,
    region_ranges: &mut Vec<Range<usize>>,
    regions: &mut Vec<ParsedRegion>,
    code: &str,
    link: Option<Link>,
)
    ensures
        output_view(final(text)@, final(highlights)@, final(region_ranges)@, final(regions)@)
            == with_code(
            output_view(old(text)@, old(highlights)@, old(region_ranges)@, old(regions)@),
            code@,
            link_view(link),
        ),
{
    let prev_len = text_len(text.as_str());
    text.append(code);
    let len = text_len(text.as_str());
    proof {
        lemma_byte_len_concat(old(text)@, code@);
    }
    region_ranges.push(Range { start: prev_len, end: len });
    if link.is_some() {
        highlights.push(
            (
                Range { start: prev_len, end: len },
                MarkdownHighlight::Style(
                    MarkdownHighlightStyle { italic: false, underline: true, weight: Weight::Normal },
                ),
            ),
        );
        assert(highlight_views(highlights@) =~= highlight_views(old(highlights)@).push(
            (
                Span { start: prev_len as int, end: len as int },
                MarkdownHighlight::Style(MarkdownHighlightStyle::underlined()),
            ),
        ));
    }
    regions.push(ParsedRegion { code: true, link });
    assert(span_views(region_ranges@) =~= span_views(old(region_ranges)@).push(
        Span { start: prev_len as int, end: len as int },
    ));
    assert(region_views(regions@) =~= region_views(old(regions)@).push(
        RegionView { code: true, link: link_view(link) },
    ));
}

/// Whether every range lies within a code of `len` bytes.
pub open spec fn ranges_fit(ranges: Seq<(Range<usize>, HighlightId)>, len: nat) -> bool {
    forall|i: int|
        0 <= i < ranges.len() ==> (#[trigger] ranges[i]).0.start <= ranges[i].0.end <= len
}

/// Tells whether every range lies within a code of `len` bytes.
pub fn ranges_within(ranges: &Vec<(Range<usize>, HighlightId)>, len: usize) -> (within: bool)
    ensures
        within == ranges_fit(ranges@, len as nat),
{
    let mut done: usize = 0;
    while done < ranges.len()
        invariant
            done <= ranges@.len(),
            ranges_fit(ranges@.take(done as int), len as nat),
        decreases ranges@.len() - done,
    {
        let start = ranges[done].0.start;
        let end = ranges[done].0.end;
        if start > end || end > len {
            assert(!(ranges@[done as int].0.start <= ranges@[done as int].0.end <= len));
            return false;
        }
        done += 1;
    }
    assert(ranges@.take(done as int) =~= ranges@);
    true
}

/// Appends a run of code together with the syntax ranges that a highlighter
/// returned for it. The ranges count from the start of the run; each becomes
/// one highlight entry, moved to where the run stands in the text. Entries
/// for syntax classes are never merged.
pub fn highlight_code(
    text: &mut String,
    highlights: &mut Vec<(Range<usize>, MarkdownHighlight)>,
    content: &str,
    ranges: &Vec<(Range<usize>, HighlightId)>,
)
    requires
        ranges_fit(ranges@, byte_len(content@)),
    ensures
        final(text)@ == old(text)@ + content@,
        highlight_views(final(highlights)@) == highlight_views(old(highlights)@) + code_highlights(
            byte_len(old(text)@) as int,
            syntax_views(ranges@),
        ),
{
    let prev_len = text_len(text.as_str());
    text.append(content);
    let len = text_len(text.as_str());
    proof {
        lemma_byte_len_concat(old(text)@, content@);
    }
    let mut done: usize = 0;
    assert(highlight_views(highlights@) =~= highlight_views(old(highlights)@) + code_highlights(
        prev_len as int,
        syntax_views(ranges@.take(0)),
    ));
    while done < ranges.len()
        invariant
            done <= ranges@.len(),
            prev_len + byte_len(content@) == len,
            forall|i: int|
                0 <= i < ranges@.len() ==> (#[trigger] ranges@[i]).0.start <= ranges@[i].0.end
                    <= byte_len(content@),
            highlight_views(highlights@) == highlight_views(old(highlights)@) + code_highlights(
                prev_len as int,
                syntax_views(ranges@.take(done as int)),
            ),
        decreases ranges@.len() - done,
    {
        let start = ranges[done].0.start;
        let end = ranges[done].0.end;
        let id = ranges[done].1;
        assert(ranges@[done as int].0.start <= ranges@[done as int].0.end <= byte_len(content@));
        let ghost before = highlights@;
        highlights.push(
            (Range { start: prev_len + start, end: prev_len + end }, MarkdownHighlight::Code(id)),
        );
        assert(highlight_views(highlights@) =~= highlight_views(before).push(
            (Span { start: prev_len + start, end: prev_len + end }, MarkdownHighlight::Code(id)),
        ));
        proof {
            let seen = ranges@.take(done as int);
            let entry = ranges@[done as int];
            assert(ranges@.take(done + 1) =~= seen.push(entry));
            assert(syntax_views(seen.push(entry)) =~= syntax_views(seen).push(
                (span_of(entry.0), entry.1),
            ));
            assert(code_highlights(
                prev_len as int,
                syntax_views(seen).push((span_of(entry.0), entry.1)),
            ) =~= code_highlights(prev_len as int, syntax_views(seen)).push(
                (
                    Span { start: prev_len + start, end: prev_len + end },
                    MarkdownHighlight::Code(id),
                ),
            ));
        }
        done += 1;
        assert(highlight_views(highlights@) =~= highlight_views(old(highlights)@)
            + code_highlights(prev_len as int, syntax_views(ranges@.take(done as int))));
    }
    assert(ranges@.take(done as int) =~= ranges@);
}

/// Appends a run of code with whatever a highlighter returned for it, and
/// tells whether the ranges were taken. They are taken where every one of
/// them lies within the code. Ranges that do not are a fault of the
/// highlighter: the code is then kept as raw text, without any of them.
pub fn highlight_code_if_within(
    text: &mut String,
    highlights: &mut Vec<(Range<usize>, MarkdownHighlight)>,
    content: &str,
    ranges: &Vec<(Range<usize>, HighlightId)>,
) -> (taken: bool)
    ensures
        taken == ranges_fit(ranges@, byte_len(content@)),
        final(text)@ == old(text)@ + content@,
        highlight_views(final(highlights)@) == if taken {
            highlight_views(old(highlights)@) + code_highlights(
                byte_len(old(text)@) as int,
                syntax_views(ranges@),
            )
        } else {
            highlight_views(old(highlights)@)
        },
{
    if ranges_within(ranges, text_len(content)) {
        highlight_code(text, highlights, content, ranges);
        true
    } else {
        text.append(content);
        false
    }
}

} // verus!
