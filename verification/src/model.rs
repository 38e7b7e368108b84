//! The mathematical model of the transformer: what the flattened output and
//! the traversal state are, and how one event changes them.

use crate::event::{CodeKindView, EventView, TagView};
use crate::highlight::{HighlightId, MarkdownHighlight, MarkdownHighlightStyle, Weight};
use crate::link::{admissible, LinkView, RegionView};
use crate::text::{byte_len, decimal};
use vstd::prelude::*;

verus! {

/// A half-open range of byte offsets into the flattened text.
pub struct Span {
    pub start: int,
    pub end: int,
}

/// One level of list nesting: the number of the next item, for an ordered
/// list, and whether the current item has begun its first block.
pub type ListLevel = (Option<u64>, bool);

/// The four parallel outputs that describe one flattened text.
pub struct OutputView {
    pub text: Seq<char>,
    pub highlights: Seq<(Span, MarkdownHighlight)>,
    pub region_ranges: Seq<Span>,
    pub regions: Seq<RegionView>,
}

/// What the transformer remembers between two events.
pub struct StateView {
    pub bold_depth: nat,
    pub italic_depth: nat,
    pub link_url: Option<Seq<char>>,
    /// Whether text is currently handed to a syntax highlighter.
    pub highlighting: bool,
    pub list_stack: Seq<ListLevel>,
}

/// What the caller has to do after an event.
pub enum ActionView {
    Continue,
    ResolveLanguage(Seq<char>),
    HighlightCode(Seq<char>),
}

/// The output before anything was appended.
pub open spec fn empty_output() -> OutputView {
    OutputView {
        text: Seq::empty(),
        highlights: Seq::empty(),
        region_ranges: Seq::empty(),
        regions: Seq::empty(),
    }
}

/// The state before the first event.
pub open spec fn initial_state() -> StateView {
    StateView {
        bold_depth: 0,
        italic_depth: 0,
        link_url: None,
        highlighting: false,
        list_stack: Seq::empty(),
    }
}

/// Whether a span lies within a text of `len` bytes.
pub open spec fn span_within(span: Span, len: nat) -> bool {
    0 <= span.start <= span.end <= len
}

/// The invariant of an output: every region range has its metadata at the
/// same index, and every range lies within the text.
pub open spec fn well_formed(out: OutputView) -> bool {
    &&& out.regions.len() == out.region_ranges.len()
    &&& forall|i: int|
        0 <= i < out.highlights.len() ==> span_within(
            (#[trigger] out.highlights[i]).0,
            byte_len(out.text),
        )
    &&& forall|i: int|
        0 <= i < out.region_ranges.len() ==> span_within(
            #[trigger] out.region_ranges[i],
            byte_len(out.text),
        )
}

/// Two spaces for each level.
pub open spec fn indent(levels: nat) -> Seq<char>
    decreases levels,
{
    if levels == 0 {
        Seq::empty()
    } else {
        indent((levels - 1) as nat).push(' ').push(' ')
    }
}

/// Whether the last two characters of a text are newlines.
pub open spec fn ends_blank(text: Seq<char>) -> bool {
    text.len() >= 2 && text[text.len() - 1] == '\n' && text[text.len() - 2] == '\n'
}

/// The text, set off from what follows by a blank line: a non-empty text is
/// made to end with one newline and gets a second. An empty text stays
/// empty, and a text that ends with a blank line already stays as it is.
pub open spec fn separated(text: Seq<char>) -> Seq<char> {
    if text.len() == 0 || ends_blank(text) {
        text
    } else if text.last() == '\n' {
        text.push('\n')
    } else {
        text.push('\n').push('\n')
    }
}

/// Whether the innermost list item has not begun its first block yet.
pub open spec fn at_item_start(stack: Seq<ListLevel>) -> bool {
    stack.len() > 0 && !stack.last().1
}

/// The text after a paragraph break. The first block of a list item stays on
/// the marker's line. Any other block is set off by a blank line and indented
/// by the nesting, and two columns further inside a list item.
pub open spec fn paragraph_text(text: Seq<char>, stack: Seq<ListLevel>) -> Seq<char> {
    if at_item_start(stack) {
        text
    } else if stack.len() == 0 {
        separated(text)
    } else {
        separated(text) + indent((stack.len() - 1) as nat).push(' ').push(' ')
    }
}

/// The list stack after a paragraph break: the innermost item has begun.
pub open spec fn paragraph_stack(stack: Seq<ListLevel>) -> Seq<ListLevel> {
    if at_item_start(stack) {
        stack.update(stack.len() - 1, (stack.last().0, true))
    } else {
        stack
    }
}

/// The text, ended by a newline unless it is empty or has one already.
pub open spec fn on_new_line(text: Seq<char>) -> Seq<char> {
    if text.len() > 0 && text.last() != '\n' {
        text.push('\n')
    } else {
        text
    }
}

/// The marker of a list item: its number and a dot, or a dash.
pub open spec fn item_marker(ordinal: Option<u64>) -> Seq<char> {
    match ordinal {
        Some(n) => decimal(n as nat).push('.').push(' '),
        None => seq!['-', ' '],
    }
}

/// The number after `ordinal`; the largest number stays as it is.
pub open spec fn next_ordinal(ordinal: Option<u64>) -> Option<u64> {
    match ordinal {
        Some(n) => Some(
            if n < u64::MAX {
                (n + 1) as u64
            } else {
                n
            },
        ),
        None => None,
    }
}

/// The text after the start of a list item: a new line, the indentation of
/// the nesting, and the marker. Outside any list nothing is written.
pub open spec fn item_text(text: Seq<char>, stack: Seq<ListLevel>) -> Seq<char> {
    if stack.len() == 0 {
        text
    } else {
        on_new_line(text) + indent((stack.len() - 1) as nat) + item_marker(stack.last().0)
    }
}

/// The list stack after the start of a list item: the innermost list counts
/// on, and its item has not begun a block.
pub open spec fn item_stack(stack: Seq<ListLevel>) -> Seq<ListLevel> {
    if stack.len() == 0 {
        stack
    } else {
        stack.update(stack.len() - 1, (next_ordinal(stack.last().0), false))
    }
}

/// The style of a text run.
pub open spec fn text_style(bold: bool, italic: bool, underline: bool) -> MarkdownHighlightStyle {
    MarkdownHighlightStyle {
        italic,
        underline,
        weight: if bold {
            Weight::Bold
        } else {
            Weight::Normal
        },
    }
}

/// Whether a run that starts at `start` in `style` continues the last entry.
pub open spec fn continues_last(
    highlights: Seq<(Span, MarkdownHighlight)>,
    start: int,
    style: MarkdownHighlightStyle,
) -> bool {
    highlights.len() > 0 && highlights.last().1 == MarkdownHighlight::Style(style)
        && highlights.last().0.end == start
}

/// The highlights after a text run over `span` in `style`. A plain run adds
/// nothing. A run that begins where the last entry ends, in the same style,
/// extends that entry; any other run adds an entry.
pub open spec fn styled(
    highlights: Seq<(Span, MarkdownHighlight)>,
    span: Span,
    style: MarkdownHighlightStyle,
) -> Seq<(Span, MarkdownHighlight)> {
    if style == MarkdownHighlightStyle::plain() {
        highlights
    } else if continues_last(highlights, span.start, style) {
        highlights.update(
            highlights.len() - 1,
            (Span { start: highlights.last().0.start, end: span.end }, highlights.last().1),
        )
    } else {
        highlights.push((span, MarkdownHighlight::Style(style)))
    }
}

/// The span that `added` takes when it is appended to `text`.
pub open spec fn appended_span(text: Seq<char>, added: Seq<char>) -> Span {
    Span { start: byte_len(text) as int, end: (byte_len(text) + byte_len(added)) as int }
}

/// The output after a text run outside highlighted code, inside `bold` or
/// `italic` constructs or not. `link` is what the current link destination
/// resolved to, `None` outside a link: a resolved link makes the run a
/// region and underlines it.
pub open spec fn with_text(
    out: OutputView,
    bold: bool,
    italic: bool,
    run: Seq<char>,
    link: Option<LinkView>,
) -> OutputView {
    let span = appended_span(out.text, run);
    let style = text_style(bold, italic, link is Some);
    OutputView {
        text: out.text + run,
        highlights: styled(out.highlights, span, style),
        region_ranges: if link is Some {
            out.region_ranges.push(span)
        } else {
            out.region_ranges
        },
        regions: if link is Some {
            out.regions.push(RegionView { code: false, link })
        } else {
            out.regions
        },
    }
}

/// The output after an inline code span: always a region, underlined where
/// the current link destination resolved.
pub open spec fn with_code(out: OutputView, code: Seq<char>, link: Option<LinkView>) -> OutputView {
    let span = appended_span(out.text, code);
    OutputView {
        text: out.text + code,
        highlights: if link is Some {
            out.highlights.push(
                (span, MarkdownHighlight::Style(MarkdownHighlightStyle::underlined())),
            )
        } else {
            out.highlights
        },
        region_ranges: out.region_ranges.push(span),
        regions: out.regions.push(RegionView { code: true, link }),
    }
}

/// The highlight entries for the syntax ranges of a run of code that begins
/// at `offset` in the text: each range moved by the offset, with its class.
pub open spec fn code_highlights(offset: int, ranges: Seq<(Span, HighlightId)>) -> Seq<
    (Span, MarkdownHighlight),
> {
    ranges.map_values(
        |entry: (Span, HighlightId)|
            (
                Span { start: offset + entry.0.start, end: offset + entry.0.end },
                MarkdownHighlight::Code(entry.1),
            ),
    )
}

/// The output after a run of code went through a highlighter that returned
/// `ranges`, counted from the start of the run. Entries are never merged.
pub open spec fn with_highlighted_code(
    out: OutputView,
    code: Seq<char>,
    ranges: Seq<(Span, HighlightId)>,
) -> OutputView {
    OutputView {
        text: out.text + code,
        highlights: out.highlights + code_highlights(byte_len(out.text) as int, ranges),
        ..out
    }
}

/// The output with another text in place of its own.
pub open spec fn with_text_replaced(out: OutputView, text: Seq<char>) -> OutputView {
    OutputView { text, ..out }
}

/// One less, but never below zero.
pub open spec fn decremented(depth: nat) -> nat {
    if depth > 0 {
        (depth - 1) as nat
    } else {
        0
    }
}

/// The list stack without its innermost level, if there is one.
pub open spec fn popped(stack: Seq<ListLevel>) -> Seq<ListLevel> {
    if stack.len() > 0 {
        stack.drop_last()
    } else {
        stack
    }
}

/// The state after an event. `default_language` says whether the caller gave
/// a language for code blocks that name none. A fenced block starts without
/// a highlighter: its language has yet to be resolved.
pub open spec fn state_after(state: StateView, event: EventView, default_language: bool) -> StateView {
    match event {
        EventView::Start(tag) => match tag {
            TagView::Paragraph => StateView {
                list_stack: paragraph_stack(state.list_stack),
                ..state
            },
            TagView::Heading => StateView {
                list_stack: paragraph_stack(state.list_stack),
                bold_depth: state.bold_depth + 1,
                ..state
            },
            TagView::CodeBlock(kind) => StateView {
                list_stack: paragraph_stack(state.list_stack),
                highlighting: match kind {
                    CodeKindView::Indented => default_language,
                    CodeKindView::Fenced(_) => false,
                },
                ..state
            },
            TagView::Emphasis => StateView { italic_depth: state.italic_depth + 1, ..state },
            TagView::Strong => StateView { bold_depth: state.bold_depth + 1, ..state },
            TagView::Link(url) => StateView { link_url: Some(url), ..state },
            TagView::List(start) => StateView {
                list_stack: state.list_stack.push((start, false)),
                ..state
            },
            TagView::Item => StateView { list_stack: item_stack(state.list_stack), ..state },
            TagView::Other => state,
        },
        EventView::End(tag) => match tag {
            TagView::Heading => StateView { bold_depth: decremented(state.bold_depth), ..state },
            TagView::CodeBlock(_) => StateView { highlighting: false, ..state },
            TagView::Emphasis => StateView {
                italic_depth: decremented(state.italic_depth),
                ..state
            },
            TagView::Strong => StateView { bold_depth: decremented(state.bold_depth), ..state },
            TagView::Link(_) => StateView { link_url: None, ..state },
            TagView::List(_) => StateView { list_stack: popped(state.list_stack), ..state },
            _ => state,
        },
        _ => state,
    }
}

/// The output after an event that reached the transformer in `state`. `link`
/// is what the current link destination resolved to. Text inside highlighted
/// code is left to the highlighter and changes nothing here.
pub open spec fn output_after(
    state: StateView,
    out: OutputView,
    event: EventView,
    link: Option<LinkView>,
) -> OutputView {
    match event {
        EventView::Text(run) => if state.highlighting {
            out
        } else {
            with_text(out, state.bold_depth > 0, state.italic_depth > 0, run, link)
        },
        EventView::Code(code) => with_code(out, code, link),
        EventView::Start(TagView::Paragraph) | EventView::Start(TagView::Heading)
        | EventView::Start(TagView::CodeBlock(_)) => with_text_replaced(
            out,
            paragraph_text(out.text, state.list_stack),
        ),
        EventView::Start(TagView::Item) => with_text_replaced(
            out,
            item_text(out.text, state.list_stack),
        ),
        EventView::HardBreak => with_text_replaced(out, out.text.push('\n')),
        EventView::SoftBreak => with_text_replaced(out, out.text.push(' ')),
        _ => out,
    }
}

/// What the caller has to do after an event that reached the transformer in
/// `state`: resolve the language that a fence names, highlight a run of code,
/// or nothing.
pub open spec fn action_after(state: StateView, event: EventView) -> ActionView {
    match event {
        EventView::Text(run) => if state.highlighting {
            ActionView::HighlightCode(run)
        } else {
            ActionView::Continue
        },
        EventView::Start(TagView::CodeBlock(CodeKindView::Fenced(name))) => {
            ActionView::ResolveLanguage(name)
        },
        _ => ActionView::Continue,
    }
}

/// Whether `link` is an outcome that resolving the current link destination
/// can have: nothing outside a link, a classification of the destination
/// inside one.
pub open spec fn link_outcome(link_url: Option<Seq<char>>, link: Option<LinkView>) -> bool {
    match link_url {
        Some(url) => admissible(url, link),
        None => link is None,
    }
}

/// The state after a sequence of events, for a caller that has no language
/// to highlight code in: no code block gets a highlighter.
pub open spec fn state_run(state: StateView, events: Seq<EventView>) -> StateView
    decreases events.len(),
{
    if events.len() == 0 {
        state
    } else {
        state_after(state_run(state, events.drop_last()), events.last(), false)
    }
}

/// The output after a sequence of events that began in `state`, for a caller
/// that has no language to highlight code in. `links` holds, for each event,
/// what the link destination that was current at that event resolved to.
pub open spec fn output_run(
    state: StateView,
    out: OutputView,
    events: Seq<EventView>,
    links: Seq<Option<LinkView>>,
) -> OutputView
    decreases events.len(),
{
    if events.len() == 0 {
        out
    } else {
        output_after(
            state_run(state, events.drop_last()),
            output_run(state, out, events.drop_last(), links.drop_last()),
            events.last(),
            links.last(),
        )
    }
}

/// Whether `links` holds, for each event of a run that began in `state`, an
/// outcome that resolving the link destination current at that event can
/// have.
pub open spec fn link_outcomes(
    state: StateView,
    events: Seq<EventView>,
    links: Seq<Option<LinkView>>,
) -> bool {
    &&& links.len() == events.len()
    &&& forall|i: int|
        0 <= i < events.len() ==> link_outcome(
            state_run(state, events.take(i)).link_url,
            #[trigger] links[i],
        )
}

} // verus!
