//! Laws of the transformer, proved of the model that the contracts of the
//! executable functions are stated over.

use crate::event::{EventView, TagView};
use crate::highlight::{HighlightId, MarkdownHighlightStyle};
use crate::link::{LinkView, RegionView};
use crate::model::{
    appended_span, continues_last, empty_output, indent, initial_state, item_marker, item_stack,
    item_text,
    link_outcome, link_outcomes, on_new_line, output_after, output_run, paragraph_stack,
    paragraph_text, separated, span_within, state_run, text_style, well_formed,
    with_highlighted_code, ListLevel, OutputView, Span, StateView,
};
use crate::text::{byte_len, decimal, lemma_byte_len_concat};
use vstd::prelude::*;

verus! {

/// A text takes at least as many bytes as any text that it begins with.
pub proof fn lemma_byte_len_prefix(shorter: Seq<char>, longer: Seq<char>)
    requires
        shorter.is_prefix_of(longer),
    ensures
        byte_len(shorter) <= byte_len(longer),
{
    let rest = longer.skip(shorter.len() as int);
    assert(longer =~= shorter + rest);
    lemma_byte_len_concat(shorter, rest);
}

/// A paragraph break only appends to the text.
pub proof fn lemma_paragraph_extends(text: Seq<char>, stack: Seq<ListLevel>)
    ensures
        text.is_prefix_of(paragraph_text(text, stack)),
{
    assert(text.is_prefix_of(separated(text)));
}

/// The start of a list item only appends to the text.
pub proof fn lemma_item_extends(text: Seq<char>, stack: Seq<ListLevel>)
    ensures
        text.is_prefix_of(item_text(text, stack)),
{
    assert(text.is_prefix_of(on_new_line(text)));
}

/// No event takes anything away from the text.
pub proof fn law_event_extends_text(
    state: StateView,
    out: OutputView,
    event: EventView,
    link: Option<LinkView>,
)
    ensures
        out.text.is_prefix_of(output_after(state, out, event, link).text),
{
    lemma_paragraph_extends(out.text, state.list_stack);
    lemma_item_extends(out.text, state.list_stack);
}

/// An event keeps the output well formed: the regions stay aligned with
/// their metadata, and every range stays within the text.
pub proof fn law_event_keeps_well_formed(
    state: StateView,
    out: OutputView,
    event: EventView,
    link: Option<LinkView>,
)
    requires
        well_formed(out),
    ensures
        well_formed(output_after(state, out, event, link)),
{
    let after = output_after(state, out, event, link);
    law_event_extends_text(state, out, event, link);
    lemma_byte_len_prefix(out.text, after.text);
    match event {
        EventView::Text(run) => {
            lemma_byte_len_concat(out.text, run);
        },
        EventView::Code(code) => {
            lemma_byte_len_concat(out.text, code);
        },
        _ => {},
    }
    assert forall|i: int| 0 <= i < after.highlights.len() implies span_within(
        (#[trigger] after.highlights[i]).0,
        byte_len(after.text),
    ) by {
        if i < out.highlights.len() {
            assert(span_within(out.highlights[i].0, byte_len(out.text)));
        }
    }
    assert forall|i: int| 0 <= i < after.region_ranges.len() implies span_within(
        #[trigger] after.region_ranges[i],
        byte_len(after.text),
    ) by {
        if i < out.region_ranges.len() {
            assert(span_within(out.region_ranges[i], byte_len(out.text)));
        }
    }
}

/// A run of events keeps the output well formed, whatever the link
/// destinations resolve to.
pub proof fn law_run_keeps_well_formed(
    state: StateView,
    out: OutputView,
    events: Seq<EventView>,
    links: Seq<Option<LinkView>>,
)
    requires
        well_formed(out),
    ensures
        well_formed(output_run(state, out, events, links)),
    decreases events.len(),
{
    if events.len() > 0 {
        law_run_keeps_well_formed(state, out, events.drop_last(), links.drop_last());
        law_event_keeps_well_formed(
            state_run(state, events.drop_last()),
            output_run(state, out, events.drop_last(), links.drop_last()),
            events.last(),
            links.last(),
        );
    }
}

/// Highlighted code keeps the output well formed where the highlighter's
/// ranges lie within the code.
pub proof fn law_highlighted_code_keeps_well_formed(
    out: OutputView,
    code: Seq<char>,
    ranges: Seq<(Span, HighlightId)>,
)
    requires
        well_formed(out),
        forall|i: int| 0 <= i < ranges.len() ==> span_within((#[trigger] ranges[i]).0, byte_len(code)),
    ensures
        well_formed(with_highlighted_code(out, code, ranges)),
{
    let after = with_highlighted_code(out, code, ranges);
    lemma_byte_len_concat(out.text, code);
    assert forall|i: int| 0 <= i < after.highlights.len() implies span_within(
        (#[trigger] after.highlights[i]).0,
        byte_len(after.text),
    ) by {
        if i < out.highlights.len() {
            assert(span_within(out.highlights[i].0, byte_len(out.text)));
        } else {
            assert(span_within(ranges[i - out.highlights.len()].0, byte_len(code)));
        }
    }
    assert forall|i: int| 0 <= i < after.region_ranges.len() implies span_within(
        #[trigger] after.region_ranges[i],
        byte_len(after.text),
    ) by {
        assert(span_within(out.region_ranges[i], byte_len(out.text)));
    }
}

/// Text that no construct touches is copied and nothing else: outside bold,
/// italic, link and highlighted code, a text run is appended to the text and
/// adds neither a highlight nor a region.
pub proof fn law_plain_text_is_copied(state: StateView, out: OutputView, run: Seq<char>)
    requires
        state.bold_depth == 0,
        state.italic_depth == 0,
        !state.highlighting,
    ensures
        output_after(state, out, EventView::Text(run), None) == (OutputView {
            text: out.text + run,
            ..out
        }),
{
}

/// A source that is one plain paragraph flattens to its own text: the events
/// of a single paragraph with one text run, folded from the initial state
/// into the empty output, give that run as the text, no highlight and no
/// region, whatever `links` holds that resolving can give.
pub proof fn law_plain_paragraph_flattens_to_itself(
    run: Seq<char>,
    links: Seq<Option<LinkView>>,
)
    requires
        link_outcomes(initial_state(), plain_paragraph(run), links),
    ensures
        output_run(initial_state(), empty_output(), plain_paragraph(run), links) == (OutputView {
            text: run,
            ..empty_output()
        }),
{
    let events = plain_paragraph(run);
    let first = events.take(1);
    let second = events.take(2);
    assert(events.drop_last() =~= second);
    assert(second.drop_last() =~= first);
    assert(first.drop_last() =~= Seq::<EventView>::empty());
    assert(first.last() == EventView::Start(TagView::Paragraph));
    assert(second.last() == EventView::Text(run));
    assert(events.last() == EventView::End(TagView::Paragraph));
    let s0 = initial_state();
    assert(state_run(s0, first.drop_last()) == s0);
    assert(state_run(s0, first) == s0) by {
        assert(paragraph_stack(s0.list_stack) =~= s0.list_stack);
    }
    assert(state_run(s0, second) == s0);
    assert(link_outcome(state_run(s0, events.take(1)).link_url, links[1]));
    assert(links[1] is None);
    let l2 = links.drop_last();
    let l1 = l2.drop_last();
    assert(l2.last() == links[1]);
    assert(output_run(s0, empty_output(), first.drop_last(), l1.drop_last()) == empty_output());
    let o1 = output_run(s0, empty_output(), first, l1);
    assert(o1 == output_after(s0, empty_output(), first.last(), l1.last()));
    assert(o1 == empty_output());
    let o2 = output_run(s0, empty_output(), second, l2);
    assert(o2 == output_after(s0, o1, second.last(), l2.last()));
    assert(empty_output().text + run =~= run);
}

/// The events of a source that is one paragraph of plain text.
pub open spec fn plain_paragraph(run: Seq<char>) -> Seq<EventView> {
    seq![
        EventView::Start(TagView::Paragraph),
        EventView::Text(run),
        EventView::End(TagView::Paragraph),
    ]
}

/// Adjacent text runs of one style share one highlight entry: two runs in a
/// row, both inside a resolved link or both not, give the text and the
/// highlights that their concatenation gives as a single run. No entry is
/// split in two, and at most one is added.
pub proof fn law_adjacent_runs_merge(
    state: StateView,
    out: OutputView,
    first: Seq<char>,
    second: Seq<char>,
    first_link: Option<LinkView>,
    second_link: Option<LinkView>,
)
    requires
        !state.highlighting,
        first_link is Some <==> second_link is Some,
    ensures
        ({
            let one = output_after(state, out, EventView::Text(first), first_link);
            let two = output_after(state, one, EventView::Text(second), second_link);
            let joined = output_after(state, out, EventView::Text(first + second), first_link);
            &&& two.text == joined.text
            &&& two.highlights == joined.highlights
            &&& two.highlights.len() <= out.highlights.len() + 1
        }),
{
    let one = output_after(state, out, EventView::Text(first), first_link);
    let two = output_after(state, one, EventView::Text(second), second_link);
    let joined = output_after(state, out, EventView::Text(first + second), first_link);
    lemma_byte_len_concat(out.text, first);
    lemma_byte_len_concat(first, second);
    assert((out.text + first) + second =~= out.text + (first + second));
    let style = text_style(state.bold_depth > 0, state.italic_depth > 0, first_link is Some);
    if style != MarkdownHighlightStyle::plain() {
        let span = appended_span(out.text, first);
        assert(continues_last(one.highlights, span.end, style));
        assert(two.highlights =~= joined.highlights);
    }
}

/// Inline code is always a region: whatever the state and whatever the link
/// destination resolved to, an inline code span adds exactly one region,
/// over exactly the span that its text takes, marked as code and carrying
/// the link where one resolved.
pub proof fn law_code_span_is_a_region(
    state: StateView,
    out: OutputView,
    code: Seq<char>,
    link: Option<LinkView>,
)
    ensures
        ({
            let after = output_after(state, out, EventView::Code(code), link);
            &&& after.text == out.text + code
            &&& after.region_ranges == out.region_ranges.push(appended_span(out.text, code))
            &&& after.regions == out.regions.push(RegionView { code: true, link })
        }),
{
}

/// Indentation is two spaces for each level of nesting.
pub proof fn law_indent_is_two_spaces_a_level(levels: nat)
    ensures
        indent(levels).len() == 2 * levels,
        forall|i: int| 0 <= i < 2 * levels ==> #[trigger] indent(levels)[i] == ' ',
    decreases levels,
{
    if levels > 0 {
        law_indent_is_two_spaces_a_level((levels - 1) as nat);
    }
}

/// A list item stands on a line of its own, behind two spaces for each list
/// around its own list, and its marker follows: in a text that ends a line,
/// the item of a list at nesting depth `stack.len()` appends exactly the
/// indentation of `stack.len() - 1` levels and the marker.
pub proof fn law_item_is_indented_by_nesting(text: Seq<char>, stack: Seq<ListLevel>)
    requires
        stack.len() > 0,
        text.len() == 0 || text.last() == '\n',
    ensures
        item_text(text, stack) == text + indent((stack.len() - 1) as nat) + item_marker(
            stack.last().0,
        ),
{
}

/// Regions and their metadata grow in step: an event leaves the entries
/// that both lists hold alone and appends as many to the one as to the
/// other, so that the entry at an index of the one always belongs to the
/// entry at that index of the other.
pub proof fn law_regions_grow_in_step(
    state: StateView,
    out: OutputView,
    event: EventView,
    link: Option<LinkView>,
)
    ensures
        ({
            let after = output_after(state, out, event, link);
            &&& out.region_ranges.is_prefix_of(after.region_ranges)
            &&& out.regions.is_prefix_of(after.regions)
            &&& after.region_ranges.len() - out.region_ranges.len() == after.regions.len()
                - out.regions.len()
        }),
{
}

/// An ordered list counts on by one with each item, whatever the source
/// wrote as the item's marker: the item is marked with the number that the
/// list has reached, and the next item gets the number after it.
pub proof fn law_ordered_items_count_on(text: Seq<char>, stack: Seq<ListLevel>, number: u64)
    requires
        stack.len() > 0,
        stack.last().0 == Some(number),
        number < u64::MAX,
    ensures
        item_marker(stack.last().0) == decimal(number as nat).push('.').push(' '),
        item_marker(item_stack(stack).last().0) == decimal((number + 1) as nat).push('.').push(' '),
        item_stack(stack).len() == stack.len(),
{
}

} // verus!
