//! The transformer: a fold over the tokenizer's events that builds the
//! flattened text and its annotations.

use crate::event::{
    event_views, markdown_events, tokenize, CodeKind, CodeKindView, EventView, MarkdownEvent,
    MarkdownTag, TagView,
};
use crate::highlight::MarkdownHighlight;
use crate::laws::law_run_keeps_well_formed;
use crate::layout::{new_list_item, new_paragraph};
use crate::link::{classified, link_view, Link, LinkView, ParsedRegion};
use crate::model::{
    action_after, empty_output, initial_state, link_outcome, link_outcomes, output_after,
    output_run, state_after, state_run, well_formed, ActionView, StateView,
};
use crate::output::{
    highlight_views, output_view, push_code_span, push_text_run, region_views, span_views,
    ParsedMarkdown,
};
use crate::text::push_newline;
use std::ops::Range;
use vstd::prelude::*;
use vstd::string::StringExecFns;

verus! {

/// What the transformer remembers between two events. `L` is the caller's
/// handle for a language that code can be highlighted in.
#[derive(Debug)]
pub struct TraversalState<L> {
    /// How many strong constructs and headings are open.
    pub bold_depth: usize,
    /// How many emphasis constructs are open.
    pub italic_depth: usize,
    /// The destination of the link that is open, if one is.
    pub link_url: Option<String>,
    /// The language of the code block that is open, if it has one.
    pub current_language: Option<L>,
    /// One level for each list that is open, innermost last.
    pub list_stack: Vec<(Option<u64>, bool)>,
}

/// What the caller has to do after an event, before it hands in the next.
#[derive(Debug, PartialEq, Eq)]
pub enum Action {
    /// Nothing.
    Continue,
    /// A fenced code block names this language. The caller looks it up and
    /// reports what it found with [`TraversalState::set_language`].
    ResolveLanguage(String),
    /// A run of code stands inside a block with a language. The caller has
    /// it highlighted in [`TraversalState::current_language`] and appends it
    /// with [`crate::output::highlight_code`].
    HighlightCode(String),
}

impl View for Action {
    type V = ActionView;

    open spec fn view(&self) -> ActionView {
        match self {
            Action::Continue => ActionView::Continue,
            Action::ResolveLanguage(name) => ActionView::ResolveLanguage(name@),
            Action::HighlightCode(code) => ActionView::HighlightCode(code@),
        }
    }
}

/// Value of an optional string.
pub open spec fn text_view(text: Option<String>) -> Option<Seq<char>> {
    match text {
        Some(text) => Some(text@),
        None => None,
    }
}

impl<L> View for TraversalState<L> {
    type V = StateView;

    open spec fn view(&self) -> StateView {
        StateView {
            bold_depth: self.bold_depth as nat,
            italic_depth: self.italic_depth as nat,
            link_url: text_view(self.link_url),
            highlighting: self.current_language is Some,
            list_stack: self.list_stack@,
        }
    }
}

impl<L: Clone> TraversalState<L> {
    /// The state before the first event.
    pub fn new() -> (state: Self)
        ensures
            state@ == initial_state(),
    {
        TraversalState {
            bold_depth: 0,
            italic_depth: 0,
            link_url: None,
            current_language: None,
            list_stack: Vec::new(),
        }
    }

    /// Sets the language of the code block that is open: what looking up the
    /// name of its fence gave, `None` where the name is unknown.
    pub fn set_language(&mut self, language: Option<L>)
        ensures
            final(self).current_language == language,
            final(self)@ == (StateView { highlighting: language is Some, ..old(self)@ }),
    {
        self.current_language = language;
    }

    /// Resolves the destination of the link that is open: to nothing outside
    /// a link, else to what the destination classifies as on this platform.
    pub fn resolve_link(&self) -> (link: Option<Link>)
        ensures
            link_outcome(self@.link_url, link_view(link)),
    {
        match &self.link_url {
            Some(url) => Link::identify(url.clone()),
            None => None,
        }
    }

    /// Whether another construct can be opened without a depth counter
    /// running over.
    pub open spec fn can_nest(&self) -> bool {
        self.bold_depth < usize::MAX && self.italic_depth < usize::MAX
    }

    /// Applies one event, given what the destination of the open link
    /// resolved to (`link` is read for text runs and inline code only).
    ///
    /// The state and the four outputs change as the model says. Of the
    /// language: an indented code block takes a clone of `default_language`,
    /// a fenced one starts without a language and asks the caller to resolve
    /// the name, the end of a code block drops the language, and every other
    /// event leaves it alone.
    pub fn apply_event(
        &mut self,
        event: &MarkdownEvent,
        link: Option<Link>,
        default_language: &Option<L>,
        text: &mut String,
        highlights: &mut Vec<(Range<usize>, MarkdownHighlight)>,
        region_ranges: &mut Vec<Range<usize>>,
        regions: &mut Vec<ParsedRegion>,
    ) -> (action: Action)
        requires
            old(self).can_nest(),
        ensures
            final(self)@ == state_after(old(self)@, event@, *default_language is Some),
            output_view(final(text)@, final(highlights)@, final(region_ranges)@, final(regions)@)
                == output_after(
                old(self)@,
                output_view(old(text)@, old(highlights)@, old(region_ranges)@, old(regions)@),
                event@,
                link_view(link),
            ),
            action@ == action_after(old(self)@, event@),
            language_after(
                old(self).current_language,
                event@,
                *default_language,
                final(self).current_language,
            ),
    {
        match event {
            MarkdownEvent::Text(run) => {
                if self.current_language.is_some() {
                    Action::HighlightCode(run.clone())
                } else {
                    push_text_run(
                        text,
                        highlights,
                        region_ranges,
                        regions,
                        run.as_str(),
                        self.bold_depth > 0,
                        self.italic_depth > 0,
                        link,
                    );
                    Action::Continue
                }
            },
            MarkdownEvent::Code(code) => {
                push_code_span(text, highlights, region_ranges, regions, code.as_str(), link);
                Action::Continue
            },
            MarkdownEvent::Start(tag) => match tag {
                MarkdownTag::Paragraph => {
                    new_paragraph(text, &mut self.list_stack);
                    Action::Continue
                },
                MarkdownTag::Heading => {
                    new_paragraph(text, &mut self.list_stack);
                    self.bold_depth += 1;
                    Action::Continue
                },
                MarkdownTag::CodeBlock(kind) => {
                    new_paragraph(text, &mut self.list_stack);
                    match kind {
                        CodeKind::Fenced(name) => {
                            self.current_language = None;
                            Action::ResolveLanguage(name.clone())
                        },
                        CodeKind::Indented => {
                            self.current_language = default_language.clone();
                            Action::Continue
                        },
                    }
                },
                MarkdownTag::Emphasis => {
                    self.italic_depth += 1;
                    Action::Continue
                },
                MarkdownTag::Strong => {
                    self.bold_depth += 1;
                    Action::Continue
                },
                MarkdownTag::Link(url) => {
                    self.link_url = Some(url.clone());
                    Action::Continue
                },
                MarkdownTag::List(start) => {
                    self.list_stack.push((*start, false));
                    Action::Continue
                },
                MarkdownTag::Item => {
                    new_list_item(text, &mut self.list_stack);
                    Action::Continue
                },
                MarkdownTag::Other => Action::Continue,
            },
            MarkdownEvent::End(tag) => {
                match tag {
                    MarkdownTag::Heading | MarkdownTag::Strong => {
                        if self.bold_depth > 0 {
                            self.bold_depth -= 1;
                        }
                    },
                    MarkdownTag::CodeBlock(_) => {
                        self.current_language = None;
                    },
                    MarkdownTag::Emphasis => {
                        if self.italic_depth > 0 {
                            self.italic_depth -= 1;
                        }
                    },
                    MarkdownTag::Link(_) => {
                        self.link_url = None;
                    },
                    MarkdownTag::List(_) => {
                        if self.list_stack.len() > 0 {
                            self.list_stack.pop();
                        }
                    },
                    _ => {},
                }
                Action::Continue
            },
            MarkdownEvent::HardBreak => {
                push_newline(text);
                Action::Continue
            },
            MarkdownEvent::SoftBreak => {
                proof {
                    reveal_strlit(" ");
                }
                text.append(" ");
                assert(text@ =~= old(text)@.push(' '));
                Action::Continue
            },
            MarkdownEvent::Other => Action::Continue,
        }
    }
}

impl<L: Clone> TraversalState<L> {
    /// Applies one event: resolves the destination of the open link where
    /// the event is a text run or inline code, and applies the event with
    /// what came of it. How a destination that is no web address resolves
    /// depends on the platform; the outputs are what the model gives for one
    /// of the outcomes that resolving can have.
    pub fn process_event(
        &mut self,
        event: &MarkdownEvent,
        default_language: &Option<L>,
        text: &mut String,
        highlights: &mut Vec<(Range<usize>, MarkdownHighlight)>,
        region_ranges: &mut Vec<Range<usize>>,
        regions: &mut Vec<ParsedRegion>,
    ) -> (action: Action)
        requires
            old(self).can_nest(),
        ensures
            final(self)@ == state_after(old(self)@, event@, *default_language is Some),
            exists|link: Option<LinkView>|
                #[trigger] link_outcome(old(self)@.link_url, link) && output_view(
                    final(text)@,
                    final(highlights)@,
                    final(region_ranges)@,
                    final(regions)@,
                ) == output_after(
                    old(self)@,
                    output_view(old(text)@, old(highlights)@, old(region_ranges)@, old(regions)@),
                    event@,
                    link,
                ),
            action@ == action_after(old(self)@, event@),
            language_after(
                old(self).current_language,
                event@,
                *default_language,
                final(self).current_language,
            ),
    {
        let link = match event {
            MarkdownEvent::Text(_) | MarkdownEvent::Code(_) => self.resolve_link(),
            _ => None,
        };
        let ghost used = link_view(link);
        let ghost outcome = match event@ {
            EventView::Text(_) | EventView::Code(_) => used,
            _ => match self@.link_url {
                Some(url) => classified(url, false),
                None => None,
            },
        };
        let ghost before = output_view(text@, highlights@, region_ranges@, regions@);
        assert(link_outcome(self@.link_url, outcome));
        assert(output_after(self@, before, event@, used) == output_after(
            self@,
            before,
            event@,
            outcome,
        ));
        self.apply_event(event, link, default_language, text, highlights, region_ranges, regions)
    }
}

/// How an event changes the language of the open code block, from `before`
/// to `after`, where `default_language` is the language for blocks that name
/// none.
pub open spec fn language_after<L: Clone>(
    before: Option<L>,
    event: EventView,
    default_language: Option<L>,
    after: Option<L>,
) -> bool {
    match event {
        EventView::Start(TagView::CodeBlock(CodeKindView::Indented)) => match default_language {
            Some(language) => after is Some && cloned(language, after->0),
            None => after is None,
        },
        EventView::Start(TagView::CodeBlock(CodeKindView::Fenced(_))) => after is None,
        EventView::End(TagView::CodeBlock(_)) => after is None,
        _ => after == before,
    }
}

/// Folds a sequence of events into the four outputs, appending to what they
/// hold, for a caller that has no language to highlight code in: every code
/// block is kept as raw text.
///
/// The fold begins in the initial state and applies the events in order.
/// The outputs are what the model gives for one of the outcomes that
/// resolving the link destinations can have on this platform.
pub fn fold_events(
    events: &Vec<MarkdownEvent>,
    text: &mut String,
    highlights: &mut Vec<(Range<usize>, MarkdownHighlight)>,
    region_ranges: &mut Vec<Range<usize>>,
    regions: &mut Vec<ParsedRegion>,
)
    ensures
        exists|links: Seq<Option<LinkView>>|
            #[trigger] link_outcomes(initial_state(), event_views(events@), links) && output_view(
                final(text)@,
                final(highlights)@,
                final(region_ranges)@,
                final(regions)@,
            ) == output_run(
                initial_state(),
                output_view(old(text)@, old(highlights)@, old(region_ranges)@, old(regions)@),
                event_views(events@),
                links,
            ),
        well_formed(output_view(old(text)@, old(highlights)@, old(region_ranges)@, old(regions)@))
            ==> well_formed(
            output_view(final(text)@, final(highlights)@, final(region_ranges)@, final(regions)@),
        ),
{
    let mut state: TraversalState<()> = TraversalState::new();
    let no_language: Option<()> = None;
    let ghost all = event_views(events@);
    let ghost start = output_view(text@, highlights@, region_ranges@, regions@);
    let ghost mut links: Seq<Option<LinkView>> = Seq::empty();
    let mut done: usize = 0;
    assert(all.take(0) =~= Seq::empty());
    while done < events.len()
        invariant
            done <= events@.len(),
            all == event_views(events@),
            no_language is None,
            state@ == state_run(initial_state(), all.take(done as int)),
            state.bold_depth <= done,
            state.italic_depth <= done,
            link_outcomes(initial_state(), all.take(done as int), links),
            output_view(text@, highlights@, region_ranges@, regions@) == output_run(
                initial_state(),
                start,
                all.take(done as int),
                links,
            ),
        decreases events@.len() - done,
    {
        let ghost seen = all.take(done as int);
        let ghost state_before = state@;
        let ghost out_before = output_view(text@, highlights@, region_ranges@, regions@);
        state.process_event(&events[done], &no_language, text, highlights, region_ranges, regions);
        proof {
            let event = events@[done as int]@;
            let link = choose|link: Option<LinkView>|
                #[trigger] link_outcome(state_before.link_url, link) && output_view(
                    text@,
                    highlights@,
                    region_ranges@,
                    regions@,
                ) == output_after(state_before, out_before, event, link);
            let longer = all.take(done + 1);
            assert(longer.drop_last() =~= seen);
            assert(longer.last() == event);
            assert(state@ == state_run(initial_state(), longer));
            assert(links.push(link).drop_last() =~= links);
            assert forall|i: int| 0 <= i < longer.len() implies link_outcome(
                state_run(initial_state(), longer.take(i)).link_url,
                #[trigger] links.push(link)[i],
            ) by {
                if i < done {
                    assert(longer.take(i) =~= seen.take(i));
                } else {
                    assert(longer.take(i) =~= seen);
                }
            }
            links = links.push(link);
        }
        done += 1;
    }
    assert(all.take(done as int) =~= all);
    proof {
        if well_formed(start) {
            law_run_keeps_well_formed(initial_state(), start, all, links);
        }
    }
}

/// Flattens a Markdown source, appending to what the four outputs hold,
/// without syntax highlighting: every code block is kept as raw text.
///
/// The source is tokenized and the events are folded in order, from the
/// initial state.
pub fn parse_markdown_block(
    markdown: &str,
    text: &mut String,
    highlights: &mut Vec<(Range<usize>, MarkdownHighlight)>,
    region_ranges: &mut Vec<Range<usize>>,
    regions: &mut Vec<ParsedRegion>,
)
    ensures
        exists|links: Seq<Option<LinkView>>|
            #[trigger] link_outcomes(initial_state(), markdown_events(markdown@), links)
                && output_view(
                final(text)@,
                final(highlights)@,
                final(region_ranges)@,
                final(regions)@,
            ) == output_run(
                initial_state(),
                output_view(old(text)@, old(highlights)@, old(region_ranges)@, old(regions)@),
                markdown_events(markdown@),
                links,
            ),
        well_formed(output_view(old(text)@, old(highlights)@, old(region_ranges)@, old(regions)@))
            ==> well_formed(
            output_view(final(text)@, final(highlights)@, final(region_ranges)@, final(regions)@),
        ),
{
    let events = tokenize(markdown);
    fold_events(&events, text, highlights, region_ranges, regions);
}

/// Flattens a Markdown source without syntax highlighting: into its text,
/// the styles of its emphasized, strong, heading and link text, and the
/// regions of its inline code spans and links.
pub fn parse_markdown(markdown: &str) -> (parsed: ParsedMarkdown)
    ensures
        exists|links: Seq<Option<LinkView>>|
            #[trigger] link_outcomes(initial_state(), markdown_events(markdown@), links)
                && parsed@ == output_run(
                initial_state(),
                empty_output(),
                markdown_events(markdown@),
                links,
            ),
        parsed.wf(),
{
    let mut text = String::new();
    let mut highlights: Vec<(Range<usize>, MarkdownHighlight)> = Vec::new();
    let mut region_ranges: Vec<Range<usize>> = Vec::new();
    let mut regions: Vec<ParsedRegion> = Vec::new();
    assert(output_view(text@, highlights@, region_ranges@, regions@) =~= empty_output()) by {
        assert(highlight_views(highlights@) =~= Seq::empty());
        assert(span_views(region_ranges@) =~= Seq::empty());
        assert(region_views(regions@) =~= Seq::empty());
    }
    parse_markdown_block(markdown, &mut text, &mut highlights, &mut region_ranges, &mut regions);
    ParsedMarkdown { text, highlights, region_ranges, regions }
}

} // verus!
