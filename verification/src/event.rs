//! The structural events that a Markdown source is read as, and the tokenizer
//! that yields them.

use pulldown_cmark::{CodeBlockKind, Event, Options, Parser, Tag};
use vstd::prelude::*;

verus! {

/// How a code block was opened.
#[derive(Debug, Clone, PartialEq, Eq)]
pub enum CodeKind {
    /// Indented by four spaces: no language is named.
    Indented,
    /// Opened by a fence that names a language (the name may be empty).
    Fenced(String),
}

/// A construct that contains other events, between its start and its end.
#[derive(Debug, Clone, PartialEq, Eq)]
pub enum MarkdownTag {
    Paragraph,
    Heading,
    CodeBlock(CodeKind),
    /// A list; ordered lists carry the number of their first item.
    List(Option<u64>),
    Item,
    Emphasis,
    Strong,
    /// A link with its destination.
    Link(String),
    /// Any construct that the transformer does not react to.
    Other,
}

/// One event of the tokenizer's stream.
#[derive(Debug, Clone, PartialEq, Eq)]
pub enum MarkdownEvent {
    Start(MarkdownTag),
    End(MarkdownTag),
    Text(String),
    Code(String),
    SoftBreak,
    HardBreak,
    /// Any event that the transformer does not react to.
    Other,
}

/// Mathematical value of a [`CodeKind`].
pub enum CodeKindView {
    Indented,
    Fenced(Seq<char>),
}

/// Mathematical value of a [`MarkdownTag`].
pub enum TagView {
    Paragraph,
    Heading,
    CodeBlock(CodeKindView),
    List(Option<u64>),
    Item,
    Emphasis,
    Strong,
    Link(Seq<char>),
    Other,
}

/// Mathematical value of a [`MarkdownEvent`].
pub enum EventView {
    Start(TagView),
    End(TagView),
    Text(Seq<char>),
    Code(Seq<char>),
    SoftBreak,
    HardBreak,
    Other,
}

impl View for CodeKind {
    type V = CodeKindView;

    open spec fn view(&self) -> CodeKindView {
        match self {
            CodeKind::Indented => CodeKindView::Indented,
            CodeKind::Fenced(name) => CodeKindView::Fenced(name@),
        }
    }
}

impl View for MarkdownTag {
    type V = TagView;

    open spec fn view(&self) -> TagView {
        match self {
            MarkdownTag::Paragraph => TagView::Paragraph,
            MarkdownTag::Heading => TagView::Heading,
            MarkdownTag::CodeBlock(kind) => TagView::CodeBlock(kind@),
            MarkdownTag::List(start) => TagView::List(*start),
            MarkdownTag::Item => TagView::Item,
            MarkdownTag::Emphasis => TagView::Emphasis,
            MarkdownTag::Strong => TagView::Strong,
            MarkdownTag::Link(url) => TagView::Link(url@),
            MarkdownTag::Other => TagView::Other,
        }
    }
}

impl View for MarkdownEvent {
    type V = EventView;

    open spec fn view(&self) -> EventView {
        match self {
            MarkdownEvent::Start(tag) => EventView::Start(tag@),
            MarkdownEvent::End(tag) => EventView::End(tag@),
            MarkdownEvent::Text(text) => EventView::Text(text@),
            MarkdownEvent::Code(text) => EventView::Code(text@),
            MarkdownEvent::SoftBreak => EventView::SoftBreak,
            MarkdownEvent::HardBreak => EventView::HardBreak,
            MarkdownEvent::Other => EventView::Other,
        }
    }
}

/// The values of a sequence of events, one for one.
pub open spec fn event_views(events: Seq<MarkdownEvent>) -> Seq<EventView> {
    events.map_values(|event: MarkdownEvent| event@)
}

/// The tokenizer of `pulldown_cmark`. Nothing inside it is visible here; the
/// events that it has yet to yield are spoken of as [`pending_events`].
#[verifier::external_type_specification]
#[verifier::external_body]
pub struct ExParser<'input, 'callback>(Parser<'input, 'callback>);

/// A tag of `pulldown_cmark`, as the tokenizer hands it out.
#[verifier::external_type_specification]
#[verifier::external_body]
pub struct ExTag<'a>(Tag<'a>);

/// The events that the tokenizer reads a source text as, with every extension
/// switched on.
pub uninterp spec fn markdown_events(source: Seq<char>) -> Seq<EventView>;

/// The events that a tokenizer has yet to yield.
pub uninterp spec fn pending_events(parser: Parser) -> Seq<EventView>;

/// `pulldown_cmark::Parser::new_ext` with `Options::all()`: the tokenizer for a
/// source text. What it will yield depends on the text alone.
#[verifier::external_body]
fn tokenizer<'a>(markdown: &'a str) -> (parser: Parser<'a, 'a>)
    ensures
        pending_events(parser) == markdown_events(markdown@),
{
    Parser::new_ext(markdown, Options::all())
}

/// Converts a `pulldown_cmark::Tag` to the library's own, variant for
/// variant: the language of a fence, the start of a list and the destination
/// of a link are kept, every variant that the transformer does not react to
/// becomes `Other`. Nothing is claimed of the result here; [`next_event`]
/// says what the converted event is.
#[verifier::external_body]
fn plain_tag(tag: Tag) -> MarkdownTag {
    match tag {
        Tag::Paragraph => MarkdownTag::Paragraph,
        Tag::Heading(..) => MarkdownTag::Heading,
        Tag::CodeBlock(CodeBlockKind::Indented) => MarkdownTag::CodeBlock(CodeKind::Indented),
        Tag::CodeBlock(CodeBlockKind::Fenced(name)) => {
            MarkdownTag::CodeBlock(CodeKind::Fenced(name.to_string()))
        },
        Tag::List(start) => MarkdownTag::List(start),
        Tag::Item => MarkdownTag::Item,
        Tag::Emphasis => MarkdownTag::Emphasis,
        Tag::Strong => MarkdownTag::Strong,
        Tag::Link(_, url, _) => MarkdownTag::Link(url.to_string()),
        _ => MarkdownTag::Other,
    }
}

/// `Iterator::next` of `pulldown_cmark::Parser`: takes the first of the
/// pending events, if there is one, and hands it out as a plain value. Once
/// nothing is pending, nothing comes and nothing changes.
#[verifier::external_body]
fn next_event(parser: &mut Parser) -> (event: Option<MarkdownEvent>)
    ensures
        match event {
            Some(e) => pending_events(*old(parser)).len() > 0
                && e@ == pending_events(*old(parser))[0]
                && pending_events(*final(parser)) == pending_events(*old(parser)).drop_first(),
            None => pending_events(*old(parser)).len() == 0
                && pending_events(*final(parser)) == pending_events(*old(parser)),
        },
{
    Some(match parser.next()? {
        Event::Start(tag) => MarkdownEvent::Start(plain_tag(tag)),
        Event::End(tag) => MarkdownEvent::End(plain_tag(tag)),
        Event::Text(text) => MarkdownEvent::Text(text.to_string()),
        Event::Code(text) => MarkdownEvent::Code(text.to_string()),
        Event::SoftBreak => MarkdownEvent::SoftBreak,
        Event::HardBreak => MarkdownEvent::HardBreak,
        _ => MarkdownEvent::Other,
    })
}

/// Tokenizes a Markdown source into its structural events.
pub fn tokenize(markdown: &str) -> (events: Vec<MarkdownEvent>)
    ensures
        event_views(events@) == markdown_events(markdown@),
{
    let mut parser = tokenizer(markdown);
    let mut events: Vec<MarkdownEvent> = Vec::new();
    loop
        invariant
            event_views(events@) + pending_events(parser) == markdown_events(markdown@),
        ensures
            event_views(events@) == markdown_events(markdown@),
        decreases pending_events(parser).len(),
    {
        match next_event(&mut parser) {
            Some(event) => {
                assert(event_views(events@.push(event)) =~= event_views(events@).push(event@));
                events.push(event);
                assert(event_views(events@) + pending_events(parser) =~= markdown_events(
                    markdown@,
                ));
            },
            None => {
                assert(event_views(events@) + pending_events(parser) =~= event_views(events@));
                break ;
            },
        }
    }
    events
}

} // verus!
