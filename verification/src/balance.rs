//! Well-formed event sequences, and what the state is after one.

use crate::event::{EventView, TagView};
use crate::model::{initial_state, output_after, state_run, OutputView, StateView};
use vstd::prelude::*;

verus! {

/// The constructs that are open after a sequence of events, outermost first;
/// `None` where an end does not close the construct that was opened last.
pub open spec fn open_tags(events: Seq<EventView>) -> Option<Seq<TagView>>
    decreases events.len(),
{
    if events.len() == 0 {
        Some(Seq::empty())
    } else {
        match open_tags(events.drop_last()) {
            None => None,
            Some(open) => match events.last() {
                EventView::Start(tag) => Some(open.push(tag)),
                EventView::End(tag) => if open.len() > 0 && open.last() == tag {
                    Some(open.drop_last())
                } else {
                    None
                },
                _ => Some(open),
            },
        }
    }
}

/// Whether every construct that a sequence of events opens is closed in it,
/// innermost first, and nothing else is closed.
pub open spec fn balanced(events: Seq<EventView>) -> bool {
    open_tags(events) == Some(Seq::<TagView>::empty())
}

/// Whether text inside the construct is bold.
pub open spec fn makes_bold(tag: TagView) -> bool {
    tag is Heading || tag is Strong
}

/// How many of the open constructs make their text bold.
pub open spec fn open_bold(open: Seq<TagView>) -> nat
    decreases open.len(),
{
    if open.len() == 0 {
        0
    } else {
        open_bold(open.drop_last()) + if makes_bold(open.last()) {
            1nat
        } else {
            0nat
        }
    }
}

/// How many of the open constructs are emphasis.
pub open spec fn open_italic(open: Seq<TagView>) -> nat
    decreases open.len(),
{
    if open.len() == 0 {
        0
    } else {
        open_italic(open.drop_last()) + if open.last() is Emphasis {
            1nat
        } else {
            0nat
        }
    }
}

/// How many of the open constructs are lists.
pub open spec fn open_lists(open: Seq<TagView>) -> nat
    decreases open.len(),
{
    if open.len() == 0 {
        0
    } else {
        open_lists(open.drop_last()) + if open.last() is List {
            1nat
        } else {
            0nat
        }
    }
}

/// How many of the open constructs are links.
pub open spec fn open_links(open: Seq<TagView>) -> nat
    decreases open.len(),
{
    if open.len() == 0 {
        0
    } else {
        open_links(open.drop_last()) + if open.last() is Link {
            1nat
        } else {
            0nat
        }
    }
}

/// The counters of the state follow the open constructs: after events whose
/// ends all match, each depth has grown by the number of open constructs of
/// its kind, the list stack by the number of open lists, and outside any
/// link no destination is current.
pub proof fn lemma_state_follows_open_tags(state: StateView, events: Seq<EventView>)
    requires
        open_tags(events) is Some,
    ensures
        ({
            let open = open_tags(events)->0;
            let after = state_run(state, events);
            &&& after.bold_depth == state.bold_depth + open_bold(open)
            &&& after.italic_depth == state.italic_depth + open_italic(open)
            &&& after.list_stack.len() == state.list_stack.len() + open_lists(open)
            &&& state.link_url is None && open_links(open) == 0 ==> after.link_url is None
            &&& !state.highlighting ==> !after.highlighting
        }),
    decreases events.len(),
{
    if events.len() > 0 {
        let earlier = events.drop_last();
        lemma_state_follows_open_tags(state, earlier);
        let open = open_tags(earlier)->0;
        match events.last() {
            EventView::Start(tag) => {
                assert(open.push(tag).drop_last() =~= open);
            },
            _ => {},
        }
    }
}

/// Depth balance: after a well-formed sequence of events the state is back
/// where it began. From the initial state both depths are zero again, the
/// list stack is empty and no link is current, so that text after the
/// sequence is plain: it adds neither a highlight nor a region.
pub proof fn law_balanced_run_restores_state(events: Seq<EventView>)
    requires
        balanced(events),
    ensures
        state_run(initial_state(), events).bold_depth == 0,
        state_run(initial_state(), events).italic_depth == 0,
        state_run(initial_state(), events).list_stack.len() == 0,
        state_run(initial_state(), events).link_url is None,
        !state_run(initial_state(), events).highlighting,
        forall|out: OutputView, run: Seq<char>|
            #[trigger] output_after(
                state_run(initial_state(), events),
                out,
                EventView::Text(run),
                None,
            ) == (OutputView { text: out.text + run, ..out }),
{
    lemma_state_follows_open_tags(initial_state(), events);
}

/// Depth balance from any state: a well-formed sequence of events leaves
/// both depths and the height of the list stack as it found them.
pub proof fn law_balanced_run_keeps_depths(state: StateView, events: Seq<EventView>)
    requires
        balanced(events),
    ensures
        state_run(state, events).bold_depth == state.bold_depth,
        state_run(state, events).italic_depth == state.italic_depth,
        state_run(state, events).list_stack.len() == state.list_stack.len(),
{
    lemma_state_follows_open_tags(state, events);
}

} // verus!
