//! Layout of blocks in the flattened text: paragraph breaks and list items.

use crate::model::{indent, item_stack, item_text, paragraph_stack, paragraph_text};
use crate::text::{decimal_string, ends_with_blank_line, ends_with_newline, push_newline};
use vstd::prelude::*;
use vstd::string::StringExecFns;

verus! {

/// Appends two spaces for each level.
pub fn push_indent(text: &mut String, levels: usize)
    ensures
        final(text)@ == old(text)@ + indent(levels as nat),
{
    let mut done: usize = 0;
    assert(text@ =~= old(text)@ + indent(0));
    while done < levels
        invariant
            done <= levels,
            text@ == old(text)@ + indent(done as nat),
        decreases levels - done,
    {
        proof {
            reveal_strlit("  ");
        }
        let ghost before = text@;
        text.append("  ");
        done += 1;
        assert(text@ =~= old(text)@ + indent(done as nat)) by {
            assert("  "@ =~= seq![' ', ' ']);
            assert(indent(done as nat) == indent((done - 1) as nat).push(' ').push(' '));
        }
    }
}

/// Breaks the text for a new block (a paragraph, a heading or a code block).
///
/// The first block of a list item stays on the line of the item's marker; the
/// item is marked as begun and the text is left alone. Any other block is set
/// off from a non-empty text by a blank line: the text is made to end with
/// one newline and gets a second, unless it ends with a blank line already.
/// The block is then indented by the nesting of the lists around it, and by
/// two more columns inside a list item.
pub fn new_paragraph(text: &mut String, list_stack: &mut Vec<(Option<u64>, bool)>)
    ensures
        final(text)@ == paragraph_text(old(text)@, old(list_stack)@),
        final(list_stack)@ == paragraph_stack(old(list_stack)@),
{
    let depth = list_stack.len();
    if depth > 0 {
        let (ordinal, has_content) = list_stack[depth - 1];
        if !has_content {
            list_stack.set(depth - 1, (ordinal, true));
            return ;
        }
    }
    if !text.as_str().is_empty() && !ends_with_blank_line(text.as_str()) {
        if !ends_with_newline(text.as_str()) {
            push_newline(text);
        }
        push_newline(text);
    }
    if depth > 0 {
        push_indent(text, depth - 1);
        proof {
            reveal_strlit("  ");
        }
        let ghost indented = text@;
        text.append("  ");
        assert(text@ =~= indented.push(' ').push(' ')) by {
            assert("  "@ =~= seq![' ', ' ']);
        }
        assert(text@ =~= paragraph_text(old(text)@, old(list_stack)@));
    }
}

/// Begins a list item: a new line, the indentation of the nesting, and the
/// marker, which is the item's number and a dot in an ordered list and a dash
/// in any other. An ordered list counts on by one, up to the largest number.
/// Outside any list nothing happens.
pub fn new_list_item(text: &mut String, list_stack: &mut Vec<(Option<u64>, bool)>)
    ensures
        final(text)@ == item_text(old(text)@, old(list_stack)@),
        final(list_stack)@ == item_stack(old(list_stack)@),
{
    let depth = list_stack.len();
    if depth == 0 {
        return ;
    }
    let (ordinal, _) = list_stack[depth - 1];
    if !text.as_str().is_empty() && !ends_with_newline(text.as_str()) {
        push_newline(text);
    }
    push_indent(text, depth - 1);
    let ghost indented = text@;
    match ordinal {
        Some(number) => {
            let digits = decimal_string(number);
            text.append(digits.as_str());
            proof {
                reveal_strlit(". ");
            }
            text.append(". ");
            assert(text@ =~= indented + digits@.push('.').push(' ')) by {
                assert(". "@ =~= seq!['.', ' ']);
            }
            let next = if number < u64::MAX {
                number + 1
            } else {
                number
            };
            list_stack.set(depth - 1, (Some(next), false));
        },
        None => {
            proof {
                reveal_strlit("- ");
            }
            text.append("- ");
            assert(text@ =~= indented + seq!['-', ' ']) by {
                assert("- "@ =~= seq!['-', ' ']);
            }
            list_stack.set(depth - 1, (None, false));
        },
    }
}

} // verus!
