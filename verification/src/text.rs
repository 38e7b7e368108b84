//! Text primitives: byte lengths of character sequences, and the few string
//! operations of the standard library that the transformer builds on.

use vstd::prelude::*;
use vstd::string::StringExecFns;
use vstd::utf8::encode_utf8;

verus! {

/// Number of bytes that a character sequence takes in UTF-8. Offsets into a
/// text are counted in these bytes.
pub open spec fn byte_len(chars: Seq<char>) -> nat {
    encode_utf8(chars).len()
}

/// The encoding of a concatenation is the concatenation of the encodings.
pub proof fn lemma_encode_concat(a: Seq<char>, b: Seq<char>)
    ensures
        encode_utf8(a + b) == encode_utf8(a) + encode_utf8(b),
    decreases a.len(),
{
    if a.len() == 0 {
        assert(a + b =~= b);
        assert(encode_utf8(a) + encode_utf8(b) =~= encode_utf8(b));
    } else {
        assert((a + b).drop_first() =~= a.drop_first() + b);
        lemma_encode_concat(a.drop_first(), b);
        assert(encode_utf8(a + b) =~= encode_utf8(a) + encode_utf8(b));
    }
}

/// Byte lengths add up under concatenation.
pub proof fn lemma_byte_len_concat(a: Seq<char>, b: Seq<char>)
    ensures
        byte_len(a + b) == byte_len(a) + byte_len(b),
{
    lemma_encode_concat(a, b);
}

/// The decimal digit for a value below ten.
pub open spec fn digit_char(d: nat) -> char {
    if d == 0 {
        '0'
    } else if d == 1 {
        '1'
    } else if d == 2 {
        '2'
    } else if d == 3 {
        '3'
    } else if d == 4 {
        '4'
    } else if d == 5 {
        '5'
    } else if d == 6 {
        '6'
    } else if d == 7 {
        '7'
    } else if d == 8 {
        '8'
    } else {
        '9'
    }
}

/// A number written in decimal, without sign or leading zeros.
pub open spec fn decimal(n: nat) -> Seq<char>
    decreases n,
{
    if n < 10 {
        seq![digit_char(n)]
    } else {
        decimal(n / 10).push(digit_char(n % 10))
    }
}

/// Length of a text in bytes.
pub fn text_len(text: &str) -> (len: usize)
    ensures
        len == byte_len(text@),
{
    text.as_bytes().len()
}

/// `str::ends_with` for a string pattern: whether the text ends with the
/// characters of `suffix`.
#[verifier::external_body]
pub(crate) fn ends_with_str(text: &str, suffix: &str) -> (found: bool)
    ensures
        found == suffix@.is_suffix_of(text@),
{
    text.ends_with(suffix)
}

/// Whether the last character of the text is a newline.
pub fn ends_with_newline(text: &str) -> (found: bool)
    ensures
        found == (text@.len() > 0 && text@.last() == '\n'),
{
    proof {
        reveal_strlit("\n");
        assert("\n"@ =~= seq!['\n']);
    }
    let found = ends_with_str(text, "\n");
    proof {
        let len = text@.len() as int;
        if len > 0 {
            assert(text@.subrange(len - 1, len)[0] == text@[len - 1]);
            if text@.last() == '\n' {
                assert(seq!['\n'] =~= text@.subrange(len - 1, len));
            }
        }
    }
    found
}

/// Whether the last two characters of the text are newlines: the text ends
/// with a blank line.
pub fn ends_with_blank_line(text: &str) -> (found: bool)
    ensures
        found == (text@.len() >= 2 && text@[text@.len() - 1] == '\n' && text@[text@.len() - 2]
            == '\n'),
{
    proof {
        reveal_strlit("\n\n");
        assert("\n\n"@ =~= seq!['\n', '\n']);
    }
    let found = ends_with_str(text, "\n\n");
    proof {
        let len = text@.len() as int;
        if len >= 2 {
            let tail = text@.subrange(len - 2, len);
            assert(tail[0] == text@[len - 2]);
            assert(tail[1] == text@[len - 1]);
            if text@[len - 1] == '\n' && text@[len - 2] == '\n' {
                assert(seq!['\n', '\n'] =~= tail);
            }
        }
    }
    found
}

/// `str::starts_with` for a string pattern: whether the text begins with the
/// characters of `prefix`.
#[verifier::external_body]
pub(crate) fn starts_with_str(text: &str, prefix: &str) -> (found: bool)
    ensures
        found == prefix@.is_prefix_of(text@),
{
    text.starts_with(prefix)
}

/// Formats a `u64` with `{}`: its decimal digits, most significant first.
#[verifier::external_body]
pub(crate) fn decimal_string(n: u64) -> (digits: String)
    ensures
        digits@ == decimal(n as nat),
{
    format!("{}", n)
}

/// Appends one newline character.
pub fn push_newline(text: &mut String)
    ensures
        final(text)@ == old(text)@.push('\n'),
{
    proof {
        reveal_strlit("\n");
    }
    text.append("\n");
    assert(text@ =~= old(text)@.push('\n'));
}

} // verus!
