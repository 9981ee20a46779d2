//! Showing a byte string as text where it is text.

use crate::text::{hex_digit, push_char, spec_hex_digit};
use vstd::prelude::*;

verus! {

/// A byte string that is shown as an ASCII string literal rather than as a
/// list of numbers: much of what passes through a TLS stack is text, or
/// holds text.
pub struct BsDebug<'a>(pub &'a [u8]);

/// How one byte is shown: printable ASCII as itself, the usual escapes for
/// newline, carriage return, tab, backslash, double quote and NUL, and
/// `\x` with two hexadecimal digits for every other byte.
pub open spec fn spec_escape(c: u8) -> Seq<char> {
    if c == 0x0a {
        seq!['\\', 'n']
    } else if c == 0x0d {
        seq!['\\', 'r']
    } else if c == 0x09 {
        seq!['\\', 't']
    } else if c == 0x5c || c == 0x22 {
        seq!['\\', c as char]
    } else if c == 0x00 {
        seq!['\\', '0']
    } else if 0x20 <= c < 0x7f {
        seq![c as char]
    } else {
        seq!['\\', 'x', spec_hex_digit((c / 16) as nat), spec_hex_digit((c % 16) as nat)]
    }
}

/// The bytes shown one after the other.
pub open spec fn spec_escape_all(bytes: Seq<u8>) -> Seq<char>
    decreases bytes.len(),
{
    if bytes.len() == 0 {
        Seq::empty()
    } else {
        spec_escape_all(bytes.drop_last()) + spec_escape(bytes.last())
    }
}

/// A character of printable ASCII.
pub open spec fn printable(c: char) -> bool {
    0x20 <= c as u32 <= 0x7e
}

impl<'a> BsDebug<'a> {
    /// The text that `fmt` gives: `b"`, the bytes, `"`.
    pub open spec fn spec_fmt(&self) -> Seq<char> {
        seq!['b', '"'] + spec_escape_all(self.0@) + seq!['"']
    }

    /// The byte string as a byte string literal.
    pub fn fmt(&self) -> (text: String)
        ensures
            text@ == self.spec_fmt(),
    {
        let mut text = String::new();
        push_char(&mut text, 'b');
        push_char(&mut text, '"');
        let bytes = self.0;
        let mut i: usize = 0;
        while i < bytes.len()
            invariant
                i <= bytes@.len(),
                text@ == seq!['b', '"'] + spec_escape_all(bytes@.take(i as int)),
            decreases bytes@.len() - i,
        {
            let c: u8 = bytes[i];
            let ghost before = text@;
            if c == 0x0a {
                push_char(&mut text, '\\');
                push_char(&mut text, 'n');
            } else if c == 0x0d {
                push_char(&mut text, '\\');
                push_char(&mut text, 'r');
            } else if c == 0x09 {
                push_char(&mut text, '\\');
                push_char(&mut text, 't');
            } else if c == 0x5c || c == 0x22 {
                push_char(&mut text, '\\');
                push_char(&mut text, c as char);
            } else if c == 0x00 {
                push_char(&mut text, '\\');
                push_char(&mut text, '0');
            } else if 0x20 <= c && c < 0x7f {
                push_char(&mut text, c as char);
            } else {
                push_char(&mut text, '\\');
                push_char(&mut text, 'x');
                push_char(&mut text, hex_digit(c / 16));
                push_char(&mut text, hex_digit(c % 16));
            }
            proof {
                let shown = bytes@.take(i + 1);
                assert(shown.drop_last() =~= bytes@.take(i as int));
                assert(shown.last() == c);
                assert(text@ =~= before + spec_escape(c));
            }
            i += 1;
        }
        assert(bytes@.take(i as int) =~= bytes@);
        push_char(&mut text, '"');
        text
    }
}

/// Whatever the byte, what stands for it is one to four characters of
/// printable ASCII.
pub proof fn lemma_escape_is_printable(c: u8)
    ensures
        1 <= spec_escape(c).len() <= 4,
        forall|i: int| 0 <= i < spec_escape(c).len() ==> printable(#[trigger] spec_escape(c)[i]),
{
}

/// The text of a byte string is printable ASCII throughout, whatever the
/// bytes are.
pub proof fn lemma_fmt_is_printable(bytes: Seq<u8>)
    ensures
        forall|i: int|
            0 <= i < spec_escape_all(bytes).len() ==> printable(
                #[trigger] spec_escape_all(bytes)[i],
            ),
    decreases bytes.len(),
{
    if bytes.len() > 0 {
        let front = spec_escape_all(bytes.drop_last());
        let back = spec_escape(bytes.last());
        lemma_fmt_is_printable(bytes.drop_last());
        lemma_escape_is_printable(bytes.last());
        assert forall|i: int| 0 <= i < (front + back).len() implies printable(
            #[trigger] (front + back)[i],
        ) by {
            if i >= front.len() {
                assert((front + back)[i] == back[i - front.len()]);
            }
        }
    }
}

} // verus!
