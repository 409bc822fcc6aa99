//! Text as the system wants it: UTF-16 code units with a zero at the end.

use vstd::prelude::*;

verus! {

/// The UTF-16 code units of one character: itself where it fits in 16 bits,
/// else a high and a low surrogate.
pub open spec fn utf16_of_char(c: char) -> Seq<u16> {
    let n = c as u32 as int;
    if n < 0x1_0000 {
        seq![n as u16]
    } else {
        seq![
            (0xD800 + (n - 0x1_0000) / 0x400) as u16,
            (0xDC00 + (n - 0x1_0000) % 0x400) as u16,
        ]
    }
}

/// The UTF-16 code units of a text, character by character.
pub open spec fn utf16_of(text: Seq<char>) -> Seq<u16>
    decreases text.len(),
{
    if text.len() == 0 {
        Seq::empty()
    } else {
        utf16_of(text.drop_last()) + utf16_of_char(text.last())
    }
}

/// A text in UTF-16, closed by a zero.
pub open spec fn wide_of(text: Seq<char>) -> Seq<u16> {
    utf16_of(text).push(0)
}

/// Appends the UTF-16 code units of `c` to `wide`.
fn push_utf16(wide: &mut Vec<u16>, c: char)
    ensures
        final(wide)@ == old(wide)@ + utf16_of_char(c),
{
    let n: u32 = c as u32;
    if n < 0x1_0000 {
        wide.push(n as u16);
    } else {
        let rest: u32 = n - 0x1_0000;
        wide.push((0xD800 + rest / 0x400) as u16);
        wide.push((0xDC00 + rest % 0x400) as u16);
    }
    assert(final(wide)@ =~= old(wide)@ + utf16_of_char(c));
}

/// Text that can be handed to the system.
pub trait AsWide {
    /// The characters of the text.
    spec fn chars(&self) -> Seq<char>;

    /// The text in UTF-16, closed by a zero.
    fn as_wide(&self) -> (wide: Vec<u16>)
        ensures
            wide@ == wide_of(self.chars()),
    ;
}

impl AsWide for str {
    open spec fn chars(&self) -> Seq<char> {
        self@
    }

    fn as_wide(&self) -> (wide: Vec<u16>) {
        broadcast use vstd::string::group_string_axioms;

        let mut wide: Vec<u16> = Vec::new();
        for c in it: self.chars()
            invariant
                it.seq() == self@,
                wide@ == utf16_of(self@.take(it.index() as int)),
        {
            push_utf16(&mut wide, c);
            proof {
                let seen = self@.take(it.index() + 1);
                assert(seen.drop_last() =~= self@.take(it.index() as int));
                assert(seen.last() == c);
            }
        }
        proof {
            assert(self@.take(self@.len() as int) =~= self@);
        }
        wide.push(0);
        wide
    }
}

} // verus!
