//! Text as the window manager takes it: UTF-16 code units with a
//! terminating zero.

use vstd::prelude::*;

verus! {

broadcast use vstd::string::group_string_axioms;

/// The UTF-16 code units of one Unicode scalar value: the value itself where
/// it fits in 16 bits, else the high and the low surrogate that stand for it.
pub open spec fn utf16_units(c: char) -> Seq<u16> {
    let code = c as u32;
    if code < 0x10000 {
        seq![code as u16]
    } else {
        seq![
            (0xD800 + (code - 0x10000) / 0x400) as u16,
            (0xDC00 + (code - 0x10000) % 0x400) as u16,
        ]
    }
}

/// The UTF-16 code units of a text: those of its scalar values, in order.
pub open spec fn utf16(text: Seq<char>) -> Seq<u16>
    decreases text.len(),
{
    if text.len() == 0 {
        Seq::empty()
    } else {
        utf16(text.drop_last()) + utf16_units(text.last())
    }
}

/// A text as the window manager takes it: its UTF-16 code units, and a zero
/// that ends it.
pub open spec fn wide(text: Seq<char>) -> Seq<u16> {
    utf16(text).push(0u16)
}

/// Appends the UTF-16 code units of one scalar value.
fn push_utf16(units: &mut Vec<u16>, c: char)
    ensures
        final(units)@ == old(units)@ + utf16_units(c),
{
    let code: u32 = c as u32;
    if code < 0x10000 {
        units.push(code as u16);
        assert(units@ =~= old(units)@ + utf16_units(c));
    } else {
        let rest: u32 = code - 0x10000;
        units.push((0xD800 + rest / 0x400) as u16);
        units.push((0xDC00 + rest % 0x400) as u16);
        assert(units@ =~= old(units)@ + utf16_units(c));
    }
}

/// Encodes a text for the window manager.
pub fn encode_wide(text: &str) -> (units: Vec<u16>)
    ensures
        units@ == wide(text@),
{
    let mut units: Vec<u16> = Vec::new();
    for c in chars: text.chars()
        invariant
            chars.seq() == text@,
            units@ == utf16(text@.take(chars.index())),
    {
        proof {
            let done = text@.take(chars.index() + 1);
            assert(done.drop_last() =~= text@.take(chars.index()));
            assert(done.last() == c);
        }
        push_utf16(&mut units, c);
    }
    assert(text@.take(text@.len() as int) =~= text@);
    units.push(0u16);
    units
}

/// A text of code points below `0x10000` has one code unit per scalar value:
/// the code point itself.
pub proof fn lemma_utf16_of_basic_plane(text: Seq<char>)
    requires
        forall|i: int| 0 <= i < text.len() ==> (text[i] as u32) < 0x10000,
    ensures
        utf16(text).len() == text.len(),
        forall|i: int| 0 <= i < text.len() ==> utf16(text)[i] == text[i] as u32,
    decreases text.len(),
{
    if text.len() > 0 {
        lemma_utf16_of_basic_plane(text.drop_last());
    }
}

/// The terminating zero is the last code unit, and the only place where the
/// length of the text is marked.
pub proof fn lemma_wide_ends_in_zero(text: Seq<char>)
    ensures
        wide(text).len() == utf16(text).len() + 1,
        wide(text).last() == 0u16,
{
}

} // verus!
