//! The text that a helper program wrote to its standard output.

use vstd::prelude::*;

verus! {

/// The byte is white space when read as a character: a control character
/// from tab to carriage return, the space, the next-line control or the
/// no-break space.
pub open spec fn is_space(b: u8) -> bool {
    (9 <= b <= 13) || b == 32 || b == 0x85 || b == 0xa0
}

/// The bytes without the white space at their start.
pub open spec fn trim_start(bytes: Seq<u8>) -> Seq<u8>
    decreases bytes.len(),
{
    if bytes.len() > 0 && is_space(bytes[0]) {
        trim_start(bytes.drop_first())
    } else {
        bytes
    }
}

/// The bytes without the white space at their end.
pub open spec fn trim_end(bytes: Seq<u8>) -> Seq<u8>
    decreases bytes.len(),
{
    if bytes.len() > 0 && is_space(bytes.last()) {
        trim_end(bytes.drop_last())
    } else {
        bytes
    }
}

/// The bytes without the white space at either end.
pub open spec fn trimmed(bytes: Seq<u8>) -> Seq<u8> {
    trim_end(trim_start(bytes))
}

/// The bytes read one by one as characters: each byte stands for the
/// character with its number.
pub open spec fn as_chars(bytes: Seq<u8>) -> Seq<char> {
    Seq::new(bytes.len(), |i: int| bytes[i] as char)
}

/// `String::push` of std: the character is appended at the end.
#[verifier::external_body]
fn push_char(text: &mut String, c: char)
    ensures
        final(text)@ == old(text)@.push(c),
{
    text.push(c);
}

fn space(b: u8) -> (yes: bool)
    ensures
        yes == is_space(b),
{
    (9 <= b && b <= 13) || b == 32 || b == 0x85 || b == 0xa0
}

/// Reads what a program wrote as text: each byte is taken as the character
/// with its number, and white space at both ends is dropped.
pub fn decode_output(bytes: &[u8]) -> (text: String)
    ensures
        text@ == as_chars(trimmed(bytes@)),
{
    let len = bytes.len();
    let mut start: usize = 0;
    assert(bytes@.skip(0) =~= bytes@);
    while start < len && space(bytes[start])
        invariant
            len == bytes.len(),
            start <= len,
            trim_start(bytes@) == trim_start(bytes@.skip(start as int)),
        decreases len - start,
    {
        assert(bytes@.skip(start as int).drop_first() =~= bytes@.skip(start + 1));
        start += 1;
    }
    assert(trim_start(bytes@) == bytes@.skip(start as int));
    let mut end: usize = len;
    assert(bytes@.skip(start as int) =~= bytes@.subrange(start as int, end as int));
    while end > start && space(bytes[end - 1])
        invariant
            len == bytes.len(),
            start <= end <= len,
            trimmed(bytes@) == trim_end(bytes@.subrange(start as int, end as int)),
        decreases end,
    {
        assert(bytes@.subrange(start as int, end as int).drop_last() =~= bytes@.subrange(
            start as int,
            end - 1,
        ));
        end -= 1;
    }
    assert(trimmed(bytes@) == bytes@.subrange(start as int, end as int));
    let mut text = String::new();
    let mut i: usize = start;
    while i < end
        invariant
            len == bytes.len(),
            start <= i <= end <= len,
            text@ == as_chars(bytes@.subrange(start as int, i as int)),
        decreases end - i,
    {
        push_char(&mut text, bytes[i] as char);
        assert(text@ =~= as_chars(bytes@.subrange(start as int, i + 1)));
        i += 1;
    }
    text
}

} // verus!
