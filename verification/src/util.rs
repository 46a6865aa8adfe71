//! Wide-character text: the run before the terminator, and its lossy
//! decoding from UTF-16.

use crate::error::{text_result_view, HidError, HidErrorView};
use vstd::prelude::*;

verus! {

/// The wide character that ends a string.
pub const NUL: u16 = 0;

/// How many units stand before the first terminator of `units`; the whole
/// length where there is none.
pub open spec fn nul_index(units: Seq<u16>) -> int
    decreases units.len(),
{
    if units.len() == 0 || units[0] == NUL {
        0
    } else {
        1 + nul_index(units.skip(1))
    }
}

/// The units of `units` before its first terminator.
pub open spec fn until_nul(units: Seq<u16>) -> Seq<u16> {
    units.take(nul_index(units))
}

/// `n` is where the scan of `units` stops: nothing before it is a
/// terminator, and it is the end of `units` or a terminator itself.
pub open spec fn stops_at(units: Seq<u16>, n: int) -> bool {
    &&& 0 <= n <= units.len()
    &&& forall|i: int| 0 <= i < n ==> units[i] != NUL
    &&& n < units.len() ==> units[n] == NUL
}

/// The scan stops at `nul_index`, and nowhere else.
pub proof fn lemma_nul_index(units: Seq<u16>, n: int)
    ensures
        stops_at(units, nul_index(units)),
        stops_at(units, n) ==> n == nul_index(units),
    decreases units.len(),
{
    if units.len() == 0 || units[0] == NUL {
    } else {
        let rest = units.skip(1);
        lemma_nul_index(rest, n - 1);
        assert forall|i: int| 0 <= i < nul_index(units) implies units[i] != NUL by {
            if i > 0 {
                assert(rest[i - 1] == units[i]);
            }
        }
        if stops_at(units, n) {
            assert forall|i: int| 0 <= i < n - 1 implies rest[i] != NUL by {
                assert(rest[i] == units[i + 1]);
            }
        }
    }
}

/// Copies the wide characters of `buffer` that stand before its first
/// terminator. The scan never leaves the buffer: where no terminator is
/// found, the whole buffer is the string.
pub fn vec_from_utf16_ptr(buffer: &[u16]) -> (units: Vec<u16>)
    ensures
        units@ == until_nul(buffer@),
{
    let mut units: Vec<u16> = Vec::new();
    let mut index: usize = 0;
    while index < buffer.len() && buffer[index] != NUL
        invariant
            index <= buffer.len(),
            units@ == buffer@.take(index as int),
            forall|i: int| 0 <= i < index ==> buffer@[i] != NUL,
        decreases buffer.len() - index,
    {
        units.push(buffer[index]);
        index += 1;
        assert(units@ =~= buffer@.take(index as int));
    }
    proof {
        lemma_nul_index(buffer@, index as int);
    }
    units
}

/// The character that stands for a unit that is no text.
pub const REPLACEMENT_CHARACTER: char = '\u{FFFD}';

/// The first half of a surrogate pair.
pub open spec fn is_high_surrogate(unit: u16) -> bool {
    0xD800 <= unit <= 0xDBFF
}

/// The second half of a surrogate pair.
pub open spec fn is_low_surrogate(unit: u16) -> bool {
    0xDC00 <= unit <= 0xDFFF
}

/// The code point that a surrogate pair encodes.
pub open spec fn pair_scalar(high: u16, low: u16) -> int {
    0x10000 + (high - 0xD800) * 0x400 + (low - 0xDC00)
}

/// A code point that is a character: any up to U+10FFFF but the surrogates.
pub open spec fn is_scalar(value: u32) -> bool {
    value <= 0xD7FF || 0xE000 <= value <= 0x10FFFF
}

/// The text that `units` encode in UTF-16. A surrogate pair is one
/// character, any other unit is one character, and a surrogate without its
/// partner becomes the replacement character.
pub open spec fn utf16_lossy(units: Seq<u16>) -> Seq<char>
    decreases units.len(),
{
    if units.len() == 0 {
        Seq::empty()
    } else if is_high_surrogate(units[0]) && units.len() >= 2 && is_low_surrogate(units[1]) {
        seq![pair_scalar(units[0], units[1]) as char] + utf16_lossy(units.skip(2))
    } else if is_high_surrogate(units[0]) || is_low_surrogate(units[0]) {
        seq![REPLACEMENT_CHARACTER] + utf16_lossy(units.skip(1))
    } else {
        seq![units[0] as char] + utf16_lossy(units.skip(1))
    }
}

/// `char::from_u32` of std: the character with the code point `value`, or
/// nothing where `value` is a surrogate or lies beyond U+10FFFF.
#[verifier::external_body]
fn char_from_u32(value: u32) -> (character: Option<char>)
    ensures
        is_scalar(value) ==> character == Some(value as char),
        !is_scalar(value) ==> character is None,
{
    char::from_u32(value)
}

/// `String::push` of std: `character` is appended to `text`.
#[verifier::external_body]
fn push_char(text: &mut String, character: char)
    ensures
        final(text)@ == old(text)@.push(character),
{
    text.push(character)
}

/// Decodes `units` from UTF-16. Every input has a text: a surrogate that
/// lacks its partner is replaced, never refused.
pub fn decode_utf16_lossy(units: &[u16]) -> (text: String)
    ensures
        text@ == utf16_lossy(units@),
{
    let mut text = String::new();
    let mut index: usize = 0;
    assert(units@.skip(0) =~= units@);
    assert(text@ + utf16_lossy(units@) =~= utf16_lossy(units@));
    while index < units.len()
        invariant
            index <= units.len(),
            text@ + utf16_lossy(units@.skip(index as int)) == utf16_lossy(units@),
        decreases units.len() - index,
    {
        let ghost rest = units@.skip(index as int);
        let unit: u16 = units[index];
        assert(rest[0] == unit);
        let mut value: u32 = unit as u32;
        let mut taken: usize = 1;
        if 0xD800 <= unit && unit <= 0xDFFF {
            value = 0xFFFD;
            if unit <= 0xDBFF && index + 1 < units.len() {
                let low: u16 = units[index + 1];
                assert(rest[1] == low);
                if 0xDC00 <= low && low <= 0xDFFF {
                    value = 0x10000 + (unit as u32 - 0xD800) * 0x400 + (low as u32 - 0xDC00);
                    taken = 2;
                }
            }
        }
        let character = match char_from_u32(value) {
            Some(character) => character,
            None => REPLACEMENT_CHARACTER,
        };
        assert(rest.skip(taken as int) =~= units@.skip(index + taken));
        assert(utf16_lossy(rest) == seq![character] + utf16_lossy(rest.skip(taken as int)));
        assert(text@.push(character) + utf16_lossy(rest.skip(taken as int)) =~= text@ + utf16_lossy(
            rest,
        ));
        push_char(&mut text, character);
        index += taken;
    }
    assert(units@.skip(index as int) =~= Seq::<u16>::empty());
    assert(text@ + Seq::<char>::empty() =~= text@);
    text
}

/// The text of the wide-character string that `buffer` holds: what stands
/// before the first terminator, decoded from UTF-16.
pub open spec fn wide_text(buffer: Seq<u16>) -> Seq<char> {
    utf16_lossy(until_nul(buffer))
}

/// Decodes the wide-character string that `buffer` holds. The buffer is
/// expected to hold a terminator; the scan stops at the end of the buffer
/// where it holds none.
pub fn string_from_utf16_ptr(buffer: &[u16]) -> (text: String)
    ensures
        text@ == wide_text(buffer@),
{
    let units = vec_from_utf16_ptr(buffer);
    decode_utf16_lossy(units.as_slice())
}

/// The character of the decimal digit `digit`.
pub open spec fn digit_char(digit: int) -> char {
    (48 + digit) as char
}

/// `value` written in decimal, without a sign or leading zeros.
pub open spec fn decimal(value: nat) -> Seq<char>
    decreases value,
{
    if value < 10 {
        seq![digit_char(value as int)]
    } else {
        decimal(value / 10).push(digit_char((value % 10) as int))
    }
}

/// Appends `value` in decimal to `text`.
pub fn push_decimal(text: &mut String, value: u32)
    ensures
        final(text)@ == old(text)@ + decimal(value as nat),
    decreases value,
{
    if value >= 10 {
        push_decimal(text, value / 10);
    }
    let digit: u8 = (value % 10) as u8;
    let character: char = (48u8 + digit) as char;
    assert(character == digit_char((value % 10) as int));
    push_char(text, character);
    assert(text@ =~= old(text)@ + decimal(value as nat));
}

/// The scan does not read past the terminator: what stands behind the
/// first terminator of a buffer has no part in the result.
pub proof fn lemma_scan_ends_at_terminator(run: Seq<u16>, behind: Seq<u16>)
    requires
        forall|i: int| 0 <= i < run.len() ==> run[i] != NUL,
    ensures
        until_nul(run + seq![NUL] + behind) == run,
        until_nul(run) == run,
        wide_text(run + seq![NUL] + behind) == utf16_lossy(run),
{
    let buffer = run + seq![NUL] + behind;
    assert(stops_at(buffer, run.len() as int));
    lemma_nul_index(buffer, run.len() as int);
    assert(buffer.take(run.len() as int) =~= run);
    assert(stops_at(run, run.len() as int));
    lemma_nul_index(run, run.len() as int);
    assert(run.take(run.len() as int) =~= run);
}

/// Of a buffer that holds a terminator, the scan yields what stands before
/// the first one: a run without a terminator that is shorter than the
/// buffer and is followed by a terminator.
pub proof fn lemma_scan_of_terminated(buffer: Seq<u16>)
    requires
        exists|i: int| 0 <= i < buffer.len() && buffer[i] == NUL,
    ensures
        until_nul(buffer).len() < buffer.len(),
        buffer[until_nul(buffer).len() as int] == NUL,
        forall|i: int|
            0 <= i < until_nul(buffer).len() ==> until_nul(buffer)[i] == buffer[i] && buffer[i]
                != NUL,
{
    lemma_nul_index(buffer, 0);
}

/// To scan the result of a scan changes nothing.
pub proof fn lemma_scan_is_idempotent(buffer: Seq<u16>)
    ensures
        until_nul(until_nul(buffer)) == until_nul(buffer),
{
    lemma_nul_index(buffer, 0);
    let run = until_nul(buffer);
    assert forall|i: int| 0 <= i < run.len() implies run[i] != NUL by {
        assert(run[i] == buffer[i]);
    }
    lemma_scan_ends_at_terminator(run, Seq::empty());
}

/// A buffer of nothing but zeros holds the empty text.
pub proof fn lemma_zeroed_buffer_is_empty_text(buffer: Seq<u16>)
    requires
        forall|i: int| 0 <= i < buffer.len() ==> buffer[i] == NUL,
    ensures
        until_nul(buffer) == Seq::<u16>::empty(),
        wide_text(buffer) == Seq::<char>::empty(),
{
    assert(stops_at(buffer, 0));
    lemma_nul_index(buffer, 0);
    assert(buffer.take(0) =~= Seq::<u16>::empty());
}

/// Every sequence of units has a text, with a character for each unit or
/// pair of units: the text is no longer than the units, not shorter than
/// half of them, and empty only where there are no units.
pub proof fn lemma_utf16_lossy_len(units: Seq<u16>)
    ensures
        utf16_lossy(units).len() <= units.len() <= 2 * utf16_lossy(units).len(),
    decreases units.len(),
{
    if units.len() == 0 {
    } else if is_high_surrogate(units[0]) && units.len() >= 2 && is_low_surrogate(units[1]) {
        lemma_utf16_lossy_len(units.skip(2));
    } else {
        lemma_utf16_lossy_len(units.skip(1));
    }
}

/// A surrogate that stands alone is decoded as the replacement character;
/// a unit that is no surrogate is the character of its own code point.
pub proof fn lemma_utf16_lossy_of_one(unit: u16)
    ensures
        utf16_lossy(seq![unit]) == if is_high_surrogate(unit) || is_low_surrogate(unit) {
            seq![REPLACEMENT_CHARACTER]
        } else {
            seq![unit as char]
        },
{
    let units = seq![unit];
    assert(units.skip(1) =~= Seq::<u16>::empty());
    assert(utf16_lossy(units.skip(1)) == Seq::<char>::empty());
    assert(seq![REPLACEMENT_CHARACTER] + Seq::<char>::empty() =~= seq![REPLACEMENT_CHARACTER]);
    assert(seq![unit as char] + Seq::<char>::empty() =~= seq![unit as char]);
}

/// Units that hold no surrogate are decoded one by one.
pub proof fn lemma_utf16_lossy_of_plain(units: Seq<u16>)
    requires
        forall|i: int|
            0 <= i < units.len() ==> !is_high_surrogate(units[i]) && !is_low_surrogate(units[i]),
    ensures
        utf16_lossy(units) == Seq::new(units.len(), |i: int| units[i] as char),
    decreases units.len(),
{
    if units.len() > 0 {
        let rest = units.skip(1);
        lemma_utf16_lossy_of_plain(rest);
        assert forall|i: int| 0 <= i < units.len() implies utf16_lossy(units)[i]
            == units[i] as char by {
            if i > 0 {
                assert(utf16_lossy(rest)[i - 1] == rest[i - 1] as char);
            }
        }
    }
    assert(utf16_lossy(units) =~= Seq::new(units.len(), |i: int| units[i] as char));
}

/// What becomes of the system's answer for the text of `error_code`: the
/// text, or the error that none could be had.
pub open spec fn format_result(error_code: u32, reply: Result<Vec<u16>, u32>) -> Result<
    Seq<char>,
    HidErrorView,
> {
    match reply {
        Ok(buffer) => Ok(wide_text(buffer@)),
        Err(new_error_code) => Err(HidErrorView::FormatMessage { error_code, new_error_code }),
    }
}

/// The system's text for `error_code`, from the reply to the request for
/// it: the message buffer, or the code of the failure to write one.
pub fn format_winapi_error(error_code: u32, reply: &Result<Vec<u16>, u32>) -> (message: Result<
    String,
    HidError,
>)
    ensures
        text_result_view(message) == format_result(error_code, *reply),
{
    match reply {
        Ok(buffer) => Ok(string_from_utf16_ptr(buffer.as_slice())),
        Err(new_error_code) => Err(
            HidError::FormatMessage { error_code, new_error_code: *new_error_code },
        ),
    }
}

} // verus!
