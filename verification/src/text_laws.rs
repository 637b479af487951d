//! What the text operations do: numbers read back as they were written, names
//! end at their terminator, and UTF-16 spells each character.

use crate::hresult::{status_bits, HRESULT};
use crate::text::{
    decimal_chars, digit_char, hex_chars, name_units, scan_end, spec_needs_unit, utf16_text,
    without_prefix, MAX_NAME_UNITS,
};
use vstd::arithmetic::power::pow;
use vstd::prelude::*;

verus! {

/// What a digit counts: the decimal digits, then `a` to `f`.
pub open spec fn digit_worth(c: char) -> int {
    if '0' <= c && c <= '9' {
        c as int - '0' as int
    } else {
        c as int - 'a' as int + 10
    }
}

/// The number that digits spell to a base, most significant first.
pub open spec fn worth(chars: Seq<char>, base: int) -> int
    decreases chars.len(),
{
    if chars.len() == 0 {
        0
    } else {
        worth(chars.drop_last(), base) * base + digit_worth(chars.last())
    }
}

/// A number in decimal reads back as that number. It is made of decimal digits
/// and does not start with a zero unless it is one.
pub proof fn law_decimal_reads_back(number: nat)
    ensures
        worth(decimal_chars(number), 10) == number,
        decimal_chars(number).len() > 0,
        forall|i: int|
            0 <= i < decimal_chars(number).len() ==> '0' <= #[trigger] decimal_chars(number)[i]
                && decimal_chars(number)[i] <= '9',
        number > 0 ==> decimal_chars(number)[0] != '0',
        number < 10 ==> decimal_chars(number).len() == 1,
    decreases number,
{
    let chars = decimal_chars(number);
    if number < 10 {
        assert(chars.drop_last() =~= Seq::empty());
        assert(worth(chars.drop_last(), 10) == 0);
    } else {
        law_decimal_reads_back(number / 10);
        assert(chars.drop_last() =~= decimal_chars(number / 10));
    }
}

/// Hexadecimal digits read back as the number, as far as they are wanted: there
/// are as many as asked for, and they are digits or letters from `a` to `f`.
pub proof fn law_hex_reads_back(number: nat, width: nat)
    ensures
        hex_chars(number, width).len() == width,
        worth(hex_chars(number, width), 16) == number as int % pow(16, width),
        forall|i: int|
            0 <= i < width ==> ('0' <= #[trigger] hex_chars(number, width)[i] && hex_chars(
                number,
                width,
            )[i] <= '9') || ('a' <= hex_chars(number, width)[i] && hex_chars(number, width)[i]
                <= 'f'),
    decreases width,
{
    reveal(pow);
    let chars = hex_chars(number, width);
    if width > 0 {
        broadcast use vstd::arithmetic::power::lemma_pow_positive;

        let rest = (width - 1) as nat;
        law_hex_reads_back(number / 16, rest);
        assert(chars.drop_last() =~= hex_chars(number / 16, rest));
        vstd::arithmetic::div_mod::lemma_mod_breakdown(number as int, 16, pow(16, rest));
        assert(digit_worth(chars.last()) == number % 16);
        assert(worth(chars, 16) == (number as int / 16 % pow(16, rest)) * 16 + number as int % 16);
    }
}

/// The bits of a status are the status up to a multiple of two to the 32nd.
pub proof fn law_status_bits_are_the_status(status: HRESULT)
    ensures
        0 <= status_bits(status) < 0x1_0000_0000,
        (status_bits(status) - status) % 0x1_0000_0000 == 0,
{
}

/// What is left of a text is the text, or what follows the prefix in it.
pub proof fn law_prefix_and_rest_make_the_text(text: Seq<char>, prefix: Seq<char>, rest: Seq<char>)
    ensures
        without_prefix(prefix + rest, prefix) == rest,
        without_prefix(text, prefix) == text || prefix + without_prefix(text, prefix) == text,
        without_prefix(text, prefix).len() < text.len() ==> prefix + without_prefix(text, prefix)
            == text,
{
    assert(prefix.is_prefix_of(prefix + rest));
    assert(without_prefix(prefix + rest, prefix) =~= rest);
    if prefix.is_prefix_of(text) {
        assert(prefix + without_prefix(text, prefix) =~= text);
    }
}

proof fn lemma_scan(memory: Seq<u16>, at: nat)
    requires
        at <= MAX_NAME_UNITS,
        at <= memory.len(),
    ensures
        at <= scan_end(memory, at) <= MAX_NAME_UNITS,
        scan_end(memory, at) <= memory.len(),
        forall|i: int| at <= i < scan_end(memory, at) ==> #[trigger] memory[i] != 0,
        scan_end(memory, at) < MAX_NAME_UNITS && scan_end(memory, at) < memory.len() ==> memory[scan_end(
            memory,
            at,
        ) as int] == 0,
    decreases MAX_NAME_UNITS - at,
{
    if at >= MAX_NAME_UNITS || at >= memory.len() || memory[at as int] == 0 {
    } else {
        lemma_scan(memory, at + 1);
    }
}

/// A name is what stands in memory before the first terminator. It holds none
/// itself and has at most 1023 code units; only a name without a terminator
/// among the first 1024 is cut to that length.
pub proof fn law_name_ends_at_the_terminator(memory: Seq<u16>)
    ensures
        ({
            let name = name_units(memory);
            &&& name.len() <= memory.len()
            &&& name.len() <= 1023
            &&& forall|i: int| 0 <= i < name.len() ==> #[trigger] name[i] == memory[i] && name[i]
                != 0
            &&& name.len() < 1023 && name.len() < memory.len() ==> memory[name.len() as int] == 0
            &&& memory.len() <= 1023 && (forall|i: int|
                0 <= i < memory.len() ==> #[trigger] memory[i] != 0) ==> name == memory
        }),
{
    lemma_scan(memory, 0);
    let name = name_units(memory);
    if memory.len() <= 1023 && (forall|i: int|
        0 <= i < memory.len() ==> #[trigger] memory[i] != 0) {
        assert(name =~= memory);
    }
}

/// The scan reads on exactly while it has met neither a terminator nor the
/// limit of 1024 code units.
pub proof fn law_scan_stops_at_terminator_or_limit(units: Seq<u16>, unit: u16)
    ensures
        spec_needs_unit(Seq::empty()),
        spec_needs_unit(units.push(unit)) <==> unit != 0 && units.len() < 1023,
{
}

/// The code units of a character in UTF-16: one below `0x1_0000`, and two
/// surrogates from there on.
pub open spec fn units_of(c: char) -> Seq<u16> {
    if (c as int) < 0x1_0000 {
        seq![c as u16]
    } else {
        seq![
            (0xd800 + (c as int - 0x1_0000) / 0x400) as u16,
            (0xdc00 + (c as int - 0x1_0000) % 0x400) as u16,
        ]
    }
}

/// UTF-16 is read character by character: the code units of a character, and
/// then whatever the rest spells.
pub proof fn law_utf16_spells_each_character(c: char, rest: Seq<u16>)
    ensures
        utf16_text(Seq::empty()) == Some(Seq::<char>::empty()),
        utf16_text(rest) matches Some(text) ==> utf16_text(units_of(c) + rest) == Some(
            seq![c] + text,
        ),
        utf16_text(rest) is None ==> utf16_text(units_of(c) + rest) is None,
{
    let units = units_of(c) + rest;
    if (c as int) < 0x1_0000 {
        assert(units.skip(1) =~= rest);
        assert(units[0] as char == c);
    } else {
        assert(units.skip(2) =~= rest);
        let high = (c as int - 0x1_0000) / 0x400;
        let low = (c as int - 0x1_0000) % 0x400;
        assert(units[0] == 0xd800 + high);
        assert(units[1] == 0xdc00 + low);
    }
}

/// A surrogate that stands alone is no text.
pub proof fn law_lone_surrogates_are_no_text(units: Seq<u16>)
    requires
        units.len() > 0,
        0xd800 <= units[0] <= 0xdfff,
        units[0] >= 0xdc00 || units.len() == 1 || !(0xdc00 <= units[1] <= 0xdfff),
    ensures
        utf16_text(units) is None,
{
}

/// A digit counts what it is made from.
pub proof fn law_digits_count_what_they_show(digit: nat)
    requires
        digit < 16,
    ensures
        digit_worth(digit_char(digit)) == digit,
{
}

} // verus!
