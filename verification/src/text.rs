//! Text: numbers in decimal and hexadecimal, comparison, and UTF-16.

use crate::trusted::from_utf16;
use vstd::prelude::*;

verus! {

/// The character of a digit below sixteen, in lower case.
pub open spec fn digit_char(digit: nat) -> char {
    if digit < 10 {
        (48 + digit) as char
    } else {
        (87 + digit) as char
    }
}

/// `number` in decimal.
pub open spec fn decimal_chars(number: nat) -> Seq<char>
    decreases number,
{
    if number < 10 {
        seq![digit_char(number)]
    } else {
        decimal_chars(number / 10).push(digit_char(number % 10))
    }
}

/// The last `width` hexadecimal digits of `number`.
pub open spec fn hex_chars(number: nat, width: nat) -> Seq<char>
    decreases width,
{
    if width == 0 {
        Seq::empty()
    } else {
        hex_chars(number / 16, (width - 1) as nat).push(digit_char(number % 16))
    }
}

fn digit_text(digit: u32) -> (text: &'static str)
    requires
        digit < 16,
    ensures
        text@ == seq![digit_char(digit as nat)],
{
    proof {
        reveal_strlit("0");
        reveal_strlit("1");
        reveal_strlit("2");
        reveal_strlit("3");
        reveal_strlit("4");
        reveal_strlit("5");
        reveal_strlit("6");
        reveal_strlit("7");
        reveal_strlit("8");
        reveal_strlit("9");
        reveal_strlit("a");
        reveal_strlit("b");
        reveal_strlit("c");
        reveal_strlit("d");
        reveal_strlit("e");
        reveal_strlit("f");
    }
    let text: &'static str = match digit {
        0 => "0",
        1 => "1",
        2 => "2",
        3 => "3",
        4 => "4",
        5 => "5",
        6 => "6",
        7 => "7",
        8 => "8",
        9 => "9",
        10 => "a",
        11 => "b",
        12 => "c",
        13 => "d",
        14 => "e",
        _ => "f",
    };
    assert(text@ =~= seq![digit_char(digit as nat)]);
    text
}

/// Writes `number` in decimal.
pub fn decimal(number: u32) -> (text: String)
    ensures
        text@ == decimal_chars(number as nat),
    decreases number,
{
    if number < 10 {
        digit_text(number).to_owned()
    } else {
        let mut text = decimal(number / 10);
        let ghost front = text@;
        text.append(digit_text(number % 10));
        assert(text@ =~= front.push(digit_char((number % 10) as nat)));
        text
    }
}

/// Writes the last `width` hexadecimal digits of `number`.
pub fn hex(number: u32, width: usize) -> (text: String)
    ensures
        text@ == hex_chars(number as nat, width as nat),
    decreases width,
{
    if width == 0 {
        String::new()
    } else {
        let mut text = hex(number / 16, width - 1);
        let ghost front = text@;
        text.append(digit_text(number % 16));
        assert(text@ =~= front.push(digit_char((number % 16) as nat)));
        text
    }
}

/// Whether two texts are the same.
pub fn same_text(a: &str, b: &str) -> (same: bool)
    ensures
        same == (a@ == b@),
{
    a.to_owned() == b.to_owned()
}

/// `text` without `prefix`, or all of it if it does not start so.
pub open spec fn without_prefix(text: Seq<char>, prefix: Seq<char>) -> Seq<char> {
    if prefix.is_prefix_of(text) {
        text.skip(prefix.len() as int)
    } else {
        text
    }
}

/// Computes [`without_prefix`].
pub fn strip_prefix<'a>(text: &'a str, prefix: &str) -> (rest: &'a str)
    ensures
        rest@ == without_prefix(text@, prefix@),
{
    let text_len: usize = text.unicode_len();
    let prefix_len: usize = prefix.unicode_len();
    if prefix_len <= text_len && same_text(text.substring_char(0, prefix_len), prefix) {
        text.substring_char(prefix_len, text_len)
    } else {
        text
    }
}

/// `before`, `middle` and `after` in one text.
pub fn join3(before: &str, middle: &str, after: &str) -> (text: String)
    ensures
        text@ == before@ + middle@ + after@,
{
    let mut text = before.to_owned();
    text.append(middle);
    text.append(after);
    text
}

/// The text that UTF-16 code units spell, or `None` if a surrogate stands
/// alone.
pub open spec fn utf16_text(units: Seq<u16>) -> Option<Seq<char>>
    decreases units.len(),
{
    if units.len() == 0 {
        Some(Seq::empty())
    } else if units[0] < 0xd800 || units[0] > 0xdfff {
        match utf16_text(units.skip(1)) {
            Some(rest) => Some(seq![units[0] as char] + rest),
            None => None,
        }
    } else if units.len() >= 2 && units[0] <= 0xdbff && 0xdc00 <= units[1] <= 0xdfff {
        match utf16_text(units.skip(2)) {
            Some(rest) => Some(
                seq![(0x10000 + (units[0] - 0xd800) * 0x400 + (units[1] - 0xdc00)) as char] + rest,
            ),
            None => None,
        }
    } else {
        None
    }
}

/// How many code units of a caller's string are looked at.
pub const MAX_NAME_UNITS: usize = 1024;

/// Where the scan for a terminator that stands at `at` ends.
pub open spec fn scan_end(memory: Seq<u16>, at: nat) -> nat
    decreases MAX_NAME_UNITS - at,
{
    if at >= MAX_NAME_UNITS || at >= memory.len() || memory[at as int] == 0 {
        at
    } else {
        scan_end(memory, at + 1)
    }
}

/// The code units of the string that starts `memory`: up to the terminator,
/// and one short of the limit if none is in reach.
pub open spec fn name_units(memory: Seq<u16>) -> Seq<u16> {
    let end = scan_end(memory, 0);
    memory.take(
        if end == MAX_NAME_UNITS {
            MAX_NAME_UNITS - 1
        } else {
            end as int
        },
    )
}

/// Whether the scan goes on after the code units read so far: neither a
/// terminator nor the limit was reached.
pub open spec fn spec_needs_unit(units: Seq<u16>) -> bool {
    units.len() < MAX_NAME_UNITS && (units.len() == 0 || units.last() != 0)
}

/// Whether the scan has to read one more code unit after `units`.
pub fn needs_unit(units: &[u16]) -> (needed: bool)
    ensures
        needed == spec_needs_unit(units@),
{
    units.len() < MAX_NAME_UNITS && (units.len() == 0 || units[units.len() - 1] != 0)
}

/// Reads a caller's UTF-16 string out of the code units at its address;
/// `None` for a null address or malformed text.
pub fn read_utf16(memory: Option<&[u16]>) -> (text: Option<String>)
    ensures
        match (memory, text) {
            (Some(memory), Some(text)) => utf16_text(name_units(memory@)) == Some(text@),
            (Some(memory), None) => utf16_text(name_units(memory@)) is None,
            (None, text) => text is None,
        },
{
    let memory = match memory {
        Some(memory) => memory,
        None => return None,
    };
    let mut len: usize = 0;
    while len < MAX_NAME_UNITS && len < memory.len() && memory[len] != 0
        invariant
            len <= MAX_NAME_UNITS,
            len <= memory@.len(),
            scan_end(memory@, len as nat) == scan_end(memory@, 0),
        decreases MAX_NAME_UNITS - len,
    {
        len = len + 1;
    }
    if len == MAX_NAME_UNITS {
        len = MAX_NAME_UNITS - 1;
    }
    let name = vstd::slice::slice_subrange(memory, 0, len);
    assert(name@ =~= name_units(memory@));
    from_utf16(name)
}

proof fn lemma_scan_end_of_prefix(memory: Seq<u16>, read: nat, at: nat)
    requires
        at <= read <= memory.len(),
        read >= MAX_NAME_UNITS || (read > 0 && memory[read - 1] == 0 && at < read),
    ensures
        scan_end(memory.take(read as int), at) == scan_end(memory, at),
        scan_end(memory, at) <= read,
        at <= MAX_NAME_UNITS ==> scan_end(memory, at) <= MAX_NAME_UNITS,
    decreases MAX_NAME_UNITS - at,
{
    if at >= MAX_NAME_UNITS || memory[at as int] == 0 {
    } else {
        lemma_scan_end_of_prefix(memory, read, at + 1);
    }
}

/// Code units beyond those that the scan asks for make no difference.
pub proof fn law_scan_reads_enough(memory: Seq<u16>, read: nat)
    requires
        read <= memory.len(),
        !spec_needs_unit(memory.take(read as int)),
    ensures
        name_units(memory.take(read as int)) == name_units(memory),
{
    lemma_scan_end_of_prefix(memory, read, 0);
    assert(name_units(memory.take(read as int)) =~= name_units(memory));
}

} // verus!
