//! Byte-level helpers: little-endian numbers, copies and zero tests.

use vstd::prelude::*;

verus! {

/// The number that `bytes` spells, least significant byte first.
pub open spec fn le_value(bytes: Seq<u8>) -> nat
    decreases bytes.len(),
{
    if bytes.len() == 0 {
        0
    } else {
        bytes[0] as nat + 256 * le_value(bytes.drop_first())
    }
}

/// The `len` bytes that spell `value`, least significant byte first.
pub open spec fn le_bytes(value: nat, len: nat) -> Seq<u8>
    decreases len,
{
    if len == 0 {
        Seq::empty()
    } else {
        seq![(value % 256) as u8] + le_bytes(value / 256, (len - 1) as nat)
    }
}

/// How many numbers `len` bytes can spell.
pub open spec fn le_span(len: nat) -> nat
    decreases len,
{
    if len == 0 {
        1
    } else {
        256 * le_span((len - 1) as nat)
    }
}

pub proof fn lemma_le_bytes_len(value: nat, len: nat)
    ensures
        le_bytes(value, len).len() == len,
    decreases len,
{
    if len > 0 {
        lemma_le_bytes_len(value / 256, (len - 1) as nat);
    }
}

pub proof fn lemma_le_value_bound(bytes: Seq<u8>)
    ensures
        le_value(bytes) < le_span(bytes.len()),
    decreases bytes.len(),
{
    if bytes.len() > 0 {
        lemma_le_value_bound(bytes.drop_first());
    }
}

pub proof fn lemma_le_spans()
    ensures
        le_span(4) == 0x1_0000_0000,
        le_span(8) == 0x1_0000_0000_0000_0000,
{
    reveal_with_fuel(le_span, 9);
}

/// Spelling a number and reading it back gives the number.
pub proof fn lemma_le_value_of_bytes(value: nat, len: nat)
    requires
        value < le_span(len),
    ensures
        le_value(le_bytes(value, len)) == value,
    decreases len,
{
    if len > 0 {
        lemma_le_bytes_len(value / 256, (len - 1) as nat);
        let spelled = le_bytes(value, len);
        assert(spelled.drop_first() =~= le_bytes(value / 256, (len - 1) as nat));
        lemma_le_value_of_bytes(value / 256, (len - 1) as nat);
        assert(spelled[0] == (value % 256) as u8);
    }
}

/// Reading bytes and spelling the number again gives the bytes.
pub proof fn lemma_le_bytes_of_value(bytes: Seq<u8>)
    ensures
        le_bytes(le_value(bytes), bytes.len()) == bytes,
    decreases bytes.len(),
{
    if bytes.len() > 0 {
        let rest = bytes.drop_first();
        lemma_le_bytes_of_value(rest);
        let value = le_value(bytes);
        assert(value % 256 == bytes[0] as nat && value / 256 == le_value(rest));
        assert(le_bytes(value, bytes.len()) =~= bytes);
    } else {
        assert(le_bytes(le_value(bytes), 0) =~= bytes);
    }
}

/// Reads `len` bytes of `bytes` from `at` on as a little-endian number.
pub fn read_le(bytes: &[u8], at: usize, len: usize) -> (value: u64)
    requires
        at + len <= bytes@.len(),
        len <= 8,
    ensures
        value == le_value(bytes@.subrange(at as int, at + len)),
{
    let mut value: u64 = 0;
    let mut left: usize = len;
    let total: usize = bytes.len();
    assert(bytes@.subrange(at + left, at + len) =~= Seq::empty());
    while left > 0
        invariant
            left <= len <= 8,
            at + len <= total,
            total == bytes@.len(),
            value == le_value(bytes@.subrange(at + left, at + len)),
        decreases left,
    {
        left = left - 1;
        let ghost tail = bytes@.subrange(at + left, at + len);
        assert(tail.drop_first() =~= bytes@.subrange(at + left + 1, at + len));
        proof {
            lemma_le_value_bound(tail);
            lemma_le_spans();
            lemma_le_span_monotonic(tail.len(), 8);
        }
        value = value * 256 + bytes[at + left] as u64;
    }
    value
}

proof fn lemma_le_span_monotonic(small: nat, large: nat)
    requires
        small <= large,
    ensures
        le_span(small) <= le_span(large),
    decreases large,
{
    if small < large {
        lemma_le_span_monotonic(small, (large - 1) as nat);
        assert(le_span(large) == 256 * le_span((large - 1) as nat));
    }
}

/// Appends the `len` little-endian bytes of `value`.
pub fn push_le(out: &mut Vec<u8>, value: u64, len: usize)
    ensures
        final(out)@ == old(out)@ + le_bytes(value as nat, len as nat),
{
    let mut rest: u64 = value;
    let mut done: usize = 0;
    let ghost start = out@;
    while done < len
        invariant
            done <= len,
            start + le_bytes(value as nat, len as nat) == out@ + le_bytes(
                rest as nat,
                (len - done) as nat,
            ),
        decreases len - done,
    {
        let ghost before = out@;
        proof {
            assert(before + le_bytes(rest as nat, (len - done) as nat) =~= before.push(
                (rest % 256) as u8,
            ) + le_bytes((rest / 256) as nat, (len - done - 1) as nat));
        }
        out.push((rest % 256) as u8);
        rest = rest / 256;
        done = done + 1;
    }
    assert(out@ + le_bytes(rest as nat, 0) =~= out@);
}

/// Appends all of `source`.
pub fn push_all(out: &mut Vec<u8>, source: &[u8])
    ensures
        final(out)@ == old(out)@ + source@,
{
    let ghost start = out@;
    let mut done: usize = 0;
    assert(start + source@.subrange(0, 0) =~= start);
    while done < source.len()
        invariant
            done <= source@.len(),
            out@ == start + source@.subrange(0, done as int),
        decreases source@.len() - done,
    {
        out.push(source[done]);
        done = done + 1;
        assert(out@ =~= start + source@.subrange(0, done as int));
    }
    assert(source@.subrange(0, done as int) =~= source@);
}

/// A copy of `source`.
pub fn copied(source: &[u8]) -> (copy: Vec<u8>)
    ensures
        copy@ == source@,
{
    let mut copy: Vec<u8> = Vec::new();
    push_all(&mut copy, source);
    assert(copy@ =~= source@);
    copy
}

/// Overwrites `target` with the bytes of `source` from `at` on.
pub fn fill_from(target: &mut [u8], source: &[u8], at: usize)
    requires
        at + old(target)@.len() <= source@.len(),
    ensures
        final(target)@ == source@.subrange(at as int, at + old(target)@.len()),
{
    let ghost len = target@.len();
    let available: usize = source.len();
    let mut done: usize = 0;
    while done < target.len()
        invariant
            done <= len,
            target@.len() == len,
            at + len <= available,
            available == source@.len(),
            forall|i: int| 0 <= i < done ==> target@[i] == source@[at + i],
        decreases len - done,
    {
        target[done] = source[at + done];
        done = done + 1;
    }
    assert(target@ =~= source@.subrange(at as int, at + len));
}

/// Whether every byte is zero.
pub open spec fn all_zero(bytes: Seq<u8>) -> bool {
    forall|i: int| 0 <= i < bytes.len() ==> bytes[i] == 0
}

/// Whether the bytes of `bytes` from `from` on are all zero.
pub fn is_zero_from(bytes: &[u8], from: usize) -> (zero: bool)
    requires
        from <= bytes@.len(),
    ensures
        zero == all_zero(bytes@.subrange(from as int, bytes@.len() as int)),
{
    let mut at: usize = from;
    while at < bytes.len()
        invariant
            from <= at <= bytes@.len(),
            forall|i: int| from <= i < at ==> bytes@[i] == 0,
        decreases bytes@.len() - at,
    {
        if bytes[at] != 0 {
            assert(bytes@.subrange(from as int, bytes@.len() as int)[at - from] != 0);
            return false;
        }
        at = at + 1;
    }
    true
}

} // verus!
