//! The dual checksum at the end of a payload: an additive sum and an
//! exclusive-or over every byte after the start byte.

use vstd::prelude::*;

verus! {

/// The sum of the bytes.
pub open spec fn byte_sum(bytes: Seq<u8>) -> nat
    decreases bytes.len(),
{
    if bytes.len() == 0 {
        0
    } else {
        byte_sum(bytes.drop_last()) + bytes.last() as nat
    }
}

/// The exclusive-or of the bytes.
pub open spec fn byte_xor(bytes: Seq<u8>) -> u8
    decreases bytes.len(),
{
    if bytes.len() == 0 {
        0
    } else {
        byte_xor(bytes.drop_last()) ^ bytes.last()
    }
}

/// Whether `data` holds, at `end` and behind it, the sum modulo 256 and the
/// exclusive-or of the bytes from 1 up to `end`.
pub open spec fn sealed(data: Seq<u8>, end: int) -> bool {
    &&& data.len() >= end + 2
    &&& data[end] == byte_sum(data.subrange(1, end)) % 256
    &&& data[end + 1] == byte_xor(data.subrange(1, end))
}

/// Whether the dual checksum at `end` holds.
pub(crate) fn is_sealed(data: &[u8], end: usize) -> (ok: bool)
    requires
        1 <= end,
        end + 2 <= data@.len(),
    ensures
        ok == sealed(data@, end as int),
{
    let mut sum: u8 = 0;
    let mut xor: u8 = 0;
    let mut i: usize = 1;
    assert(data@.subrange(1, 1) =~= Seq::empty());
    while i < end
        invariant
            1 <= i <= end,
            end + 2 <= data@.len(),
            sum == byte_sum(data@.subrange(1, i as int)) % 256,
            xor == byte_xor(data@.subrange(1, i as int)),
        decreases end - i,
    {
        let b: u8 = data[i];
        assert(data@.subrange(1, i + 1).drop_last() =~= data@.subrange(1, i as int));
        sum = sum.wrapping_add(b);
        xor = xor ^ b;
        i += 1;
    }
    data[end] == sum && data[end + 1] == xor
}

/// Validates the dual checksum at the end of a 45-byte payload, which is
/// calculated on the bytes 1 to 42 (inclusive). Bytes behind the first 45 are
/// not looked at; fewer than 45 are refused.
pub fn validate_checksums(data: &[u8]) -> (ok: bool)
    ensures
        ok == sealed(data@, 43),
{
    if data.len() < 45 {
        return false;
    }
    is_sealed(data, 43)
}

/// Replacing one byte changes the sum by the difference of the two.
proof fn lemma_sum_update(bytes: Seq<u8>, i: int, b: u8)
    requires
        0 <= i < bytes.len(),
    ensures
        byte_sum(bytes.update(i, b)) == byte_sum(bytes) - bytes[i] + b,
    decreases bytes.len(),
{
    let changed = bytes.update(i, b);
    if i == bytes.len() - 1 {
        assert(changed.drop_last() =~= bytes.drop_last());
    } else {
        assert(changed.drop_last() =~= bytes.drop_last().update(i, b));
        lemma_sum_update(bytes.drop_last(), i, b);
    }
}

/// Corrupting any one byte that the dual checksum covers, or one of the two
/// check bytes themselves, makes a sealed payload fail validation.
pub proof fn law_single_corruption_is_detected(data: Seq<u8>, end: int, i: int, b: u8)
    requires
        1 <= end,
        sealed(data, end),
        1 <= i < end + 2,
        data[i] != b,
    ensures
        !sealed(data.update(i, b), end),
{
    let changed = data.update(i, b);
    if i < end {
        assert(changed.subrange(1, end) =~= data.subrange(1, end).update(i - 1, b));
        lemma_sum_update(data.subrange(1, end), i - 1, b);
    } else {
        assert(changed.subrange(1, end) =~= data.subrange(1, end));
    }
}

/// Whether a payload is sealed depends on the bytes from 1 up to its second
/// check byte alone: neither the start byte nor anything behind matters.
pub proof fn law_seal_covers_frame_only(a: Seq<u8>, b: Seq<u8>, end: int)
    requires
        1 <= end,
        a.len() >= end + 2,
        b.len() >= end + 2,
        a.subrange(1, end + 2) == b.subrange(1, end + 2),
    ensures
        sealed(a, end) == sealed(b, end),
{
    let fa = a.subrange(1, end + 2);
    let fb = b.subrange(1, end + 2);
    assert(a.subrange(1, end) =~= fa.take(end - 1));
    assert(b.subrange(1, end) =~= fb.take(end - 1));
    assert(a[end] == fa[end - 1] && b[end] == fb[end - 1]);
    assert(a[end + 1] == fa[end] && b[end + 1] == fb[end]);
}

} // verus!
