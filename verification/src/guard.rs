//! The protection guard: which address ranges erase and write must stay out of.
use vstd::prelude::*;
use core::ops::Range;
use crate::registers::Status;

verus! {

/// The range `start..end`.
pub open spec fn span(start: int, end: int) -> Range<u32> {
    Range { start: start as u32, end: end as u32 }
}

/// Whether `address` lies in `range`: at or behind its start, and before its
/// end.
pub open spec fn holds(range: Range<u32>, address: u32) -> bool {
    range.start <= address < range.end
}

/// Whether two ranges get in each other's way. A range whose ends coincide
/// holds no address and overlaps nothing. Of two others, each must begin
/// before the other ends: ranges overlap where they share an address, and two
/// that only touch do not.
pub open spec fn overlaps(a: Range<u32>, b: Range<u32>) -> bool {
    &&& a.start != a.end
    &&& b.start != b.end
    &&& a.start < b.end
    &&& b.start < a.end
}

/// Tell whether two address ranges overlap.
pub fn range_overlap(a: &Range<u32>, b: &Range<u32>) -> (overlap: bool)
    ensures
        overlap == overlaps(*a, *b),
{
    // When start == end, the range includes no points
    a.start != a.end && b.start != b.end && a.start < b.end && b.start < a.end
}

/// Overlap does not depend on the order of the two ranges.
pub proof fn lemma_overlap_symmetric(a: Range<u32>, b: Range<u32>)
    ensures
        overlaps(a, b) == overlaps(b, a),
{
}

/// A range that holds no address overlaps nothing, on either side.
pub proof fn lemma_overlap_empty(a: Range<u32>, b: Range<u32>)
    requires
        a.start == a.end || b.start == b.end,
    ensures
        !overlaps(a, b),
        !overlaps(b, a),
{
}

/// Two ranges that share an address overlap: the guard never lets a request
/// through that reaches into a range it watches.
pub proof fn lemma_overlap_shared_address(a: Range<u32>, b: Range<u32>, address: u32)
    requires
        holds(a, address),
        holds(b, address),
    ensures
        overlaps(a, b),
{
}

/// What the overlap of two ranges that hold addresses comes to: they share an
/// address.
pub proof fn lemma_overlap_characterized(a: Range<u32>, b: Range<u32>)
    requires
        a.start < a.end,
        b.start < b.end,
    ensures
        overlaps(a, b) <==> exists|address: u32| #[trigger]
            holds(a, address) && holds(b, address),
{
    if overlaps(a, b) {
        let address = if a.start <= b.start {
            b.start
        } else {
            a.start
        };
        assert(holds(a, address) && holds(b, address));
    }
}

/// Bytes at the base of the active bank that boot protection covers: 8 KiB
/// for every step of the size field below 15.
pub open spec fn protected_space(status: Status) -> nat {
    (8 * 1024 * (15 - status.boot_protection)) as nat
}

/// The boot-protected range. It begins where the active bank begins, at 0.
pub open spec fn protected_range(status: Status) -> Range<u32> {
    span(0, protected_space(status) as int)
}

/// Whether a request for `range` runs into the boot protection: protection is
/// switched on, and the range overlaps the protected one.
pub open spec fn boot_protected(status: Status, range: Range<u32>) -> bool {
    !status.boot_protection_disabled && overlaps(range, protected_range(status))
}

/// Two ranges of which one begins where the other ends do not overlap: what
/// lies right behind a protected range is free.
pub proof fn lemma_overlap_adjacent(a: Range<u32>, b: Range<u32>)
    requires
        a.end == b.start,
    ensures
        !overlaps(a, b),
        !overlaps(b, a),
{
}

/// With boot protection switched off no range is protected.
pub proof fn lemma_unprotected_when_disabled(status: Status, range: Range<u32>)
    requires
        status.boot_protection_disabled,
    ensures
        !boot_protected(status, range),
{
}

} // verus!
