//! Intervals in one unit system, the fields built from them, and the
//! conversion of a field's trit interval into byte units.

use vstd::prelude::*;

verus! {

/// A span of `length` units beginning at unit index `start`.
#[derive(Clone, Copy, Debug, PartialEq, Eq, Structural)]
pub struct Offset {
    pub start: usize,
    pub length: usize,
}

/// A named span of a transaction, held in trit units and in tryte units.
#[derive(Clone, Copy, Debug, PartialEq, Eq, Structural)]
pub struct Field {
    pub trit_offset: Offset,
    pub tryte_offset: Offset,
}

impl Offset {
    /// The first unit index past the span.
    pub open spec fn end(self) -> int {
        self.start + self.length
    }

    /// The span that holds `self` when every three units are grouped into
    /// one: both ends are divided by three and rounded down.
    pub open spec fn in_trytes(self) -> Offset {
        Offset { start: self.start / 3, length: self.length / 3 }
    }
}

/// Number of bytes that `trits` trits occupy: five trits go into a byte, and
/// a remainder takes a byte of its own.
pub open spec fn bytes_for_trits(trits: nat) -> nat {
    if trits % 5 == 0 {
        trits / 5
    } else {
        trits / 5 + 1
    }
}

impl Field {
    /// The field that covers `length` trits from trit `start` on.
    pub open spec fn at_trits(start: usize, length: usize) -> Field {
        let trits = Offset { start, length };
        Field { trit_offset: trits, tryte_offset: trits.in_trytes() }
    }

    /// The field of `length` trits that begins at the trit where `prev` ends.
    pub open spec fn after(prev: Field, length: usize) -> Field {
        Field::at_trits(prev.trit_offset.end() as usize, length)
    }

    /// The tryte interval is the trit interval divided by three.
    pub open spec fn well_formed(self) -> bool {
        self.tryte_offset == self.trit_offset.in_trytes()
    }

    /// The trit interval begins and ends on a tryte boundary, so that the
    /// tryte interval covers exactly the same trits.
    pub open spec fn tryte_aligned(self) -> bool {
        &&& self.trit_offset.start % 3 == 0
        &&& self.trit_offset.length % 3 == 0
    }

    /// `self` begins at the trit where `prev` ends.
    pub open spec fn follows(self, prev: Field) -> bool {
        self.trit_offset.start == prev.trit_offset.end()
    }

    /// Builds the field that covers `length` trits from trit `start` on.
    pub fn offsets_from_trits(start: usize, length: usize) -> (field: Field)
        ensures
            field == Field::at_trits(start, length),
            field.well_formed(),
    {
        Field {
            trit_offset: Offset { start, length },
            tryte_offset: Offset { start: start / 3, length: length / 3 },
        }
    }

    /// Builds the field of `length` trits that begins where `prev` ends.
    pub fn offsets_from_previous_field(prev: &Field, length: usize) -> (field: Field)
        requires
            prev.trit_offset.end() <= usize::MAX,
        ensures
            field == Field::after(*prev, length),
            field.follows(*prev),
            field.well_formed(),
    {
        Field::offsets_from_trits(prev.trit_offset.start + prev.trit_offset.length, length)
    }

    /// Index of the byte that holds the field's first trit.
    pub fn byte_start(&self) -> (byte: usize)
        ensures
            byte == self.trit_offset.start / 5,
            5 * byte <= self.trit_offset.start < 5 * byte + 5,
    {
        self.trit_offset.start / 5
    }

    /// Number of bytes that the field's trits occupy.
    pub fn byte_length(&self) -> (bytes: usize)
        ensures
            bytes == bytes_for_trits(self.trit_offset.length as nat),
            self.trit_offset.length % 5 == 0 ==> bytes == self.trit_offset.length / 5,
            self.trit_offset.length % 5 != 0 ==> bytes == self.trit_offset.length / 5 + 1,
    {
        if self.trit_offset.length % 5 == 0 {
            self.trit_offset.length / 5
        } else {
            self.trit_offset.length / 5 + 1
        }
    }
}

/// `bytes_for_trits(trits)` is the quotient of `trits` by five, rounded up:
/// those bytes have room for `trits` trits, and fewer than five are spare.
pub proof fn lemma_bytes_for_trits_is_ceiling(trits: nat)
    ensures
        5 * bytes_for_trits(trits) >= trits,
        5 * bytes_for_trits(trits) < trits + 5,
        bytes_for_trits(trits) == (trits + 4) / 5,
{
}

/// No smaller number of bytes than `bytes_for_trits(trits)` has room for
/// `trits` trits.
pub proof fn lemma_bytes_for_trits_is_least(trits: nat, bytes: nat)
    requires
        5 * bytes >= trits,
    ensures
        bytes >= bytes_for_trits(trits),
{
}

/// A well-formed field whose trit interval is tryte-aligned has a tryte
/// interval that covers exactly its trits.
pub proof fn lemma_aligned_trytes_are_exact(field: Field)
    requires
        field.well_formed(),
        field.tryte_aligned(),
    ensures
        3 * field.tryte_offset.start == field.trit_offset.start,
        3 * field.tryte_offset.length == field.trit_offset.length,
        3 * field.tryte_offset.end() == field.trit_offset.end(),
{
}

} // verus!
