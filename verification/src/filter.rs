//! Acceptance filters.
//!
//! A filter is an identifier together with a mask. It accepts a candidate
//! identifier of its own kind whose raw value agrees with the filter's on
//! every bit that is set in the mask. A filter whose identifier and mask are
//! of different kinds is invalid; it accepts nothing.

use crate::id::Id;
use vstd::prelude::*;

verus! {

/// Bit mask for an identifier of either kind.
#[derive(Debug, Clone, Copy, PartialEq, Eq, Structural)]
pub enum IdMask {
    /// Mask for a standard 11-bit identifier.
    Standard(u16),
    /// Mask for an extended 29-bit identifier.
    Extended(u32),
}

/// Acceptance filter: bits set in `mask` are compared, the others are not.
#[derive(Debug, Clone, Copy, PartialEq, Eq, Structural)]
pub struct IdMaskFilter {
    /// Identifier to compare with.
    pub id: Id,
    /// Bits of the identifier that are compared.
    pub mask: IdMask,
}

/// Errors returned when validating acceptance filters.
#[derive(Debug, Clone, Copy, PartialEq, Eq, Structural)]
pub enum FilterError {
    /// The kind of the filter's `id` is not the kind of its `mask`.
    KindMismatch,
}

impl IdMask {
    /// The mask is for extended identifiers.
    pub open spec fn extended(self) -> bool {
        self is Extended
    }

    /// The mask's bits, widened to 32 bits.
    pub open spec fn bits(self) -> u32 {
        match self {
            IdMask::Standard(m) => m as u32,
            IdMask::Extended(m) => m,
        }
    }
}

impl IdMaskFilter {
    /// Identifier and mask are of the same kind.
    pub open spec fn well_formed(self) -> bool {
        self.id.extended() == self.mask.extended()
    }

    /// The filter accepts `candidate`: all three kinds agree, and the raw
    /// values agree on the bits of the mask.
    pub open spec fn accepts(self, candidate: Id) -> bool {
        &&& self.well_formed()
        &&& candidate.extended() == self.id.extended()
        &&& candidate.raw() & self.mask.bits() == self.id.raw() & self.mask.bits()
    }
}

/// Every filter of the list is well formed.
pub open spec fn all_well_formed(filters: Seq<IdMaskFilter>) -> bool {
    forall|i: int| 0 <= i < filters.len() ==> (#[trigger] filters[i]).well_formed()
}

/// Masking commutes with widening from 16 to 32 bits.
proof fn lemma_masked_widening(a: u16, b: u16, m: u16)
    ensures
        (a & m == b & m) <==> ((a as u32) & (m as u32) == (b as u32) & (m as u32)),
{
    assert((a & m == b & m) <==> ((a as u32) & (m as u32) == (b as u32) & (m as u32)))
        by (bit_vector);
}

/// Whether `filter` accepts the identifier `match_id`.
pub fn matches(filter: &IdMaskFilter, match_id: Id) -> (accepted: bool)
    ensures
        accepted == filter.accepts(match_id),
{
    match (filter.id, filter.mask, match_id) {
        (Id::Standard(fid), IdMask::Standard(mask), Id::Standard(id)) => {
            proof {
                lemma_masked_widening(id.raw(), fid.raw(), mask);
            }
            (id.as_raw() & mask) == (fid.as_raw() & mask)
        },
        (Id::Extended(fid), IdMask::Extended(mask), Id::Extended(id)) => {
            (id.as_raw() & mask) == (fid.as_raw() & mask)
        },
        _ => false,
    }
}

/// Checks that the identifier and the mask of `filter` are of the same kind.
pub fn validate_filter(filter: &IdMaskFilter) -> (checked: Result<(), FilterError>)
    ensures
        checked is Ok <==> filter.well_formed(),
        checked is Err ==> checked == Err::<(), FilterError>(FilterError::KindMismatch),
{
    match (filter.id, filter.mask) {
        (Id::Standard(_), IdMask::Standard(_)) => Ok(()),
        (Id::Extended(_), IdMask::Extended(_)) => Ok(()),
        _ => Err(FilterError::KindMismatch),
    }
}

/// Checks every filter of the list; the first invalid one fails the list.
pub fn validate_filters(filters: &[IdMaskFilter]) -> (checked: Result<(), FilterError>)
    ensures
        checked is Ok <==> all_well_formed(filters@),
        checked is Err ==> checked == Err::<(), FilterError>(FilterError::KindMismatch),
{
    let mut i: usize = 0;
    while i < filters.len()
        invariant
            i <= filters.len(),
            forall|j: int| 0 <= j < i ==> (#[trigger] filters@[j]).well_formed(),
        decreases filters.len() - i,
    {
        match validate_filter(&filters[i]) {
            Ok(()) => {},
            Err(e) => {
                return Err(e);
            },
        }
        i += 1;
    }
    Ok(())
}

/// A filter never accepts an identifier of the other kind.
pub proof fn lemma_other_kind_never_matches(filter: IdMaskFilter, candidate: Id)
    requires
        candidate.extended() != filter.id.extended() || candidate.extended()
            != filter.mask.extended(),
    ensures
        !filter.accepts(candidate),
{
}

/// An invalid filter accepts no identifier at all.
pub proof fn lemma_invalid_filter_matches_nothing(filter: IdMaskFilter, candidate: Id)
    requires
        !filter.well_formed(),
    ensures
        !filter.accepts(candidate),
{
}

} // verus!
