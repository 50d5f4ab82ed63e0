//! CAN identifiers.
//!
//! An identifier is either a standard one (11 bits) or an extended one
//! (29 bits). The two kinds are disjoint: a standard identifier never equals
//! an extended one, whatever the raw values are.

use vstd::prelude::*;

verus! {

/// Largest raw value of a standard identifier.
pub const STANDARD_ID_MAX: u16 = 0x7FF;

/// Largest raw value of an extended identifier.
pub const EXTENDED_ID_MAX: u32 = 0x1FFF_FFFF;

/// Standard 11-bit identifier (`0..=0x7FF`).
#[derive(Debug, Clone, Copy, PartialEq, Eq, Structural)]
pub struct StandardId(u16);

/// Extended 29-bit identifier (`0..=0x1FFF_FFFF`).
#[derive(Debug, Clone, Copy, PartialEq, Eq, Structural)]
pub struct ExtendedId(u32);

/// An identifier of either kind.
#[derive(Debug, Clone, Copy, PartialEq, Eq, Structural)]
pub enum Id {
    /// Standard 11-bit identifier.
    Standard(StandardId),
    /// Extended 29-bit identifier.
    Extended(ExtendedId),
}

impl StandardId {
    /// The raw value of the identifier.
    pub closed spec fn raw(self) -> u16 {
        self.0
    }

    /// The raw value is in the 11-bit range.
    pub open spec fn in_range(self) -> bool {
        self.raw() <= STANDARD_ID_MAX
    }

    #[verifier::type_invariant]
    spec fn range_holds(self) -> bool {
        self.0 <= STANDARD_ID_MAX
    }

    /// Makes an identifier of `raw`, or `None` where `raw` is above `0x7FF`.
    pub fn new(raw: u16) -> (id: Option<StandardId>)
        ensures
            id is Some <==> raw <= STANDARD_ID_MAX,
            id matches Some(s) ==> s.raw() == raw,
    {
        if raw <= STANDARD_ID_MAX {
            Some(StandardId(raw))
        } else {
            None
        }
    }

    /// The raw value, which is at most `0x7FF`.
    pub fn as_raw(&self) -> (raw: u16)
        ensures
            raw == self.raw(),
            self.in_range(),
    {
        proof {
            use_type_invariant(self);
        }
        self.0
    }
}

impl ExtendedId {
    /// The raw value of the identifier.
    pub closed spec fn raw(self) -> u32 {
        self.0
    }

    /// The raw value is in the 29-bit range.
    pub open spec fn in_range(self) -> bool {
        self.raw() <= EXTENDED_ID_MAX
    }

    #[verifier::type_invariant]
    spec fn range_holds(self) -> bool {
        self.0 <= EXTENDED_ID_MAX
    }

    /// Makes an identifier of `raw`, or `None` where `raw` is above
    /// `0x1FFF_FFFF`.
    pub fn new(raw: u32) -> (id: Option<ExtendedId>)
        ensures
            id is Some <==> raw <= EXTENDED_ID_MAX,
            id matches Some(e) ==> e.raw() == raw,
    {
        if raw <= EXTENDED_ID_MAX {
            Some(ExtendedId(raw))
        } else {
            None
        }
    }

    /// The raw value, which is at most `0x1FFF_FFFF`.
    pub fn as_raw(&self) -> (raw: u32)
        ensures
            raw == self.raw(),
            self.in_range(),
    {
        proof {
            use_type_invariant(self);
        }
        self.0
    }
}

impl Id {
    /// The identifier is of the extended kind.
    pub open spec fn extended(self) -> bool {
        self is Extended
    }

    /// The raw value, widened to 32 bits.
    pub open spec fn raw(self) -> u32 {
        match self {
            Id::Standard(s) => s.raw() as u32,
            Id::Extended(e) => e.raw(),
        }
    }
}

} // verus!
