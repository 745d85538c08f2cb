//! Restore-state encodings.
//!
//! A provider hands a raw restore state from `acquire` to the matching
//! `release`. Callers carry it as a single byte; each raw type says which
//! bytes it can be carried as and how to go back and forth.
use vstd::prelude::*;

verus! {

/// Conversion between a raw restore state and the byte that carries it.
pub trait ConvertRestoreState: Sized {
    /// The byte that carries `self`.
    spec fn spec_to_u8(self) -> u8;

    /// Whether the byte `state` carries some value of this type.
    spec fn spec_fits(state: u8) -> bool;

    /// The value that the byte `state` carries.
    spec fn spec_from_u8(state: u8) -> Self;

    /// Every value is carried by a byte that fits, and that byte brings the
    /// value back.
    proof fn lemma_round_trip(x: Self)
        ensures
            Self::spec_fits(x.spec_to_u8()),
            Self::spec_from_u8(x.spec_to_u8()) == x,
    ;

    /// Every byte that fits carries exactly one value.
    proof fn lemma_fits_round_trip(state: u8)
        requires
            Self::spec_fits(state),
        ensures
            Self::spec_from_u8(state).spec_to_u8() == state,
    ;

    fn to_u8(self) -> (r: u8)
        ensures
            r == self.spec_to_u8(),
            Self::spec_fits(r),
    ;

    /// Narrows a byte back to the raw state; the byte must be one that a raw
    /// state of this type is carried as.
    fn from_u8(state: u8) -> (r: Self)
        requires
            Self::spec_fits(state),
        ensures
            r == Self::spec_from_u8(state),
            r.spec_to_u8() == state,
    ;

    /// Tests whether `from_u8` may be called on `state`.
    fn fits(state: u8) -> (r: bool)
        ensures
            r == Self::spec_fits(state),
    ;
}

impl ConvertRestoreState for () {
    open spec fn spec_to_u8(self) -> u8 {
        0
    }

    open spec fn spec_fits(state: u8) -> bool {
        state == 0
    }

    open spec fn spec_from_u8(state: u8) -> () {
        ()
    }

    proof fn lemma_round_trip(x: ()) {
    }

    proof fn lemma_fits_round_trip(state: u8) {
    }

    fn to_u8(self) -> (r: u8) {
        0
    }

    fn from_u8(state: u8) -> (r: ()) {
    }

    fn fits(state: u8) -> (r: bool) {
        state == 0
    }
}

impl ConvertRestoreState for bool {
    open spec fn spec_to_u8(self) -> u8 {
        if self {
            1
        } else {
            0
        }
    }

    open spec fn spec_fits(state: u8) -> bool {
        state <= 1
    }

    open spec fn spec_from_u8(state: u8) -> bool {
        state == 1
    }

    proof fn lemma_round_trip(x: bool) {
    }

    proof fn lemma_fits_round_trip(state: u8) {
    }

    fn to_u8(self) -> (r: u8) {
        if self {
            1
        } else {
            0
        }
    }

    fn from_u8(state: u8) -> (r: bool) {
        state == 1
    }

    fn fits(state: u8) -> (r: bool) {
        state <= 1
    }
}

impl ConvertRestoreState for u8 {
    open spec fn spec_to_u8(self) -> u8 {
        self
    }

    open spec fn spec_fits(state: u8) -> bool {
        true
    }

    open spec fn spec_from_u8(state: u8) -> u8 {
        state
    }

    proof fn lemma_round_trip(x: u8) {
    }

    proof fn lemma_fits_round_trip(state: u8) {
    }

    fn to_u8(self) -> (r: u8) {
        self
    }

    fn from_u8(state: u8) -> (r: u8) {
        state
    }

    fn fits(state: u8) -> (r: bool) {
        true
    }
}

} // verus!
