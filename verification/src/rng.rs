//! Trusted declarations for the externally supplied uniform-random source.
//!
//! The generator holds no randomness of its own: every draw goes through the
//! host toolkit's pseudo-random generator, reached through the two wrappers
//! below.  Nothing is assumed of a draw beyond its range, so everything
//! proved downstream holds for every sequence of draws.

use vstd::prelude::*;
use libafl_bolts::rands::{Rand, Xoshiro256PlusPlusRand};
use std::num::NonZero;

verus! {

#[verifier::external_type_specification]
#[verifier::external_body]
pub struct ExXoshiroRand(Xoshiro256PlusPlusRand);

/// Relies on `Rand::below` of libafl_bolts (the `fast_rands` crate): the
/// result of `fast_bound` is a 128-bit product shifted right by 64, which is
/// always strictly below the bound.
#[verifier::external_body]
pub(crate) fn rand_below(r: &mut Xoshiro256PlusPlusRand, n: usize) -> (u: usize)
    requires
        n >= 1,
    ensures
        u < n,
{
    r.below(NonZero::new(n).unwrap())
}

/// Relies on `Rand::next` of libafl_bolts (the `fast_rands` crate): one
/// 64-bit draw, of whose value nothing can be promised.
#[verifier::external_body]
pub(crate) fn rand_next(r: &mut Xoshiro256PlusPlusRand) -> u64 {
    r.next()
}

} // verus!
