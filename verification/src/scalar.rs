//! Field elements of the proving backend.
//!
//! The circuit logic never computes in the field itself: addition, the
//! embedding of machine integers and equality of field elements are the
//! backend's business. This module wraps one backend field element together
//! with a ghost record of its value, so that the rest of the crate can state
//! exact contracts over those values while the backend does the arithmetic.

use vstd::prelude::*;
use halo2_proofs::pasta::Fp;

verus! {

#[verifier::external_type_specification]
#[verifier::external_body]
pub struct ExFp(Fp);

/// The value of the field sum of two elements with values `a` and `b`.
pub uninterp spec fn fp_add_val(a: int, b: int) -> int;

/// The value of the field element that the integer `n` embeds to.
pub uninterp spec fn fp_u64_val(n: u64) -> int;

/// One element of the backend's field, with its value kept in ghost form.
///
/// The wrapped element is only ever produced by the trusted constructors
/// below, which keep the ghost value and the backend element in step.
pub struct Scalar {
    fp: Fp,
    val: Ghost<int>,
}

impl View for Scalar {
    type V = int;

    closed spec fn view(&self) -> int {
        self.val@
    }
}

/// Relies on `Fp::from(u64)`: the embedding of a machine integer into the
/// field depends on the integer alone.
#[verifier::external_body]
fn fp_from_u64(n: u64) -> (r: Scalar)
    ensures
        r@ == fp_u64_val(n),
{
    Scalar { fp: Fp::from(n), val: Ghost(0int) }
}

/// Relies on field addition of `Fp` (`core::ops::Add`): the sum depends on
/// the values of the two operands alone.
#[verifier::external_body]
fn fp_plus(a: &Scalar, b: &Scalar) -> (r: Scalar)
    ensures
        r@ == fp_add_val(a@, b@),
{
    Scalar { fp: a.fp + b.fp, val: Ghost(0int) }
}

/// Relies on `Fp`'s `PartialEq`: the representation is canonical, so two
/// elements compare equal exactly when they are the same field value.
#[verifier::external_body]
fn fp_eq(a: &Scalar, b: &Scalar) -> (r: bool)
    ensures
        r == (a@ == b@),
{
    a.fp == b.fp
}

/// Relies on `Fp` being `Copy`: hands out the identical backend element.
#[verifier::external_body]
fn fp_dup(a: &Scalar) -> (r: Scalar)
    ensures
        r@ == a@,
{
    Scalar { fp: a.fp, val: Ghost(0int) }
}

impl Scalar {
    /// The field element embedding the machine integer `n`.
    pub fn from_u64(n: u64) -> (r: Scalar)
        ensures
            r@ == fp_u64_val(n),
    {
        fp_from_u64(n)
    }

    /// The field sum of `self` and `other`.
    pub fn plus(&self, other: &Scalar) -> (r: Scalar)
        ensures
            r@ == fp_add_val(self@, other@),
    {
        fp_plus(self, other)
    }

    /// Whether `self` and `other` are the same field value.
    pub fn eq_value(&self, other: &Scalar) -> (r: bool)
        ensures
            r == (self@ == other@),
    {
        fp_eq(self, other)
    }

    /// A copy of the same field value.
    pub fn dup(&self) -> (r: Scalar)
        ensures
            r@ == self@,
    {
        fp_dup(self)
    }

    /// The backend field element itself, for handing cells to the backend.
    #[verifier::external_body]
    pub fn to_fp(&self) -> Fp {
        self.fp
    }
}

} // verus!
