//! The numeric domain of every computation: integers modulo the backend's
//! 128-bit prime. Elements are kept in canonical form (strictly below the
//! modulus); the modular operations themselves are delegated to the backend's
//! field implementation.

use vstd::prelude::*;
use winterfell::math::fields::f128::BaseElement;
use winterfell::math::StarkField;

verus! {

/// The prime modulus of the backend's 128-bit field: 2^128 - 45 * 2^40 + 1.
pub const FIELD_MODULUS: u128 = 340282366920938463463374557953744961537;

/// Field addition, as a mathematical function on canonical representatives.
pub open spec fn fadd(a: int, b: int) -> int {
    (a + b) % (FIELD_MODULUS as int)
}

/// Field subtraction, as a mathematical function on canonical representatives.
pub open spec fn fsub(a: int, b: int) -> int {
    (a - b) % (FIELD_MODULUS as int)
}

/// Field multiplication, as a mathematical function on canonical representatives.
pub open spec fn fmul(a: int, b: int) -> int {
    (a * b) % (FIELD_MODULUS as int)
}

/// Relies on winterfell's f128 `BaseElement` addition, documented and
/// implemented as `(a + b) % M` for canonical inputs; `BaseElement::new` and
/// `as_int` convert between `u128` and the element's canonical form.
#[verifier::external_body]
fn base_add(a: u128, b: u128) -> (r: u128)
    requires
        a < FIELD_MODULUS,
        b < FIELD_MODULUS,
    ensures
        r == fadd(a as int, b as int),
{
    (BaseElement::new(a) + BaseElement::new(b)).as_int()
}

/// Relies on winterfell's f128 `BaseElement` subtraction, documented and
/// implemented as `(a - b) % M` for canonical inputs.
#[verifier::external_body]
fn base_sub(a: u128, b: u128) -> (r: u128)
    requires
        a < FIELD_MODULUS,
        b < FIELD_MODULUS,
    ensures
        r == fsub(a as int, b as int),
{
    (BaseElement::new(a) - BaseElement::new(b)).as_int()
}

/// Relies on winterfell's f128 `BaseElement` multiplication, documented and
/// implemented as `(a * b) % M` for canonical inputs.
#[verifier::external_body]
fn base_mul(a: u128, b: u128) -> (r: u128)
    requires
        a < FIELD_MODULUS,
        b < FIELD_MODULUS,
    ensures
        r == fmul(a as int, b as int),
{
    (BaseElement::new(a) * BaseElement::new(b)).as_int()
}

/// An element of the prime field, kept in canonical form.
#[derive(Clone, Copy, PartialEq, Eq, Structural, Debug)]
pub struct FieldElement {
    pub value: u128,
}

impl FieldElement {
    /// Canonical form: the representative is strictly below the modulus.
    pub open spec fn inv(self) -> bool {
        self.value < FIELD_MODULUS
    }

    /// Reduces an arbitrary 128-bit integer into the field. Every `u128` is
    /// below twice the modulus, so a single conditional subtraction suffices.
    pub fn new(value: u128) -> (r: Self)
        ensures
            r.value == value as int % (FIELD_MODULUS as int),
            r.inv(),
    {
        let reduced: u128 = if value < FIELD_MODULUS {
            value
        } else {
            value - FIELD_MODULUS
        };
        proof {
            if value < FIELD_MODULUS {
                vstd::arithmetic::div_mod::lemma_small_mod(value as nat, FIELD_MODULUS as nat);
            } else {
                vstd::arithmetic::div_mod::lemma_mod_sub_multiples_vanish(
                    value as int,
                    FIELD_MODULUS as int,
                );
                vstd::arithmetic::div_mod::lemma_small_mod(
                    (value - FIELD_MODULUS) as nat,
                    FIELD_MODULUS as nat,
                );
            }
        }
        FieldElement { value: reduced }
    }

    /// The canonical integer representation of the element.
    pub fn as_int(self) -> (r: u128)
        ensures
            r == self.value,
    {
        self.value
    }

    /// Field addition.
    pub fn add(self, rhs: Self) -> (r: Self)
        requires
            self.inv(),
            rhs.inv(),
        ensures
            r.value == fadd(self.value as int, rhs.value as int),
            r.inv(),
    {
        let v = base_add(self.value, rhs.value);
        proof {
            vstd::arithmetic::div_mod::lemma_mod_bound(
                self.value + rhs.value,
                FIELD_MODULUS as int,
            );
        }
        FieldElement { value: v }
    }

    /// Field subtraction.
    pub fn sub(self, rhs: Self) -> (r: Self)
        requires
            self.inv(),
            rhs.inv(),
        ensures
            r.value == fsub(self.value as int, rhs.value as int),
            r.inv(),
    {
        let v = base_sub(self.value, rhs.value);
        proof {
            vstd::arithmetic::div_mod::lemma_mod_bound(
                self.value - rhs.value,
                FIELD_MODULUS as int,
            );
        }
        FieldElement { value: v }
    }

    /// Field multiplication.
    pub fn mul(self, rhs: Self) -> (r: Self)
        requires
            self.inv(),
            rhs.inv(),
        ensures
            r.value == fmul(self.value as int, rhs.value as int),
            r.inv(),
    {
        let v = base_mul(self.value, rhs.value);
        proof {
            vstd::arithmetic::div_mod::lemma_mod_bound(
                self.value * rhs.value,
                FIELD_MODULUS as int,
            );
        }
        FieldElement { value: v }
    }
}

} // verus!
