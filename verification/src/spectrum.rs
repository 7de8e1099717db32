//! RGB reflectance and radiance values.

use crate::scalar::Scalar;
use vstd::prelude::*;

verus! {

/// A red, green and blue triple.
#[derive(Clone, Copy, Debug, PartialEq, Eq, Structural)]
pub struct Spectrum {
    pub r: Scalar,
    pub g: Scalar,
    pub b: Scalar,
}

impl Spectrum {
    /// A spectrum is black when each of its components is a zero.
    pub open spec fn black(self) -> bool {
        self.r.zero_valued() && self.g.zero_valued() && self.b.zero_valued()
    }

    /// The grey spectrum with all three components equal to `v`.
    pub fn new(v: Scalar) -> (s: Spectrum)
        ensures
            s == (Spectrum { r: v, g: v, b: v }),
    {
        Spectrum { r: v, g: v, b: v }
    }

    pub fn from_floats(r: Scalar, g: Scalar, b: Scalar) -> (s: Spectrum)
        ensures
            s == (Spectrum { r, g, b }),
    {
        Spectrum { r, g, b }
    }

    pub fn is_black(&self) -> (r: bool)
        ensures
            r == self.black(),
    {
        self.r.is_zero() && self.g.is_zero() && self.b.is_zero()
    }
}

} // verus!
