use vstd::prelude::*;

use crate::text::{chars_to_string, push_dec, spec_dec};

verus! {

/// A scale factor held as a fixed-point number of thousandths, so that
/// `milli == 1500` stands for a factor of 1.5.
///
/// The raster stage multiplies the requested width and height by this
/// factor and truncates toward zero; the vector stage ignores it.
#[derive(Debug, Clone, Copy, PartialEq, Eq, Structural)]
pub struct Scale {
    pub milli: u32,
}

/// `px` multiplied by the scale factor `milli / 1000`, truncated toward
/// zero and saturated at `u32::MAX`.
pub open spec fn spec_scaled(px: u32, milli: u32) -> int {
    let v = (px * milli) / 1000;
    if v > u32::MAX {
        u32::MAX as int
    } else {
        v
    }
}

impl Scale {
    /// The identity scale factor, 1.000.
    pub fn one() -> (r: Scale)
        ensures
            r.milli == 1000,
    {
        Scale { milli: 1000 }
    }

    /// A scale factor of `milli` thousandths.
    pub fn from_milli(milli: u32) -> (r: Scale)
        ensures
            r.milli == milli,
    {
        Scale { milli }
    }

    /// One output dimension of the raster stage: `px` scaled by this
    /// factor, truncated toward zero and saturated at `u32::MAX`.
    pub fn scaled_dimension(&self, px: u32) -> (r: u32)
        ensures
            r == spec_scaled(px, self.milli),
    {
        proof {
            assert((px as u64) * (self.milli as u64) <= u64::MAX) by (nonlinear_arith)
                requires
                    px <= u32::MAX,
                    self.milli <= u32::MAX,
            ;
        }
        let prod: u64 = (px as u64) * (self.milli as u64);
        let v: u64 = prod / 1000;
        if v > u32::MAX as u64 {
            u32::MAX
        } else {
            v as u32
        }
    }
}

/// The decimal text of a scale factor, with exactly three fractional
/// digits: `milli == 1500` reads `1.500`.
pub open spec fn spec_scale_text(milli: u32) -> Seq<char> {
    spec_dec(milli as int / 1000) + seq!['.'] + spec_dec((milli as int / 100) % 10) + spec_dec(
        (milli as int / 10) % 10,
    ) + spec_dec(milli as int % 10)
}

impl Scale {
    /// This factor as decimal text with three fractional digits.
    pub fn text(&self) -> (r: String)
        ensures
            r@ == spec_scale_text(self.milli),
    {
        let mut v: Vec<char> = Vec::new();
        push_dec((self.milli / 1000) as u64, &mut v);
        v.push('.');
        push_dec(((self.milli / 100) % 10) as u64, &mut v);
        push_dec(((self.milli / 10) % 10) as u64, &mut v);
        push_dec((self.milli % 10) as u64, &mut v);
        chars_to_string(&v)
    }
}

/// At the identity scale factor the raster stage preserves each
/// requested dimension exactly: scaling by 1.000 changes nothing.
pub proof fn lemma_scale_one_preserves_dimension(px: u32)
    ensures
        spec_scaled(px, 1000) == px,
{
    assert((px * 1000) / 1000 == px) by (nonlinear_arith);
}

} // verus!
