//! Angle conversion and the median.

use crate::numeral::{number, spec_parse_floats};
use crate::scalar::{Scalar, HALF_TURN_BITS, PI_BITS, TWO_BITS};
use vstd::prelude::*;
use vstd::string::StringSliceAdditionalSpecFns;

verus! {

/// `degrees * pi / 180`.
pub open spec fn spec_radians(degrees: Scalar) -> Scalar {
    degrees.spec_mul(Scalar { bits: PI_BITS }).spec_div(Scalar { bits: HALF_TURN_BITS })
}

/// `radians * 180 / pi`.
pub open spec fn spec_degrees(radians: Scalar) -> Scalar {
    radians.spec_mul(Scalar { bits: HALF_TURN_BITS }).spec_div(Scalar { bits: PI_BITS })
}

/// The median of a sorted sequence: its middle item, or half the sum of its
/// two middle items; zero for the empty sequence.
pub open spec fn spec_median(items: Seq<Scalar>) -> Scalar {
    let n = items.len() as int;
    if n == 0 {
        Scalar::spec_zero()
    } else if n % 2 == 1 {
        items[n / 2]
    } else {
        items[n / 2 - 1].spec_add(items[n / 2]).spec_div(Scalar { bits: TWO_BITS })
    }
}

/// Converts degrees to radians.
pub fn radians(degrees: Scalar) -> (r: Scalar)
    ensures
        r == spec_radians(degrees),
{
    degrees.mul(Scalar::from_bits(PI_BITS)).div(Scalar::from_bits(HALF_TURN_BITS))
}

/// Converts radians to degrees.
pub fn degrees(radians: Scalar) -> (r: Scalar)
    ensures
        r == spec_degrees(radians),
{
    radians.mul(Scalar::from_bits(HALF_TURN_BITS)).div(Scalar::from_bits(PI_BITS))
}

/// The median of a slice that the caller has sorted.
pub fn median(items: &[Scalar]) -> (m: Scalar)
    ensures
        m == spec_median(items@),
{
    let n = items.len();
    if n == 0 {
        Scalar::zero()
    } else if n % 2 == 1 {
        items[n / 2]
    } else {
        let a = items[n / 2 - 1];
        let b = items[n / 2];
        a.add(b).div(Scalar::from_bits(TWO_BITS))
    }
}

/// The bytes of each text.
pub open spec fn spec_texts(items: Seq<&str>) -> Seq<Seq<u8>> {
    Seq::new(items.len(), |i: int| items[i].spec_bytes())
}

/// Reads each text as a number; a text that denotes none counts as zero.
pub fn parse_floats(items: &[&str]) -> (r: Vec<Scalar>)
    ensures
        r@ == spec_parse_floats(spec_texts(items@)),
{
    let mut out: Vec<Scalar> = Vec::new();
    let mut i: usize = 0;
    while i < items.len()
        invariant
            i <= items.len(),
            out@.len() == i,
            forall|k: int| 0 <= k < i ==> out@[k] == spec_parse_floats(spec_texts(items@))[k],
        decreases items.len() - i,
    {
        out.push(number(items[i].as_bytes()));
        i += 1;
    }
    assert(out@ =~= spec_parse_floats(spec_texts(items@)));
    out
}

} // verus!
