//! The quantization plan: the per-layer assignment of reduced-precision
//! representations that a load call applies before building the model.

use vstd::prelude::*;

verus! {

/// Reduced-precision representation assigned to one layer.
#[derive(Clone, Copy, PartialEq, Eq, Structural, Debug)]
pub enum Quant {
    /// 8-bit integer quantization.
    Int8,
    /// 4-bit normal-float quantization.
    Nf4,
    /// 4-bit scaled-float quantization.
    Sf4,
}

/// The plan for `(n_int8, n_nf4, n_sf4)`: layers `0..n_int8` at 8-bit
/// precision, then layers `0..n_nf4` at normal-float precision, then layers
/// `0..n_sf4` at scaled-float precision, in exactly that order.
pub open spec fn spec_quant_plan(n_int8: int, n_nf4: int, n_sf4: int) -> Seq<(usize, Quant)> {
    Seq::new((n_int8 + n_nf4 + n_sf4) as nat, |i: int|
        if i < n_int8 {
            (i as usize, Quant::Int8)
        } else if i < n_int8 + n_nf4 {
            ((i - n_int8) as usize, Quant::Nf4)
        } else {
            ((i - n_int8 - n_nf4) as usize, Quant::Sf4)
        })
}

/// Builds the quantization plan a load call hands to the model builder.
pub fn quant_plan(n_int8: usize, n_nf4: usize, n_sf4: usize) -> (r: Vec<(usize, Quant)>)
    requires
        n_int8 + n_nf4 + n_sf4 <= usize::MAX,
    ensures
        r@ == spec_quant_plan(n_int8 as int, n_nf4 as int, n_sf4 as int),
{
    let mut r: Vec<(usize, Quant)> = Vec::new();
    let mut i: usize = 0;
    while i < n_int8
        invariant
            i <= n_int8,
            r@.len() == i,
            forall|j: int| 0 <= j < i ==> r@[j] == ((j as usize, Quant::Int8)),
        decreases n_int8 - i,
    {
        r.push((i, Quant::Int8));
        i += 1;
    }
    i = 0;
    while i < n_nf4
        invariant
            i <= n_nf4,
            n_int8 + n_nf4 + n_sf4 <= usize::MAX,
            r@.len() == n_int8 + i,
            forall|j: int| 0 <= j < n_int8 ==> r@[j] == ((j as usize, Quant::Int8)),
            forall|j: int| n_int8 <= j < n_int8 + i ==> r@[j] == (((j - n_int8) as usize, Quant::Nf4)),
        decreases n_nf4 - i,
    {
        r.push((i, Quant::Nf4));
        i += 1;
    }
    i = 0;
    while i < n_sf4
        invariant
            i <= n_sf4,
            n_int8 + n_nf4 + n_sf4 <= usize::MAX,
            r@.len() == n_int8 + n_nf4 + i,
            forall|j: int| 0 <= j < n_int8 ==> r@[j] == ((j as usize, Quant::Int8)),
            forall|j: int| n_int8 <= j < n_int8 + n_nf4 ==> r@[j] == (((j - n_int8) as usize, Quant::Nf4)),
            forall|j: int| n_int8 + n_nf4 <= j < n_int8 + n_nf4 + i ==> r@[j] == (((j - n_int8 - n_nf4) as usize, Quant::Sf4)),
        decreases n_sf4 - i,
    {
        r.push((i, Quant::Sf4));
        i += 1;
    }
    proof {
        assert(r@ =~= spec_quant_plan(n_int8 as int, n_nf4 as int, n_sf4 as int));
    }
    r
}

} // verus!
