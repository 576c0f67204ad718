//! The hook extension table: per-generation, per-layer insertion points in
//! the forward computation and the operator spliced in at each.  Built once
//! at load time when extended mode is requested; immutable thereafter; the
//! external compute engine consults it on every forward step.

use vstd::prelude::*;
use crate::info::ModelVersion;
use crate::info::spec_supports_hooks;

verus! {

/// A named insertion point in one layer's forward computation.
#[derive(Clone, Copy, PartialEq, Eq, Structural, Debug)]
pub enum HookPoint {
    /// Before the time-decay activation of the given layer (generation V6).
    PreAttTimeDecayActivate(usize),
    /// After the adaptation stage of the given layer (generation V7).
    PostAttAdapt(usize),
    /// After the control gate of the given layer (generation V7).
    PostAttControl(usize),
}

/// The operator spliced in at an insertion point.  These are purely
/// numerical augmentations of the stock forward pass: they alter no control
/// flow and no tensor shape.
#[derive(Clone, Copy, PartialEq, Eq, Structural, Debug)]
pub enum HookOp {
    /// Elementwise extension of the time-decay buffer (V6).
    ExtTimeDecay,
    /// Affine transform of the adaptation buffer: scale by two, no bias (V7).
    AffineDouble,
    /// Elementwise extension of the control buffer (V7).
    ExtControl,
}

/// One entry of the hook extension table.
#[derive(Clone, Copy, PartialEq, Eq, Structural, Debug)]
pub struct HookEntry {
    pub point: HookPoint,
    pub op: HookOp,
}

/// The V6 table: one elementwise operator after the time-decay activation
/// of every layer.
pub open spec fn spec_hooks_v6(num_layer: int) -> Seq<HookEntry> {
    Seq::new(num_layer as nat, |i: int| HookEntry {
        point: HookPoint::PreAttTimeDecayActivate(i as usize),
        op: HookOp::ExtTimeDecay,
    })
}

/// The V7 table: for every layer, one affine transform after the
/// adaptation stage and one elementwise operator after the control gate.
pub open spec fn spec_hooks_v7(num_layer: int) -> Seq<HookEntry> {
    Seq::new((2 * num_layer) as nat, |i: int|
        if i % 2 == 0 {
            HookEntry {
                point: HookPoint::PostAttAdapt((i / 2) as usize),
                op: HookOp::AffineDouble,
            }
        } else {
            HookEntry {
                point: HookPoint::PostAttControl((i / 2) as usize),
                op: HookOp::ExtControl,
            }
        })
}

/// The table a load call builds for `version` over `num_layer` layers.
/// Without the extended-hooks request the table is empty, and the two older
/// generations ignore the request altogether.
pub open spec fn spec_hook_table(version: ModelVersion, extended: bool, num_layer: int) -> Seq<HookEntry> {
    if extended && version == ModelVersion::V6 {
        spec_hooks_v6(num_layer)
    } else if extended && version == ModelVersion::V7 {
        spec_hooks_v7(num_layer)
    } else {
        Seq::empty()
    }
}

/// Builds the V6 hook table.
pub fn hooks_v6(num_layer: usize) -> (r: Vec<HookEntry>)
    ensures
        r@ == spec_hooks_v6(num_layer as int),
{
    let mut r: Vec<HookEntry> = Vec::new();
    let mut layer: usize = 0;
    while layer < num_layer
        invariant
            layer <= num_layer,
            r@.len() == layer,
            forall|j: int| 0 <= j < layer ==> r@[j] == spec_hooks_v6(num_layer as int)[j],
        decreases num_layer - layer,
    {
        r.push(HookEntry {
            point: HookPoint::PreAttTimeDecayActivate(layer),
            op: HookOp::ExtTimeDecay,
        });
        layer += 1;
    }
    proof {
        assert(r@ =~= spec_hooks_v6(num_layer as int));
    }
    r
}

/// Builds the V7 hook table: two entries per layer, layer-major.
pub fn hooks_v7(num_layer: usize) -> (r: Vec<HookEntry>)
    requires
        2 * num_layer <= usize::MAX,
    ensures
        r@ == spec_hooks_v7(num_layer as int),
{
    let mut r: Vec<HookEntry> = Vec::new();
    let mut layer: usize = 0;
    while layer < num_layer
        invariant
            layer <= num_layer,
            2 * num_layer <= usize::MAX,
            r@.len() == 2 * layer,
            forall|j: int| 0 <= j < 2 * layer ==> r@[j] == spec_hooks_v7(num_layer as int)[j],
        decreases num_layer - layer,
    {
        r.push(HookEntry {
            point: HookPoint::PostAttAdapt(layer),
            op: HookOp::AffineDouble,
        });
        r.push(HookEntry {
            point: HookPoint::PostAttControl(layer),
            op: HookOp::ExtControl,
        });
        layer += 1;
    }
    proof {
        assert(r@ =~= spec_hooks_v7(num_layer as int));
    }
    r
}

/// Builds the hook table for a load call: dispatches on the generation tag
/// and the extended-hooks request.
pub fn hook_table(version: ModelVersion, extended: bool, num_layer: usize) -> (r: Vec<HookEntry>)
    requires
        2 * num_layer <= usize::MAX,
    ensures
        r@ == spec_hook_table(version, extended, num_layer as int),
        !(extended && spec_supports_hooks(version)) ==> r@.len() == 0,
{
    if !extended {
        Vec::new()
    } else {
        match version {
            ModelVersion::V6 => hooks_v6(num_layer),
            ModelVersion::V7 => hooks_v7(num_layer),
            _ => Vec::new(),
        }
    }
}

} // verus!
