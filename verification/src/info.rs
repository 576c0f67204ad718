//! Model metadata: the architecture generation tag and the shape descriptor
//! produced once at load time, plus the caller-facing introspection record.

use vstd::prelude::*;

verus! {

/// Architecture generation of a loaded model: a closed set of four
/// structurally distinct designs.  An unrecognized generation is impossible
/// by construction.
#[derive(Clone, Copy, PartialEq, Eq, Structural, Debug)]
pub enum ModelVersion {
    V4,
    V5,
    V6,
    V7,
}

/// Immutable model metadata, shared across the session's lifetime.
#[derive(Clone, Copy, PartialEq, Eq, Structural, Debug)]
pub struct ModelInfo {
    pub version: ModelVersion,
    pub num_layer: usize,
    pub num_hidden: usize,
    pub num_emb: usize,
    pub num_vocab: usize,
    pub num_head: usize,
}

/// The numeric tag under which each generation is reported to callers.
pub open spec fn spec_version_number(v: ModelVersion) -> usize {
    match v {
        ModelVersion::V4 => 4,
        ModelVersion::V5 => 5,
        ModelVersion::V6 => 6,
        ModelVersion::V7 => 7,
    }
}

/// Maps a generation tag to its caller-visible number (4 through 7).
pub fn version_number(v: ModelVersion) -> (r: usize)
    ensures
        r == spec_version_number(v),
{
    match v {
        ModelVersion::V4 => 4,
        ModelVersion::V5 => 5,
        ModelVersion::V6 => 6,
        ModelVersion::V7 => 7,
    }
}

/// Law: the generation tags reported to callers are exactly 4 through 7,
/// so a loaded session's record can never be mistaken for the all-zero
/// sentinel.
pub proof fn lemma_version_number_range(v: ModelVersion)
    ensures
        4 <= spec_version_number(v) <= 7,
{
}

/// Whether a generation's compute graph accepts the hook extension table.
/// Only the two newest generations do; the older two ignore the request.
pub open spec fn spec_supports_hooks(v: ModelVersion) -> bool {
    v == ModelVersion::V6 || v == ModelVersion::V7
}

/// Decides whether the extended-hooks flag has any effect for `v`.
pub fn supports_hooks(v: ModelVersion) -> (r: bool)
    ensures
        r == spec_supports_hooks(v),
{
    match v {
        ModelVersion::V6 => true,
        ModelVersion::V7 => true,
        _ => false,
    }
}

/// Introspection record handed to the caller: the generation's numeric tag
/// and the model's shape, or the all-zero sentinel when no session is loaded.
#[derive(Clone, Copy, PartialEq, Eq, Structural, Debug)]
pub struct ModelInfoOutput {
    pub version: usize,
    pub num_layer: usize,
    pub num_hidden: usize,
    pub num_emb: usize,
    pub num_vocab: usize,
    pub num_head: usize,
}

/// The all-zero sentinel reported when no session is loaded.
pub open spec fn spec_info_sentinel() -> ModelInfoOutput {
    ModelInfoOutput {
        version: 0,
        num_layer: 0,
        num_hidden: 0,
        num_emb: 0,
        num_vocab: 0,
        num_head: 0,
    }
}

impl Default for ModelInfoOutput {
    /// The all-zero sentinel.
    fn default() -> (r: Self)
        ensures
            r == spec_info_sentinel(),
    {
        ModelInfoOutput {
            version: 0,
            num_layer: 0,
            num_hidden: 0,
            num_emb: 0,
            num_vocab: 0,
            num_head: 0,
        }
    }
}

/// What introspection reports for loaded metadata `info`.
pub open spec fn spec_info_output(info: ModelInfo) -> ModelInfoOutput {
    ModelInfoOutput {
        version: spec_version_number(info.version),
        num_layer: info.num_layer,
        num_hidden: info.num_hidden,
        num_emb: info.num_emb,
        num_vocab: info.num_vocab,
        num_head: info.num_head,
    }
}

/// Builds the introspection record for loaded metadata.
pub fn info_output(info: &ModelInfo) -> (r: ModelInfoOutput)
    ensures
        r == spec_info_output(*info),
{
    ModelInfoOutput {
        version: version_number(info.version),
        num_layer: info.num_layer,
        num_hidden: info.num_hidden,
        num_emb: info.num_emb,
        num_vocab: info.num_vocab,
        num_head: info.num_head,
    }
}

} // verus!
