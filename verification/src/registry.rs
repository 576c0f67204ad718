//! The session registry: the process-wide slot holding at most one
//! execution session.  A successful load installs a new session, replacing
//! the prior one wholesale; a failed load never reaches `install`, so the
//! prior session stays visible.  Every other entry point takes a reader's
//! snapshot and falls back to a benign sentinel when the slot is empty.

use vstd::prelude::*;
use crate::info::ModelInfo;
use crate::info::ModelInfoOutput;
use crate::info::info_output;
use crate::info::spec_info_output;
use crate::info::spec_info_sentinel;

verus! {

/// What one successful load produces: the model's metadata and the element
/// count of its recurrent state, both fixed for the session's lifetime.
#[derive(Clone, Copy, PartialEq, Eq, Structural, Debug)]
pub struct SessionMeta {
    /// Immutable model metadata.
    pub info: ModelInfo,
    /// Element count of the version-defined recurrent state tensor.
    pub state_len: usize,
}

/// The process-wide session slot.
pub struct SessionRegistry {
    pub slot: Option<SessionMeta>,
}

/// What a successful load leaves in the registry: the new session alone.
pub open spec fn spec_install(reg: SessionRegistry, m: SessionMeta) -> SessionRegistry {
    SessionRegistry { slot: Some(m) }
}

/// What introspection reports for registry `reg`: the all-zero sentinel
/// while no session is loaded, else the loaded metadata under its numeric
/// generation tag.
pub open spec fn spec_registry_info(reg: SessionRegistry) -> ModelInfoOutput {
    match reg.slot {
        Option::None => spec_info_sentinel(),
        Option::Some(m) => spec_info_output(m.info),
    }
}

impl SessionRegistry {
    /// The registry before the first load: no session.
    pub fn new() -> (r: Self)
        ensures
            r.slot is None,
    {
        SessionRegistry { slot: None }
    }

    /// Replaces the current session (if any) with `m`.
    pub fn install(&mut self, m: SessionMeta)
        ensures
            *final(self) == spec_install(*old(self), m),
    {
        self.slot = Some(m);
    }

    /// A reader's snapshot of the current session, or nothing if none is
    /// loaded.
    pub fn acquire(&self) -> (r: Option<SessionMeta>)
        ensures
            r == self.slot,
    {
        self.slot
    }

    /// Introspection over the slot: sentinel when empty, else the session's
    /// metadata.
    pub fn model_info(&self) -> (r: ModelInfoOutput)
        ensures
            r == spec_registry_info(*self),
    {
        match &self.slot {
            Option::None => ModelInfoOutput::default(),
            Option::Some(m) => info_output(&m.info),
        }
    }
}

/// Law: a load fully replaces what introspection reports.  After an
/// install, the report depends on the new session alone — two registries
/// that held different sessions agree completely once the same session is
/// installed, so no mixing of old and new metadata is observable.
pub proof fn lemma_install_replaces_info(reg1: SessionRegistry, reg2: SessionRegistry, m: SessionMeta)
    ensures
        spec_registry_info(spec_install(reg1, m)) == spec_info_output(m.info),
        spec_install(reg1, m) == spec_install(reg2, m),
{
}

/// Law: introspection of a loaded session never returns the sentinel —
/// its generation tag is 4 through 7 where the sentinel's is zero.
pub proof fn lemma_loaded_info_distinguishable(m: SessionMeta)
    ensures
        spec_registry_info(SessionRegistry { slot: Some(m) }) != spec_info_sentinel(),
{
    crate::info::lemma_version_number_range(m.info.version);
}

} // verus!
