//! The state accessor: reading, replacing and resetting the session's
//! recurrent state.  The state is a fixed-shape buffer of numeric cells;
//! each cell carries one value's bit pattern, which the accessor moves and
//! compares but never interprets.  The device-side transfer of these cells
//! is the external engine's work; what is decided here — what a read
//! returns, when a write is accepted, what a reset restores — carries the
//! contracts.

use vstd::prelude::*;

verus! {

/// What a state write leaves behind: the caller's buffer when its element
/// count matches the state's shape, else the state unchanged.
pub open spec fn spec_set_state(cells: Seq<u32>, buf: Seq<u32>) -> Seq<u32> {
    if buf.len() == cells.len() {
        buf
    } else {
        cells
    }
}

/// The acceptance decision of a state write: a caller-supplied buffer of
/// `got` elements may replace a state of `expected` elements exactly when
/// the counts match — never truncated, never padded.
pub fn state_shape_accepts(expected: usize, got: usize) -> (r: bool)
    ensures
        r == (expected == got),
{
    expected == got
}

/// The session's recurrent state as the accessor sees it, together with the
/// version-defined initial pattern captured at load time.
pub struct SessionState {
    /// The version-defined initial pattern: what a fresh load leaves in the
    /// live state, and what `clear` restores.
    pub init: Vec<u32>,
    /// The live cells.
    pub cells: Vec<u32>,
}

impl SessionState {
    /// Shape invariant: the live buffer always has the state's element
    /// count.
    pub open spec fn wf(&self) -> bool {
        self.cells@.len() == self.init@.len()
    }

    /// A freshly loaded session: the live state holds the initial pattern.
    pub fn load(init: Vec<u32>) -> (r: Self)
        ensures
            r.wf(),
            r.init@ == init@,
            r.cells@ == init@,
    {
        let cells = clone_cells(&init);
        SessionState { init, cells }
    }

    /// Resets the live state to the freshly initialized pattern, without
    /// touching anything else.
    pub fn clear(&mut self)
        requires
            old(self).wf(),
        ensures
            final(self).wf(),
            final(self).init@ == old(self).init@,
            final(self).cells@ == old(self).init@,
    {
        self.cells = clone_cells(&self.init);
    }

    /// Copies the live state out into a caller-owned buffer.
    pub fn get(&self) -> (r: Vec<u32>)
        ensures
            r@ == self.cells@,
    {
        clone_cells(&self.cells)
    }

    /// Validates that the caller's buffer matches the state's element
    /// count; on a match replaces the live state wholesale, otherwise
    /// leaves it untouched and reports the mismatch.
    pub fn set(&mut self, buf: Vec<u32>) -> (ok: bool)
        requires
            old(self).wf(),
        ensures
            final(self).wf(),
            final(self).init@ == old(self).init@,
            ok == (buf@.len() == old(self).cells@.len()),
            final(self).cells@ == spec_set_state(old(self).cells@, buf@),
    {
        if buf.len() == self.cells.len() {
            self.cells = buf;
            true
        } else {
            false
        }
    }
}

/// An exact copy of a cell buffer.
fn clone_cells(v: &Vec<u32>) -> (r: Vec<u32>)
    ensures
        r@ == v@,
{
    let mut r: Vec<u32> = Vec::new();
    let mut i: usize = 0;
    while i < v.len()
        invariant
            i <= v@.len(),
            r@ == v@.take(i as int),
        decreases v@.len() - i,
    {
        r.push(v[i]);
        i += 1;
    }
    proof {
        assert(r@ =~= v@);
    }
    r
}

/// Law (round trip): a write of exactly the buffer that a read returned is
/// accepted and leaves the state bit-for-bit unchanged.
pub proof fn lemma_set_get_roundtrip(cells: Seq<u32>)
    ensures
        spec_set_state(cells, cells) == cells,
{
}

/// Law (reset): a cleared state holds exactly the initial pattern, so a
/// read after `clear` returns the same buffer a freshly loaded session
/// yields before any inference.
pub proof fn lemma_clear_matches_fresh(cleared: SessionState, fresh: SessionState)
    requires
        cleared.cells@ == cleared.init@,
        fresh.cells@ == fresh.init@,
        cleared.init@ == fresh.init@,
    ensures
        cleared.cells@ == fresh.cells@,
{
}

} // verus!
