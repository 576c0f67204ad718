//! The inference engine: the autoregressive loop that drives a multi-step
//! forward pass over a variable-length token batch.
//!
//! The driver (the external tensor engine) consumes a chunk of pending
//! tokens per step — at most [`TOKEN_CHUNK_SIZE`] — and returns the
//! remaining suffix together with the step's logits.  The engine here owns
//! the batch: it hands out what to submit, records each step the driver
//! reports, and accounts for every output row.  A logit row is carried as
//! the bit patterns of the driver's output values; the engine moves rows
//! and never reads the numbers inside.

use vstd::prelude::*;

verus! {

/// Output selection for one inference call.
#[derive(Clone, Copy, PartialEq, Eq, Structural, Debug)]
pub enum OutputMode {
    /// Only the final position's logits are wanted.
    Last,
    /// One logit row for every input position, in position order.
    Full,
}

/// Upper bound on the tokens the driver may consume in one step.
pub const TOKEN_CHUNK_SIZE: usize = 128;

/// One inference call in flight: the unconsumed token suffix and the
/// output gathered so far, tied to the original input by the well-formedness
/// invariant.
pub struct InferenceEngine {
    /// Requested output selection.
    pub mode: OutputMode,
    /// Length of the original input sequence.
    pub input_len: usize,
    /// Width of one complete logit row: the vocabulary size.
    pub num_vocab: usize,
    /// The pending (not yet consumed) token suffix.
    pub pending: Vec<u16>,
    /// `Full`: one row per consumed position, in position order.
    /// `Last`: at most one row, the most recent step's.
    pub rows: Vec<Vec<u32>>,
    /// Number of driver steps recorded so far.
    pub steps: usize,
}

impl InferenceEngine {
    /// Well-formedness: the output rows account exactly for the consumed
    /// prefix, and the step count is bounded by the tokens consumed.
    pub open spec fn wf(&self) -> bool {
        &&& self.input_len >= 1
        &&& self.pending@.len() <= self.input_len
        &&& self.steps + self.pending@.len() <= self.input_len
        &&& (self.mode == OutputMode::Full ==> {
            &&& self.rows@.len() == self.input_len - self.pending@.len()
            &&& forall|i: int| 0 <= i < self.rows@.len() ==> (#[trigger] self.rows@[i])@.len() == self.num_vocab
        })
        &&& (self.mode == OutputMode::Last ==> {
            &&& self.rows@.len() == (
                if self.pending@.len() == self.input_len { 0int } else { 1int }
            )
            &&& forall|i: int| 0 <= i < self.rows@.len() ==> (#[trigger] self.rows@[i])@.len() == self.num_vocab
        })
    }

    /// Starts one inference call over `tokens`.  An empty token sequence is
    /// a caller error: the engine rejects it and nothing is set in motion.
    pub fn try_new(tokens: Vec<u16>, mode: OutputMode, num_vocab: usize) -> (r: Option<InferenceEngine>)
        ensures
            match r {
                Option::None => tokens@.len() == 0,
                Option::Some(e) => {
                    &&& tokens@.len() > 0
                    &&& e.wf()
                    &&& e.mode == mode
                    &&& e.num_vocab == num_vocab
                    &&& e.input_len == tokens@.len()
                    &&& e.pending@ == tokens@
                    &&& e.rows@.len() == 0
                    &&& e.steps == 0
                },
            },
    {
        if tokens.len() == 0 {
            None
        } else {
            let input_len = tokens.len();
            Some(InferenceEngine {
                mode,
                input_len,
                num_vocab,
                pending: tokens,
                rows: Vec::new(),
                steps: 0,
            })
        }
    }

    /// Whether the batch is fully consumed — the loop's sole termination
    /// condition.
    pub fn is_done(&self) -> (r: bool)
        ensures
            r == (self.pending@.len() == 0),
    {
        self.pending.len() == 0
    }

    /// The most tokens the driver may consume in the next step: the whole
    /// pending suffix, capped at [`TOKEN_CHUNK_SIZE`].
    pub fn max_chunk(&self) -> (r: usize)
        ensures
            r == if self.pending@.len() <= TOKEN_CHUNK_SIZE { self.pending@.len() as int } else { TOKEN_CHUNK_SIZE as int },
    {
        if self.pending.len() <= TOKEN_CHUNK_SIZE {
            self.pending.len()
        } else {
            TOKEN_CHUNK_SIZE
        }
    }

    /// Records one driver step: the driver consumed the first `consumed`
    /// pending tokens and produced `step_rows` — one row per consumed
    /// position in `Full` mode, the step's single (final-position) row in
    /// `Last` mode, each row one logit per vocabulary entry.  The pending
    /// suffix strictly shrinks.
    pub fn step(&mut self, consumed: usize, step_rows: Vec<Vec<u32>>)
        requires
            old(self).wf(),
            old(self).pending@.len() > 0,
            1 <= consumed <= old(self).pending@.len(),
            consumed <= TOKEN_CHUNK_SIZE,
            old(self).mode == OutputMode::Full ==> step_rows@.len() == consumed
                && forall|i: int| 0 <= i < step_rows@.len() ==> (#[trigger] step_rows@[i])@.len() == old(self).num_vocab,
            old(self).mode == OutputMode::Last ==> step_rows@.len() == 1
                && step_rows@[0]@.len() == old(self).num_vocab,
        ensures
            final(self).wf(),
            final(self).mode == old(self).mode,
            final(self).input_len == old(self).input_len,
            final(self).num_vocab == old(self).num_vocab,
            final(self).pending@ == old(self).pending@.skip(consumed as int),
            final(self).pending@.len() == old(self).pending@.len() - consumed,
            final(self).steps == old(self).steps + 1,
            old(self).mode == OutputMode::Full ==> final(self).rows@ == old(self).rows@ + step_rows@,
            old(self).mode == OutputMode::Last ==> final(self).rows@ == step_rows@,
    {
        let mut rest: Vec<u16> = Vec::new();
        let mut i: usize = consumed;
        while i < self.pending.len()
            invariant
                consumed <= i <= self.pending@.len(),
                rest@ == self.pending@.subrange(consumed as int, i as int),
            decreases self.pending@.len() - i,
        {
            rest.push(self.pending[i]);
            i += 1;
        }
        proof {
            assert(rest@ =~= self.pending@.skip(consumed as int));
        }
        self.pending = rest;
        match self.mode {
            OutputMode::Full => {
                let mut incoming = step_rows;
                self.rows.append(&mut incoming);
            }
            OutputMode::Last => {
                self.rows = step_rows;
            }
        }
        self.steps = self.steps + 1;
    }

    /// `Full`-mode result: the accumulated rows, one per input position.
    pub fn into_rows(self) -> (r: Vec<Vec<u32>>)
        requires
            self.wf(),
            self.mode == OutputMode::Full,
            self.pending@.len() == 0,
        ensures
            r@ == self.rows@,
            r@.len() == self.input_len,
            forall|i: int| 0 <= i < r@.len() ==> (#[trigger] r@[i])@.len() == self.num_vocab,
    {
        self.rows
    }

    /// `Last`-mode result: the final position's row, one logit per
    /// vocabulary entry.
    pub fn into_last(self) -> (r: Vec<u32>)
        requires
            self.wf(),
            self.mode == OutputMode::Last,
            self.pending@.len() == 0,
        ensures
            r@ == self.rows@[0]@,
            r@.len() == self.num_vocab,
    {
        let mut rows = self.rows;
        let r = rows.remove(0);
        r
    }
}

/// Law (termination): every recorded step consumes at least one pending
/// token, so a run over `n` input tokens takes at most `n` steps, and a run
/// that has taken `n` steps has consumed the batch entirely.
pub proof fn lemma_engine_terminates(e: InferenceEngine)
    requires
        e.wf(),
    ensures
        e.steps <= e.input_len,
        e.steps == e.input_len ==> e.pending@.len() == 0,
{
}

/// Law (full output accounting): once the pending suffix is empty, the
/// `Full`-mode output holds exactly one row per input token.
pub proof fn lemma_full_output_complete(e: InferenceEngine)
    requires
        e.wf(),
        e.mode == OutputMode::Full,
        e.pending@.len() == 0,
    ensures
        e.rows@.len() == e.input_len,
{
}

} // verus!
