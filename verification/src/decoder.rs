//! The incremental decoder loop.
//!
//! One generation run is a session that owns the delay-pattern grid, the
//! key/value-cache bookkeeping and the step counter.  Each step the
//! surrounding application invokes the sequence model, combines the
//! conditional and unconditional logits and samples one token per
//! codebook; the session only ever sees the outcome of that work, as a
//! [`StepEvent`], and makes every decision that follows from it: writing
//! the sampled column, advancing the caches, preparing the next input
//! column, reporting progress, and classifying failures.  The float
//! tensors of the caches live with the application; the session tracks
//! what the loop's correctness depends on, their accumulated sequence
//! lengths.

use vstd::prelude::*;

use crate::GenError;
use crate::delay::DelayGrid;

verus! {

/// Bookkeeping for the two per-layer cache families.  Every layer's
/// self-attention ("decoder") entry has the same accumulated sequence
/// length, and the cross-attention ("encoder") entries are populated once,
/// on the first step, with the encoder output's sequence length, and are
/// never touched again.
pub struct CacheModel {
    num_layers: usize,
    self_len: usize,
    cross_len: usize,
}

impl CacheModel {
    pub closed spec fn spec_num_layers(&self) -> usize {
        self.num_layers
    }

    /// Sequence length of every self-attention cache entry.
    pub closed spec fn spec_self_len(&self) -> usize {
        self.self_len
    }

    /// Sequence length of every cross-attention cache entry; 0 while the
    /// cross-attention cache is still unpopulated.
    pub closed spec fn spec_cross_len(&self) -> usize {
        self.cross_len
    }

    /// Allocates the model of both cache families with zero-length
    /// sequence dimensions.
    pub fn new(num_layers: usize) -> (c: CacheModel)
        ensures
            c.spec_num_layers() == num_layers,
            c.spec_self_len() == 0,
            c.spec_cross_len() == 0,
    {
        CacheModel { num_layers, self_len: 0, cross_len: 0 }
    }

    pub fn num_layers(&self) -> (r: usize)
        ensures
            r == self.spec_num_layers(),
    {
        self.num_layers
    }

    pub fn self_len(&self) -> (r: usize)
        ensures
            r == self.spec_self_len(),
    {
        self.self_len
    }

    pub fn cross_len(&self) -> (r: usize)
        ensures
            r == self.spec_cross_len(),
    {
        self.cross_len
    }

    /// Accounts for one model call: the self-attention cache is replaced
    /// by the "present" outputs and grows by exactly one timestep, and on
    /// the first call only, the cross-attention cache is populated with
    /// the encoder output's sequence length.
    pub fn on_step(&mut self, encoder_seq_len: usize)
        requires
            old(self).spec_self_len() < usize::MAX,
            encoder_seq_len >= 1,
        ensures
            final(self).spec_num_layers() == old(self).spec_num_layers(),
            final(self).spec_self_len() == old(self).spec_self_len() + 1,
            final(self).spec_cross_len() == (if old(self).spec_self_len() == 0 {
                encoder_seq_len
            } else {
                old(self).spec_cross_len()
            }),
    {
        if self.self_len == 0 {
            self.cross_len = encoder_seq_len;
        }
        self.self_len = self.self_len + 1;
    }
}

/// What one invocation of the sequence model (with guidance and sampling
/// applied to its logits) came to.
pub enum StepEvent {
    /// One sampled token per codebook for the current timestep.
    Tokens(Vec<i64>),
    /// The cancellation signal was observed before the model was invoked.
    Cancelled,
    /// The model call failed; the payload describes the cause.
    Failed(String),
}

/// The collaborators one decoding step needs: the sequence model (with
/// guidance and sampling around it) and the progress sink.  The library
/// drives the loop and trusts nothing about the implementation: whatever
/// `next_step` returns, the session states what follows.
pub trait StepSource {
    /// Produce the outcome of generation step `step` of `num_steps`,
    /// given the grid column fed back as the model's next input (one
    /// entry per grid row).  Checking the cancellation signal first is
    /// this method's business.
    fn next_step(&mut self, step: usize, num_steps: usize, input: &Vec<i64>) -> StepEvent;

    /// Observe that `completed` of `num_steps` steps are done.  The loop
    /// calls this with a non-decreasing `completed` and finally with
    /// `completed == num_steps`.
    fn report_progress(&mut self, completed: usize, num_steps: usize);
}

/// The state of one generation run: created at the start of a `generate`
/// call, advanced monotonically one step at a time, and discarded after
/// the grid is taken out.  The run is done after `max_length - 1` steps.
pub struct GenerationSession {
    grid: DelayGrid,
    cache: CacheModel,
    step: usize,
    num_steps: usize,
    encoder_seq_len: usize,
    next_input: Vec<i64>,
}

impl GenerationSession {
    pub closed spec fn spec_grid(&self) -> DelayGrid {
        self.grid
    }

    pub closed spec fn spec_cache(&self) -> CacheModel {
        self.cache
    }

    /// Completed generation steps.
    pub closed spec fn spec_step(&self) -> usize {
        self.step
    }

    /// Total generation steps of the run: `max_length - 1`.
    pub closed spec fn spec_num_steps(&self) -> usize {
        self.num_steps
    }

    pub closed spec fn spec_encoder_seq_len(&self) -> usize {
        self.encoder_seq_len
    }

    /// The grid column fed to the sequence model as its next input.
    pub closed spec fn spec_next_input(&self) -> Seq<i64> {
        self.next_input@
    }

    /// The session is in its terminal state.
    pub open spec fn spec_done(&self) -> bool {
        self.spec_step() == self.spec_num_steps()
    }

    /// Well-formedness of a session: the grid is well-formed and filled
    /// with exactly one column per completed step (plus the
    /// beginning-of-sequence column), the cache lengths agree with the
    /// step counter, and the next input column is the last written grid
    /// column.
    pub closed spec fn wf(&self) -> bool {
        &&& self.grid.wf()
        &&& self.num_steps + 1 == self.grid.spec_max_length()
        &&& self.step <= self.num_steps
        &&& self.grid.spec_filled() == self.step + 1
        &&& self.encoder_seq_len >= 1
        &&& self.cache.spec_self_len() == self.step
        &&& self.cache.spec_cross_len() == (if self.step == 0 {
            0
        } else {
            self.encoder_seq_len
        })
        &&& self.next_input@.len() == 2 * self.grid.spec_num_codebooks()
        &&& forall|r: int|
            0 <= r < 2 * self.grid.spec_num_codebooks() ==> #[trigger] self.next_input@[r]
                == self.grid.token_at(r, self.step as int)
    }

    /// Initializes a run: a fresh grid, caches with zero-length sequence
    /// dimensions, the step counter at zero, and the beginning-of-sequence
    /// column as the first model input.
    pub fn new(
        num_codebooks: usize,
        max_length: usize,
        pad_token: i64,
        bos_token: i64,
        num_layers: usize,
        encoder_seq_len: usize,
    ) -> (s: GenerationSession)
        requires
            1 <= num_codebooks,
            num_codebooks < max_length,
            2 * num_codebooks <= usize::MAX,
            encoder_seq_len >= 1,
        ensures
            s.wf(),
            s.spec_step() == 0,
            s.spec_num_steps() == max_length - 1,
            s.spec_encoder_seq_len() == encoder_seq_len,
            s.spec_cache().spec_num_layers() == num_layers,
            s.spec_cache().spec_self_len() == 0,
            s.spec_cache().spec_cross_len() == 0,
            s.spec_grid().spec_num_codebooks() == num_codebooks,
            s.spec_grid().spec_max_length() == max_length,
            s.spec_grid().spec_pad_token() == pad_token,
            s.spec_grid().spec_bos_token() == bos_token,
            !s.spec_done(),
    {
        let grid = DelayGrid::new(num_codebooks, max_length, pad_token, bos_token);
        let cache = CacheModel::new(num_layers);
        let next_input = grid.column(0);
        GenerationSession {
            grid,
            cache,
            step: 0,
            num_steps: max_length - 1,
            encoder_seq_len,
            next_input,
        }
    }

    pub fn step(&self) -> (r: usize)
        ensures
            r == self.spec_step(),
    {
        self.step
    }

    pub fn num_steps(&self) -> (r: usize)
        ensures
            r == self.spec_num_steps(),
    {
        self.num_steps
    }

    pub fn is_done(&self) -> (r: bool)
        ensures
            r == self.spec_done(),
    {
        self.step == self.num_steps
    }

    pub fn cache(&self) -> (r: &CacheModel)
        ensures
            *r == self.spec_cache(),
    {
        &self.cache
    }

    pub fn next_input(&self) -> (r: &Vec<i64>)
        ensures
            r@ == self.spec_next_input(),
    {
        &self.next_input
    }

    /// Surrenders the completed grid.
    pub fn into_grid(self) -> (g: DelayGrid)
        ensures
            g == self.spec_grid(),
    {
        self.grid
    }

    /// Makes every decision one step outcome calls for.  For a token
    /// column of the right width: the sampled tokens are written into the
    /// next grid column (mirrored into both batch halves, padding where a
    /// codebook is not yet active), the cache bookkeeping advances, the
    /// just-written column becomes the next input, and the step counter
    /// moves.  A token column of the wrong width is a shape fault; a
    /// cancellation or a model failure is returned as its own error kind.
    /// Any error leaves the session untouched.
    pub fn apply_event(&mut self, event: StepEvent) -> (r: Result<(), GenError>)
        requires
            old(self).wf(),
            !old(self).spec_done(),
        ensures
            match event {
                StepEvent::Tokens(toks) => {
                    if toks@.len() == old(self).spec_grid().spec_num_codebooks() {
                        &&& r is Ok
                        &&& final(self).wf()
                        &&& final(self).spec_step() == old(self).spec_step() + 1
                        &&& final(self).spec_num_steps() == old(self).spec_num_steps()
                        &&& final(self).spec_encoder_seq_len() == old(self).spec_encoder_seq_len()
                        &&& final(self).spec_cache().spec_num_layers() == old(
                            self,
                        ).spec_cache().spec_num_layers()
                        &&& final(self).spec_cache().spec_self_len() == old(
                            self,
                        ).spec_cache().spec_self_len() + 1
                        &&& final(self).spec_grid().spec_num_codebooks() == old(
                            self,
                        ).spec_grid().spec_num_codebooks()
                        &&& final(self).spec_grid().spec_max_length() == old(
                            self,
                        ).spec_grid().spec_max_length()
                        &&& final(self).spec_grid().spec_pad_token() == old(
                            self,
                        ).spec_grid().spec_pad_token()
                        &&& final(self).spec_grid().spec_bos_token() == old(
                            self,
                        ).spec_grid().spec_bos_token()
                        &&& final(self).spec_grid().spec_filled() == old(
                            self,
                        ).spec_grid().spec_filled() + 1
                        &&& forall|rr: int, t: int|
                            0 <= rr < 2 * old(self).spec_grid().spec_num_codebooks() && 0 <= t
                                < old(self).spec_grid().spec_max_length() && t != old(
                                self,
                            ).spec_step() + 1 ==> #[trigger] final(self).spec_grid().token_at(rr, t)
                                == old(self).spec_grid().token_at(rr, t)
                        &&& forall|rr: int|
                            0 <= rr < 2 * old(self).spec_grid().spec_num_codebooks()
                                ==> #[trigger] final(self).spec_grid().token_at(
                                rr,
                                old(self).spec_step() + 1,
                            ) == (if old(self).spec_step() + 1 > crate::delay::codebook_of_row(
                                rr,
                                old(self).spec_grid().spec_num_codebooks() as int,
                            ) {
                                toks@[crate::delay::codebook_of_row(
                                    rr,
                                    old(self).spec_grid().spec_num_codebooks() as int,
                                )]
                            } else {
                                old(self).spec_grid().spec_pad_token()
                            })
                    } else {
                        &&& r matches Err(GenError::Shape(_))
                        &&& *final(self) == *old(self)
                    }
                },
                StepEvent::Cancelled => {
                    &&& r == Err::<(), GenError>(GenError::Cancelled)
                    &&& *final(self) == *old(self)
                },
                StepEvent::Failed(m) => {
                    &&& r matches Err(GenError::ModelInvocation(mm)) && mm@ == m@
                    &&& *final(self) == *old(self)
                },
            },
    {
        match event {
            StepEvent::Tokens(toks) => {
                if toks.len() != self.grid.num_codebooks() {
                    return Err(
                        GenError::Shape(
                            "sampled token column does not match the codebook count".to_owned(),
                        ),
                    );
                }
                self.grid.write_next_column(&toks);
                self.cache.on_step(self.encoder_seq_len);
                let written = self.step + 1;
                self.next_input = self.grid.column(written);
                self.step = written;
                Ok(())
            },
            StepEvent::Cancelled => Err(GenError::Cancelled),
            StepEvent::Failed(m) => Err(GenError::ModelInvocation(m)),
        }
    }

    /// The mirror law, at the session level: after any number of applied
    /// steps, the conditional and unconditional halves of the grid hold
    /// identical tokens in every column, because each sampled token is
    /// written to both rows of its codebook and guidance never touches
    /// the grid.
    pub proof fn lemma_mirror(&self)
        requires
            self.wf(),
        ensures
            forall|r: int, t: int|
                0 <= r < self.spec_grid().spec_num_codebooks() && 0 <= t
                    < self.spec_grid().spec_max_length() ==> #[trigger] self.spec_grid().token_at(
                    r,
                    t,
                ) == self.spec_grid().token_at(r + self.spec_grid().spec_num_codebooks(), t),
    {
        self.grid.lemma_mirror();
    }

    /// The cache-growth law: after `n` completed steps the self-attention
    /// cache holds exactly `n` timesteps, and the cross-attention cache
    /// was populated by the first step with the encoder output's length
    /// and has kept it ever since.
    pub proof fn lemma_cache_growth(&self)
        requires
            self.wf(),
        ensures
            self.spec_cache().spec_self_len() == self.spec_step(),
            self.spec_step() >= 1 ==> self.spec_cache().spec_cross_len()
                == self.spec_encoder_seq_len(),
            self.spec_step() == 0 ==> self.spec_cache().spec_cross_len() == 0,
    {
    }
}

/// Runs the whole decoder loop against a step source: `max_length - 1`
/// steps, each writing one sampled column and reporting progress, with a
/// final completion notification.  On success the returned grid is the
/// completed delay-pattern grid, fully filled.  The loop aborts on the
/// first cancellation, model failure or shape fault, leaving no partial
/// output.
pub fn run_decoder<S: StepSource>(
    source: &mut S,
    num_codebooks: usize,
    max_length: usize,
    pad_token: i64,
    bos_token: i64,
    num_layers: usize,
    encoder_seq_len: usize,
) -> (r: Result<DelayGrid, GenError>)
    requires
        1 <= num_codebooks,
        num_codebooks < max_length,
        2 * num_codebooks <= usize::MAX,
        encoder_seq_len >= 1,
    ensures
        match r {
            Ok(g) => {
                &&& g.wf()
                &&& g.spec_num_codebooks() == num_codebooks
                &&& g.spec_max_length() == max_length
                &&& g.spec_pad_token() == pad_token
                &&& g.spec_bos_token() == bos_token
                &&& g.spec_filled() == max_length
            },
            Err(e) => !(e matches GenError::Tokenization(_)) && !(e
                matches GenError::Generation(_)),
        },
{
    let mut session = GenerationSession::new(
        num_codebooks,
        max_length,
        pad_token,
        bos_token,
        num_layers,
        encoder_seq_len,
    );
    while !session.is_done()
        invariant
            session.wf(),
            session.spec_grid().spec_num_codebooks() == num_codebooks,
            session.spec_grid().spec_max_length() == max_length,
            session.spec_grid().spec_pad_token() == pad_token,
            session.spec_grid().spec_bos_token() == bos_token,
        decreases session.spec_num_steps() - session.spec_step(),
    {
        let event = source.next_step(session.step(), session.num_steps(), session.next_input());
        match session.apply_event(event) {
            Ok(()) => {},
            Err(e) => {
                return Err(e);
            },
        }
        source.report_progress(session.step(), session.num_steps());
    }
    source.report_progress(session.num_steps(), session.num_steps());
    Ok(session.into_grid())
}

} // verus!
