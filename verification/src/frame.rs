//! The frame orchestrator: what to do with the layout engine's answer.
//!
//! Every frame the host queues its text with the layout engine and asks it to
//! process the queue against the atlas. The engine either accepts, with a new
//! list of vertex records or with the word that nothing changed, or it finds
//! the atlas too small and suggests a size. Then the atlas is recreated and
//! the queue is processed again, until the engine accepts. An engine that
//! keeps asking for more within one frame is a configuration error, not
//! something to spin on.

use vstd::prelude::*;
use vstd::string::StringExecFns;
use crate::atlas::{resolve_atlas_size, resolved_size};
use crate::decimal::{append_digits, digits};

verus! {

/// The layout engine's answer to one attempt at processing its queue.
#[derive(Clone, Copy, Debug, PartialEq, Eq)]
pub enum LayoutOutcome {
    /// Accepted, with a new list of `count` vertex records.
    Draw { count: usize },
    /// Accepted; the vertex records are those of the last frame.
    ReDraw,
    /// The atlas cannot hold the glyphs; `suggested` is a size that might.
    TextureTooSmall { suggested: (u32, u32) },
}

/// What the host does next.
#[derive(Clone, Copy, Debug, PartialEq, Eq)]
pub enum FrameAction {
    /// Delete the atlas texture, create it anew at `size`, report `size` to
    /// the layout engine and process the queue again.
    RecreateAtlas { size: (u32, u32) },
    /// Upload the `count` new vertex records; then clear, draw and present.
    UploadAndPresent { count: usize },
    /// Upload nothing; clear, draw what the buffer holds and present.
    Present,
}

/// Why a frame cannot be finished.
#[derive(Clone, Copy, Debug, PartialEq, Eq)]
pub enum FrameError {
    /// The layout engine found the atlas too small once more after
    /// `overflows` recreations in a row.
    UnboundedOverflowLoop { overflows: u32 },
}

impl FrameError {
    /// The error in words.
    pub open spec fn spec_message(self) -> Seq<char> {
        match self {
            FrameError::UnboundedOverflowLoop { overflows } => "the glyph atlas is still too small after "@
                + digits(overflows as nat) + " recreations in one frame"@,
        }
    }

    /// The text to show for the error.
    pub fn message(&self) -> (text: String)
        ensures
            text@ == self.spec_message(),
    {
        match self {
            FrameError::UnboundedOverflowLoop { overflows } => {
                let mut text = String::from_str("the glyph atlas is still too small after ");
                append_digits(*overflows as u64, &mut text);
                text.append(" recreations in one frame");
                text
            },
        }
    }
}

/// What the orchestrator keeps between the layout engine's answers.
#[derive(Clone, Copy, Debug, PartialEq, Eq)]
pub struct FrameOrchestrator {
    /// The driver's largest texture size.
    pub device_max: u32,
    /// How many recreations of the atlas in a row one frame may take.
    pub overflow_limit: u32,
    /// The size of the atlas texture, which is the size last reported to the
    /// layout engine.
    pub atlas: (u32, u32),
    /// The recreations in a row since the layout engine last accepted.
    pub overflows: u32,
}

/// The orchestrator after `outcome`.
pub open spec fn next_state(state: FrameOrchestrator, outcome: LayoutOutcome) -> FrameOrchestrator {
    match outcome {
        LayoutOutcome::TextureTooSmall { suggested } => if state.overflows >= state.overflow_limit {
            state
        } else {
            FrameOrchestrator {
                atlas: resolved_size(suggested, state.atlas, state.device_max),
                overflows: (state.overflows + 1) as u32,
                ..state
            }
        },
        _ => FrameOrchestrator { overflows: 0, ..state },
    }
}

/// What the host is told to do on `outcome`.
pub open spec fn next_action(state: FrameOrchestrator, outcome: LayoutOutcome) -> Result<
    FrameAction,
    FrameError,
> {
    match outcome {
        LayoutOutcome::TextureTooSmall { suggested } => if state.overflows >= state.overflow_limit {
            Err(FrameError::UnboundedOverflowLoop { overflows: state.overflows })
        } else {
            Ok(
                FrameAction::RecreateAtlas {
                    size: resolved_size(suggested, state.atlas, state.device_max),
                },
            )
        },
        LayoutOutcome::Draw { count } => Ok(FrameAction::UploadAndPresent { count }),
        LayoutOutcome::ReDraw => Ok(FrameAction::Present),
    }
}

/// The orchestrator after a series of outcomes, from the first to the last.
pub open spec fn state_after(state: FrameOrchestrator, outcomes: Seq<LayoutOutcome>) -> FrameOrchestrator
    decreases outcomes.len(),
{
    if outcomes.len() == 0 {
        state
    } else {
        next_state(state_after(state, outcomes.drop_last()), outcomes.last())
    }
}

/// What the host was told on the outcome at position `i` of a series.
pub open spec fn action_at(state: FrameOrchestrator, outcomes: Seq<LayoutOutcome>, i: int) -> Result<
    FrameAction,
    FrameError,
> {
    next_action(state_after(state, outcomes.take(i)), outcomes[i])
}

impl FrameOrchestrator {
    /// No more recreations in a row are on record than a frame may take.
    pub open spec fn wf(&self) -> bool {
        self.overflows <= self.overflow_limit
    }

    /// An orchestrator for an atlas of size `atlas` on a device whose
    /// largest texture size is `device_max`, which lets a frame recreate the
    /// atlas `overflow_limit` times in a row.
    pub fn new(device_max: u32, atlas: (u32, u32), overflow_limit: u32) -> (orchestrator: Self)
        ensures
            orchestrator == (FrameOrchestrator { device_max, overflow_limit, atlas, overflows: 0 }),
            orchestrator.wf(),
    {
        FrameOrchestrator { device_max, overflow_limit, atlas, overflows: 0 }
    }

    /// Whether the orchestrator is well formed.
    pub fn is_well_formed(&self) -> (ok: bool)
        ensures
            ok == self.wf(),
    {
        self.overflows <= self.overflow_limit
    }

    /// The size of the atlas, as the layout engine knows it.
    pub fn atlas_size(&self) -> (size: (u32, u32))
        ensures
            size == self.atlas,
    {
        self.atlas
    }

    /// Takes the layout engine's answer and says what to do next.
    ///
    /// An accepted queue ends the frame: with new records they are uploaded
    /// first, without them the upload is skipped. A queue that does not fit
    /// makes the atlas be recreated at the resolved size, unless the frame
    /// has used up its recreations; then the answer is the error and nothing
    /// changes.
    pub fn on_layout(&mut self, outcome: LayoutOutcome) -> (action: Result<FrameAction, FrameError>)
        requires
            old(self).wf(),
        ensures
            final(self).wf(),
            *final(self) == next_state(*old(self), outcome),
            action == next_action(*old(self), outcome),
            final(self).device_max == old(self).device_max,
            final(self).overflow_limit == old(self).overflow_limit,
            action matches Ok(FrameAction::RecreateAtlas { size }) ==> final(self).atlas == size,
            !(action matches Ok(FrameAction::RecreateAtlas { .. })) ==> final(self).atlas == old(
                self,
            ).atlas,
            action is Err <==> outcome is TextureTooSmall && old(self).overflows
                == old(self).overflow_limit,
    {
        match outcome {
            LayoutOutcome::TextureTooSmall { suggested } => {
                if self.overflows >= self.overflow_limit {
                    Err(FrameError::UnboundedOverflowLoop { overflows: self.overflows })
                } else {
                    let size = resolve_atlas_size(suggested, self.atlas, self.device_max);
                    self.atlas = size;
                    self.overflows = self.overflows + 1;
                    Ok(FrameAction::RecreateAtlas { size })
                }
            },
            LayoutOutcome::Draw { count } => {
                self.overflows = 0;
                Ok(FrameAction::UploadAndPresent { count })
            },
            LayoutOutcome::ReDraw => {
                self.overflows = 0;
                Ok(FrameAction::Present)
            },
        }
    }
}

/// Where the layout engine suggests a size beyond the device's largest
/// texture while the atlas is still under that size on some axis, and the
/// frame has recreations left, the atlas is recreated as the device's largest
/// square, not at the suggested size.
pub proof fn lemma_oversized_suggestion_recreates_at_device_max(
    state: FrameOrchestrator,
    suggested: (u32, u32),
)
    requires
        state.overflows < state.overflow_limit,
        suggested.0 > state.device_max || suggested.1 > state.device_max,
        state.atlas.0 < state.device_max || state.atlas.1 < state.device_max,
    ensures
        next_action(state, LayoutOutcome::TextureTooSmall { suggested }) == Ok::<
            FrameAction,
            FrameError,
        >(FrameAction::RecreateAtlas { size: (state.device_max, state.device_max) }),
        next_state(state, LayoutOutcome::TextureTooSmall { suggested }).atlas == (
            state.device_max,
            state.device_max,
        ),
        (state.device_max, state.device_max) != suggested,
{
}

/// Whatever the layout engine answers, the orchestrator stays well formed
/// and keeps its device limit and its overflow limit.
pub proof fn lemma_state_after_keeps_limits(state: FrameOrchestrator, outcomes: Seq<LayoutOutcome>)
    requires
        state.wf(),
    ensures
        state_after(state, outcomes).wf(),
        state_after(state, outcomes).device_max == state.device_max,
        state_after(state, outcomes).overflow_limit == state.overflow_limit,
    decreases outcomes.len(),
{
    if outcomes.len() > 0 {
        lemma_state_after_keeps_limits(state, outcomes.drop_last());
    }
}

/// The atlas always has the size that was last handed out: after any series
/// of outcomes it is the size of the latest recreation, or the size that the
/// orchestrator started with if the series led to none.
pub proof fn lemma_atlas_is_last_recreation(state: FrameOrchestrator, outcomes: Seq<LayoutOutcome>)
    requires
        state.wf(),
    ensures
        ({
            let atlas = state_after(state, outcomes).atlas;
            ||| (atlas == state.atlas && forall|i: int|
                0 <= i < outcomes.len() ==> !(#[trigger] action_at(state, outcomes, i) matches Ok(
                    FrameAction::RecreateAtlas { .. },
                )))
            ||| exists|i: int|
                0 <= i < outcomes.len() && #[trigger] action_at(state, outcomes, i) == Ok::<
                    FrameAction,
                    FrameError,
                >(FrameAction::RecreateAtlas { size: atlas }) && forall|j: int|
                    i < j < outcomes.len() ==> !(#[trigger] action_at(state, outcomes, j) matches Ok(
                        FrameAction::RecreateAtlas { .. },
                    ))
        }),
    decreases outcomes.len(),
{
    if outcomes.len() > 0 {
        let front = outcomes.drop_last();
        let n = front.len() as int;
        lemma_atlas_is_last_recreation(state, front);
        assert(outcomes.take(n) =~= front);
        assert forall|i: int| 0 <= i < n implies #[trigger] action_at(state, outcomes, i) == action_at(
            state,
            front,
            i,
        ) by {
            assert(outcomes.take(i) =~= front.take(i));
            assert(outcomes[i] == front[i]);
        }
        let before = state_after(state, front);
        let last = action_at(state, outcomes, n);
        assert(last == next_action(before, outcomes.last()));
        if last matches Ok(FrameAction::RecreateAtlas { .. }) {
            assert(last == Ok::<FrameAction, FrameError>(
                FrameAction::RecreateAtlas { size: state_after(state, outcomes).atlas },
            ));
        } else {
            assert(state_after(state, outcomes).atlas == before.atlas);
            if before.atlas == state.atlas && forall|i: int|
                0 <= i < n ==> !(#[trigger] action_at(state, front, i) matches Ok(
                    FrameAction::RecreateAtlas { .. },
                )) {
            } else {
                let i = choose|i: int|
                    0 <= i < n && #[trigger] action_at(state, front, i) == Ok::<FrameAction, FrameError>(
                        FrameAction::RecreateAtlas { size: before.atlas },
                    ) && forall|j: int|
                        i < j < n ==> !(#[trigger] action_at(state, front, j) matches Ok(
                            FrameAction::RecreateAtlas { .. },
                        ));
                assert(action_at(state, outcomes, i) == action_at(state, front, i));
            }
        }
    }
}

/// A frame never recreates the atlas more often in a row than its limit
/// allows: of any `overflow_limit + 1` answers in a row that found the atlas
/// too small, the last one is answered with the error.
pub proof fn lemma_overflows_are_bounded(state: FrameOrchestrator, outcomes: Seq<LayoutOutcome>, i: int)
    requires
        state.wf(),
        0 <= i < outcomes.len(),
        i >= state.overflow_limit,
        forall|j: int| i - state.overflow_limit <= j <= i ==> #[trigger] outcomes[j] is TextureTooSmall,
    ensures
        action_at(state, outcomes, i) is Err,
{
    let front = outcomes.take(i);
    assert forall|j: int| front.len() - state.overflow_limit <= j < front.len() implies #[trigger] front[j] is TextureTooSmall by {
        assert(front[j] == outcomes[j]);
    }
    lemma_overflow_count_lower_bound(state, front, state.overflow_limit as int);
    lemma_state_after_keeps_limits(state, front);
    assert(outcomes[i] is TextureTooSmall);
}

/// After `k` answers in a row that found the atlas too small, at least `k`
/// recreations are on record, up to the limit.
proof fn lemma_overflow_count_lower_bound(state: FrameOrchestrator, outcomes: Seq<LayoutOutcome>, k: int)
    requires
        state.wf(),
        0 <= k <= outcomes.len(),
        k <= state.overflow_limit,
        forall|j: int| outcomes.len() - k <= j < outcomes.len() ==> #[trigger] outcomes[j] is TextureTooSmall,
    ensures
        state_after(state, outcomes).overflows >= k,
    decreases k,
{
    lemma_state_after_keeps_limits(state, outcomes);
    if k > 0 {
        let front = outcomes.drop_last();
        lemma_state_after_keeps_limits(state, front);
        assert forall|j: int| front.len() - (k - 1) <= j < front.len() implies #[trigger] front[j] is TextureTooSmall by {
            assert(front[j] == outcomes[j]);
        }
        lemma_overflow_count_lower_bound(state, front, k - 1);
        assert(outcomes.last() is TextureTooSmall);
    }
}

} // verus!
