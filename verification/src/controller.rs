//! Animation and history controller.
//!
//! A [`PuzzleController`] owns two puzzle snapshots — `displayed`, which lags
//! behind the animation, and `latest`, with all queued twists already applied
//! — a queue of twists transforming the one into the other, undo/redo
//! stacks, and per-metric twist counting. Animation progress is tracked in
//! fixed-point units ([`PROGRESS_UNIT`] units make one full twist); the
//! caller converts frame times into progress deltas and applies any easing
//! curve outside the library.

use crate::orient::PieceState;
use crate::puzzle4d::{
    lemma_apply_twist_reverse, spec_apply_twist, PuzzleTypeEnum, Rubiks4D,
};
use crate::topology::{spec_surface_points, Location, MAX_LAYER_COUNT, MIN_LAYER_COUNT};
use crate::twists::{PuzzleError, Twist, TwistMetric};
use std::collections::VecDeque;
use vstd::pervasive::unreached;
use vstd::prelude::*;

verus! {

/// Fixed-point animation progress scale: this many units mean one fully
/// animated twist (a progress of 1.0).
pub const PROGRESS_UNIT: u32 = 1000000;

/// If at least this much of a twist (one third) would be animated in one
/// frame, the animation is skipped outright to reduce unnecessary flashing.
pub const MIN_TWIST_DELTA: u32 = 333333;

/// Whether the puzzle has been scrambled.
#[derive(Debug, Copy, Clone, PartialEq, Eq, Structural)]
pub enum ScrambleState {
    /// Unscrambled.
    Unscrambled,
    /// Some small number of scramble twists.
    Partial,
    /// Fully scrambled.
    Full,
    /// Was solved by the user even if not currently solved.
    Solved,
}

impl Default for ScrambleState {
    /// A new puzzle starts unscrambled.
    fn default() -> (r: ScrambleState)
        ensures
            r == ScrambleState::Unscrambled,
    {
        ScrambleState::Unscrambled
    }
}

/// The puzzle state after a whole twist sequence, applied in order.
pub open spec fn spec_apply_twists(
    n: u8,
    locs: Seq<Location>,
    states: Seq<PieceState>,
    twists: Seq<Twist>,
) -> Seq<PieceState>
    decreases twists.len(),
{
    if twists.len() == 0 {
        states
    } else {
        spec_apply_twists(n, locs, spec_apply_twist(n, locs, states, twists[0]), twists.skip(1))
    }
}

/// Appending a twist to a sequence applies it after the rest.
pub proof fn lemma_apply_twists_push(
    n: u8,
    locs: Seq<Location>,
    states: Seq<PieceState>,
    twists: Seq<Twist>,
    t: Twist,
)
    ensures
        spec_apply_twists(n, locs, states, twists.push(t)) == spec_apply_twist(
            n,
            locs,
            spec_apply_twists(n, locs, states, twists),
            t,
        ),
    decreases twists.len(),
{
    if twists.len() == 0 {
        assert(twists.push(t)[0] == t);
        assert(twists.push(t).skip(1) =~= Seq::<Twist>::empty());
        assert(spec_apply_twists(
            n,
            locs,
            spec_apply_twist(n, locs, states, t),
            Seq::<Twist>::empty(),
        ) == spec_apply_twist(n, locs, states, t));
    } else {
        assert(twists.push(t)[0] == twists[0]);
        assert(twists.push(t).skip(1) =~= twists.skip(1).push(t));
        lemma_apply_twists_push(n, locs, spec_apply_twist(n, locs, states, twists[0]), twists.skip(1), t);
    }
}

/// The history transition a successful `twist` call makes: the new `latest`
/// states, the new undo stack, and the new redo stack. When the new twist is
/// the reverse of the most recently recorded one, the call merges into an
/// undo: the recorded twist is popped and moved to the redo stack; otherwise
/// the twist is recorded and the redo stack is cleared. Either way `latest`
/// gets the new twist applied.
pub open spec fn spec_twist_op(
    n: u8,
    locs: Seq<Location>,
    latest: Seq<PieceState>,
    undo: Seq<Twist>,
    t: Twist,
) -> (Seq<PieceState>, Seq<Twist>, Seq<Twist>) {
    if undo.len() > 0 && undo.last() == t.spec_rev() {
        (spec_apply_twist(n, locs, latest, t), undo.drop_last(), seq![t.spec_rev()])
    } else {
        (spec_apply_twist(n, locs, latest, t), undo.push(t), Seq::<Twist>::empty())
    }
}

/// Law: undoing immediately after `twist(t)` restores `latest` to its
/// pre-twist value and the undo stack to its pre-twist contents, and redoing
/// after that undo restores the twisted value again. (Stated for a twist
/// that does not itself merge with the history.)
pub proof fn lemma_undo_after_twist(
    n: u8,
    locs: Seq<Location>,
    latest: Seq<PieceState>,
    undo: Seq<Twist>,
    t: Twist,
)
    requires
        forall|i: int| 0 <= i < latest.len() ==> (#[trigger] latest[i]).wf(),
        undo.len() == 0 || undo.last() != t.spec_rev(),
    ensures
        ({
            let op = spec_twist_op(n, locs, latest, undo, t);
            let after_undo = spec_apply_twist(n, locs, op.0, op.1.last().spec_rev());
            &&& op.1.len() > 0 && op.1.last() == t
            &&& op.1.drop_last() == undo
            &&& after_undo == latest
            &&& spec_apply_twist(n, locs, after_undo, t) == op.0
        }),
{
    lemma_apply_twist_reverse(n, locs, latest, t);
    let op = spec_twist_op(n, locs, latest, undo, t);
    assert(op.1.drop_last() =~= undo);
}

/// Law: issuing `twist(t)` and then `twist(reverse(t))` leaves `latest` and
/// the undo history exactly as if neither had been issued: the second call
/// auto-merges into an undo of the first. (Stated for a first twist that
/// does not itself merge with the history.)
pub proof fn lemma_twist_then_reverse_cancels(
    n: u8,
    locs: Seq<Location>,
    latest: Seq<PieceState>,
    undo: Seq<Twist>,
    t: Twist,
)
    requires
        forall|i: int| 0 <= i < latest.len() ==> (#[trigger] latest[i]).wf(),
        undo.len() == 0 || undo.last() != t.spec_rev(),
    ensures
        ({
            let op1 = spec_twist_op(n, locs, latest, undo, t);
            let op2 = spec_twist_op(n, locs, op1.0, op1.1, t.spec_rev());
            &&& op2.0 == latest
            &&& op2.1 == undo
        }),
{
    t.lemma_rev_rev();
    lemma_apply_twist_reverse(n, locs, latest, t);
    let op1 = spec_twist_op(n, locs, latest, undo, t);
    assert(op1.1.last() == t);
    assert(op1.1.drop_last() =~= undo);
}

/// How many moves a twist history counts for under a metric: adjacent twists
/// the metric considers combinable merge into one counted move, scanning
/// pairwise with a one-step lookback; the very first twist has no
/// predecessor.
pub open spec fn spec_twist_count(history: Seq<Twist>, metric: TwistMetric) -> int
    decreases history.len(),
{
    if history.len() == 0 {
        0
    } else {
        let i = history.len() - 1;
        let prev = if i == 0 {
            None
        } else {
            Some(history[i - 1])
        };
        spec_twist_count(history.drop_last(), metric) + if history[i].spec_can_combine(
            prev,
            metric,
        ) {
            0int
        } else {
            1int
        }
    }
}

/// Puzzle wrapper that adds animation and undo history functionality.
#[derive(Debug)]
pub struct PuzzleController {
    /// State of the puzzle right before the twist being animated right now.
    pub displayed: Rubiks4D,
    /// State of the puzzle with all twists applied to it (used for undo).
    pub latest: Rubiks4D,
    /// Queue of twists that transform the displayed state into the latest
    /// state.
    pub twist_queue: VecDeque<Twist>,
    /// Maximum number of twists in the queue (reset when the queue empties).
    pub queue_max: usize,
    /// Progress of the animation in the current twist, in fixed-point units
    /// from 0 to [`PROGRESS_UNIT`].
    pub progress: u32,
    /// Whether the puzzle has been modified since the last time a log file
    /// was saved.
    pub is_unsaved: bool,
    /// Whether the puzzle has been scrambled.
    pub scramble_state: ScrambleState,
    /// Scramble twists.
    pub scramble: Vec<Twist>,
    /// Undo history.
    pub undo_buffer: Vec<Twist>,
    /// Redo history.
    pub redo_buffer: Vec<Twist>,
}

impl PuzzleController {
    /// The layer count of the controller's puzzle type.
    pub open spec fn spec_layer_count(self) -> u8 {
        self.latest.spec_layer_count()
    }

    /// The pieces' initial locations, shared by both snapshots.
    pub open spec fn spec_locs(self) -> Seq<Location> {
        spec_surface_points(self.spec_layer_count())
    }

    /// Controller invariant: both snapshots are well-formed states of the
    /// same puzzle type, every recorded twist matches that type, animation
    /// progress never exceeds one twist, and applying every queued twist, in
    /// order, to `displayed` yields exactly `latest`.
    pub open spec fn wf(self) -> bool {
        &&& self.displayed.wf()
        &&& self.latest.wf()
        &&& self.displayed.spec_layer_count() == self.spec_layer_count()
        &&& self.progress <= PROGRESS_UNIT
        &&& forall|i: int|
            0 <= i < self.twist_queue@.len() ==> (#[trigger] self.twist_queue@[i]).layer_count
                == self.spec_layer_count()
        &&& forall|i: int|
            0 <= i < self.undo_buffer@.len() ==> (#[trigger] self.undo_buffer@[i]).layer_count
                == self.spec_layer_count()
        &&& forall|i: int|
            0 <= i < self.redo_buffer@.len() ==> (#[trigger] self.redo_buffer@[i]).layer_count
                == self.spec_layer_count()
        &&& spec_apply_twists(
            self.spec_layer_count(),
            self.spec_locs(),
            self.displayed.piece_states@,
            self.twist_queue@,
        ) == self.latest.piece_states@
    }

    /// Constructs a new controller with a solved puzzle.
    pub fn new(layer_count: u8) -> (r: PuzzleController)
        requires
            MIN_LAYER_COUNT <= layer_count <= MAX_LAYER_COUNT,
        ensures
            r.wf(),
            r.spec_layer_count() == layer_count,
            r.twist_queue@.len() == 0,
            r.undo_buffer@.len() == 0,
            r.redo_buffer@.len() == 0,
            r.scramble@.len() == 0,
            r.progress == 0,
            r.queue_max == 0,
            !r.is_unsaved,
            r.scramble_state == ScrambleState::Unscrambled,
            r.displayed.piece_states@ == r.latest.piece_states@,
            forall|i: int|
                0 <= i < r.latest.piece_states@.len() ==> (#[trigger] r.latest.piece_states@[i])
                    == PieceState::spec_solved(),
    {
        let displayed = Rubiks4D::new(layer_count);
        let latest = Rubiks4D::new(layer_count);
        proof {
            assert(displayed.piece_states@ =~= latest.piece_states@);
        }
        PuzzleController {
            displayed,
            latest,
            twist_queue: VecDeque::new(),
            queue_max: 0,
            progress: 0,
            is_unsaved: false,
            scramble_state: ScrambleState::Unscrambled,
            scramble: Vec::new(),
            undo_buffer: Vec::new(),
            redo_buffer: Vec::new(),
        }
    }

    /// The puzzle type.
    pub fn ty(&self) -> (t: PuzzleTypeEnum)
        ensures
            t == (PuzzleTypeEnum::Rubiks4D { layer_count: self.spec_layer_count() }),
    {
        self.latest.ty()
    }

    /// The layer count of the controller's puzzle type.
    pub fn layer_count(&self) -> (n: u8)
        ensures
            n == self.spec_layer_count(),
    {
        self.latest.layer_count()
    }

    /// The state of the puzzle that should be displayed, not including the
    /// twist currently being animated.
    pub fn displayed(&self) -> (r: &Rubiks4D)
        ensures
            *r == self.displayed,
    {
        &self.displayed
    }

    /// The state of the puzzle after all queued twists have been applied.
    pub fn latest(&self) -> (r: &Rubiks4D)
        ensures
            *r == self.latest,
    {
        &self.latest
    }

    /// Undoes one twist: pops it from the undo stack, applies its reverse to
    /// `latest`, enqueues that reverse for animation and pushes the popped
    /// twist onto the redo stack. Fails with `EmptyHistory` exactly when
    /// there is nothing to undo.
    pub fn undo(&mut self) -> (r: Result<(), PuzzleError>)
        requires
            old(self).wf(),
        ensures
            final(self).wf(),
            old(self).undo_buffer@.len() == 0 ==> r == Err::<(), PuzzleError>(
                PuzzleError::EmptyHistory,
            ) && *final(self) == *old(self),
            old(self).undo_buffer@.len() > 0 ==> ({
                let t = old(self).undo_buffer@.last();
                &&& r == Ok::<(), PuzzleError>(())
                &&& final(self).latest.piece_states@ == spec_apply_twist(
                    old(self).spec_layer_count(),
                    old(self).spec_locs(),
                    old(self).latest.piece_states@,
                    t.spec_rev(),
                )
                &&& final(self).undo_buffer@ == old(self).undo_buffer@.drop_last()
                &&& final(self).redo_buffer@ == old(self).redo_buffer@.push(t)
                &&& final(self).twist_queue@ == old(self).twist_queue@.push(t.spec_rev())
                &&& final(self).is_unsaved
                &&& final(self).displayed == old(self).displayed
                &&& final(self).latest.desc == old(self).latest.desc
                &&& final(self).progress == old(self).progress
                &&& final(self).queue_max == old(self).queue_max
                &&& final(self).scramble_state == old(self).scramble_state
                &&& final(self).scramble == old(self).scramble
            }),
    {
        if self.undo_buffer.len() == 0 {
            return Err(PuzzleError::EmptyHistory);
        }
        let t = match self.undo_buffer.pop() {
            Some(t) => t,
            None => {
                return Err(PuzzleError::EmptyHistory);
            },
        };
        self.is_unsaved = true;
        let rt = t.rev();
        let _ = self.latest.twist(rt);
        self.twist_queue.push_back(rt);
        self.redo_buffer.push(t);
        proof {
            lemma_apply_twists_push(
                self.spec_layer_count(),
                self.spec_locs(),
                self.displayed.piece_states@,
                old(self).twist_queue@,
                rt,
            );
        }
        Ok(())
    }

    /// Redoes one twist: pops it from the redo stack, applies it to
    /// `latest`, enqueues it for animation and pushes it back onto the undo
    /// stack. Fails with `EmptyHistory` exactly when there is nothing to
    /// redo.
    pub fn redo(&mut self) -> (r: Result<(), PuzzleError>)
        requires
            old(self).wf(),
        ensures
            final(self).wf(),
            old(self).redo_buffer@.len() == 0 ==> r == Err::<(), PuzzleError>(
                PuzzleError::EmptyHistory,
            ) && *final(self) == *old(self),
            old(self).redo_buffer@.len() > 0 ==> ({
                let t = old(self).redo_buffer@.last();
                &&& r == Ok::<(), PuzzleError>(())
                &&& final(self).latest.piece_states@ == spec_apply_twist(
                    old(self).spec_layer_count(),
                    old(self).spec_locs(),
                    old(self).latest.piece_states@,
                    t,
                )
                &&& final(self).redo_buffer@ == old(self).redo_buffer@.drop_last()
                &&& final(self).undo_buffer@ == old(self).undo_buffer@.push(t)
                &&& final(self).twist_queue@ == old(self).twist_queue@.push(t)
                &&& final(self).is_unsaved
                &&& final(self).displayed == old(self).displayed
                &&& final(self).latest.desc == old(self).latest.desc
                &&& final(self).progress == old(self).progress
                &&& final(self).queue_max == old(self).queue_max
                &&& final(self).scramble_state == old(self).scramble_state
                &&& final(self).scramble == old(self).scramble
            }),
    {
        if self.redo_buffer.len() == 0 {
            return Err(PuzzleError::EmptyHistory);
        }
        let t = match self.redo_buffer.pop() {
            Some(t) => t,
            None => {
                return Err(PuzzleError::EmptyHistory);
            },
        };
        self.is_unsaved = true;
        let _ = self.latest.twist(t);
        self.twist_queue.push_back(t);
        self.undo_buffer.push(t);
        proof {
            lemma_apply_twists_push(
                self.spec_layer_count(),
                self.spec_locs(),
                self.displayed.piece_states@,
                old(self).twist_queue@,
                t,
            );
        }
        Ok(())
    }

    /// Issues a twist: applies it to `latest`, enqueues it for animation and
    /// records it for undo, clearing the redo stack — except that a twist
    /// equal to the reverse of the most recently recorded one merges into an
    /// undo instead. Fails with `TypeMismatch` exactly when the twist's
    /// puzzle type differs from the controller's; the controller is then
    /// unchanged.
    pub fn twist(&mut self, t: Twist) -> (r: Result<(), PuzzleError>)
        requires
            old(self).wf(),
        ensures
            final(self).wf(),
            t.layer_count != old(self).spec_layer_count() ==> r == Err::<(), PuzzleError>(
                PuzzleError::TypeMismatch,
            ) && *final(self) == *old(self),
            t.layer_count == old(self).spec_layer_count() ==> ({
                let op = spec_twist_op(
                    old(self).spec_layer_count(),
                    old(self).spec_locs(),
                    old(self).latest.piece_states@,
                    old(self).undo_buffer@,
                    t,
                );
                &&& r == Ok::<(), PuzzleError>(())
                &&& final(self).latest.piece_states@ == op.0
                &&& final(self).undo_buffer@ == op.1
                &&& final(self).redo_buffer@ == op.2
                &&& final(self).twist_queue@ == old(self).twist_queue@.push(t)
                &&& final(self).is_unsaved
                &&& final(self).displayed == old(self).displayed
                &&& final(self).latest.desc == old(self).latest.desc
                &&& final(self).progress == old(self).progress
                &&& final(self).queue_max == old(self).queue_max
                &&& final(self).scramble_state == old(self).scramble_state
                &&& final(self).scramble == old(self).scramble
            }),
    {
        if t.layer_count != self.latest.layer_count() {
            return Err(PuzzleError::TypeMismatch);
        }
        self.is_unsaved = true;
        self.redo_buffer.clear();
        let merge = self.undo_buffer.len() > 0 && self.undo_buffer[self.undo_buffer.len() - 1]
            == t.rev();
        if merge {
            proof {
                t.lemma_rev_rev();
            }
            let r = self.undo();
            proof {
                assert(self.redo_buffer@ =~= seq![t.spec_rev()]);
            }
            r
        } else {
            let _ = self.latest.twist(t);
            self.twist_queue.push_back(t);
            self.undo_buffer.push(t);
            proof {
                lemma_apply_twists_push(
                    self.spec_layer_count(),
                    self.spec_locs(),
                    self.displayed.piece_states@,
                    old(self).twist_queue@,
                    t,
                );
            }
            Ok(())
        }
    }

    /// Performs a twist on the puzzle, built from a face, a named direction
    /// and a layer mask.
    pub fn do_twist_command(
        &mut self,
        face: crate::axes::Face,
        direction: crate::directions::TwistDirection,
        layer_mask: crate::twists::LayerMask,
    ) -> (r: Result<(), PuzzleError>)
        requires
            old(self).wf(),
        ensures
            final(self).wf(),
            ({
                let t = (Twist {
                    face,
                    direction,
                    layers: layer_mask,
                    layer_count: old(self).spec_layer_count(),
                });
                let op = spec_twist_op(
                    old(self).spec_layer_count(),
                    old(self).spec_locs(),
                    old(self).latest.piece_states@,
                    old(self).undo_buffer@,
                    t,
                );
                &&& r == Ok::<(), PuzzleError>(())
                &&& final(self).latest.piece_states@ == op.0
                &&& final(self).undo_buffer@ == op.1
                &&& final(self).redo_buffer@ == op.2
                &&& final(self).twist_queue@ == old(self).twist_queue@.push(t)
            }),
    {
        let t = Twist {
            face,
            direction,
            layers: layer_mask,
            layer_count: self.latest.layer_count(),
        };
        self.twist(t)
    }

    /// Rotates the whole puzzle to bring a face toward the viewer. Fails
    /// with `InvalidFace` exactly when the face has no valid recentering
    /// twist (the two faces on the W axis); the controller is then
    /// unchanged.
    pub fn do_recenter_command(&mut self, face: crate::axes::Face) -> (r: Result<
        (),
        PuzzleError,
    >)
        requires
            old(self).wf(),
        ensures
            final(self).wf(),
            Twist::spec_recenter_parts(face) is None ==> r == Err::<(), PuzzleError>(
                PuzzleError::InvalidFace,
            ) && *final(self) == *old(self),
            Twist::spec_recenter_parts(face) matches Some(parts) ==> ({
                let t = (Twist {
                    face: parts.0,
                    direction: parts.1,
                    layers: crate::twists::LayerMask::spec_all_layers(old(self).spec_layer_count()),
                    layer_count: old(self).spec_layer_count(),
                });
                let op = spec_twist_op(
                    old(self).spec_layer_count(),
                    old(self).spec_locs(),
                    old(self).latest.piece_states@,
                    old(self).undo_buffer@,
                    t,
                );
                &&& r == Ok::<(), PuzzleError>(())
                &&& final(self).latest.piece_states@ == op.0
                &&& final(self).undo_buffer@ == op.1
                &&& final(self).redo_buffer@ == op.2
                &&& final(self).twist_queue@ == old(self).twist_queue@.push(t)
            }),
    {
        let t = match Twist::from_face_recenter(face, self.latest.layer_count()) {
            Ok(t) => t,
            Err(e) => {
                return Err(e);
            },
        };
        self.twist(t)
    }

    /// Returns whether there is a twist to undo.
    pub fn has_undo(&self) -> (r: bool)
        ensures
            r == (self.undo_buffer@.len() > 0),
    {
        self.undo_buffer.len() > 0
    }

    /// Returns whether there is a twist to redo.
    pub fn has_redo(&self) -> (r: bool)
        ensures
            r == (self.redo_buffer@.len() > 0),
    {
        self.redo_buffer.len() > 0
    }

    /// Returns whether the puzzle has been modified since the last time a
    /// log file was saved.
    pub fn is_unsaved(&self) -> (r: bool)
        ensures
            r == self.is_unsaved,
    {
        self.is_unsaved
    }

    /// Whether the puzzle has been scrambled.
    pub fn scramble_state(&self) -> (r: ScrambleState)
        ensures
            r == self.scramble_state,
    {
        self.scramble_state
    }

    /// The twist currently being animated, along with the animation's raw
    /// progress in fixed-point units (0 to [`PROGRESS_UNIT`]); the caller
    /// maps these units through its easing curve.
    pub fn current_twist(&self) -> (r: Option<(Twist, u32)>)
        ensures
            self.twist_queue@.len() == 0 ==> r is None,
            self.twist_queue@.len() > 0 ==> r == Some((self.twist_queue@[0], self.progress)),
    {
        if self.twist_queue.len() > 0 {
            Some((self.twist_queue[0], self.progress))
        } else {
            None
        }
    }

    /// How many twists are queued for animation.
    pub fn queue_len(&self) -> (r: usize)
        ensures
            r == self.twist_queue@.len(),
    {
        self.twist_queue.len()
    }

    /// Advances the animation to the next frame with a given progress delta
    /// (already scaled by the caller's twist duration and dynamic-speed
    /// settings). Returns whether the puzzle needs to be repainted.
    ///
    /// With an empty queue nothing changes and no repaint is needed. Once
    /// progress has reached one full twist, the front queued twist is
    /// finalized into `displayed` and progress resets — one twist per call.
    /// Otherwise progress grows by the delta, clamped to one full twist; a
    /// degenerate delta (at least [`MIN_TWIST_DELTA`], e.g. from a zero
    /// duration) instantly completes the twist.
    pub fn advance(&mut self, delta_units: u32) -> (repaint: bool)
        requires
            old(self).wf(),
        ensures
            final(self).wf(),
            final(self).latest == old(self).latest,
            final(self).undo_buffer == old(self).undo_buffer,
            final(self).redo_buffer == old(self).redo_buffer,
            final(self).is_unsaved == old(self).is_unsaved,
            final(self).scramble_state == old(self).scramble_state,
            old(self).twist_queue@.len() == 0 ==> !repaint && final(self).queue_max == 0
                && final(self).displayed == old(self).displayed && final(self).twist_queue@ == old(
                self,
            ).twist_queue@ && final(self).progress == old(self).progress,
            old(self).twist_queue@.len() > 0 && old(self).progress >= PROGRESS_UNIT ==> repaint
                && final(self).displayed.piece_states@ == spec_apply_twist(
                old(self).spec_layer_count(),
                old(self).spec_locs(),
                old(self).displayed.piece_states@,
                old(self).twist_queue@[0],
            ) && final(self).twist_queue@ == old(self).twist_queue@.skip(1) && final(self).progress
                == 0 && final(self).queue_max == old(self).queue_max,
            old(self).twist_queue@.len() > 0 && old(self).progress < PROGRESS_UNIT ==> repaint
                && final(self).displayed == old(self).displayed && final(self).twist_queue@ == old(
                self,
            ).twist_queue@ && final(self).queue_max as int == (if old(self).queue_max >= old(
                self,
            ).twist_queue@.len() {
                old(self).queue_max as int
            } else {
                old(self).twist_queue@.len() as int
            }) && final(self).progress == (if delta_units >= MIN_TWIST_DELTA {
                PROGRESS_UNIT
            } else if old(self).progress + delta_units >= PROGRESS_UNIT {
                PROGRESS_UNIT
            } else {
                (old(self).progress + delta_units) as u32
            }),
    {
        if self.twist_queue.len() == 0 {
            self.queue_max = 0;
            // Nothing has changed, so don't request a repaint.
            return false;
        }
        if self.progress >= PROGRESS_UNIT {
            let t = match self.twist_queue.pop_front() {
                Some(t) => t,
                None => {
                    return true;
                },
            };
            let _ = self.displayed.twist(t);
            self.progress = 0;
            proof {
                assert(final(self).twist_queue@ =~= old(self).twist_queue@.skip(1));
            }
            // Request repaint to finalize the twist.
            return true;
        }
        if self.twist_queue.len() > self.queue_max {
            self.queue_max = self.twist_queue.len();
        }
        // A degenerate per-frame delta (at least a third of a twist, or a
        // broken duration mapped to a huge delta) instantly completes the
        // twist.
        if delta_units >= MIN_TWIST_DELTA {
            self.progress = PROGRESS_UNIT;
        } else if self.progress + delta_units >= PROGRESS_UNIT {
            self.progress = PROGRESS_UNIT;
        } else {
            self.progress = self.progress + delta_units;
        }
        // Request repaint while the queue is non-empty.
        true
    }

    /// Skips the animations for all twists in the queue, draining it into
    /// `displayed`; afterward the displayed state equals the latest state
    /// exactly.
    pub fn catch_up(&mut self)
        requires
            old(self).wf(),
        ensures
            final(self).wf(),
            final(self).displayed.piece_states@ == final(self).latest.piece_states@,
            final(self).twist_queue@.len() == 0,
            final(self).progress == 0,
            final(self).latest == old(self).latest,
            final(self).undo_buffer == old(self).undo_buffer,
            final(self).redo_buffer == old(self).redo_buffer,
            final(self).is_unsaved == old(self).is_unsaved,
            final(self).scramble_state == old(self).scramble_state,
            final(self).queue_max == old(self).queue_max,
    {
        while self.twist_queue.len() > 0
            invariant
                self.wf(),
                self.latest == old(self).latest,
                self.undo_buffer == old(self).undo_buffer,
                self.redo_buffer == old(self).redo_buffer,
                self.is_unsaved == old(self).is_unsaved,
                self.scramble_state == old(self).scramble_state,
                self.queue_max == old(self).queue_max,
                self.progress == old(self).progress,
            decreases self.twist_queue@.len(),
        {
            let ghost q0 = self.twist_queue@;
            let t = match self.twist_queue.pop_front() {
                Some(t) => t,
                None => unreached(),
            };
            let _ = self.displayed.twist(t);
            proof {
                assert(self.twist_queue@ =~= q0.skip(1));
            }
        }
        self.progress = 0;
    }

    /// Counts the twists in the undo history under a scoring metric, merging
    /// adjacent twists the metric considers combinable.
    pub fn twist_count(&self, metric: TwistMetric) -> (r: usize)
        ensures
            r as int == spec_twist_count(self.undo_buffer@, metric),
    {
        let mut count: usize = 0;
        let mut i: usize = 0;
        while i < self.undo_buffer.len()
            invariant
                i <= self.undo_buffer@.len(),
                count <= i,
                count as int == spec_twist_count(self.undo_buffer@.take(i as int), metric),
            decreases self.undo_buffer@.len() - i,
        {
            let this = self.undo_buffer[i];
            let prev = if i == 0 {
                None
            } else {
                Some(self.undo_buffer[i - 1])
            };
            let combines = this.can_combine(prev, metric);
            proof {
                let hist = self.undo_buffer@.take(i as int + 1);
                assert(hist.drop_last() =~= self.undo_buffer@.take(i as int));
                assert(hist.last() == self.undo_buffer@[i as int]);
            }
            if !combines {
                count = count + 1;
            }
            i = i + 1;
        }
        proof {
            assert(self.undo_buffer@.take(self.undo_buffer@.len() as int) =~= self.undo_buffer@);
        }
        count
    }

    /// Loading a saved log file is intentionally not built.
    pub fn load_file() -> (r: Result<PuzzleController, PuzzleError>)
        ensures
            r == Err::<PuzzleController, PuzzleError>(PuzzleError::Unimplemented),
    {
        Err(PuzzleError::Unimplemented)
    }

    /// Saving the puzzle state to a log file is intentionally not built.
    pub fn save_file(&mut self) -> (r: Result<(), PuzzleError>)
        ensures
            r == Err::<(), PuzzleError>(PuzzleError::Unimplemented),
            *final(self) == *old(self),
    {
        Err(PuzzleError::Unimplemented)
    }
}

} // verus!
