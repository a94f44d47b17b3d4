//! Tests for the animation and history controller.

use hyperspeedcube::axes::Face;
use hyperspeedcube::controller::{
    PuzzleController, ScrambleState, MIN_TWIST_DELTA, PROGRESS_UNIT,
};
use hyperspeedcube::directions::TwistDirection;
use hyperspeedcube::twists::{LayerMask, PuzzleError, Twist, TwistMetric};

fn single_layer(face: Face, direction: TwistDirection) -> Twist {
    Twist { face, direction, layers: LayerMask(1), layer_count: 3 }
}

#[test]
fn new_controller_is_solved_and_quiet() {
    let ctrl = PuzzleController::new(3);
    assert_eq!(ctrl.displayed(), ctrl.latest());
    assert!(!ctrl.has_undo());
    assert!(!ctrl.has_redo());
    assert!(!ctrl.is_unsaved());
    assert_eq!(ctrl.scramble_state(), ScrambleState::Unscrambled);
    assert!(ctrl.current_twist().is_none());
    assert_eq!(ctrl.queue_len(), 0);
}

#[test]
fn displayed_equals_latest_after_catch_up() {
    let mut ctrl = PuzzleController::new(3);
    let twists = [
        single_layer(Face::R, TwistDirection::U),
        single_layer(Face::U, TwistDirection::F),
        single_layer(Face::O, TwistDirection::UFR),
        single_layer(Face::B, TwistDirection::R2),
    ];
    for t in twists {
        assert_eq!(ctrl.twist(t), Ok(()));
        assert_ne!(ctrl.displayed(), ctrl.latest());
    }
    assert_eq!(ctrl.queue_len(), 4);
    ctrl.catch_up();
    assert_eq!(ctrl.displayed(), ctrl.latest());
    assert_eq!(ctrl.queue_len(), 0);
}

#[test]
fn undo_restores_latest_and_redo_restores_it_again() {
    let mut ctrl = PuzzleController::new(3);
    let before = ctrl.latest().clone();
    let t = single_layer(Face::R, TwistDirection::U);
    assert_eq!(ctrl.twist(t), Ok(()));
    let after_twist = ctrl.latest().clone();
    assert_ne!(after_twist, before);
    assert_eq!(ctrl.undo(), Ok(()));
    assert_eq!(ctrl.latest(), &before);
    assert!(ctrl.has_redo());
    assert_eq!(ctrl.redo(), Ok(()));
    assert_eq!(ctrl.latest(), &after_twist);
    assert!(ctrl.has_undo());
}

#[test]
fn twist_then_its_reverse_cancels_via_undo_merge() {
    let mut ctrl = PuzzleController::new(3);
    let before = ctrl.latest().clone();
    let t = single_layer(Face::R, TwistDirection::U);
    assert_eq!(ctrl.twist(t), Ok(()));
    assert!(ctrl.has_undo());
    assert_eq!(ctrl.twist(t.rev()), Ok(()));
    // The second twist merged into an undo of the first.
    assert_eq!(ctrl.latest(), &before);
    assert!(!ctrl.has_undo());
    assert!(ctrl.has_redo());
    assert_eq!(ctrl.twist_count(TwistMetric::Execution), 0);
    assert_eq!(ctrl.twist_count(TwistMetric::FaceTurn), 0);
    ctrl.catch_up();
    assert_eq!(ctrl.displayed(), &before);
}

#[test]
fn twist_count_under_the_metrics() {
    // Two non-inverse single-layer twists on the same axis and layer.
    let mut ctrl = PuzzleController::new(3);
    let t = single_layer(Face::R, TwistDirection::U);
    assert_eq!(ctrl.twist(t), Ok(()));
    assert_eq!(ctrl.twist(t), Ok(()));
    assert_eq!(ctrl.twist_count(TwistMetric::Execution), 2);
    assert_eq!(ctrl.twist_count(TwistMetric::FaceTurn), 1);
    assert_eq!(ctrl.twist_count(TwistMetric::AxialTurn), 1);

    // Twists of the two opposite faces on one axis: the axial metric merges
    // them, the face-turn metric does not.
    let mut ctrl = PuzzleController::new(3);
    assert_eq!(ctrl.twist(single_layer(Face::R, TwistDirection::U)), Ok(()));
    assert_eq!(ctrl.twist(single_layer(Face::L, TwistDirection::U)), Ok(()));
    assert_eq!(ctrl.twist_count(TwistMetric::Execution), 2);
    assert_eq!(ctrl.twist_count(TwistMetric::FaceTurn), 2);
    assert_eq!(ctrl.twist_count(TwistMetric::AxialTurn), 1);
}

#[test]
fn controller_rejects_mismatched_puzzle_type() {
    let mut ctrl = PuzzleController::new(3);
    let t = Twist {
        face: Face::R,
        direction: TwistDirection::U,
        layers: LayerMask(1),
        layer_count: 4,
    };
    assert_eq!(ctrl.twist(t), Err(PuzzleError::TypeMismatch));
    assert!(!ctrl.has_undo());
}

#[test]
fn undo_and_redo_report_empty_history() {
    let mut ctrl = PuzzleController::new(2);
    assert_eq!(ctrl.undo(), Err(PuzzleError::EmptyHistory));
    assert_eq!(ctrl.redo(), Err(PuzzleError::EmptyHistory));
}

#[test]
fn redo_is_cleared_by_a_new_twist() {
    let mut ctrl = PuzzleController::new(3);
    assert_eq!(ctrl.twist(single_layer(Face::R, TwistDirection::U)), Ok(()));
    assert_eq!(ctrl.undo(), Ok(()));
    assert!(ctrl.has_redo());
    assert_eq!(ctrl.twist(single_layer(Face::U, TwistDirection::F)), Ok(()));
    assert!(!ctrl.has_redo());
}

#[test]
fn advance_steps_progress_and_finalizes_twists() {
    let mut ctrl = PuzzleController::new(3);
    // Nothing queued: no repaint.
    assert!(!ctrl.advance(PROGRESS_UNIT / 10));
    let t = single_layer(Face::R, TwistDirection::U);
    assert_eq!(ctrl.twist(t), Ok(()));
    let displayed_before = ctrl.displayed().clone();
    // Small deltas accumulate.
    assert!(ctrl.advance(PROGRESS_UNIT / 10));
    assert!(ctrl.advance(PROGRESS_UNIT / 10));
    let (_, progress) = ctrl.current_twist().unwrap();
    assert_eq!(progress, 2 * (PROGRESS_UNIT / 10));
    assert_eq!(ctrl.displayed(), &displayed_before);
    // A degenerate delta instantly completes the twist...
    assert!(ctrl.advance(MIN_TWIST_DELTA));
    let (_, progress) = ctrl.current_twist().unwrap();
    assert_eq!(progress, PROGRESS_UNIT);
    // ...and the next frame finalizes it into the displayed state.
    assert!(ctrl.advance(0));
    assert!(ctrl.current_twist().is_none());
    assert_eq!(ctrl.displayed(), ctrl.latest());
    // Queue empty again: back to no repaint.
    assert!(!ctrl.advance(0));
}

#[test]
fn advance_clamps_progress_to_one_twist() {
    let mut ctrl = PuzzleController::new(3);
    assert_eq!(ctrl.twist(single_layer(Face::F, TwistDirection::R)), Ok(()));
    assert!(ctrl.advance(MIN_TWIST_DELTA - 1));
    assert!(ctrl.advance(MIN_TWIST_DELTA - 1));
    assert!(ctrl.advance(MIN_TWIST_DELTA - 1));
    assert!(ctrl.advance(MIN_TWIST_DELTA - 1));
    let (_, progress) = ctrl.current_twist().unwrap();
    assert_eq!(progress, PROGRESS_UNIT);
}

#[test]
fn do_recenter_command_rejects_w_axis_faces() {
    let mut ctrl = PuzzleController::new(3);
    assert_eq!(
        ctrl.do_recenter_command(Face::O),
        Err(PuzzleError::InvalidFace)
    );
    assert_eq!(
        ctrl.do_recenter_command(Face::I),
        Err(PuzzleError::InvalidFace)
    );
    assert_eq!(ctrl.do_recenter_command(Face::R), Ok(()));
    assert!(ctrl.has_undo());
    // A recentering twist rotates the whole puzzle: every piece is affected.
    let (t, _) = ctrl.current_twist().unwrap();
    let affected = (0..ctrl.displayed().piece_count())
        .filter(|&p| ctrl.displayed().is_piece_affected_by_twist(t, p))
        .count();
    assert_eq!(affected, ctrl.displayed().piece_count());
}

#[test]
fn do_twist_command_builds_the_twist() {
    let mut ctrl = PuzzleController::new(3);
    assert_eq!(
        ctrl.do_twist_command(Face::R, TwistDirection::U, LayerMask(1)),
        Ok(())
    );
    let (t, _) = ctrl.current_twist().unwrap();
    assert_eq!(t, single_layer(Face::R, TwistDirection::U));
}

#[test]
fn persistence_is_unimplemented() {
    assert_eq!(
        PuzzleController::load_file().err(),
        Some(PuzzleError::Unimplemented)
    );
    let mut ctrl = PuzzleController::new(2);
    assert_eq!(ctrl.save_file(), Err(PuzzleError::Unimplemented));
}

#[test]
fn unsaved_flag_tracks_modifications() {
    let mut ctrl = PuzzleController::new(3);
    assert!(!ctrl.is_unsaved());
    assert_eq!(ctrl.twist(single_layer(Face::R, TwistDirection::U)), Ok(()));
    assert!(ctrl.is_unsaved());
}
