//! Tests for the signed-axis-permutation orientation algebra.

use hyperspeedcube::axes::{Axis, Face};
use hyperspeedcube::directions::TwistDirection;
use hyperspeedcube::orient::PieceState;

fn scrambled_state() -> PieceState {
    // A valid but non-identity orientation: every axis still occurs exactly
    // once among the slots.
    PieceState {
        x: Face::D,
        y: Face::B,
        z: Face::I,
        w: Face::R,
    }
}

#[test]
fn default_orientation_is_identity() {
    let st = PieceState::default();
    assert_eq!(st, PieceState { x: Face::R, y: Face::U, z: Face::F, w: Face::O });
    assert_eq!(st, PieceState::solved());
}

#[test]
fn rotate_four_times_is_identity() {
    let axes = [Axis::X, Axis::Y, Axis::Z, Axis::W];
    for &from in &axes {
        for &to in &axes {
            if from == to {
                continue;
            }
            for st in [PieceState::solved(), scrambled_state()] {
                let once = st.rotate(from, to);
                assert_ne!(once, st, "a quarter turn must move something");
                let back = once.rotate(from, to).rotate(from, to).rotate(from, to);
                assert_eq!(back, st);
            }
        }
    }
}

#[test]
fn rotate_moves_labels_as_specified() {
    // Rotating X toward Y takes the X+ label to Y+ and the Y+ label to X-.
    let st = PieceState::solved().rotate(Axis::X, Axis::Y);
    assert_eq!(st, PieceState { x: Face::U, y: Face::L, z: Face::F, w: Face::O });
}

#[test]
fn every_direction_followed_by_its_reverse_is_identity() {
    for face in Face::all() {
        for dir in TwistDirection::all() {
            for st in [PieceState::solved(), scrambled_state()] {
                let turned = st.twist(face, dir);
                let back = turned.twist(face, dir.rev());
                assert_eq!(back, st, "face {:?} direction {:?}", face, dir);
            }
        }
    }
}

#[test]
fn corner_directions_have_period_three() {
    for face in Face::all() {
        for dir in TwistDirection::all() {
            if dir.period() != 3 {
                continue;
            }
            for st in [PieceState::solved(), scrambled_state()] {
                let thrice = st.twist(face, dir).twist(face, dir).twist(face, dir);
                assert_eq!(thrice, st, "face {:?} direction {:?}", face, dir);
            }
        }
    }
}

#[test]
fn every_direction_repeats_with_its_period() {
    for face in Face::all() {
        for dir in TwistDirection::all() {
            let mut st = scrambled_state();
            for _ in 0..dir.period() {
                st = st.twist(face, dir);
            }
            assert_eq!(st, scrambled_state(), "face {:?} direction {:?}", face, dir);
        }
    }
}

#[test]
fn reverse_direction_pairs() {
    assert_eq!(TwistDirection::R.rev(), TwistDirection::L);
    assert_eq!(TwistDirection::UF.rev(), TwistDirection::DB);
    assert_eq!(TwistDirection::UFR.rev(), TwistDirection::DBL);
    for dir in TwistDirection::all() {
        assert_eq!(dir.rev().rev(), dir);
    }
}
