//! Tests for the twist engine on whole puzzle states.

use hyperspeedcube::axes::Face;
use hyperspeedcube::directions::TwistDirection;
use hyperspeedcube::puzzle4d::{PuzzleTypeEnum, Rubiks4D};
use hyperspeedcube::twists::{LayerMask, PuzzleError, Twist};

fn single_layer(face: Face, direction: TwistDirection, layer_count: u8) -> Twist {
    Twist { face, direction, layers: LayerMask(1), layer_count }
}

#[test]
fn twist_then_reverse_restores_state() {
    for n in 1..=3u8 {
        for face in Face::all() {
            for dir in [TwistDirection::U, TwistDirection::R2, TwistDirection::UF, TwistDirection::UFR] {
                let mut cube = Rubiks4D::new(n);
                let original = cube.clone();
                let t = single_layer(face, dir, n);
                assert_eq!(cube.twist(t), Ok(()));
                assert_eq!(cube.twist(t.rev()), Ok(()));
                assert_eq!(cube, original, "n {} face {:?} dir {:?}", n, face, dir);
            }
        }
    }
}

#[test]
fn a_twist_changes_the_state() {
    let mut cube = Rubiks4D::new(3);
    let original = cube.clone();
    let t = single_layer(Face::R, TwistDirection::U, 3);
    assert_eq!(cube.twist(t), Ok(()));
    assert_ne!(cube, original);
    assert!(!cube.is_solved());
    assert!(original.is_solved());
}

#[test]
fn twist_rejects_mismatched_puzzle_type() {
    let mut cube = Rubiks4D::new(3);
    let original = cube.clone();
    let t = single_layer(Face::R, TwistDirection::U, 4);
    assert_eq!(cube.twist(t), Err(PuzzleError::TypeMismatch));
    assert_eq!(cube, original);
}

#[test]
fn layer_from_twist_axis_is_strictly_within_layer_count() {
    let mut cube = Rubiks4D::new(3);
    // Scramble a little so current locations differ from initial ones.
    let _ = cube.twist(single_layer(Face::R, TwistDirection::U, 3));
    let _ = cube.twist(single_layer(Face::O, TwistDirection::UFR, 3));
    let _ = cube.twist(single_layer(Face::D, TwistDirection::F2, 3));
    for piece in 0..cube.piece_count() {
        for face in Face::all() {
            let layer = cube.layer_from_twist_axis(face, piece);
            assert!(layer < 3);
        }
    }
}

#[test]
fn exactly_one_layer_of_pieces_is_affected_on_a_fresh_puzzle() {
    let cube = Rubiks4D::new(3);
    let t = single_layer(Face::R, TwistDirection::U, 3);
    let affected = (0..cube.piece_count())
        .filter(|&p| cube.is_piece_affected_by_twist(t, p))
        .count();
    // One cell of a 3-layer hypercube: 3^3 = 27 pieces.
    assert_eq!(affected, 27);
}

#[test]
fn puzzle_type_carries_layer_count() {
    let cube = Rubiks4D::new(5);
    assert_eq!(cube.ty(), PuzzleTypeEnum::Rubiks4D { layer_count: 5 });
    assert_eq!(cube.layer_count(), 5);
}

#[test]
fn sticker_faces_on_a_solved_puzzle_match_their_colors() {
    let cube = Rubiks4D::new(3);
    for s in 0..cube.desc.stickers.len() {
        assert_eq!(cube.sticker_face(s), cube.desc.stickers[s].color);
    }
}

#[test]
fn recenter_twist_table() {
    let t = Twist::from_face_recenter(Face::R, 3).unwrap();
    assert_eq!(t.face, Face::U);
    assert_eq!(t.direction, TwistDirection::F);
    assert_eq!(t.layers, LayerMask(0b111));
    assert_eq!(t.layer_count, 3);
    assert_eq!(
        Twist::from_face_recenter(Face::O, 3),
        Err(PuzzleError::InvalidFace)
    );
    assert_eq!(
        Twist::from_face_recenter(Face::I, 3),
        Err(PuzzleError::InvalidFace)
    );
}

#[test]
fn corner_sticker_click_picks_a_corner_direction() {
    let cube = Rubiks4D::new(3);
    // Find the sticker of the piece at the all-high corner on the R face.
    let corner = cube
        .desc
        .piece_locations
        .iter()
        .position(|l| l.x == 2 && l.y == 2 && l.z == 2 && l.w == 2)
        .unwrap();
    let sticker = *cube.desc.pieces[corner]
        .stickers
        .iter()
        .find(|&&s| cube.desc.stickers[s].color == Face::R)
        .unwrap();
    let (cw, ccw, recenter) = cube.sticker_click_twists(sticker);
    let cw = cw.unwrap();
    let ccw = ccw.unwrap();
    assert_eq!(cw.face, Face::R);
    assert_eq!(cw.layers, LayerMask(1));
    assert_eq!(cw.direction.period(), 3, "a corner sticker turns a corner direction");
    assert_eq!(ccw, cw.rev());
    // The R face can be recentered.
    assert!(recenter.is_some());
}

#[test]
fn center_sticker_click_has_no_direction() {
    let cube = Rubiks4D::new(3);
    // The center piece of the R cell sits at the middle of every other axis.
    let center = cube
        .desc
        .piece_locations
        .iter()
        .position(|l| l.x == 2 && l.y == 1 && l.z == 1 && l.w == 1)
        .unwrap();
    let sticker = cube.desc.pieces[center].stickers[0];
    let (cw, ccw, _) = cube.sticker_click_twists(sticker);
    assert!(cw.is_none());
    assert!(ccw.is_none());
}
