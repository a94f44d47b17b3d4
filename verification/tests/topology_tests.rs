//! Tests for the topology generator and the memoizing registry.

use hyperspeedcube::axes::Face;
use hyperspeedcube::topology::{DescriptionRegistry, PuzzleDescription};

fn expected_piece_count(n: u64) -> u64 {
    let interior = if n >= 2 { n - 2 } else { 0 };
    n * n * n * n - interior * interior * interior * interior
}

#[test]
fn piece_count_formula_small_sizes() {
    assert_eq!(expected_piece_count(1), 1);
    assert_eq!(expected_piece_count(2), 16);
    assert_eq!(expected_piece_count(3), 80);
    assert_eq!(expected_piece_count(4), 240);
    for n in 1..=9u8 {
        let desc = PuzzleDescription::new(n);
        assert_eq!(desc.pieces.len() as u64, expected_piece_count(n as u64));
        assert_eq!(desc.piece_locations.len(), desc.pieces.len());
    }
}

#[test]
fn single_piece_puzzle_has_eight_stickers() {
    let desc = PuzzleDescription::new(1);
    assert_eq!(desc.pieces.len(), 1);
    // The lone piece is at every extreme at once: one sticker per face.
    assert_eq!(desc.stickers.len(), 8);
    let colors: Vec<Face> = desc.stickers.iter().map(|s| s.color).collect();
    assert_eq!(
        colors,
        vec![Face::R, Face::L, Face::U, Face::D, Face::F, Face::B, Face::O, Face::I]
    );
}

#[test]
fn sticker_count_is_eight_cells_of_n_cubed() {
    // For n >= 2 every cell of the hypercube carries n^3 stickers.
    for n in 2..=4u8 {
        let desc = PuzzleDescription::new(n);
        let n3 = (n as usize).pow(3);
        assert_eq!(desc.stickers.len(), 8 * n3);
    }
}

#[test]
fn piece_locations_lie_on_surface() {
    let desc = PuzzleDescription::new(3);
    for loc in &desc.piece_locations {
        assert!(loc.x < 3 && loc.y < 3 && loc.z < 3 && loc.w < 3);
        assert!(
            loc.x == 0
                || loc.x == 2
                || loc.y == 0
                || loc.y == 2
                || loc.z == 0
                || loc.z == 2
                || loc.w == 0
                || loc.w == 2
        );
    }
    // The all-interior point is not materialized.
    assert!(!desc
        .piece_locations
        .iter()
        .any(|l| l.x == 1 && l.y == 1 && l.z == 1 && l.w == 1));
}

#[test]
fn stickers_point_back_to_their_pieces() {
    let desc = PuzzleDescription::new(3);
    for (i, piece) in desc.pieces.iter().enumerate() {
        for &s in &piece.stickers {
            assert_eq!(desc.stickers[s].piece, i);
        }
    }
    for sticker in &desc.stickers {
        assert!(sticker.piece < desc.pieces.len());
    }
}

#[test]
fn registry_memoizes_one_entry_per_layer_count() {
    let mut registry = DescriptionRegistry::new();
    assert_eq!(registry.len(), 0);
    let first = registry.describe(3).pieces.len();
    assert_eq!(registry.len(), 1);
    let second = registry.describe(3).pieces.len();
    assert_eq!(registry.len(), 1);
    assert_eq!(first, second);
    registry.describe(2);
    assert_eq!(registry.len(), 2);
}
