//! Tests for signs and layer masks.

use hyperspeedcube::sign::Sign;
use hyperspeedcube::twists::LayerMask;

#[test]
fn sign_integer_representations() {
    assert_eq!(Sign::Neg.int_value(), -1);
    assert_eq!(Sign::Zero.int_value(), 0);
    assert_eq!(Sign::Pos.int_value(), 1);
    assert_eq!(Sign::Neg.abs(), 1);
    assert_eq!(Sign::Zero.abs(), 0);
    assert_eq!(Sign::Pos.abs(), 1);
}

#[test]
fn sign_predicates() {
    assert!(Sign::Zero.is_zero());
    assert!(!Sign::Zero.is_nonzero());
    assert!(Sign::Pos.is_nonzero());
    assert!(Sign::Neg.is_nonzero());
    assert_eq!(Sign::default(), Sign::Zero);
}

#[test]
fn sign_arithmetic() {
    assert_eq!(Sign::Neg.negated(), Sign::Pos);
    assert_eq!(Sign::Zero.negated(), Sign::Zero);
    assert_eq!(Sign::Pos.times(Sign::Neg), Sign::Neg);
    assert_eq!(Sign::Neg.times(Sign::Neg), Sign::Pos);
    assert_eq!(Sign::Zero.times(Sign::Pos), Sign::Zero);
    assert_eq!(Sign::Pos.plus(Sign::Neg), Sign::Zero);
    assert_eq!(Sign::Zero.plus(Sign::Neg), Sign::Neg);
    assert_eq!(Sign::Pos.plus(Sign::Zero), Sign::Pos);
}

#[test]
fn layer_masks() {
    assert_eq!(LayerMask::default(), LayerMask(1));
    assert!(LayerMask(1).contains(0));
    assert!(!LayerMask(1).contains(1));
    let all = LayerMask::all_layers(3);
    assert_eq!(all, LayerMask(0b111));
    assert!(all.contains(0) && all.contains(1) && all.contains(2));
    assert!(!all.contains(3));
    let middle = LayerMask(0b010);
    assert!(!middle.contains(0) && middle.contains(1) && !middle.contains(2));
}
