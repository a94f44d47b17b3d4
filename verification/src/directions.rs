//! The 32 named twist directions and their generator sequences.
//!
//! Each twist direction is defined by a short sequence (at most two entries)
//! of generator steps over the symbols `x`, `y`, `z`; a step may be doubled
//! (apply its generator twice) or inverted (swap the generator's two axis
//! arguments before applying).

use crate::sign::Sign;
use vstd::prelude::*;

verus! {

/// The symbol (`x`, `y` or `z`) a generator step rotates about, naming one of
/// the three basis faces of the twisted face's cell.
#[derive(Debug, Copy, Clone, PartialEq, Eq, Hash, Structural)]
pub enum StepSymbol {
    /// Symbol `x`: rotation taking the cell's `z` basis face to its `y` basis face.
    X,
    /// Symbol `y`: rotation taking the cell's `x` basis face to its `z` basis face.
    Y,
    /// Symbol `z`: rotation taking the cell's `y` basis face to its `x` basis face.
    Z,
}

/// One generator step of a twist direction's symbol sequence.
#[derive(Debug, Copy, Clone, PartialEq, Eq, Hash, Structural)]
pub struct TwistStep {
    /// Which basis-plane generator to apply.
    pub symbol: StepSymbol,
    /// Apply the generator twice (written `2`).
    pub double: bool,
    /// Invert the generator by swapping its two axis arguments (written `'`).
    pub inverse: bool,
}

/// A named twist direction: one of the rotations of a face's 3-dimensional
/// cell reachable from single-face twists. The set comprises 6 ninety-degree
/// face rotations, 6 one-hundred-eighty-degree face rotations, 12
/// one-hundred-eighty-degree edge rotations, and 8 one-hundred-twenty-degree
/// corner rotations.
#[derive(Debug, Copy, Clone, PartialEq, Eq, Hash, Structural)]
pub enum TwistDirection {
    /// 90-degree face twist clockwise around `R` (symbols `x`).
    R,
    /// 90-degree face twist clockwise around `L` (symbols `x'`).
    L,
    /// 90-degree face twist clockwise around `U` (symbols `y`).
    U,
    /// 90-degree face twist clockwise around `D` (symbols `y'`).
    D,
    /// 90-degree face twist clockwise around `F` (symbols `z`).
    F,
    /// 90-degree face twist clockwise around `B` (symbols `z'`).
    B,
    /// 180-degree face twist clockwise around `R` (symbols `x2`).
    R2,
    /// 180-degree face twist clockwise around `L` (symbols `x2'`).
    L2,
    /// 180-degree face twist clockwise around `U` (symbols `y2`).
    U2,
    /// 180-degree face twist clockwise around `D` (symbols `y2'`).
    D2,
    /// 180-degree face twist clockwise around `F` (symbols `z2`).
    F2,
    /// 180-degree face twist clockwise around `B` (symbols `z2'`).
    B2,
    /// 180-degree edge twist clockwise around `UF` (symbols `xy2`).
    UF,
    /// 180-degree edge twist clockwise around `DB` (symbols `xy2'`).
    DB,
    /// 180-degree edge twist clockwise around `UR` (symbols `zx2`).
    UR,
    /// 180-degree edge twist clockwise around `DL` (symbols `zx2'`).
    DL,
    /// 180-degree edge twist clockwise around `FR` (symbols `yz2`).
    FR,
    /// 180-degree edge twist clockwise around `BL` (symbols `yz2'`).
    BL,
    /// 180-degree edge twist clockwise around `DF` (symbols `xz2`).
    DF,
    /// 180-degree edge twist clockwise around `UB` (symbols `xz2'`).
    UB,
    /// 180-degree edge twist clockwise around `UL` (symbols `zy2`).
    UL,
    /// 180-degree edge twist clockwise around `DR` (symbols `zy2'`).
    DR,
    /// 180-degree edge twist clockwise around `BR` (symbols `yx2`).
    BR,
    /// 180-degree edge twist clockwise around `FL` (symbols `yx2'`).
    FL,
    /// 120-degree corner twist clockwise around `UFR` (symbols `xy`).
    UFR,
    /// 120-degree corner twist clockwise around `DBL` (symbols `y'x'`).
    DBL,
    /// 120-degree corner twist clockwise around `UFL` (symbols `zy`).
    UFL,
    /// 120-degree corner twist clockwise around `DBR` (symbols `xy'`).
    DBR,
    /// 120-degree corner twist clockwise around `DFR` (symbols `xz`).
    DFR,
    /// 120-degree corner twist clockwise around `UBL` (symbols `yz'`).
    UBL,
    /// 120-degree corner twist clockwise around `UBR` (symbols `yx`).
    UBR,
    /// 120-degree corner twist clockwise around `DFL` (symbols `zx'`).
    DFL,
}

/// Shorthand for a generator step in the direction tables.
pub open spec fn spec_step(symbol: StepSymbol, double: bool, inverse: bool) -> TwistStep {
    TwistStep { symbol, double, inverse }
}

impl TwistDirection {
    /// The direction's symbol sequence: a first generator step and an
    /// optional second one, applied in order.
    pub open spec fn spec_steps(self) -> (TwistStep, Option<TwistStep>) {
        match self {
            TwistDirection::R => (spec_step(StepSymbol::X, false, false), None),
            TwistDirection::L => (spec_step(StepSymbol::X, false, true), None),
            TwistDirection::U => (spec_step(StepSymbol::Y, false, false), None),
            TwistDirection::D => (spec_step(StepSymbol::Y, false, true), None),
            TwistDirection::F => (spec_step(StepSymbol::Z, false, false), None),
            TwistDirection::B => (spec_step(StepSymbol::Z, false, true), None),
            TwistDirection::R2 => (spec_step(StepSymbol::X, true, false), None),
            TwistDirection::L2 => (spec_step(StepSymbol::X, true, true), None),
            TwistDirection::U2 => (spec_step(StepSymbol::Y, true, false), None),
            TwistDirection::D2 => (spec_step(StepSymbol::Y, true, true), None),
            TwistDirection::F2 => (spec_step(StepSymbol::Z, true, false), None),
            TwistDirection::B2 => (spec_step(StepSymbol::Z, true, true), None),
            TwistDirection::UF => (
                spec_step(StepSymbol::X, false, false),
                Some(spec_step(StepSymbol::Y, true, false)),
            ),
            TwistDirection::DB => (
                spec_step(StepSymbol::X, false, false),
                Some(spec_step(StepSymbol::Y, true, true)),
            ),
            TwistDirection::UR => (
                spec_step(StepSymbol::Z, false, false),
                Some(spec_step(StepSymbol::X, true, false)),
            ),
            TwistDirection::DL => (
                spec_step(StepSymbol::Z, false, false),
                Some(spec_step(StepSymbol::X, true, true)),
            ),
            TwistDirection::FR => (
                spec_step(StepSymbol::Y, false, false),
                Some(spec_step(StepSymbol::Z, true, false)),
            ),
            TwistDirection::BL => (
                spec_step(StepSymbol::Y, false, false),
                Some(spec_step(StepSymbol::Z, true, true)),
            ),
            TwistDirection::DF => (
                spec_step(StepSymbol::X, false, false),
                Some(spec_step(StepSymbol::Z, true, false)),
            ),
            TwistDirection::UB => (
                spec_step(StepSymbol::X, false, false),
                Some(spec_step(StepSymbol::Z, true, true)),
            ),
            TwistDirection::UL => (
                spec_step(StepSymbol::Z, false, false),
                Some(spec_step(StepSymbol::Y, true, false)),
            ),
            TwistDirection::DR => (
                spec_step(StepSymbol::Z, false, false),
                Some(spec_step(StepSymbol::Y, true, true)),
            ),
            TwistDirection::BR => (
                spec_step(StepSymbol::Y, false, false),
                Some(spec_step(StepSymbol::X, true, false)),
            ),
            TwistDirection::FL => (
                spec_step(StepSymbol::Y, false, false),
                Some(spec_step(StepSymbol::X, true, true)),
            ),
            TwistDirection::UFR => (
                spec_step(StepSymbol::X, false, false),
                Some(spec_step(StepSymbol::Y, false, false)),
            ),
            TwistDirection::DBL => (
                spec_step(StepSymbol::Y, false, true),
                Some(spec_step(StepSymbol::X, false, true)),
            ),
            TwistDirection::UFL => (
                spec_step(StepSymbol::Z, false, false),
                Some(spec_step(StepSymbol::Y, false, false)),
            ),
            TwistDirection::DBR => (
                spec_step(StepSymbol::X, false, false),
                Some(spec_step(StepSymbol::Y, false, true)),
            ),
            TwistDirection::DFR => (
                spec_step(StepSymbol::X, false, false),
                Some(spec_step(StepSymbol::Z, false, false)),
            ),
            TwistDirection::UBL => (
                spec_step(StepSymbol::Y, false, false),
                Some(spec_step(StepSymbol::Z, false, true)),
            ),
            TwistDirection::UBR => (
                spec_step(StepSymbol::Y, false, false),
                Some(spec_step(StepSymbol::X, false, false)),
            ),
            TwistDirection::DFL => (
                spec_step(StepSymbol::Z, false, false),
                Some(spec_step(StepSymbol::X, false, true)),
            ),
        }
    }

    /// The direction's symbol sequence, executable form.
    pub fn steps(self) -> (r: (TwistStep, Option<TwistStep>))
        ensures
            r == self.spec_steps(),
    {
        match self {
            TwistDirection::R => (TwistStep { symbol: StepSymbol::X, double: false, inverse: false }, None),
            TwistDirection::L => (TwistStep { symbol: StepSymbol::X, double: false, inverse: true }, None),
            TwistDirection::U => (TwistStep { symbol: StepSymbol::Y, double: false, inverse: false }, None),
            TwistDirection::D => (TwistStep { symbol: StepSymbol::Y, double: false, inverse: true }, None),
            TwistDirection::F => (TwistStep { symbol: StepSymbol::Z, double: false, inverse: false }, None),
            TwistDirection::B => (TwistStep { symbol: StepSymbol::Z, double: false, inverse: true }, None),
            TwistDirection::R2 => (TwistStep { symbol: StepSymbol::X, double: true, inverse: false }, None),
            TwistDirection::L2 => (TwistStep { symbol: StepSymbol::X, double: true, inverse: true }, None),
            TwistDirection::U2 => (TwistStep { symbol: StepSymbol::Y, double: true, inverse: false }, None),
            TwistDirection::D2 => (TwistStep { symbol: StepSymbol::Y, double: true, inverse: true }, None),
            TwistDirection::F2 => (TwistStep { symbol: StepSymbol::Z, double: true, inverse: false }, None),
            TwistDirection::B2 => (TwistStep { symbol: StepSymbol::Z, double: true, inverse: true }, None),
            TwistDirection::UF => (
                TwistStep { symbol: StepSymbol::X, double: false, inverse: false },
                Some(TwistStep { symbol: StepSymbol::Y, double: true, inverse: false }),
            ),
            TwistDirection::DB => (
                TwistStep { symbol: StepSymbol::X, double: false, inverse: false },
                Some(TwistStep { symbol: StepSymbol::Y, double: true, inverse: true }),
            ),
            TwistDirection::UR => (
                TwistStep { symbol: StepSymbol::Z, double: false, inverse: false },
                Some(TwistStep { symbol: StepSymbol::X, double: true, inverse: false }),
            ),
            TwistDirection::DL => (
                TwistStep { symbol: StepSymbol::Z, double: false, inverse: false },
                Some(TwistStep { symbol: StepSymbol::X, double: true, inverse: true }),
            ),
            TwistDirection::FR => (
                TwistStep { symbol: StepSymbol::Y, double: false, inverse: false },
                Some(TwistStep { symbol: StepSymbol::Z, double: true, inverse: false }),
            ),
            TwistDirection::BL => (
                TwistStep { symbol: StepSymbol::Y, double: false, inverse: false },
                Some(TwistStep { symbol: StepSymbol::Z, double: true, inverse: true }),
            ),
            TwistDirection::DF => (
                TwistStep { symbol: StepSymbol::X, double: false, inverse: false },
                Some(TwistStep { symbol: StepSymbol::Z, double: true, inverse: false }),
            ),
            TwistDirection::UB => (
                TwistStep { symbol: StepSymbol::X, double: false, inverse: false },
                Some(TwistStep { symbol: StepSymbol::Z, double: true, inverse: true }),
            ),
            TwistDirection::UL => (
                TwistStep { symbol: StepSymbol::Z, double: false, inverse: false },
                Some(TwistStep { symbol: StepSymbol::Y, double: true, inverse: false }),
            ),
            TwistDirection::DR => (
                TwistStep { symbol: StepSymbol::Z, double: false, inverse: false },
                Some(TwistStep { symbol: StepSymbol::Y, double: true, inverse: true }),
            ),
            TwistDirection::BR => (
                TwistStep { symbol: StepSymbol::Y, double: false, inverse: false },
                Some(TwistStep { symbol: StepSymbol::X, double: true, inverse: false }),
            ),
            TwistDirection::FL => (
                TwistStep { symbol: StepSymbol::Y, double: false, inverse: false },
                Some(TwistStep { symbol: StepSymbol::X, double: true, inverse: true }),
            ),
            TwistDirection::UFR => (
                TwistStep { symbol: StepSymbol::X, double: false, inverse: false },
                Some(TwistStep { symbol: StepSymbol::Y, double: false, inverse: false }),
            ),
            TwistDirection::DBL => (
                TwistStep { symbol: StepSymbol::Y, double: false, inverse: true },
                Some(TwistStep { symbol: StepSymbol::X, double: false, inverse: true }),
            ),
            TwistDirection::UFL => (
                TwistStep { symbol: StepSymbol::Z, double: false, inverse: false },
                Some(TwistStep { symbol: StepSymbol::Y, double: false, inverse: false }),
            ),
            TwistDirection::DBR => (
                TwistStep { symbol: StepSymbol::X, double: false, inverse: false },
                Some(TwistStep { symbol: StepSymbol::Y, double: false, inverse: true }),
            ),
            TwistDirection::DFR => (
                TwistStep { symbol: StepSymbol::X, double: false, inverse: false },
                Some(TwistStep { symbol: StepSymbol::Z, double: false, inverse: false }),
            ),
            TwistDirection::UBL => (
                TwistStep { symbol: StepSymbol::Y, double: false, inverse: false },
                Some(TwistStep { symbol: StepSymbol::Z, double: false, inverse: true }),
            ),
            TwistDirection::UBR => (
                TwistStep { symbol: StepSymbol::Y, double: false, inverse: false },
                Some(TwistStep { symbol: StepSymbol::X, double: false, inverse: false }),
            ),
            TwistDirection::DFL => (
                TwistStep { symbol: StepSymbol::Z, double: false, inverse: false },
                Some(TwistStep { symbol: StepSymbol::X, double: false, inverse: true }),
            ),
        }
    }

    /// The reverse direction: the rotation that undoes this one.
    pub open spec fn spec_rev(self) -> TwistDirection {
        match self {
            TwistDirection::R => TwistDirection::L,
            TwistDirection::L => TwistDirection::R,
            TwistDirection::U => TwistDirection::D,
            TwistDirection::D => TwistDirection::U,
            TwistDirection::F => TwistDirection::B,
            TwistDirection::B => TwistDirection::F,
            TwistDirection::R2 => TwistDirection::L2,
            TwistDirection::L2 => TwistDirection::R2,
            TwistDirection::U2 => TwistDirection::D2,
            TwistDirection::D2 => TwistDirection::U2,
            TwistDirection::F2 => TwistDirection::B2,
            TwistDirection::B2 => TwistDirection::F2,
            TwistDirection::UF => TwistDirection::DB,
            TwistDirection::DB => TwistDirection::UF,
            TwistDirection::UR => TwistDirection::DL,
            TwistDirection::DL => TwistDirection::UR,
            TwistDirection::FR => TwistDirection::BL,
            TwistDirection::BL => TwistDirection::FR,
            TwistDirection::DF => TwistDirection::UB,
            TwistDirection::UB => TwistDirection::DF,
            TwistDirection::UL => TwistDirection::DR,
            TwistDirection::DR => TwistDirection::UL,
            TwistDirection::BR => TwistDirection::FL,
            TwistDirection::FL => TwistDirection::BR,
            TwistDirection::UFR => TwistDirection::DBL,
            TwistDirection::DBL => TwistDirection::UFR,
            TwistDirection::UFL => TwistDirection::DBR,
            TwistDirection::DBR => TwistDirection::UFL,
            TwistDirection::DFR => TwistDirection::UBL,
            TwistDirection::UBL => TwistDirection::DFR,
            TwistDirection::UBR => TwistDirection::DFL,
            TwistDirection::DFL => TwistDirection::UBR,
        }
    }

    /// The reverse direction: the rotation that undoes this one.
    #[verifier::when_used_as_spec(spec_rev)]
    pub fn rev(self) -> (r: TwistDirection)
        ensures
            r == self.spec_rev(),
    {
        match self {
            TwistDirection::R => TwistDirection::L,
            TwistDirection::L => TwistDirection::R,
            TwistDirection::U => TwistDirection::D,
            TwistDirection::D => TwistDirection::U,
            TwistDirection::F => TwistDirection::B,
            TwistDirection::B => TwistDirection::F,
            TwistDirection::R2 => TwistDirection::L2,
            TwistDirection::L2 => TwistDirection::R2,
            TwistDirection::U2 => TwistDirection::D2,
            TwistDirection::D2 => TwistDirection::U2,
            TwistDirection::F2 => TwistDirection::B2,
            TwistDirection::B2 => TwistDirection::F2,
            TwistDirection::UF => TwistDirection::DB,
            TwistDirection::DB => TwistDirection::UF,
            TwistDirection::UR => TwistDirection::DL,
            TwistDirection::DL => TwistDirection::UR,
            TwistDirection::FR => TwistDirection::BL,
            TwistDirection::BL => TwistDirection::FR,
            TwistDirection::DF => TwistDirection::UB,
            TwistDirection::UB => TwistDirection::DF,
            TwistDirection::UL => TwistDirection::DR,
            TwistDirection::DR => TwistDirection::UL,
            TwistDirection::BR => TwistDirection::FL,
            TwistDirection::FL => TwistDirection::BR,
            TwistDirection::UFR => TwistDirection::DBL,
            TwistDirection::DBL => TwistDirection::UFR,
            TwistDirection::UFL => TwistDirection::DBR,
            TwistDirection::DBR => TwistDirection::UFL,
            TwistDirection::DFR => TwistDirection::UBL,
            TwistDirection::UBL => TwistDirection::DFR,
            TwistDirection::UBR => TwistDirection::DFL,
            TwistDirection::DFL => TwistDirection::UBR,
        }
    }

    /// How many times this rotation must be applied to return to the
    /// identity: 4 for 90-degree face twists, 2 for 180-degree face and edge
    /// twists, 3 for 120-degree corner twists.
    pub open spec fn spec_period(self) -> int {
        match self {
            TwistDirection::R
            | TwistDirection::L
            | TwistDirection::U
            | TwistDirection::D
            | TwistDirection::F
            | TwistDirection::B => 4,
            TwistDirection::UFR
            | TwistDirection::DBL
            | TwistDirection::UFL
            | TwistDirection::DBR
            | TwistDirection::DFR
            | TwistDirection::UBL
            | TwistDirection::UBR
            | TwistDirection::DFL => 3,
            _ => 2,
        }
    }

    /// How many times this rotation must be applied to return to the identity.
    pub fn period(self) -> (r: usize)
        ensures
            r as int == self.spec_period(),
    {
        match self {
            TwistDirection::R
            | TwistDirection::L
            | TwistDirection::U
            | TwistDirection::D
            | TwistDirection::F
            | TwistDirection::B => 4,
            TwistDirection::UFR
            | TwistDirection::DBL
            | TwistDirection::UFL
            | TwistDirection::DBR
            | TwistDirection::DFR
            | TwistDirection::UBL
            | TwistDirection::UBR
            | TwistDirection::DFL => 3,
            _ => 2,
        }
    }

    /// Reversing twice gives back the same direction.
    pub proof fn lemma_rev_rev(self)
        ensures
            self.spec_rev().spec_rev() == self,
    {
    }

    /// Maps a sticker's three sign coordinates within its face (each the
    /// projection of the piece's location signs onto one basis face of the
    /// sticker's face) to the single-layer twist direction a click on that
    /// sticker triggers. The zero vector has no associated direction.
    pub open spec fn spec_from_signs_within_face(v: (Sign, Sign, Sign)) -> Option<TwistDirection> {
        match v {
            (Sign::Pos, Sign::Pos, Sign::Pos) => Some(TwistDirection::UFR),
            (Sign::Neg, Sign::Pos, Sign::Pos) => Some(TwistDirection::UFL),
            (Sign::Pos, Sign::Neg, Sign::Pos) => Some(TwistDirection::DFR),
            (Sign::Neg, Sign::Neg, Sign::Pos) => Some(TwistDirection::DFL),
            (Sign::Pos, Sign::Pos, Sign::Neg) => Some(TwistDirection::UBR),
            (Sign::Neg, Sign::Pos, Sign::Neg) => Some(TwistDirection::UBL),
            (Sign::Pos, Sign::Neg, Sign::Neg) => Some(TwistDirection::DBR),
            (Sign::Neg, Sign::Neg, Sign::Neg) => Some(TwistDirection::DBL),
            (Sign::Pos, Sign::Pos, Sign::Zero) => Some(TwistDirection::UR),
            (Sign::Neg, Sign::Pos, Sign::Zero) => Some(TwistDirection::UL),
            (Sign::Pos, Sign::Neg, Sign::Zero) => Some(TwistDirection::DR),
            (Sign::Neg, Sign::Neg, Sign::Zero) => Some(TwistDirection::DL),
            (Sign::Pos, Sign::Zero, Sign::Pos) => Some(TwistDirection::FR),
            (Sign::Neg, Sign::Zero, Sign::Pos) => Some(TwistDirection::FL),
            (Sign::Pos, Sign::Zero, Sign::Neg) => Some(TwistDirection::BR),
            (Sign::Neg, Sign::Zero, Sign::Neg) => Some(TwistDirection::BL),
            (Sign::Zero, Sign::Pos, Sign::Pos) => Some(TwistDirection::UF),
            (Sign::Zero, Sign::Neg, Sign::Pos) => Some(TwistDirection::DF),
            (Sign::Zero, Sign::Pos, Sign::Neg) => Some(TwistDirection::UB),
            (Sign::Zero, Sign::Neg, Sign::Neg) => Some(TwistDirection::DB),
            (Sign::Pos, Sign::Zero, Sign::Zero) => Some(TwistDirection::R),
            (Sign::Neg, Sign::Zero, Sign::Zero) => Some(TwistDirection::L),
            (Sign::Zero, Sign::Pos, Sign::Zero) => Some(TwistDirection::U),
            (Sign::Zero, Sign::Neg, Sign::Zero) => Some(TwistDirection::D),
            (Sign::Zero, Sign::Zero, Sign::Pos) => Some(TwistDirection::F),
            (Sign::Zero, Sign::Zero, Sign::Neg) => Some(TwistDirection::B),
            (Sign::Zero, Sign::Zero, Sign::Zero) => None,
        }
    }

    /// Maps a sticker's three sign coordinates within its face to the
    /// single-layer twist direction a click on that sticker triggers.
    #[verifier::when_used_as_spec(spec_from_signs_within_face)]
    pub fn from_signs_within_face(v: (Sign, Sign, Sign)) -> (r: Option<TwistDirection>)
        ensures
            r == TwistDirection::spec_from_signs_within_face(v),
    {
        match v {
            (Sign::Pos, Sign::Pos, Sign::Pos) => Some(TwistDirection::UFR),
            (Sign::Neg, Sign::Pos, Sign::Pos) => Some(TwistDirection::UFL),
            (Sign::Pos, Sign::Neg, Sign::Pos) => Some(TwistDirection::DFR),
            (Sign::Neg, Sign::Neg, Sign::Pos) => Some(TwistDirection::DFL),
            (Sign::Pos, Sign::Pos, Sign::Neg) => Some(TwistDirection::UBR),
            (Sign::Neg, Sign::Pos, Sign::Neg) => Some(TwistDirection::UBL),
            (Sign::Pos, Sign::Neg, Sign::Neg) => Some(TwistDirection::DBR),
            (Sign::Neg, Sign::Neg, Sign::Neg) => Some(TwistDirection::DBL),
            (Sign::Pos, Sign::Pos, Sign::Zero) => Some(TwistDirection::UR),
            (Sign::Neg, Sign::Pos, Sign::Zero) => Some(TwistDirection::UL),
            (Sign::Pos, Sign::Neg, Sign::Zero) => Some(TwistDirection::DR),
            (Sign::Neg, Sign::Neg, Sign::Zero) => Some(TwistDirection::DL),
            (Sign::Pos, Sign::Zero, Sign::Pos) => Some(TwistDirection::FR),
            (Sign::Neg, Sign::Zero, Sign::Pos) => Some(TwistDirection::FL),
            (Sign::Pos, Sign::Zero, Sign::Neg) => Some(TwistDirection::BR),
            (Sign::Neg, Sign::Zero, Sign::Neg) => Some(TwistDirection::BL),
            (Sign::Zero, Sign::Pos, Sign::Pos) => Some(TwistDirection::UF),
            (Sign::Zero, Sign::Neg, Sign::Pos) => Some(TwistDirection::DF),
            (Sign::Zero, Sign::Pos, Sign::Neg) => Some(TwistDirection::UB),
            (Sign::Zero, Sign::Neg, Sign::Neg) => Some(TwistDirection::DB),
            (Sign::Pos, Sign::Zero, Sign::Zero) => Some(TwistDirection::R),
            (Sign::Neg, Sign::Zero, Sign::Zero) => Some(TwistDirection::L),
            (Sign::Zero, Sign::Pos, Sign::Zero) => Some(TwistDirection::U),
            (Sign::Zero, Sign::Neg, Sign::Zero) => Some(TwistDirection::D),
            (Sign::Zero, Sign::Zero, Sign::Pos) => Some(TwistDirection::F),
            (Sign::Zero, Sign::Zero, Sign::Neg) => Some(TwistDirection::B),
            (Sign::Zero, Sign::Zero, Sign::Zero) => None,
        }
    }

    /// All 32 named twist directions, in canonical order.
    pub fn all() -> (r: Vec<TwistDirection>)
        ensures
            r@.len() == 32,
    {
        let mut v: Vec<TwistDirection> = Vec::new();
        v.push(TwistDirection::R);
        v.push(TwistDirection::L);
        v.push(TwistDirection::U);
        v.push(TwistDirection::D);
        v.push(TwistDirection::F);
        v.push(TwistDirection::B);
        v.push(TwistDirection::R2);
        v.push(TwistDirection::L2);
        v.push(TwistDirection::U2);
        v.push(TwistDirection::D2);
        v.push(TwistDirection::F2);
        v.push(TwistDirection::B2);
        v.push(TwistDirection::UF);
        v.push(TwistDirection::DB);
        v.push(TwistDirection::UR);
        v.push(TwistDirection::DL);
        v.push(TwistDirection::FR);
        v.push(TwistDirection::BL);
        v.push(TwistDirection::DF);
        v.push(TwistDirection::UB);
        v.push(TwistDirection::UL);
        v.push(TwistDirection::DR);
        v.push(TwistDirection::BR);
        v.push(TwistDirection::FL);
        v.push(TwistDirection::UFR);
        v.push(TwistDirection::DBL);
        v.push(TwistDirection::UFL);
        v.push(TwistDirection::DBR);
        v.push(TwistDirection::DFR);
        v.push(TwistDirection::UBL);
        v.push(TwistDirection::UBR);
        v.push(TwistDirection::DFL);
        v
    }
}

} // verus!
