//! Axes and faces of the 4-dimensional puzzle.
//!
//! A face pairs an axis with a sign; the eight faces are the puzzle's twist
//! axes and also the eight signed-axis labels of the orientation algebra.

use crate::sign::Sign;
use vstd::prelude::*;

verus! {

/// 4-dimensional axis.
#[derive(Debug, Copy, Clone, PartialEq, Eq, Hash, Structural)]
pub enum Axis {
    /// X axis (right).
    X,
    /// Y axis (up).
    Y,
    /// Z axis (towards the 3D camera).
    Z,
    /// W axis (towards the 4D camera).
    W,
}

impl Axis {
    /// The axis perpendicular to three other axes: the first axis, in
    /// `X, Y, Z, W` order, that does not occur among them.
    pub open spec fn spec_perpendicular_axis(axes: [Axis; 3]) -> Axis {
        if axes[0] != Axis::X && axes[1] != Axis::X && axes[2] != Axis::X {
            Axis::X
        } else if axes[0] != Axis::Y && axes[1] != Axis::Y && axes[2] != Axis::Y {
            Axis::Y
        } else if axes[0] != Axis::Z && axes[1] != Axis::Z && axes[2] != Axis::Z {
            Axis::Z
        } else {
            Axis::W
        }
    }

    /// Returns the axis perpendicular to three other axes.
    #[verifier::when_used_as_spec(spec_perpendicular_axis)]
    pub fn perpendicular_axis(axes: [Axis; 3]) -> (r: Axis)
        ensures
            r == Axis::spec_perpendicular_axis(axes),
            r != axes[0] && r != axes[1] && r != axes[2],
    {
        if axes[0] != Axis::X && axes[1] != Axis::X && axes[2] != Axis::X {
            Axis::X
        } else if axes[0] != Axis::Y && axes[1] != Axis::Y && axes[2] != Axis::Y {
            Axis::Y
        } else if axes[0] != Axis::Z && axes[1] != Axis::Z && axes[2] != Axis::Z {
            Axis::Z
        } else {
            Axis::W
        }
    }

    /// All four axes, in canonical order.
    pub fn all() -> (r: [Axis; 4])
        ensures
            r == [Axis::X, Axis::Y, Axis::Z, Axis::W],
    {
        [Axis::X, Axis::Y, Axis::Z, Axis::W]
    }
}

/// One of the eight cell faces of the 4-dimensional hypercube: an axis paired
/// with a sign. Also used as the eight signed-axis labels that a piece
/// orientation assigns to the four canonical positive axis directions.
#[derive(Debug, Copy, Clone, PartialEq, Eq, Hash, Structural)]
pub enum Face {
    /// X+ (right).
    R,
    /// X- (left).
    L,
    /// Y+ (up).
    U,
    /// Y- (down).
    D,
    /// Z+ (front).
    F,
    /// Z- (back).
    B,
    /// W+ (out).
    O,
    /// W- (in).
    I,
}

impl Face {
    /// The axis this face lies on.
    pub open spec fn spec_axis(self) -> Axis {
        match self {
            Face::R | Face::L => Axis::X,
            Face::U | Face::D => Axis::Y,
            Face::F | Face::B => Axis::Z,
            Face::O | Face::I => Axis::W,
        }
    }

    /// The axis this face lies on.
    #[verifier::when_used_as_spec(spec_axis)]
    pub fn axis(self) -> (a: Axis)
        ensures
            a == self.spec_axis(),
    {
        match self {
            Face::R | Face::L => Axis::X,
            Face::U | Face::D => Axis::Y,
            Face::F | Face::B => Axis::Z,
            Face::O | Face::I => Axis::W,
        }
    }

    /// Whether this face lies on the positive side of its axis.
    pub open spec fn spec_is_positive(self) -> bool {
        match self {
            Face::R | Face::U | Face::F | Face::O => true,
            Face::L | Face::D | Face::B | Face::I => false,
        }
    }

    /// Whether this face lies on the positive side of its axis.
    #[verifier::when_used_as_spec(spec_is_positive)]
    pub fn is_positive(self) -> (r: bool)
        ensures
            r == self.spec_is_positive(),
    {
        match self {
            Face::R | Face::U | Face::F | Face::O => true,
            Face::L | Face::D | Face::B | Face::I => false,
        }
    }

    /// The sign of this face along its axis (never zero).
    pub fn sgn(self) -> (s: Sign)
        ensures
            s == if self.spec_is_positive() {
                Sign::Pos
            } else {
                Sign::Neg
            },
    {
        if self.is_positive() {
            Sign::Pos
        } else {
            Sign::Neg
        }
    }

    /// The face on a given axis with a given sign.
    pub open spec fn spec_on_axis(axis: Axis, positive: bool) -> Face {
        match (axis, positive) {
            (Axis::X, true) => Face::R,
            (Axis::X, false) => Face::L,
            (Axis::Y, true) => Face::U,
            (Axis::Y, false) => Face::D,
            (Axis::Z, true) => Face::F,
            (Axis::Z, false) => Face::B,
            (Axis::W, true) => Face::O,
            (Axis::W, false) => Face::I,
        }
    }

    /// The face on a given axis with a given sign.
    #[verifier::when_used_as_spec(spec_on_axis)]
    pub fn on_axis(axis: Axis, positive: bool) -> (f: Face)
        ensures
            f == Face::spec_on_axis(axis, positive),
    {
        match (axis, positive) {
            (Axis::X, true) => Face::R,
            (Axis::X, false) => Face::L,
            (Axis::Y, true) => Face::U,
            (Axis::Y, false) => Face::D,
            (Axis::Z, true) => Face::F,
            (Axis::Z, false) => Face::B,
            (Axis::W, true) => Face::O,
            (Axis::W, false) => Face::I,
        }
    }

    /// The face on the same axis with the opposite sign.
    pub open spec fn spec_opposite(self) -> Face {
        match self {
            Face::R => Face::L,
            Face::L => Face::R,
            Face::U => Face::D,
            Face::D => Face::U,
            Face::F => Face::B,
            Face::B => Face::F,
            Face::O => Face::I,
            Face::I => Face::O,
        }
    }

    /// The face on the same axis with the opposite sign.
    #[verifier::when_used_as_spec(spec_opposite)]
    pub fn opposite(self) -> (f: Face)
        ensures
            f == self.spec_opposite(),
    {
        match self {
            Face::R => Face::L,
            Face::L => Face::R,
            Face::U => Face::D,
            Face::D => Face::U,
            Face::F => Face::B,
            Face::B => Face::F,
            Face::O => Face::I,
            Face::I => Face::O,
        }
    }

    /// All eight faces, in canonical order.
    pub fn all() -> (r: [Face; 8])
        ensures
            r == [Face::R, Face::L, Face::U, Face::D, Face::F, Face::B, Face::O, Face::I],
    {
        [Face::R, Face::L, Face::U, Face::D, Face::F, Face::B, Face::O, Face::I]
    }

    /// First basis face of this face's 3-dimensional cell: stands in for the
    /// written symbol `x`. It is the X+ face, except that a face on the X
    /// axis substitutes the W face on its own side.
    pub open spec fn spec_basis_x(self) -> Face {
        if self.spec_axis() == Axis::X {
            Face::spec_on_axis(Axis::W, self.spec_is_positive())
        } else {
            Face::R
        }
    }

    /// Second basis face of this face's 3-dimensional cell (symbol `y`).
    pub open spec fn spec_basis_y(self) -> Face {
        if self.spec_axis() == Axis::Y {
            Face::spec_on_axis(Axis::W, self.spec_is_positive())
        } else {
            Face::U
        }
    }

    /// Third basis face of this face's 3-dimensional cell (symbol `z`).
    pub open spec fn spec_basis_z(self) -> Face {
        if self.spec_axis() == Axis::Z {
            Face::spec_on_axis(Axis::W, self.spec_is_positive())
        } else {
            Face::F
        }
    }

    /// The three basis faces of this face's 3-dimensional cell, which the
    /// twist-direction symbols `x`, `y`, `z` refer to.
    pub fn basis_faces(self) -> (r: (Face, Face, Face))
        ensures
            r.0 == self.spec_basis_x(),
            r.1 == self.spec_basis_y(),
            r.2 == self.spec_basis_z(),
    {
        let w = Face::on_axis(Axis::W, self.is_positive());
        (
            if self.axis() == Axis::X {
                w
            } else {
                Face::R
            },
            if self.axis() == Axis::Y {
                w
            } else {
                Face::U
            },
            if self.axis() == Axis::Z {
                w
            } else {
                Face::F
            },
        )
    }

    /// The axes of a face's three basis faces are pairwise distinct and avoid
    /// the face's own axis.
    pub proof fn lemma_basis_axes(self)
        ensures
            self.spec_basis_x().spec_axis() != self.spec_axis(),
            self.spec_basis_y().spec_axis() != self.spec_axis(),
            self.spec_basis_z().spec_axis() != self.spec_axis(),
            self.spec_basis_x().spec_axis() != self.spec_basis_y().spec_axis(),
            self.spec_basis_x().spec_axis() != self.spec_basis_z().spec_axis(),
            self.spec_basis_y().spec_axis() != self.spec_basis_z().spec_axis(),
    {
    }
}

} // verus!
