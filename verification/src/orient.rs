//! Signed-axis-permutation algebra for a single piece's orientation.
//!
//! A piece orientation is a 4-slot record, one slot per canonical positive
//! axis (X+, Y+, Z+, W+), holding the signed-axis label (a [`Face`]) that the
//! slot's direction currently points to. A valid orientation assigns each of
//! the four axes to exactly one slot, so it is an element of the order-384
//! signed-permutation group on 4 elements.

use crate::axes::{Axis, Face};
use crate::directions::{StepSymbol, TwistDirection, TwistStep};
use vstd::prelude::*;

verus! {

/// The primitive 90-degree rotation generator, acting on a single signed-axis
/// label: a label on `from` moves to `to` keeping its sign, a label on `to`
/// moves to `from` flipping its sign, and labels on other axes are unchanged.
pub open spec fn spec_rotate_label(f: Face, from: Axis, to: Axis) -> Face {
    if f.spec_axis() == from {
        Face::spec_on_axis(to, f.spec_is_positive())
    } else if f.spec_axis() == to {
        Face::spec_on_axis(from, f.spec_is_positive()).spec_opposite()
    } else {
        f
    }
}

/// The primitive 90-degree rotation generator on a single signed-axis label.
pub fn rotate_label(f: Face, from: Axis, to: Axis) -> (r: Face)
    requires
        from != to,
    ensures
        r == spec_rotate_label(f, from, to),
{
    if f.axis() == from {
        Face::on_axis(to, f.is_positive())
    } else if f.axis() == to {
        Face::on_axis(from, f.is_positive()).opposite()
    } else {
        f
    }
}

/// The facing directions of the X+, Y+, Z+, and W+ stickers on a piece
/// (assuming it has those stickers).
#[derive(Debug, Copy, Clone, PartialEq, Eq, Hash, Structural)]
pub struct PieceState {
    /// Label the piece's X+ direction currently points to.
    pub x: Face,
    /// Label the piece's Y+ direction currently points to.
    pub y: Face,
    /// Label the piece's Z+ direction currently points to.
    pub z: Face,
    /// Label the piece's W+ direction currently points to.
    pub w: Face,
}

impl PieceState {
    /// The label held by the slot of a given canonical axis.
    pub open spec fn spec_slot(self, a: Axis) -> Face {
        match a {
            Axis::X => self.x,
            Axis::Y => self.y,
            Axis::Z => self.z,
            Axis::W => self.w,
        }
    }

    /// The label held by the slot of a given canonical axis.
    #[verifier::when_used_as_spec(spec_slot)]
    pub fn slot(self, a: Axis) -> (f: Face)
        ensures
            f == self.spec_slot(a),
    {
        match a {
            Axis::X => self.x,
            Axis::Y => self.y,
            Axis::Z => self.z,
            Axis::W => self.w,
        }
    }

    /// A valid orientation: each of the four axes occurs in exactly one slot
    /// (stated as pairwise distinctness of the slots' axes).
    pub open spec fn wf(self) -> bool {
        &&& self.x.spec_axis() != self.y.spec_axis()
        &&& self.x.spec_axis() != self.z.spec_axis()
        &&& self.x.spec_axis() != self.w.spec_axis()
        &&& self.y.spec_axis() != self.z.spec_axis()
        &&& self.y.spec_axis() != self.w.spec_axis()
        &&& self.z.spec_axis() != self.w.spec_axis()
    }

    /// The identity orientation: every slot points to its own axis's
    /// positive face.
    pub open spec fn spec_solved() -> PieceState {
        PieceState { x: Face::R, y: Face::U, z: Face::F, w: Face::O }
    }

    /// The identity orientation.
    #[verifier::when_used_as_spec(spec_solved)]
    pub fn solved() -> (r: PieceState)
        ensures
            r == PieceState::spec_solved(),
            r.wf(),
    {
        PieceState { x: Face::R, y: Face::U, z: Face::F, w: Face::O }
    }

    /// 90-degree rotation in the plane spanned by two axes, applied to every
    /// slot.
    pub open spec fn spec_rotate(self, from: Axis, to: Axis) -> PieceState {
        PieceState {
            x: spec_rotate_label(self.x, from, to),
            y: spec_rotate_label(self.y, from, to),
            z: spec_rotate_label(self.z, from, to),
            w: spec_rotate_label(self.w, from, to),
        }
    }

    /// 90-degree rotation in the plane spanned by two axes.
    #[must_use]
    pub fn rotate(self, from: Axis, to: Axis) -> (r: PieceState)
        requires
            from != to,
        ensures
            r == self.spec_rotate(from, to),
    {
        PieceState {
            x: rotate_label(self.x, from, to),
            y: rotate_label(self.y, from, to),
            z: rotate_label(self.z, from, to),
            w: rotate_label(self.w, from, to),
        }
    }

    /// The rotation generator written in terms of two faces: when the faces'
    /// signs differ, the effective rotation direction is negated, so that
    /// composing generators following a face's written symbol sequence yields
    /// a geometrically correct twist.
    pub open spec fn spec_rotate_by_faces(self, a: Face, b: Face) -> PieceState {
        if a.spec_is_positive() == b.spec_is_positive() {
            self.spec_rotate(a.spec_axis(), b.spec_axis())
        } else {
            self.spec_rotate(b.spec_axis(), a.spec_axis())
        }
    }

    /// The rotation generator written in terms of two faces.
    #[must_use]
    pub fn rotate_by_faces(self, a: Face, b: Face) -> (r: PieceState)
        requires
            a.spec_axis() != b.spec_axis(),
        ensures
            r == self.spec_rotate_by_faces(a, b),
    {
        if a.is_positive() == b.is_positive() {
            self.rotate(a.axis(), b.axis())
        } else {
            self.rotate(b.axis(), a.axis())
        }
    }

    /// One generator step of a twist of the given face: the step's symbol
    /// picks two of the face's basis faces, inversion swaps them, and
    /// doubling applies the generator twice.
    pub open spec fn spec_apply_step(self, face: Face, st: TwistStep) -> PieceState {
        let bx = face.spec_basis_x();
        let by = face.spec_basis_y();
        let bz = face.spec_basis_z();
        let pair = match st.symbol {
            StepSymbol::X => (bz, by),
            StepSymbol::Y => (bx, bz),
            StepSymbol::Z => (by, bx),
        };
        let ab = if st.inverse {
            (pair.1, pair.0)
        } else {
            pair
        };
        let once = self.spec_rotate_by_faces(ab.0, ab.1);
        if st.double {
            once.spec_rotate_by_faces(ab.0, ab.1)
        } else {
            once
        }
    }

    /// One generator step of a twist of the given face.
    #[must_use]
    pub fn apply_step(self, face: Face, st: TwistStep) -> (r: PieceState)
        ensures
            r == self.spec_apply_step(face, st),
    {
        proof {
            face.lemma_basis_axes();
        }
        let (bx, by, bz) = face.basis_faces();
        let (mut a, mut b) = match st.symbol {
            StepSymbol::X => (bz, by),
            StepSymbol::Y => (bx, bz),
            StepSymbol::Z => (by, bx),
        };
        if st.inverse {
            let t = a;
            a = b;
            b = t;
        }
        let mut r = self.rotate_by_faces(a, b);
        if st.double {
            r = r.rotate_by_faces(a, b);
        }
        r
    }

    /// Applying a twist direction to a piece orientation: the direction's
    /// generator steps, applied in order, for a twist of the given face.
    pub open spec fn spec_twist(self, face: Face, direction: TwistDirection) -> PieceState {
        let steps = direction.spec_steps();
        let once = self.spec_apply_step(face, steps.0);
        match steps.1 {
            Some(st) => once.spec_apply_step(face, st),
            None => once,
        }
    }

    /// Applies a twist direction to this piece orientation.
    #[must_use]
    pub fn twist(self, face: Face, direction: TwistDirection) -> (r: PieceState)
        ensures
            r == self.spec_twist(face, direction),
    {
        let (first, second) = direction.steps();
        let once = self.apply_step(face, first);
        match second {
            Some(st) => once.apply_step(face, st),
            None => once,
        }
    }
}

/// The face-written rotation generator acting on a single signed-axis label.
pub open spec fn spec_rotate_label_by_faces(f: Face, a: Face, b: Face) -> Face {
    if a.spec_is_positive() == b.spec_is_positive() {
        spec_rotate_label(f, a.spec_axis(), b.spec_axis())
    } else {
        spec_rotate_label(f, b.spec_axis(), a.spec_axis())
    }
}

/// One generator step of a twist of `face`, acting on a single signed-axis
/// label.
pub open spec fn spec_step_label(f: Face, face: Face, st: TwistStep) -> Face {
    let bx = face.spec_basis_x();
    let by = face.spec_basis_y();
    let bz = face.spec_basis_z();
    let pair = match st.symbol {
        StepSymbol::X => (bz, by),
        StepSymbol::Y => (bx, bz),
        StepSymbol::Z => (by, bx),
    };
    let ab = if st.inverse {
        (pair.1, pair.0)
    } else {
        pair
    };
    let once = spec_rotate_label_by_faces(f, ab.0, ab.1);
    if st.double {
        spec_rotate_label_by_faces(once, ab.0, ab.1)
    } else {
        once
    }
}

/// A twist direction applied to a single signed-axis label.
pub open spec fn spec_twist_label(f: Face, face: Face, direction: TwistDirection) -> Face {
    let steps = direction.spec_steps();
    let once = spec_step_label(f, face, steps.0);
    match steps.1 {
        Some(st) => spec_step_label(once, face, st),
        None => once,
    }
}

/// One generator step acts on each slot of an orientation independently.
proof fn lemma_step_acts_per_slot(s: PieceState, face: Face, st: TwistStep)
    ensures
        s.spec_apply_step(face, st) == (PieceState {
            x: spec_step_label(s.x, face, st),
            y: spec_step_label(s.y, face, st),
            z: spec_step_label(s.z, face, st),
            w: spec_step_label(s.w, face, st),
        }),
{
}

/// A twist acts on each slot of an orientation independently: the whole-state
/// twist is the per-label twist applied to each slot.
pub proof fn lemma_twist_acts_per_slot(s: PieceState, face: Face, direction: TwistDirection)
    ensures
        s.spec_twist(face, direction) == (PieceState {
            x: spec_twist_label(s.x, face, direction),
            y: spec_twist_label(s.y, face, direction),
            z: spec_twist_label(s.z, face, direction),
            w: spec_twist_label(s.w, face, direction),
        }),
{
    let steps = direction.spec_steps();
    lemma_step_acts_per_slot(s, face, steps.0);
    let once = s.spec_apply_step(face, steps.0);
    match steps.1 {
        Some(st) => lemma_step_acts_per_slot(once, face, st),
        None => {},
    }
}

/// A twist direction followed by its reverse returns any single signed-axis
/// label to itself.
#[verifier::rlimit(100)]
#[verifier::spinoff_prover]
proof fn lemma_twist_label_rev(f: Face, g: Face, dir: TwistDirection)
    ensures
        spec_twist_label(spec_twist_label(f, g, dir), g, dir.spec_rev()) == f,
{
}

/// A 180-degree twist applied twice returns any single signed-axis label to
/// itself.
#[verifier::rlimit(100)]
#[verifier::spinoff_prover]
proof fn lemma_twist_label_period_two(f: Face, g: Face, dir: TwistDirection)
    requires
        dir.spec_period() == 2,
    ensures
        spec_twist_label(spec_twist_label(f, g, dir), g, dir) == f,
{
}

/// A 120-degree corner twist applied three times returns any single
/// signed-axis label to itself.
#[verifier::rlimit(100)]
#[verifier::spinoff_prover]
proof fn lemma_corner_twist_label_thrice(f: Face, g: Face, dir: TwistDirection)
    requires
        dir.spec_period() == 3,
    ensures
        spec_twist_label(spec_twist_label(spec_twist_label(f, g, dir), g, dir), g, dir) == f,
{
}

/// A 90-degree twist applied four times returns any single signed-axis label
/// to itself.
#[verifier::rlimit(100)]
#[verifier::spinoff_prover]
proof fn lemma_twist_label_period_four(f: Face, g: Face, dir: TwistDirection)
    requires
        dir.spec_period() == 4,
    ensures
        spec_twist_label(
            spec_twist_label(spec_twist_label(spec_twist_label(f, g, dir), g, dir), g, dir),
            g,
            dir,
        ) == f,
{
}

/// A twist of a face never moves a label off or onto the face's own axis,
/// and leaves labels on that axis untouched: all its generator rotations act
/// in the cell perpendicular to it.
#[verifier::rlimit(100)]
#[verifier::spinoff_prover]
pub proof fn lemma_twist_label_keeps_own_axis(f: Face, g: Face, dir: TwistDirection)
    ensures
        (spec_twist_label(f, g, dir).spec_axis() == g.spec_axis()) == (f.spec_axis()
            == g.spec_axis()),
        f.spec_axis() == g.spec_axis() ==> spec_twist_label(f, g, dir) == f,
{
}

/// A rotation generator only swaps the two axes of its plane, so it maps the
/// slots' axes bijectively and keeps an orientation valid.
pub proof fn lemma_rotate_preserves_wf(s: PieceState, from: Axis, to: Axis)
    requires
        s.wf(),
    ensures
        s.spec_rotate(from, to).wf(),
{
}

/// The face-written rotation generator keeps an orientation valid.
proof fn lemma_rbf_preserves_wf(s: PieceState, a: Face, b: Face)
    requires
        s.wf(),
    ensures
        s.spec_rotate_by_faces(a, b).wf(),
{
    if a.spec_is_positive() == b.spec_is_positive() {
        lemma_rotate_preserves_wf(s, a.spec_axis(), b.spec_axis());
    } else {
        lemma_rotate_preserves_wf(s, b.spec_axis(), a.spec_axis());
    }
}

/// One generator step keeps an orientation valid.
proof fn lemma_step_preserves_wf(s: PieceState, face: Face, st: TwistStep)
    requires
        s.wf(),
    ensures
        s.spec_apply_step(face, st).wf(),
{
    let bx = face.spec_basis_x();
    let by = face.spec_basis_y();
    let bz = face.spec_basis_z();
    let pair = match st.symbol {
        StepSymbol::X => (bz, by),
        StepSymbol::Y => (bx, bz),
        StepSymbol::Z => (by, bx),
    };
    let ab = if st.inverse {
        (pair.1, pair.0)
    } else {
        pair
    };
    lemma_rbf_preserves_wf(s, ab.0, ab.1);
    if st.double {
        lemma_rbf_preserves_wf(s.spec_rotate_by_faces(ab.0, ab.1), ab.0, ab.1);
    }
}

/// A twist direction maps the slots' axes bijectively, so it keeps an
/// orientation valid.
pub proof fn lemma_twist_preserves_wf(s: PieceState, face: Face, direction: TwistDirection)
    requires
        s.wf(),
    ensures
        s.spec_twist(face, direction).wf(),
{
    let steps = direction.spec_steps();
    lemma_step_preserves_wf(s, face, steps.0);
    match steps.1 {
        Some(st) => lemma_step_preserves_wf(s.spec_apply_step(face, steps.0), face, st),
        None => {},
    }
}

/// Law: applying a twist direction and then its reverse, for a twist of the
/// same face, returns any orientation state exactly.
pub proof fn lemma_twist_reverse_identity(s: PieceState, face: Face, direction: TwistDirection)
    ensures
        s.spec_twist(face, direction).spec_twist(face, direction.spec_rev()) == s,
{
    let t = s.spec_twist(face, direction);
    lemma_twist_acts_per_slot(s, face, direction);
    lemma_twist_acts_per_slot(t, face, direction.spec_rev());
    lemma_twist_label_rev(s.x, face, direction);
    lemma_twist_label_rev(s.y, face, direction);
    lemma_twist_label_rev(s.z, face, direction);
    lemma_twist_label_rev(s.w, face, direction);
}

/// Law: applying a 120-degree corner twist three times returns any
/// orientation state exactly.
pub proof fn lemma_corner_twist_thrice_identity(s: PieceState, face: Face, dir: TwistDirection)
    requires
        dir.spec_period() == 3,
    ensures
        s.spec_twist(face, dir).spec_twist(face, dir).spec_twist(face, dir) == s,
{
    let t1 = s.spec_twist(face, dir);
    let t2 = t1.spec_twist(face, dir);
    lemma_twist_acts_per_slot(s, face, dir);
    lemma_twist_acts_per_slot(t1, face, dir);
    lemma_twist_acts_per_slot(t2, face, dir);
    lemma_corner_twist_label_thrice(s.x, face, dir);
    lemma_corner_twist_label_thrice(s.y, face, dir);
    lemma_corner_twist_label_thrice(s.z, face, dir);
    lemma_corner_twist_label_thrice(s.w, face, dir);
}

/// Law: every twist direction, applied as many times as its period says,
/// returns any orientation state exactly — twice for the 180-degree face and
/// edge twists, three times for the 120-degree corner twists, four times for
/// the 90-degree face twists.
pub proof fn lemma_twist_period_identity(s: PieceState, face: Face, dir: TwistDirection)
    ensures
        dir.spec_period() == 2 ==> s.spec_twist(face, dir).spec_twist(face, dir) == s,
        dir.spec_period() == 3 ==> s.spec_twist(face, dir).spec_twist(face, dir).spec_twist(
            face,
            dir,
        ) == s,
        dir.spec_period() == 4 ==> s.spec_twist(face, dir).spec_twist(face, dir).spec_twist(
            face,
            dir,
        ).spec_twist(face, dir) == s,
{
    let t1 = s.spec_twist(face, dir);
    let t2 = t1.spec_twist(face, dir);
    let t3 = t2.spec_twist(face, dir);
    lemma_twist_acts_per_slot(s, face, dir);
    lemma_twist_acts_per_slot(t1, face, dir);
    lemma_twist_acts_per_slot(t2, face, dir);
    lemma_twist_acts_per_slot(t3, face, dir);
    if dir.spec_period() == 2 {
        lemma_twist_label_period_two(s.x, face, dir);
        lemma_twist_label_period_two(s.y, face, dir);
        lemma_twist_label_period_two(s.z, face, dir);
        lemma_twist_label_period_two(s.w, face, dir);
    }
    if dir.spec_period() == 3 {
        lemma_corner_twist_thrice_identity(s, face, dir);
    }
    if dir.spec_period() == 4 {
        lemma_twist_label_period_four(s.x, face, dir);
        lemma_twist_label_period_four(s.y, face, dir);
        lemma_twist_label_period_four(s.z, face, dir);
        lemma_twist_label_period_four(s.w, face, dir);
    }
}

/// A rotation generator applied four times returns any single signed-axis
/// label to itself.
#[verifier::rlimit(60)]
proof fn lemma_rotate_label_four(f: Face, from: Axis, to: Axis)
    requires
        from != to,
    ensures
        spec_rotate_label(
            spec_rotate_label(spec_rotate_label(spec_rotate_label(f, from, to), from, to), from, to),
            from,
            to,
        ) == f,
{
}

/// Law: applying a 90-degree rotation generator four times to any
/// orientation state returns that state exactly.
pub proof fn lemma_rotate_four_identity(s: PieceState, from: Axis, to: Axis)
    requires
        from != to,
    ensures
        s.spec_rotate(from, to).spec_rotate(from, to).spec_rotate(from, to).spec_rotate(
            from,
            to,
        ) == s,
{
    lemma_rotate_label_four(s.x, from, to);
    lemma_rotate_label_four(s.y, from, to);
    lemma_rotate_label_four(s.z, from, to);
    lemma_rotate_label_four(s.w, from, to);
}

impl Default for PieceState {
    /// A new piece starts in the identity orientation.
    fn default() -> (r: PieceState)
        ensures
            r == PieceState::spec_solved(),
    {
        PieceState::solved()
    }
}

} // verus!
