//! The 4-dimensional puzzle state and its twist engine.
//!
//! A [`Rubiks4D`] pairs an immutable [`PuzzleDescription`] with one mutable
//! orientation state per piece. A twist determines, for every piece, its
//! layer number relative to the twist axis — recovered by inverting the
//! piece's orientation against its initial lattice location — and applies
//! the orientation algebra's twist operation to every piece whose layer is
//! in the twist's layer mask.

use crate::axes::{Axis, Face};
use crate::directions::TwistDirection;
use crate::orient::{
    lemma_twist_acts_per_slot, lemma_twist_label_keeps_own_axis, lemma_twist_preserves_wf,
    lemma_twist_reverse_identity, spec_twist_label, PieceState,
};
use crate::sign::Sign;
use crate::topology::{Location, PuzzleDescription};
use crate::twists::{LayerMask, PuzzleError, Twist};
use vstd::prelude::*;

verus! {

/// Flips a coordinate to the other end of its axis when the orientation
/// carries a negative sign.
pub open spec fn spec_flip_coord(c: u8, positive: bool, n: u8) -> u8 {
    if positive {
        c
    } else {
        (n as int - 1 - c as int) as u8
    }
}

/// A piece's current lattice coordinate along one axis, derived from its
/// orientation state and its initial location: the orientation tells which
/// original slot now occupies the axis, and a negative sign mirrors the
/// coordinate across the puzzle.
pub open spec fn spec_current_coord(st: PieceState, init: Location, n: u8, a: Axis) -> u8 {
    if st.x.spec_axis() == a {
        spec_flip_coord(init.x, st.x.spec_is_positive(), n)
    } else if st.y.spec_axis() == a {
        spec_flip_coord(init.y, st.y.spec_is_positive(), n)
    } else if st.z.spec_axis() == a {
        spec_flip_coord(init.z, st.z.spec_is_positive(), n)
    } else {
        spec_flip_coord(init.w, st.w.spec_is_positive(), n)
    }
}

/// The layer number of a piece relative to a twist axis: the absolute
/// difference between the coordinate the puzzle boundary assigns to the
/// face's sign (0 for negative, `layer_count - 1` for positive) and the
/// piece's current coordinate along the face's axis.
pub open spec fn spec_layer_of(st: PieceState, init: Location, n: u8, face: Face) -> int {
    let fc: int = if face.spec_is_positive() {
        n as int - 1
    } else {
        0
    };
    let pc = spec_current_coord(st, init, n, face.spec_axis()) as int;
    if fc >= pc {
        fc - pc
    } else {
        pc - fc
    }
}

/// Whether a twist affects a piece: its layer number relative to the twist
/// axis is a member of the twist's layer mask.
pub open spec fn spec_piece_affected(st: PieceState, init: Location, n: u8, t: Twist) -> bool {
    t.layers.spec_contains(spec_layer_of(st, init, n, t.face) as u32)
}

/// The puzzle state after a twist: every affected piece's orientation gets
/// the twist-direction operation, every other piece is unchanged. The
/// topology enters only through the layer count and the pieces' initial
/// locations.
pub open spec fn spec_apply_twist(
    n: u8,
    locs: Seq<Location>,
    states: Seq<PieceState>,
    t: Twist,
) -> Seq<PieceState> {
    Seq::new(
        states.len(),
        |i: int|
            if spec_piece_affected(states[i], locs[i], n, t) {
                states[i].spec_twist(t.face, t.direction)
            } else {
                states[i]
            },
    )
}

/// A twist of a face never changes a piece's coordinate along that face's
/// own axis: every generator rotation acts in the cell perpendicular to it.
#[verifier::rlimit(60)]
#[verifier::spinoff_prover]
pub proof fn lemma_twist_keeps_own_coord(
    st: PieceState,
    init: Location,
    n: u8,
    g: Face,
    dir: TwistDirection,
)
    requires
        st.wf(),
    ensures
        spec_current_coord(st.spec_twist(g, dir), init, n, g.spec_axis()) == spec_current_coord(
            st,
            init,
            n,
            g.spec_axis(),
        ),
{
    let a = g.spec_axis();
    let st2 = st.spec_twist(g, dir);
    lemma_twist_acts_per_slot(st, g, dir);
    lemma_twist_label_keeps_own_axis(st.x, g, dir);
    lemma_twist_label_keeps_own_axis(st.y, g, dir);
    lemma_twist_label_keeps_own_axis(st.z, g, dir);
    lemma_twist_label_keeps_own_axis(st.w, g, dir);
    assert(st2.x == spec_twist_label(st.x, g, dir));
    assert(st2.y == spec_twist_label(st.y, g, dir));
    assert(st2.z == spec_twist_label(st.z, g, dir));
    assert(st2.w == spec_twist_label(st.w, g, dir));
    assert((st2.x.spec_axis() == a) == (st.x.spec_axis() == a));
    assert((st2.y.spec_axis() == a) == (st.y.spec_axis() == a));
    assert((st2.z.spec_axis() == a) == (st.z.spec_axis() == a));
    assert((st2.w.spec_axis() == a) == (st.w.spec_axis() == a));
}

/// A twist never changes which pieces it affects: layer numbers relative to
/// its own axis are invariant under it, so applying it and then its reverse
/// touches exactly the same pieces.
pub proof fn lemma_twist_keeps_layer(
    st: PieceState,
    init: Location,
    n: u8,
    t: Twist,
    dir: TwistDirection,
)
    requires
        st.wf(),
    ensures
        spec_layer_of(st.spec_twist(t.face, dir), init, n, t.face) == spec_layer_of(
            st,
            init,
            n,
            t.face,
        ),
{
    lemma_twist_keeps_own_coord(st, init, n, t.face, dir);
}

/// Law: applying a twist and then its reverse to a puzzle state gives back
/// exactly the original state.
pub proof fn lemma_apply_twist_reverse(n: u8, locs: Seq<Location>, states: Seq<PieceState>, t: Twist)
    requires
        forall|i: int| 0 <= i < states.len() ==> (#[trigger] states[i]).wf(),
    ensures
        spec_apply_twist(n, locs, spec_apply_twist(n, locs, states, t), t.spec_rev()) == states,
{
    let mid = spec_apply_twist(n, locs, states, t);
    let out = spec_apply_twist(n, locs, mid, t.spec_rev());
    assert forall|i: int| 0 <= i < states.len() implies out[i] == states[i] by {
        let init = locs[i];
        let st = states[i];
        if spec_piece_affected(st, init, n, t) {
            lemma_twist_keeps_layer(st, init, n, t, t.direction);
            lemma_twist_reverse_identity(st, t.face, t.direction);
        }
    }
    assert(out =~= states);
}

/// A piece's layer number relative to any twist axis is strictly within
/// `[0, layer_count)` whenever its initial location is in range.
pub proof fn lemma_layer_of_in_range(st: PieceState, init: Location, n: u8, face: Face)
    requires
        1 <= n,
        init.spec_in_range(n),
    ensures
        0 <= spec_layer_of(st, init, n, face) < n,
{
}

/// A twist whose layer mask covers all layers (such as a recentering twist)
/// affects every piece of the puzzle.
pub proof fn lemma_all_layers_twist_affects_every_piece(
    st: PieceState,
    init: Location,
    n: u8,
    t: Twist,
)
    requires
        crate::topology::MIN_LAYER_COUNT <= n <= crate::topology::MAX_LAYER_COUNT,
        init.spec_in_range(n),
        t.layers == LayerMask::spec_all_layers(n),
    ensures
        spec_piece_affected(st, init, n, t),
{
    lemma_layer_of_in_range(st, init, n, t.face);
    LayerMask::lemma_all_layers_contains(n, spec_layer_of(st, init, n, t.face) as u32);
}

/// A single-layer twist (the default mask, as built for sticker clicks)
/// affects a piece exactly when the piece currently sits in the layer
/// touching the twisted face.
pub proof fn lemma_single_layer_twist_affects_face_layer(
    st: PieceState,
    init: Location,
    n: u8,
    t: Twist,
)
    requires
        crate::topology::MIN_LAYER_COUNT <= n <= crate::topology::MAX_LAYER_COUNT,
        init.spec_in_range(n),
        t.layers == LayerMask(1),
    ensures
        spec_piece_affected(st, init, n, t) == (spec_layer_of(st, init, n, t.face) == 0),
{
    lemma_layer_of_in_range(st, init, n, t.face);
    LayerMask::lemma_default_contains(spec_layer_of(st, init, n, t.face) as u32);
}

/// The closed set of supported puzzle types, tagged by dimensionality: a
/// puzzle type pairs a dimensionality with its layer count.
#[derive(Debug, Copy, Clone, PartialEq, Eq, Hash, Structural)]
pub enum PuzzleTypeEnum {
    /// The 4-dimensional analog of the cube, with its layer count.
    Rubiks4D {
        /// Number of layers along each axis.
        layer_count: u8,
    },
}

/// The 4-dimensional puzzle: an immutable description plus one orientation
/// state per piece. Two states compare equal iff all orientations match.
#[derive(Debug, Clone, PartialEq, Eq)]
pub struct Rubiks4D {
    /// The immutable topology this state belongs to.
    pub desc: PuzzleDescription,
    /// The orientation state of each piece, indexed by piece.
    pub piece_states: Vec<PieceState>,
}

impl Rubiks4D {
    /// Well-formedness: the description is well-formed, there is one
    /// orientation per piece, and every orientation is a valid signed
    /// permutation.
    pub open spec fn wf(self) -> bool {
        &&& self.desc.wf()
        &&& self.piece_states@.len() == self.desc.pieces@.len()
        &&& forall|i: int|
            0 <= i < self.piece_states@.len() ==> (#[trigger] self.piece_states@[i]).wf()
    }

    /// The layer count of this puzzle's type.
    pub open spec fn spec_layer_count(self) -> u8 {
        self.desc.layer_count
    }

    /// The layer count of this puzzle's type.
    pub fn layer_count(&self) -> (n: u8)
        ensures
            n == self.spec_layer_count(),
    {
        self.desc.layer_count
    }

    /// The puzzle type.
    pub fn ty(&self) -> (t: PuzzleTypeEnum)
        ensures
            t == (PuzzleTypeEnum::Rubiks4D { layer_count: self.spec_layer_count() }),
    {
        PuzzleTypeEnum::Rubiks4D { layer_count: self.desc.layer_count }
    }

    /// A new puzzle with every piece in the identity orientation.
    pub fn new(layer_count: u8) -> (r: Rubiks4D)
        requires
            crate::topology::MIN_LAYER_COUNT <= layer_count <= crate::topology::MAX_LAYER_COUNT,
        ensures
            r.wf(),
            r.spec_layer_count() == layer_count,
            forall|i: int|
                0 <= i < r.piece_states@.len() ==> (#[trigger] r.piece_states@[i])
                    == PieceState::spec_solved(),
    {
        let desc = PuzzleDescription::new(layer_count);
        let mut piece_states: Vec<PieceState> = Vec::new();
        let count = desc.pieces.len();
        while piece_states.len() < count
            invariant
                piece_states@.len() <= count,
                forall|i: int|
                    0 <= i < piece_states@.len() ==> (#[trigger] piece_states@[i])
                        == PieceState::spec_solved(),
            decreases count - piece_states@.len(),
        {
            piece_states.push(PieceState::solved());
        }
        Rubiks4D { desc, piece_states }
    }

    /// How many pieces the puzzle has.
    pub fn piece_count(&self) -> (r: usize)
        ensures
            r == self.piece_states@.len(),
    {
        self.piece_states.len()
    }

    /// The orientation state of one piece.
    pub fn piece_state(&self, piece: usize) -> (r: PieceState)
        requires
            piece < self.piece_states@.len(),
        ensures
            r == self.piece_states@[piece as int],
    {
        self.piece_states[piece]
    }

    /// A piece's current lattice coordinate along one axis.
    fn current_coord(&self, piece: usize, a: Axis) -> (c: u8)
        requires
            self.wf(),
            piece < self.piece_states@.len(),
        ensures
            c == spec_current_coord(
                self.piece_states@[piece as int],
                self.desc.piece_locations@[piece as int],
                self.spec_layer_count(),
                a,
            ),
            c < self.spec_layer_count(),
    {
        let st = self.piece_states[piece];
        let init = self.desc.piece_locations[piece];
        let n = self.desc.layer_count;
        let slot = if st.x.axis() == a {
            st.x
        } else if st.y.axis() == a {
            st.y
        } else if st.z.axis() == a {
            st.z
        } else {
            st.w
        };
        let c0 = if st.x.axis() == a {
            init.x
        } else if st.y.axis() == a {
            init.y
        } else if st.z.axis() == a {
            init.z
        } else {
            init.w
        };
        if slot.is_positive() {
            c0
        } else {
            n - 1 - c0
        }
    }

    /// A piece's current lattice location, derived by inverting its
    /// orientation state against its initial location.
    pub fn piece_location(&self, piece: usize) -> (loc: Location)
        requires
            self.wf(),
            piece < self.piece_states@.len(),
        ensures
            loc.x == spec_current_coord(
                self.piece_states@[piece as int],
                self.desc.piece_locations@[piece as int],
                self.spec_layer_count(),
                Axis::X,
            ),
            loc.y == spec_current_coord(
                self.piece_states@[piece as int],
                self.desc.piece_locations@[piece as int],
                self.spec_layer_count(),
                Axis::Y,
            ),
            loc.z == spec_current_coord(
                self.piece_states@[piece as int],
                self.desc.piece_locations@[piece as int],
                self.spec_layer_count(),
                Axis::Z,
            ),
            loc.w == spec_current_coord(
                self.piece_states@[piece as int],
                self.desc.piece_locations@[piece as int],
                self.spec_layer_count(),
                Axis::W,
            ),
            loc.spec_in_range(self.spec_layer_count()),
    {
        Location {
            x: self.current_coord(piece, Axis::X),
            y: self.current_coord(piece, Axis::Y),
            z: self.current_coord(piece, Axis::Z),
            w: self.current_coord(piece, Axis::W),
        }
    }

    /// The layer number of a piece relative to a twist axis. The result is
    /// always strictly within `[0, layer_count)`.
    pub fn layer_from_twist_axis(&self, face: Face, piece: usize) -> (layer: u8)
        requires
            self.wf(),
            piece < self.piece_states@.len(),
        ensures
            layer as int == spec_layer_of(
                self.piece_states@[piece as int],
                self.desc.piece_locations@[piece as int],
                self.spec_layer_count(),
                face,
            ),
            layer < self.spec_layer_count(),
    {
        let n = self.desc.layer_count;
        let face_coord: u8 = if face.is_positive() {
            n - 1
        } else {
            0
        };
        let piece_coord = self.current_coord(piece, face.axis());
        if face_coord >= piece_coord {
            face_coord - piece_coord
        } else {
            piece_coord - face_coord
        }
    }

    /// Whether a twist affects a piece: the piece's layer number relative to
    /// the twist axis is in the twist's layer mask.
    pub fn is_piece_affected_by_twist(&self, t: Twist, piece: usize) -> (r: bool)
        requires
            self.wf(),
            piece < self.piece_states@.len(),
        ensures
            r == spec_piece_affected(
                self.piece_states@[piece as int],
                self.desc.piece_locations@[piece as int],
                self.spec_layer_count(),
                t,
            ),
    {
        let layer = self.layer_from_twist_axis(t.face, piece);
        t.layers.contains(layer)
    }

    /// Applies a twist to the whole puzzle state: every affected piece's
    /// orientation gets the twist-direction operation. Fails with
    /// `TypeMismatch` exactly when the twist's originating puzzle type
    /// differs from this state's; the state is then unchanged.
    pub fn twist(&mut self, t: Twist) -> (r: Result<(), PuzzleError>)
        requires
            old(self).wf(),
        ensures
            final(self).wf(),
            final(self).desc == old(self).desc,
            t.layer_count == old(self).spec_layer_count() ==> r == Ok::<(), PuzzleError>(())
                && final(self).piece_states@ == spec_apply_twist(
                old(self).spec_layer_count(),
                old(self).desc.piece_locations@,
                old(self).piece_states@,
                t,
            ),
            t.layer_count != old(self).spec_layer_count() ==> r == Err::<(), PuzzleError>(
                PuzzleError::TypeMismatch,
            ) && *final(self) == *old(self),
    {
        if t.layer_count != self.desc.layer_count {
            return Err(PuzzleError::TypeMismatch);
        }
        let ghost target = spec_apply_twist(
            self.desc.layer_count,
            self.desc.piece_locations@,
            self.piece_states@,
            t,
        );
        let mut i: usize = 0;
        while i < self.piece_states.len()
            invariant
                self.wf(),
                self.desc == old(self).desc,
                t.layer_count == self.desc.layer_count,
                i <= self.piece_states@.len(),
                self.piece_states@.len() == old(self).piece_states@.len(),
                target == spec_apply_twist(
                    old(self).spec_layer_count(),
                    old(self).desc.piece_locations@,
                    old(self).piece_states@,
                    t,
                ),
                forall|j: int| 0 <= j < i ==> self.piece_states@[j] == target[j],
                forall|j: int|
                    i <= j < self.piece_states@.len() ==> self.piece_states@[j] == old(
                        self,
                    ).piece_states@[j],
            decreases self.piece_states@.len() - i,
        {
            let affected = self.is_piece_affected_by_twist(t, i);
            if affected {
                let st = self.piece_states[i];
                let turned = st.twist(t.face, t.direction);
                proof {
                    lemma_twist_preserves_wf(st, t.face, t.direction);
                }
                self.piece_states.set(i, turned);
            }
            i = i + 1;
        }
        proof {
            assert(self.piece_states@ =~= target);
        }
        Ok(())
    }

    /// The sign of a coordinate within the puzzle: negative at the low
    /// boundary, positive at the high boundary, zero in between.
    pub open spec fn spec_coord_sign(c: u8, n: u8) -> Sign {
        if c == 0 {
            Sign::Neg
        } else if c as int == n as int - 1 {
            Sign::Pos
        } else {
            Sign::Zero
        }
    }

    /// The current location signs of a piece: for each axis, whether the
    /// piece currently sits at the low boundary, the high boundary, or in
    /// between.
    pub open spec fn spec_location_sign(self, piece: int, a: Axis) -> Sign {
        Rubiks4D::spec_coord_sign(
            spec_current_coord(
                self.piece_states@[piece],
                self.desc.piece_locations@[piece],
                self.spec_layer_count(),
                a,
            ),
            self.spec_layer_count(),
        )
    }

    /// The current location signs of a piece along the four axes.
    pub fn piece_location_signs(&self, piece: usize) -> (r: (Sign, Sign, Sign, Sign))
        requires
            self.wf(),
            piece < self.piece_states@.len(),
        ensures
            r.0 == self.spec_location_sign(piece as int, Axis::X),
            r.1 == self.spec_location_sign(piece as int, Axis::Y),
            r.2 == self.spec_location_sign(piece as int, Axis::Z),
            r.3 == self.spec_location_sign(piece as int, Axis::W),
    {
        let n = self.desc.layer_count;
        let loc = self.piece_location(piece);
        (
            Self::coord_sign(loc.x, n),
            Self::coord_sign(loc.y, n),
            Self::coord_sign(loc.z, n),
            Self::coord_sign(loc.w, n),
        )
    }

    /// The sign of a coordinate within the puzzle.
    fn coord_sign(c: u8, n: u8) -> (s: Sign)
        requires
            1 <= n,
        ensures
            s == Rubiks4D::spec_coord_sign(c, n),
    {
        if c == 0 {
            Sign::Neg
        } else if c == n - 1 {
            Sign::Pos
        } else {
            Sign::Zero
        }
    }

    /// The face a sticker currently shows: the orientation slot of the
    /// sticker's original axis, with the original sign applied.
    pub open spec fn spec_sticker_face(self, sticker: int) -> Face {
        let info = self.desc.stickers@[sticker];
        let current = self.piece_states@[info.piece as int].spec_slot(info.color.spec_axis());
        if info.color.spec_is_positive() {
            current
        } else {
            current.spec_opposite()
        }
    }

    /// The face a sticker currently shows.
    pub fn sticker_face(&self, sticker: usize) -> (f: Face)
        requires
            self.wf(),
            sticker < self.desc.stickers@.len(),
        ensures
            f == self.spec_sticker_face(sticker as int),
    {
        let info = self.desc.stickers[sticker];
        let original = info.color;
        let current = self.piece_states[info.piece].slot(original.axis());
        if original.is_positive() {
            current
        } else {
            current.opposite()
        }
    }

    /// A sticker's sign coordinate along one basis face of its current face:
    /// the projection of the piece's location sign onto that basis vector.
    pub open spec fn spec_sticker_sign_within_face(self, sticker: int, basis: Face) -> Sign {
        let piece = self.desc.stickers@[sticker].piece as int;
        let along = self.spec_location_sign(piece, basis.spec_axis());
        if basis.spec_is_positive() {
            along
        } else {
            Rubiks4D::spec_negate_sign(along)
        }
    }

    /// Negation of a sign.
    pub open spec fn spec_negate_sign(s: Sign) -> Sign {
        match s {
            Sign::Neg => Sign::Pos,
            Sign::Zero => Sign::Zero,
            Sign::Pos => Sign::Neg,
        }
    }

    /// The three sign coordinates of a sticker within its current face: the
    /// piece's location signs projected onto the face's three basis faces.
    pub fn sticker_signs_within_face(&self, sticker: usize) -> (r: (Sign, Sign, Sign))
        requires
            self.wf(),
            sticker < self.desc.stickers@.len(),
        ensures
            r.0 == self.spec_sticker_sign_within_face(
                sticker as int,
                self.spec_sticker_face(sticker as int).spec_basis_x(),
            ),
            r.1 == self.spec_sticker_sign_within_face(
                sticker as int,
                self.spec_sticker_face(sticker as int).spec_basis_y(),
            ),
            r.2 == self.spec_sticker_sign_within_face(
                sticker as int,
                self.spec_sticker_face(sticker as int).spec_basis_z(),
            ),
    {
        let face = self.sticker_face(sticker);
        let (b1, b2, b3) = face.basis_faces();
        let piece = self.desc.stickers[sticker].piece;
        (
            self.sign_along_basis(piece, b1),
            self.sign_along_basis(piece, b2),
            self.sign_along_basis(piece, b3),
        )
    }

    /// The projection of a piece's location sign onto one signed basis face.
    fn sign_along_basis(&self, piece: usize, basis: Face) -> (s: Sign)
        requires
            self.wf(),
            piece < self.piece_states@.len(),
        ensures
            s == (if basis.spec_is_positive() {
                self.spec_location_sign(piece as int, basis.spec_axis())
            } else {
                Rubiks4D::spec_negate_sign(self.spec_location_sign(piece as int, basis.spec_axis()))
            }),
    {
        let along = match basis.axis() {
            Axis::X => self.piece_location_signs(piece).0,
            Axis::Y => self.piece_location_signs(piece).1,
            Axis::Z => self.piece_location_signs(piece).2,
            Axis::W => self.piece_location_signs(piece).3,
        };
        if basis.is_positive() {
            along
        } else {
            along.negated()
        }
    }

    /// The clockwise twist, counterclockwise twist, and recentering twist
    /// that a click on a sticker should trigger: the sticker's three in-face
    /// sign coordinates pick one of the 26 named single-layer directions
    /// (none for a sticker at the exact center of its face), the
    /// counterclockwise twist is the clockwise one reversed, and the
    /// recentering twist exists unless the sticker's face lies on the W
    /// axis.
    pub fn sticker_click_twists(&self, sticker: usize) -> (r: (
        Option<Twist>,
        Option<Twist>,
        Option<Twist>,
    ))
        requires
            self.wf(),
            sticker < self.desc.stickers@.len(),
        ensures
            ({
                let face = self.spec_sticker_face(sticker as int);
                let signs = (
                    self.spec_sticker_sign_within_face(sticker as int, face.spec_basis_x()),
                    self.spec_sticker_sign_within_face(sticker as int, face.spec_basis_y()),
                    self.spec_sticker_sign_within_face(sticker as int, face.spec_basis_z()),
                );
                &&& r.0 == match TwistDirection::spec_from_signs_within_face(signs) {
                    Some(dir) => Some(
                        Twist {
                            face,
                            direction: dir,
                            layers: LayerMask(1),
                            layer_count: self.spec_layer_count(),
                        },
                    ),
                    None => None::<Twist>,
                }
                &&& r.1 == match TwistDirection::spec_from_signs_within_face(signs) {
                    Some(dir) => Some(
                        Twist {
                            face,
                            direction: dir.spec_rev(),
                            layers: LayerMask(1),
                            layer_count: self.spec_layer_count(),
                        },
                    ),
                    None => None::<Twist>,
                }
                &&& r.2 == match Twist::spec_recenter_parts(face) {
                    Some(parts) => Some(
                        Twist {
                            face: parts.0,
                            direction: parts.1,
                            layers: LayerMask::spec_all_layers(self.spec_layer_count()),
                            layer_count: self.spec_layer_count(),
                        },
                    ),
                    None => None::<Twist>,
                }
            }),
    {
        let face = self.sticker_face(sticker);
        let signs = self.sticker_signs_within_face(sticker);
        let n = self.desc.layer_count;
        let cw = match TwistDirection::from_signs_within_face(signs) {
            Some(dir) => Some(
                Twist { face, direction: dir, layers: LayerMask(1), layer_count: n },
            ),
            None => None,
        };
        let ccw = match cw {
            Some(t) => Some(t.rev()),
            None => None,
        };
        let recenter = match Twist::from_face_recenter(face, n) {
            Ok(t) => Some(t),
            Err(_) => None,
        };
        (cw, ccw, recenter)
    }

    /// Whether every piece is back in the identity orientation.
    pub fn is_solved(&self) -> (r: bool)
        ensures
            r == (forall|i: int|
                0 <= i < self.piece_states@.len() ==> (#[trigger] self.piece_states@[i])
                    == PieceState::spec_solved()),
    {
        let mut i: usize = 0;
        while i < self.piece_states.len()
            invariant
                i <= self.piece_states@.len(),
                forall|j: int|
                    0 <= j < i ==> (#[trigger] self.piece_states@[j]) == PieceState::spec_solved(),
            decreases self.piece_states@.len() - i,
        {
            let st = self.piece_states[i];
            if !(st == PieceState::solved()) {
                return false;
            }
            i = i + 1;
        }
        true
    }
}

} // verus!
