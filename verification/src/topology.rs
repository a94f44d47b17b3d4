//! Puzzle topology: the immutable piece/sticker/axis layout for a given
//! layer count, and a registry that memoizes one description per layer count.
//!
//! Generation enumerates every lattice point `(x, y, z, w)` with each
//! coordinate in `[0, layer_count)`, in lexicographic `(w, z, y, x)` order
//! with `x` fastest, and materializes a piece exactly when the point lies on
//! the surface of the 4-dimensional hypercube (at least one coordinate at an
//! extreme). Each materialized piece gets one sticker per facing direction
//! whose coordinate is at an extreme, colored with that direction's face.

use crate::axes::{Axis, Face};
use vstd::arithmetic::div_mod::{
    lemma_div_denominator, lemma_fundamental_div_mod_converse,
};
use vstd::prelude::*;

verus! {

/// Smallest supported layer count.
pub const MIN_LAYER_COUNT: u8 = 1;

/// Largest supported layer count.
pub const MAX_LAYER_COUNT: u8 = 9;

/// A piece's lattice coordinate: four integers in `[0, layer_count)`.
#[derive(Debug, Copy, Clone, PartialEq, Eq, Hash, Structural)]
pub struct Location {
    /// Coordinate along the X axis.
    pub x: u8,
    /// Coordinate along the Y axis.
    pub y: u8,
    /// Coordinate along the Z axis.
    pub z: u8,
    /// Coordinate along the W axis.
    pub w: u8,
}

impl Location {
    /// The coordinate along a given axis.
    pub open spec fn spec_coord(self, a: Axis) -> u8 {
        match a {
            Axis::X => self.x,
            Axis::Y => self.y,
            Axis::Z => self.z,
            Axis::W => self.w,
        }
    }

    /// The coordinate along a given axis.
    #[verifier::when_used_as_spec(spec_coord)]
    pub fn coord(self, a: Axis) -> (c: u8)
        ensures
            c == self.spec_coord(a),
    {
        match a {
            Axis::X => self.x,
            Axis::Y => self.y,
            Axis::Z => self.z,
            Axis::W => self.w,
        }
    }

    /// All four coordinates lie in `[0, layer_count)`.
    pub open spec fn spec_in_range(self, n: u8) -> bool {
        self.x < n && self.y < n && self.z < n && self.w < n
    }

    /// The point lies on the surface of the hypercube: at least one
    /// coordinate equals its minimum or maximum.
    pub open spec fn spec_on_surface(self, n: u8) -> bool {
        ||| self.x == 0
        ||| self.x as int == n as int - 1
        ||| self.y == 0
        ||| self.y as int == n as int - 1
        ||| self.z == 0
        ||| self.z as int == n as int - 1
        ||| self.w == 0
        ||| self.w as int == n as int - 1
    }

    /// Whether the point lies on the surface of the hypercube.
    pub fn on_surface(self, n: u8) -> (r: bool)
        requires
            1 <= n,
        ensures
            r == self.spec_on_surface(n),
    {
        self.x == 0 || self.x == n - 1 || self.y == 0 || self.y == n - 1 || self.z == 0 || self.z
            == n - 1 || self.w == 0 || self.w == n - 1
    }
}

/// One piece of the puzzle: the indices of its stickers in the description's
/// sticker table.
#[derive(Debug, Clone, PartialEq, Eq)]
pub struct PieceInfo {
    /// Indices into the description's sticker table, in canonical face order.
    pub stickers: Vec<usize>,
}

/// One sticker: an immutable reference to its owning piece and its original
/// (solved-state) face color.
#[derive(Debug, Copy, Clone, PartialEq, Eq, Hash, Structural)]
pub struct StickerInfo {
    /// Index of the owning piece in the description's piece table.
    pub piece: usize,
    /// The face whose color this sticker shows in the solved state.
    pub color: Face,
}

/// The lexicographic rank of a lattice point, with `x` the fastest digit.
pub open spec fn spec_rank(n: u8, w: int, z: int, y: int, x: int) -> int {
    ((w * (n as int) + z) * (n as int) + y) * (n as int) + x
}

/// The lattice point of a given lexicographic rank.
pub open spec fn spec_point_at(n: u8, k: int) -> Location {
    let ni = n as int;
    Location {
        x: (k % ni) as u8,
        y: ((k / ni) % ni) as u8,
        z: ((k / (ni * ni)) % ni) as u8,
        w: (k / (ni * ni * ni)) as u8,
    }
}

/// Decoding a rank built from in-range digits gives back those digits.
proof fn lemma_point_at_digits(n: u8, w: u8, z: u8, y: u8, x: u8)
    requires
        1 <= n,
        w < n,
        z < n,
        y < n,
        x < n,
    ensures
        spec_point_at(n, spec_rank(n, w as int, z as int, y as int, x as int)) == (Location {
            x,
            y,
            z,
            w,
        }),
{
    let ni = n as int;
    let k2 = w * ni + z;
    let k1 = k2 * ni + y;
    let k = k1 * ni + x;
    lemma_fundamental_div_mod_converse(k, ni, k1, x as int);
    lemma_fundamental_div_mod_converse(k1, ni, k2, y as int);
    lemma_fundamental_div_mod_converse(k2, ni, w as int, z as int);
    assert(0 <= k1) by (nonlinear_arith)
        requires
            0 <= k2,
            0 <= y,
            ni > 0,
            k1 == k2 * ni + y,
    ;
    assert(0 <= k) by (nonlinear_arith)
        requires
            0 <= k1,
            0 <= x,
            ni > 0,
            k == k1 * ni + x,
    ;
    lemma_div_denominator(k, ni, ni);
    lemma_div_denominator(k, ni * ni, ni);
    assert(k / (ni * ni) == k1 / ni);
    assert(k / ((ni * ni) * ni) == (k / (ni * ni)) / ni);
}

/// The subsequence of surface points among the lattice points of rank below
/// `k`, in rank order.
pub open spec fn spec_surface_prefix(n: u8, k: int) -> Seq<Location>
    decreases k,
{
    if k <= 0 {
        Seq::empty()
    } else {
        let s = spec_surface_prefix(n, k - 1);
        let p = spec_point_at(n, k - 1);
        if p.spec_on_surface(n) {
            s.push(p)
        } else {
            s
        }
    }
}

/// All surface points of the hypercube lattice, in lexicographic `(w, z, y,
/// x)` order.
pub open spec fn spec_surface_points(n: u8) -> Seq<Location> {
    spec_surface_prefix(n, (n as int) * (n as int) * (n as int) * (n as int))
}

/// The interior width of the hypercube: `max(layer_count - 2, 0)`.
pub open spec fn spec_max_interior(n: u8) -> int {
    if n >= 2 {
        n - 2
    } else {
        0
    }
}

/// How many pieces a puzzle with the given layer count has:
/// `n^4 - max(n - 2, 0)^4`, the surface shell of an `n^4` lattice.
pub open spec fn spec_piece_count(n: u8) -> int {
    let ni = n as int;
    let m = spec_max_interior(n);
    ni * ni * ni * ni - m * m * m * m
}

/// How many values `c' < c` (for `c <= n`) are interior coordinates, that
/// is, lie in `[1, n - 2]`.
spec fn icnt(n: int, c: int) -> int {
    let m = if c <= n - 1 {
        c
    } else {
        n - 1
    };
    if m <= 1 {
        0
    } else {
        m - 1
    }
}

/// Whether a coordinate is interior: in `[1, n - 2]`.
spec fn is_inner(n: int, c: int) -> bool {
    1 <= c && c <= n - 2
}

/// How many lattice points of rank below `rank(w, z, y, x)` are interior
/// points (all four coordinates interior), in closed form over the digits.
spec fn icount4(n: int, w: int, z: int, y: int, x: int) -> int {
    let i1 = icnt(n, n);
    icnt(n, w) * i1 * i1 * i1 + if is_inner(n, w) {
        icnt(n, z) * i1 * i1 + if is_inner(n, z) {
            icnt(n, y) * i1 + if is_inner(n, y) {
                icnt(n, x)
            } else {
                0
            }
        } else {
            0
        }
    } else {
        0
    }
}

proof fn lemma_icnt_step(n: int, c: int)
    requires
        0 <= c < n,
    ensures
        icnt(n, c + 1) == icnt(n, c) + if is_inner(n, c) {
            1int
        } else {
            0
        },
{
}

proof fn lemma_icount4_x_step(n: int, w: int, z: int, y: int, x: int)
    requires
        1 <= n,
        0 <= x < n,
    ensures
        icount4(n, w, z, y, x + 1) == icount4(n, w, z, y, x) + if is_inner(n, w) && is_inner(n, z)
            && is_inner(n, y) && is_inner(n, x) {
            1int
        } else {
            0
        },
{
    lemma_icnt_step(n, x);
}

proof fn lemma_icount4_x_roll(n: int, w: int, z: int, y: int)
    requires
        1 <= n,
        0 <= y < n,
    ensures
        icount4(n, w, z, y, n) == icount4(n, w, z, y + 1, 0),
{
    lemma_icnt_step(n, y);
    let i1 = icnt(n, n);
    assert((icnt(n, y) + 1) * i1 == icnt(n, y) * i1 + i1) by (nonlinear_arith);
}

proof fn lemma_icount4_y_roll(n: int, w: int, z: int)
    requires
        1 <= n,
        0 <= z < n,
    ensures
        icount4(n, w, z, n, 0) == icount4(n, w, z + 1, 0, 0),
{
    lemma_icnt_step(n, z);
    let i1 = icnt(n, n);
    let lhs3: int = icnt(n, n) * i1 + if is_inner(n, n) {
        icnt(n, 0)
    } else {
        0
    };
    let rhs3: int = icnt(n, 0) * i1 + if is_inner(n, 0) {
        icnt(n, 0)
    } else {
        0
    };
    assert(lhs3 == i1 * i1);
    assert(rhs3 == 0);
    let lhs2: int = icnt(n, z) * i1 * i1 + if is_inner(n, z) {
        lhs3
    } else {
        0
    };
    let rhs2: int = icnt(n, z + 1) * i1 * i1 + if is_inner(n, z + 1) {
        rhs3
    } else {
        0
    };
    if is_inner(n, z) {
        assert(icnt(n, z + 1) == icnt(n, z) + 1);
        assert((icnt(n, z) + 1) * i1 * i1 == icnt(n, z) * i1 * i1 + i1 * i1) by (nonlinear_arith);
        assert(lhs2 == rhs2);
    } else {
        assert(icnt(n, z + 1) == icnt(n, z));
        assert(lhs2 == rhs2);
    }
    assert(icount4(n, w, z, n, 0) == icnt(n, w) * i1 * i1 * i1 + if is_inner(n, w) {
        lhs2
    } else {
        0
    });
    assert(icount4(n, w, z + 1, 0, 0) == icnt(n, w) * i1 * i1 * i1 + if is_inner(n, w) {
        rhs2
    } else {
        0
    });
}

proof fn lemma_icount4_z_roll(n: int, w: int)
    requires
        1 <= n,
        0 <= w < n,
    ensures
        icount4(n, w, n, 0, 0) == icount4(n, w + 1, 0, 0, 0),
{
    lemma_icnt_step(n, w);
    let i1 = icnt(n, n);
    let lhs2: int = icnt(n, n) * i1 * i1 + if is_inner(n, n) {
        icnt(n, 0) * i1 + if is_inner(n, 0) {
            icnt(n, 0)
        } else {
            0
        }
    } else {
        0
    };
    let rhs2: int = icnt(n, 0) * i1 * i1 + if is_inner(n, 0) {
        icnt(n, 0) * i1 + if is_inner(n, 0) {
            icnt(n, 0)
        } else {
            0
        }
    } else {
        0
    };
    assert(lhs2 == i1 * i1 * i1);
    assert(rhs2 == 0);
    let lhs1: int = icnt(n, w) * i1 * i1 * i1 + if is_inner(n, w) {
        lhs2
    } else {
        0
    };
    let rhs1: int = icnt(n, w + 1) * i1 * i1 * i1 + if is_inner(n, w + 1) {
        rhs2
    } else {
        0
    };
    if is_inner(n, w) {
        assert(icnt(n, w + 1) == icnt(n, w) + 1);
        assert((icnt(n, w) + 1) * i1 * i1 * i1 == icnt(n, w) * i1 * i1 * i1 + i1 * i1 * i1)
            by (nonlinear_arith);
        assert(lhs1 == rhs1);
    } else {
        assert(icnt(n, w + 1) == icnt(n, w));
        assert(lhs1 == rhs1);
    }
    assert(icount4(n, w, n, 0, 0) == lhs1);
    assert(icount4(n, w + 1, 0, 0, 0) == rhs1);
}

proof fn lemma_rank_x_roll(n: u8, w: int, z: int, y: int)
    ensures
        spec_rank(n, w, z, y, n as int) == spec_rank(n, w, z, y + 1, 0),
{
    let ni = n as int;
    assert(((w * ni + z) * ni + y) * ni + ni == ((w * ni + z) * ni + (y + 1)) * ni)
        by (nonlinear_arith);
}

proof fn lemma_rank_y_roll(n: u8, w: int, z: int)
    ensures
        spec_rank(n, w, z, n as int, 0) == spec_rank(n, w, z + 1, 0, 0),
{
    let ni = n as int;
    assert(((w * ni + z) * ni + ni) * ni == ((w * ni + (z + 1)) * ni) * ni) by (nonlinear_arith);
}

proof fn lemma_rank_z_roll(n: u8, w: int)
    ensures
        spec_rank(n, w, n as int, 0, 0) == spec_rank(n, w + 1, 0, 0, 0),
{
    let ni = n as int;
    assert(((w * ni + ni) * ni) * ni == (((w + 1) * ni) * ni) * ni) by (nonlinear_arith);
}

proof fn lemma_rank_total(n: u8)
    ensures
        spec_rank(n, n as int, 0, 0, 0) == (n as int) * (n as int) * (n as int) * (n as int),
{
    let ni = n as int;
    assert(((ni * ni + 0) * ni + 0) * ni + 0 == ni * ni * ni * ni) by (nonlinear_arith);
}

/// Consistency of the piece, sticker and location tables: the tables have
/// one entry per piece, every location is an in-range surface point, every
/// piece's sticker list matches the colors its location calls for, and every
/// sticker points back to a valid piece.
pub open spec fn spec_tables_wf(
    pieces: Seq<PieceInfo>,
    stickers: Seq<StickerInfo>,
    locations: Seq<Location>,
    n: u8,
) -> bool {
    &&& pieces.len() == locations.len()
    &&& forall|i: int|
        0 <= i < locations.len() ==> (#[trigger] locations[i]).spec_in_range(n)
    &&& forall|i: int|
        0 <= i < locations.len() ==> (#[trigger] locations[i]).spec_on_surface(n)
    &&& forall|i: int|
        0 <= i < pieces.len() ==> (#[trigger] pieces[i]).stickers@.len() == spec_piece_colors(
            n,
            locations[i],
        ).len()
    &&& forall|i: int, j: int|
        0 <= i < pieces.len() && 0 <= j < pieces[i].stickers@.len() ==> {
            let s = #[trigger] pieces[i].stickers@[j];
            &&& (s as int) < stickers.len()
            &&& stickers[s as int].piece == i
            &&& stickers[s as int].color == spec_piece_colors(n, locations[i])[j]
        }
    &&& forall|s: int|
        0 <= s < stickers.len() ==> (#[trigger] stickers[s]).piece < pieces.len()
}

/// The colors of the stickers a piece at a given location carries, in
/// canonical face order: one sticker per facing direction whose coordinate
/// is at an extreme.
pub open spec fn spec_piece_colors(n: u8, l: Location) -> Seq<Face> {
    let s = Seq::<Face>::empty();
    let s = if l.x as int == n as int - 1 {
        s.push(Face::R)
    } else {
        s
    };
    let s = if l.x == 0 {
        s.push(Face::L)
    } else {
        s
    };
    let s = if l.y as int == n as int - 1 {
        s.push(Face::U)
    } else {
        s
    };
    let s = if l.y == 0 {
        s.push(Face::D)
    } else {
        s
    };
    let s = if l.z as int == n as int - 1 {
        s.push(Face::F)
    } else {
        s
    };
    let s = if l.z == 0 {
        s.push(Face::B)
    } else {
        s
    };
    let s = if l.w as int == n as int - 1 {
        s.push(Face::O)
    } else {
        s
    };
    let s = if l.w == 0 {
        s.push(Face::I)
    } else {
        s
    };
    s
}

/// Pushes the stickers of one piece onto the sticker table and returns their
/// indices, in canonical face order.
#[verifier::rlimit(100)]
fn push_piece_stickers(stickers: &mut Vec<StickerInfo>, piece: usize, n: u8, loc: Location) -> (ids:
    Vec<usize>)
    requires
        1 <= n,
    ensures
        final(stickers)@.len() == old(stickers)@.len() + spec_piece_colors(n, loc).len(),
        ids@.len() == spec_piece_colors(n, loc).len(),
        forall|j: int| 0 <= j < ids@.len() ==> ids@[j] as int == old(stickers)@.len() + j,
        forall|j: int|
            0 <= j < ids@.len() ==> final(stickers)@[old(stickers)@.len() + j] == (StickerInfo {
                piece,
                color: spec_piece_colors(n, loc)[j],
            }),
        forall|s: int| 0 <= s < old(stickers)@.len() ==> final(stickers)@[s] == old(stickers)@[s],
{
    let mut ids: Vec<usize> = Vec::new();
    if loc.x == n - 1 {
        ids.push(stickers.len());
        stickers.push(StickerInfo { piece, color: Face::R });
    }
    if loc.x == 0 {
        ids.push(stickers.len());
        stickers.push(StickerInfo { piece, color: Face::L });
    }
    if loc.y == n - 1 {
        ids.push(stickers.len());
        stickers.push(StickerInfo { piece, color: Face::U });
    }
    if loc.y == 0 {
        ids.push(stickers.len());
        stickers.push(StickerInfo { piece, color: Face::D });
    }
    if loc.z == n - 1 {
        ids.push(stickers.len());
        stickers.push(StickerInfo { piece, color: Face::F });
    }
    if loc.z == 0 {
        ids.push(stickers.len());
        stickers.push(StickerInfo { piece, color: Face::B });
    }
    if loc.w == n - 1 {
        ids.push(stickers.len());
        stickers.push(StickerInfo { piece, color: Face::O });
    }
    if loc.w == 0 {
        ids.push(stickers.len());
        stickers.push(StickerInfo { piece, color: Face::I });
    }
    ids
}

/// The immutable layout of a puzzle with a given layer count: its pieces,
/// their stickers, and each piece's initial lattice coordinate. Created once
/// per layer count and never mutated.
#[derive(Debug, Clone, PartialEq, Eq)]
pub struct PuzzleDescription {
    /// The layer count this description was generated for.
    pub layer_count: u8,
    /// One entry per piece: the indices of the piece's stickers.
    pub pieces: Vec<PieceInfo>,
    /// One entry per sticker: its owning piece and solved-state color.
    pub stickers: Vec<StickerInfo>,
    /// One entry per piece: its initial (solved-state) lattice coordinate.
    pub piece_locations: Vec<Location>,
}

impl PuzzleDescription {
    /// Well-formedness: the layer count is in the supported range, the piece
    /// locations are exactly the surface points of the lattice in
    /// lexicographic order, and the piece/sticker tables are consistent.
    pub open spec fn wf(self) -> bool {
        &&& MIN_LAYER_COUNT <= self.layer_count <= MAX_LAYER_COUNT
        &&& self.piece_locations@ == spec_surface_points(self.layer_count)
        &&& self.pieces@.len() == spec_piece_count(self.layer_count)
        &&& spec_tables_wf(self.pieces@, self.stickers@, self.piece_locations@, self.layer_count)
    }

    /// How many random twists a full scramble of this puzzle uses.
    pub fn scramble_moves_count(&self) -> (r: usize)
        requires
            self.layer_count <= MAX_LAYER_COUNT,
        ensures
            r == 15 * self.layer_count,
    {
        15 * self.layer_count as usize
    }

    /// Generates the layout for a given layer count: exactly the surface
    /// lattice points become pieces, so the piece count is
    /// `n^4 - max(n - 2, 0)^4`.
    pub fn new(layer_count: u8) -> (r: PuzzleDescription)
        requires
            MIN_LAYER_COUNT <= layer_count <= MAX_LAYER_COUNT,
        ensures
            r.layer_count == layer_count,
            r.wf(),
            r.pieces@.len() == spec_piece_count(layer_count),
    {
        let n = layer_count;
        let ghost ni = n as int;
        let mut pieces: Vec<PieceInfo> = Vec::new();
        let mut stickers: Vec<StickerInfo> = Vec::new();
        let mut locations: Vec<Location> = Vec::new();

        let mut w: u8 = 0;
        while w < n
            invariant
                1 <= n <= 9,
                ni == n as int,
                w <= n,
                spec_tables_wf(pieces@, stickers@, locations@, n),
                locations@ == spec_surface_prefix(n, spec_rank(n, w as int, 0, 0, 0)),
                locations@.len() as int == spec_rank(n, w as int, 0, 0, 0) - icount4(
                    ni,
                    w as int,
                    0,
                    0,
                    0,
                ),
            decreases n - w,
        {
            let mut z: u8 = 0;
            while z < n
                invariant
                    1 <= n <= 9,
                    ni == n as int,
                    w < n,
                    z <= n,
                    spec_tables_wf(pieces@, stickers@, locations@, n),
                    locations@ == spec_surface_prefix(n, spec_rank(n, w as int, z as int, 0, 0)),
                    locations@.len() as int == spec_rank(n, w as int, z as int, 0, 0) - icount4(
                        ni,
                        w as int,
                        z as int,
                        0,
                        0,
                    ),
                decreases n - z,
            {
                let mut y: u8 = 0;
                while y < n
                    invariant
                        1 <= n <= 9,
                        ni == n as int,
                        w < n,
                        z < n,
                        y <= n,
                        spec_tables_wf(pieces@, stickers@, locations@, n),
                        locations@ == spec_surface_prefix(
                            n,
                            spec_rank(n, w as int, z as int, y as int, 0),
                        ),
                        locations@.len() as int == spec_rank(n, w as int, z as int, y as int, 0)
                            - icount4(ni, w as int, z as int, y as int, 0),
                    decreases n - y,
                {
                    let mut x: u8 = 0;
                    while x < n
                        invariant
                            1 <= n <= 9,
                            ni == n as int,
                            w < n,
                            z < n,
                            y < n,
                            x <= n,
                            spec_tables_wf(pieces@, stickers@, locations@, n),
                            locations@ == spec_surface_prefix(
                                n,
                                spec_rank(n, w as int, z as int, y as int, x as int),
                            ),
                            locations@.len() as int == spec_rank(
                                n,
                                w as int,
                                z as int,
                                y as int,
                                x as int,
                            ) - icount4(ni, w as int, z as int, y as int, x as int),
                        decreases n - x,
                    {
                        let ghost r = spec_rank(n, w as int, z as int, y as int, x as int);
                        let loc = Location { x, y, z, w };
                        proof {
                            lemma_point_at_digits(n, w, z, y, x);
                            lemma_icount4_x_step(ni, w as int, z as int, y as int, x as int);
                        }
                        if loc.on_surface(n) {
                            let ghost pieces0 = pieces@;
                            let ghost stickers0 = stickers@;
                            let ghost locations0 = locations@;
                            let piece = pieces.len();
                            let ids = push_piece_stickers(&mut stickers, piece, n, loc);
                            pieces.push(PieceInfo { stickers: ids });
                            locations.push(loc);
                            proof {
                                let cols = spec_piece_colors(n, loc);
                                assert forall|i: int, j: int|
                                    0 <= i < pieces@.len() && 0 <= j
                                        < pieces@[i].stickers@.len() implies {
                                    let s = #[trigger] pieces@[i].stickers@[j];
                                    &&& (s as int) < stickers@.len()
                                    &&& stickers@[s as int].piece == i
                                    &&& stickers@[s as int].color == spec_piece_colors(
                                        n,
                                        locations@[i],
                                    )[j]
                                } by {
                                    if i < pieces0.len() {
                                        assert(pieces@[i] == pieces0[i]);
                                        assert(locations@[i] == locations0[i]);
                                        let s = pieces@[i].stickers@[j];
                                        assert((s as int) < stickers0.len());
                                        assert(stickers@[s as int] == stickers0[s as int]);
                                    } else {
                                        assert(locations@[i] == loc);
                                        assert(pieces@[i].stickers@[j] as int == stickers0.len()
                                            + j);
                                        assert(stickers@[stickers0.len() + j] == (StickerInfo {
                                            piece,
                                            color: cols[j],
                                        }));
                                    }
                                }
                                assert forall|s: int|
                                    0 <= s < stickers@.len() implies (
                                #[trigger] stickers@[s]).piece < pieces@.len() by {
                                    if s < stickers0.len() {
                                        assert(stickers@[s] == stickers0[s]);
                                    } else {
                                        assert(stickers@[s] == (StickerInfo {
                                            piece,
                                            color: cols[s - stickers0.len()],
                                        }));
                                    }
                                }
                            }
                        }
                        x = x + 1;
                    }
                    proof {
                        lemma_icount4_x_roll(ni, w as int, z as int, y as int);
                        lemma_rank_x_roll(n, w as int, z as int, y as int);
                    }
                    y = y + 1;
                }
                proof {
                    lemma_icount4_y_roll(ni, w as int, z as int);
                    lemma_rank_y_roll(n, w as int, z as int);
                }
                z = z + 1;
            }
            proof {
                lemma_icount4_z_roll(ni, w as int);
                lemma_rank_z_roll(n, w as int);
            }
            w = w + 1;
        }
        proof {
            lemma_rank_total(n);
            assert(icnt(ni, ni) == spec_max_interior(n));
            assert(icount4(ni, ni, 0, 0, 0) == spec_max_interior(n) * spec_max_interior(n)
                * spec_max_interior(n) * spec_max_interior(n));
        }
        PuzzleDescription { layer_count, pieces, stickers, piece_locations: locations }
    }
}

/// A registry memoizing one [`PuzzleDescription`] per layer count. This is
/// the one shared, cross-instance resource: an entry, once created, is never
/// mutated or evicted.
#[derive(Debug)]
pub struct DescriptionRegistry {
    /// The descriptions generated so far, one per distinct layer count.
    entries: Vec<PuzzleDescription>,
}

impl DescriptionRegistry {
    /// All cached entries are well-formed and have distinct layer counts.
    pub closed spec fn wf(self) -> bool {
        &&& forall|i: int| 0 <= i < self.entries@.len() ==> (#[trigger] self.entries@[i]).wf()
        &&& forall|i: int, j: int|
            0 <= i < self.entries@.len() && 0 <= j < i ==> (#[trigger] self.entries@[i]).layer_count
                != (#[trigger] self.entries@[j]).layer_count
    }

    /// The cached entries, keyed by layer count.
    pub closed spec fn view(self) -> Seq<PuzzleDescription> {
        self.entries@
    }

    /// An empty registry.
    pub fn new() -> (r: DescriptionRegistry)
        ensures
            r.wf(),
            r@.len() == 0,
    {
        DescriptionRegistry { entries: Vec::new() }
    }

    /// The memoized description of the puzzle with a given layer count:
    /// returns the cached entry if one exists, else generates it once and
    /// caches it. The result is always the same well-formed description that
    /// [`PuzzleDescription::new`] builds.
    pub fn describe(&mut self, layer_count: u8) -> (r: &PuzzleDescription)
        requires
            old(self).wf(),
            MIN_LAYER_COUNT <= layer_count <= MAX_LAYER_COUNT,
        ensures
            final(self).wf(),
            r.wf(),
            r.layer_count == layer_count,
            r.pieces@.len() == spec_piece_count(layer_count),
            // memoization: an entry already present is returned unchanged,
            // else exactly one new entry is appended
            (exists|i: int|
                0 <= i < old(self)@.len() && (#[trigger] old(self)@[i]).layer_count == layer_count)
                ==> final(self)@ == old(self)@,
            !(exists|i: int|
                0 <= i < old(self)@.len() && (#[trigger] old(self)@[i]).layer_count == layer_count)
                ==> final(self)@.len() == old(self)@.len() + 1 && final(self)@.subrange(
                0,
                old(self)@.len() as int,
            ) == old(self)@,
    {
        let mut i: usize = 0;
        while i < self.entries.len()
            invariant
                self.wf(),
                i <= self.entries@.len(),
                forall|j: int|
                    0 <= j < i ==> (#[trigger] self.entries@[j]).layer_count != layer_count,
            decreases self.entries@.len() - i,
        {
            if self.entries[i].layer_count == layer_count {
                return &self.entries[i];
            }
            i = i + 1;
        }
        let desc = PuzzleDescription::new(layer_count);
        self.entries.push(desc);
        proof {
            assert(self@.subrange(0, old(self)@.len() as int) =~= old(self)@);
        }
        &self.entries[self.entries.len() - 1]
    }

    /// How many descriptions the registry has cached so far. Entries are
    /// never evicted, so this only grows.
    pub fn len(&self) -> (r: usize)
        ensures
            r == self@.len(),
    {
        self.entries.len()
    }
}

} // verus!
