//! Twist values: a face, a direction and a layer mask, plus twist metrics
//! and the library's error kinds.

use crate::axes::Face;
use crate::directions::TwistDirection;
use vstd::prelude::*;

verus! {

/// The error kinds of the puzzle library. All are recoverable results for
/// the caller.
#[derive(Debug, Copy, Clone, PartialEq, Eq, Structural)]
pub enum PuzzleError {
    /// A twist's originating puzzle type differs from the controller's or
    /// state's puzzle type.
    TypeMismatch,
    /// No valid recentering twist exists for the given face.
    InvalidFace,
    /// Undo or redo was requested with nothing to undo or redo.
    EmptyHistory,
    /// The operation (log-file persistence) is intentionally not built.
    Unimplemented,
}

/// A bitset over the layer indices `[0, layer_count)` along a twist axis,
/// denoting which layers a twist includes. Layer 0 is the layer nearest the
/// twisted face.
#[derive(Debug, Copy, Clone, PartialEq, Eq, Hash, Structural)]
pub struct LayerMask(pub u32);

impl LayerMask {
    /// Whether the mask includes a layer index.
    pub open spec fn spec_contains(self, layer: u32) -> bool {
        self.0 & (1u32 << layer) != 0
    }

    /// Whether the mask includes a layer index.
    pub fn contains(self, layer: u8) -> (r: bool)
        requires
            layer < 32,
        ensures
            r == self.spec_contains(layer as u32),
    {
        self.0 & (1u32 << (layer as u32)) != 0
    }

    /// The mask selecting every layer of a puzzle with the given layer count.
    pub open spec fn spec_all_layers(layer_count: u8) -> LayerMask {
        LayerMask(((1u32 << (layer_count as u32)) - 1) as u32)
    }

    /// The mask selecting every layer of a puzzle with the given layer count.
    pub fn all_layers(layer_count: u8) -> (r: LayerMask)
        requires
            1 <= layer_count < 32,
        ensures
            r == LayerMask::spec_all_layers(layer_count),
    {
        let n = layer_count as u32;
        proof {
            assert(n < 32 ==> (1u32 << n) >= 1) by (bit_vector);
        }
        LayerMask((1u32 << n) - 1)
    }

    /// The all-layers mask contains exactly the layers below the layer count.
    pub proof fn lemma_all_layers_contains(layer_count: u8, layer: u32)
        requires
            1 <= layer_count < 32,
            layer < 32,
        ensures
            LayerMask::spec_all_layers(layer_count).spec_contains(layer) == (layer < layer_count),
    {
        let n = layer_count as u32;
        assert(n < 32 && layer < 32 ==> (((((1u32 << n) - 1) as u32) & (1u32 << layer) != 0) == (
        layer < n))) by (bit_vector);
    }

    /// The default mask contains exactly the single outermost layer.
    pub proof fn lemma_default_contains(layer: u32)
        requires
            layer < 32,
        ensures
            LayerMask(1).spec_contains(layer) == (layer == 0),
    {
        assert(layer < 32 ==> ((1u32 & (1u32 << layer) != 0) == (layer == 0))) by (bit_vector);
    }
}

impl Default for LayerMask {
    /// The default mask selects the single outermost layer.
    fn default() -> (r: LayerMask)
        ensures
            r == LayerMask(1),
    {
        LayerMask(1)
    }
}

/// A rule for counting a twist sequence as a move count: which adjacent
/// twists in the history merge into one counted move.
#[derive(Debug, Copy, Clone, PartialEq, Eq, Structural)]
pub enum TwistMetric {
    /// Every executed twist counts as one move; nothing merges.
    Execution,
    /// A twist merges with an immediately preceding twist of the same face
    /// and the same layers (a face twist followed by its own repetition).
    FaceTurn,
    /// A twist merges with an immediately preceding twist sharing its axis,
    /// whatever the layers.
    AxialTurn,
}

/// A twist: a face (axis + sign), a named direction, and a layer mask
/// denoting which layers along that axis are included. The twist also
/// records the layer count of the puzzle type it was made for. Immutable
/// value; twists compare by their parts and have a well-defined reverse.
#[derive(Debug, Copy, Clone, PartialEq, Eq, Hash, Structural)]
pub struct Twist {
    /// The face whose axis the twist rotates around.
    pub face: Face,
    /// Which of the fixed named rotations is applied.
    pub direction: TwistDirection,
    /// Which layers along the twist axis are included.
    pub layers: LayerMask,
    /// Layer count of the puzzle type this twist was made for.
    pub layer_count: u8,
}

impl Twist {
    /// The reverse twist: same face and layers, reverse direction.
    pub open spec fn spec_rev(self) -> Twist {
        Twist { direction: self.direction.spec_rev(), ..self }
    }

    /// The reverse twist: same face and layers, reverse direction.
    #[verifier::when_used_as_spec(spec_rev)]
    pub fn rev(self) -> (r: Twist)
        ensures
            r == self.spec_rev(),
    {
        Twist { direction: self.direction.rev(), ..self }
    }

    /// Reversing twice gives back the same twist.
    pub proof fn lemma_rev_rev(self)
        ensures
            self.spec_rev().spec_rev() == self,
    {
        self.direction.lemma_rev_rev();
    }

    /// Whether this twist merges with the twist right before it in the
    /// history under a given metric. The very first twist of a history has
    /// no predecessor (`prev` is `None`) and never merges.
    pub open spec fn spec_can_combine(self, prev: Option<Twist>, metric: TwistMetric) -> bool {
        match metric {
            TwistMetric::Execution => false,
            TwistMetric::FaceTurn => prev matches Some(p) && p.face == self.face && p.layers
                == self.layers,
            TwistMetric::AxialTurn => prev matches Some(p) && p.face.spec_axis()
                == self.face.spec_axis(),
        }
    }

    /// Whether this twist merges with the twist right before it under a
    /// given metric.
    pub fn can_combine(self, prev: Option<Twist>, metric: TwistMetric) -> (r: bool)
        ensures
            r == self.spec_can_combine(prev, metric),
    {
        match metric {
            TwistMetric::Execution => false,
            TwistMetric::FaceTurn => match prev {
                Some(p) => p.face == self.face && p.layers == self.layers,
                None => false,
            },
            TwistMetric::AxialTurn => match prev {
                Some(p) => p.face.axis() == self.face.axis(),
                None => false,
            },
        }
    }

    /// The face and direction of the whole-puzzle rotation that brings a
    /// face toward the viewer, or `None` for the two faces on the W axis,
    /// which are already innermost/outermost and have no valid recentering
    /// twist.
    pub open spec fn spec_recenter_parts(face: Face) -> Option<(Face, TwistDirection)> {
        match face {
            Face::R => Some((Face::U, TwistDirection::F)),
            Face::L => Some((Face::U, TwistDirection::B)),
            Face::U => Some((Face::R, TwistDirection::B)),
            Face::D => Some((Face::R, TwistDirection::F)),
            Face::F => Some((Face::R, TwistDirection::U)),
            Face::B => Some((Face::R, TwistDirection::D)),
            Face::O | Face::I => None,
        }
    }

    /// Builds the whole-puzzle twist (layer mask covering all layers) that
    /// brings the given face toward the viewer. Fails with `InvalidFace` for
    /// the two faces on the W axis.
    pub fn from_face_recenter(face: Face, layer_count: u8) -> (r: Result<Twist, PuzzleError>)
        requires
            1 <= layer_count < 32,
        ensures
            match Twist::spec_recenter_parts(face) {
                Some(parts) => r == Ok::<Twist, PuzzleError>(
                    Twist {
                        face: parts.0,
                        direction: parts.1,
                        layers: LayerMask::spec_all_layers(layer_count),
                        layer_count,
                    },
                ),
                None => r == Err::<Twist, PuzzleError>(PuzzleError::InvalidFace),
            },
    {
        let parts = match face {
            Face::R => (Face::U, TwistDirection::F),
            Face::L => (Face::U, TwistDirection::B),
            Face::U => (Face::R, TwistDirection::B),
            Face::D => (Face::R, TwistDirection::F),
            Face::F => (Face::R, TwistDirection::U),
            Face::B => (Face::R, TwistDirection::D),
            Face::O | Face::I => {
                return Err(PuzzleError::InvalidFace);
            },
        };
        Ok(
            Twist {
                face: parts.0,
                direction: parts.1,
                layers: LayerMask::all_layers(layer_count),
                layer_count,
            },
        )
    }
}

} // verus!
