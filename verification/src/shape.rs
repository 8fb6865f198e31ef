//! The model of the current geometric object.
//!
//! The control layer never runs the geometry algorithms itself: duals,
//! pyramids, slices and the like are computed by external collaborators and
//! re-enter the layer as plain values.  What the layer itself reads of a
//! shape is captured here: a display-name designation, a dimensionality and
//! the bounding extent along the fixed slicing axis.  Coordinates are held
//! in fixed-point units so that the layer's own arithmetic is exact.

use vstd::prelude::*;

verus! {

/// Fixed-point coordinate units per one model length unit.
pub const SCALE: i64 = 10_000_000;

/// Largest coordinate magnitude the model admits along the slicing axis.
pub const COORD_LIMIT: i64 = 1_000_000_000_000_000;

/// Offset added to the slicing position before the hyperplane is placed, so
/// that a slice never coincides exactly with a vertex or facet boundary
/// (exact alignment produces undefined or empty slice output).
pub const SECTION_EPS: i64 = 1;

/// The attributes of the current geometric object that the control layer
/// reads.  Exactly one live shape exists per session; operations replace it
/// wholesale rather than mutating it field by field.
#[derive(Clone, Debug, PartialEq, Eq)]
pub struct Shape {
    /// UTF-8 designation handed to the external naming collaborator, which
    /// renders the display name for the selected language.
    pub name: Vec<u8>,
    /// Ambient dimension, where the shape can report one.
    pub dim: Option<usize>,
    /// Bounding extent along the fixed slicing axis, where the shape can
    /// report one.
    pub extent: Option<(i64, i64)>,
}

/// Mathematical model of a [`Shape`].
#[verifier::ext_equal]
pub ghost struct ShapeV {
    pub name: Seq<u8>,
    pub dim: Option<int>,
    pub extent: Option<(int, int)>,
}

impl View for Shape {
    type V = ShapeV;

    open spec fn view(&self) -> ShapeV {
        ShapeV {
            name: self.name@,
            dim: match self.dim {
                Some(d) => Some(d as int),
                None => None,
            },
            extent: match self.extent {
                Some((lo, hi)) => Some((lo as int, hi as int)),
                None => None,
            },
        }
    }
}

/// A shape is well formed when its reported extent is an ordered interval
/// within the coordinates the model admits.
pub open spec fn shape_wf(s: ShapeV) -> bool {
    match s.extent {
        Some((lo, hi)) => -COORD_LIMIT <= lo && lo <= hi && hi <= COORD_LIMIT,
        None => true,
    }
}

/// Byte-for-byte copy of a byte vector.
pub fn clone_bytes(v: &Vec<u8>) -> (r: Vec<u8>)
    ensures
        r@ == v@,
{
    let r = v.clone();
    proof {
        assert(r@ =~= v@);
    }
    r
}

impl Shape {
    /// An independently owned copy; mutating the copy is never observable
    /// through the original, and conversely.
    pub fn snapshot(&self) -> (r: Shape)
        ensures
            r@ == self@,
    {
        let r = Shape { name: clone_bytes(&self.name), dim: self.dim, extent: self.extent };
        proof {
            assert(r@ =~= self@);
        }
        r
    }

    /// Runtime check of [`shape_wf`], for callers outside the verified core.
    pub fn is_well_formed(&self) -> (r: bool)
        ensures
            r == shape_wf(self@),
    {
        match self.extent {
            Some((lo, hi)) => -COORD_LIMIT <= lo && lo <= hi && hi <= COORD_LIMIT,
            None => true,
        }
    }
}

} // verus!
