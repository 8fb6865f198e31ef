//! The cross-section state machine.
//!
//! The controller is either `Inactive` or `Active` over a frozen snapshot of
//! the shape taken at activation time, a slider range, a slicing position
//! and a flatten toggle.  While `Active`, the position always lies strictly
//! inside the range; the UI clamps, the data never does.  The snapshot is an
//! independently owned copy and is never mutated while `Active`.

use vstd::prelude::*;

use crate::shape::{clone_bytes, shape_wf, Shape, ShapeV, COORD_LIMIT, SCALE, SECTION_EPS};

verus! {

/// Stores the state of the cross-section view.
pub enum SectionState {
    /// The view is active.
    Active {
        /// The shape from which the cross-section originates, frozen at the
        /// moment of activation.
        original_polytope: Shape,
        /// The range of the slider.
        minmax: (i64, i64),
        /// The position of the slicing hyperplane.
        hyperplane_pos: i64,
        /// Whether the cross-section is flattened into a dimension lower.
        flatten: bool,
    },
    /// The view is inactive.
    Inactive,
}

/// Mathematical model of a [`SectionState`].
#[verifier::ext_equal]
pub ghost enum SectionV {
    Active { original: ShapeV, minmax: (int, int), hyperplane_pos: int, flatten: bool },
    Inactive,
}

impl View for SectionState {
    type V = SectionV;

    open spec fn view(&self) -> SectionV {
        match self {
            SectionState::Active { original_polytope, minmax, hyperplane_pos, flatten } => (
            SectionV::Active {
                original: original_polytope@,
                minmax: (minmax.0 as int, minmax.1 as int),
                hyperplane_pos: *hyperplane_pos as int,
                flatten: *flatten,
            }),
            SectionState::Inactive => SectionV::Inactive,
        }
    }
}

/// An active controller holds a well-formed snapshot, an ordered range
/// within the admitted coordinates, and a position strictly inside it.
pub open spec fn section_wf(s: SectionV) -> bool {
    match s {
        SectionV::Active { original, minmax, hyperplane_pos, flatten } => {
            &&& shape_wf(original)
            &&& -COORD_LIMIT <= minmax.0
            &&& minmax.0 < hyperplane_pos
            &&& hyperplane_pos < minmax.1
            &&& minmax.1 <= COORD_LIMIT
        },
        SectionV::Inactive => true,
    }
}

/// Deactivation: unconditional transition to `Inactive`.
pub open spec fn spec_reset(s: SectionV) -> SectionV {
    SectionV::Inactive
}

/// Setting the slicing position: a self-transition while `Active`, a no-op
/// while `Inactive`.
pub open spec fn spec_set_pos(s: SectionV, pos: int) -> SectionV {
    match s {
        SectionV::Active { original, minmax, hyperplane_pos, flatten } => (SectionV::Active {
            original,
            minmax,
            hyperplane_pos: pos,
            flatten,
        }),
        SectionV::Inactive => SectionV::Inactive,
    }
}

/// Setting the flatten toggle: a self-transition while `Active`, a no-op
/// while `Inactive`.
pub open spec fn spec_set_flat(s: SectionV, flat: bool) -> SectionV {
    match s {
        SectionV::Active { original, minmax, hyperplane_pos, flatten } => (SectionV::Active {
            original,
            minmax,
            hyperplane_pos,
            flatten: flat,
        }),
        SectionV::Inactive => SectionV::Inactive,
    }
}

/// Activation.  The range is the snapshot's extent along the slicing axis
/// when that extent is wide enough to hold an interior position; a shape
/// with (essentially) zero extent gets the default symmetric unit interval
/// instead.  A shape that cannot report an extent leaves the controller
/// `Inactive`: a reported no-op, not an error.  The initial position is the
/// midpoint of the range and flattening starts off.
pub open spec fn spec_activate(shape: ShapeV) -> SectionV {
    match shape.extent {
        None => SectionV::Inactive,
        Some((lo, hi)) => {
            let (a, b): (int, int) = if hi - lo >= 2 {
                (lo, hi)
            } else {
                (-SCALE as int, SCALE as int)
            };
            SectionV::Active {
                original: shape,
                minmax: (a, b),
                hyperplane_pos: a + (b - a) / 2,
                flatten: false,
            }
        },
    }
}

/// Resolution: the model of the shape that slicing the snapshot at the
/// current position produces.  The hyperplane is placed at the position plus
/// a small fixed epsilon.  The slice lies inside that hyperplane, so along
/// the slicing axis its extent is that single coordinate; when flattened it
/// is additionally collapsed one dimension lower and recentered about the
/// projected origin.  A snapshot with no reported dimension yields nothing.
pub open spec fn spec_resolve(s: SectionV) -> Option<ShapeV> {
    match s {
        SectionV::Inactive => None,
        SectionV::Active { original, minmax, hyperplane_pos, flatten } => {
            match original.dim {
                None => None,
                Some(d) => Some(ShapeV {
                    name: original.name,
                    dim: Some(if flatten && d > 0 { d - 1 } else { d as int }),
                    extent: Some(
                        if flatten {
                            (0int, 0int)
                        } else {
                            (hyperplane_pos + SECTION_EPS, hyperplane_pos + SECTION_EPS)
                        },
                    ),
                }),
            }
        },
    }
}

impl SectionState {
    /// Whether the view is active.
    pub fn is_active(&self) -> (r: bool)
        ensures
            r == (self@ is Active),
    {
        match self {
            SectionState::Active { .. } => true,
            SectionState::Inactive => false,
        }
    }

    /// The slider range, while active.
    pub fn range(&self) -> (r: Option<(i64, i64)>)
        ensures
            match r {
                Some((lo, hi)) => self@ matches SectionV::Active { minmax, .. } && minmax == (
                lo as int,
                hi as int,
                ),
                None => self@ is Inactive,
            },
    {
        match self {
            SectionState::Active { minmax, .. } => Some(*minmax),
            SectionState::Inactive => None,
        }
    }

    /// Returns the view to `Inactive`, discarding any snapshot.
    pub fn reset(&mut self)
        ensures
            final(self)@ == spec_reset(old(self)@),
    {
        *self = Self::Inactive;
    }

    /// Commits a new slicing position.  The caller — the slider widget — is
    /// responsible for bounding `pos` to the range; the data itself never
    /// re-clamps.  A no-op while `Inactive`.
    pub fn set_pos(&mut self, pos: i64)
        requires
            old(self)@ matches SectionV::Active { minmax, .. } ==> minmax.0 < pos as int
                && (pos as int) < minmax.1,
        ensures
            final(self)@ == spec_set_pos(old(self)@, pos as int),
            section_wf(old(self)@) ==> section_wf(final(self)@),
    {
        if let SectionState::Active { original_polytope: _, minmax: _, hyperplane_pos, flatten: _ } =
            self {
            *hyperplane_pos = pos;
        }
    }

    /// Commits a new flatten toggle.  A no-op while `Inactive`.
    pub fn set_flat(&mut self, flat: bool)
        ensures
            final(self)@ == spec_set_flat(old(self)@, flat),
            section_wf(old(self)@) ==> section_wf(final(self)@),
    {
        if let SectionState::Active { original_polytope: _, minmax: _, hyperplane_pos: _, flatten } =
            self {
            *flatten = flat;
        }
    }

    /// Takes a frozen snapshot of `shape` and activates the view on it, as
    /// [`spec_activate`] describes.
    pub fn activate(shape: &Shape) -> (r: SectionState)
        requires
            shape_wf(shape@),
        ensures
            r@ == spec_activate(shape@),
            section_wf(r@),
    {
        match shape.extent {
            None => SectionState::Inactive,
            Some((lo, hi)) => {
                let (a, b): (i64, i64) = if hi - lo >= 2 {
                    (lo, hi)
                } else {
                    (-SCALE, SCALE)
                };
                let width: u64 = (b - a) as u64;
                let half: i64 = (width / 2) as i64;
                let pos: i64 = a + half;
                let r = SectionState::Active {
                    original_polytope: shape.snapshot(),
                    minmax: (a, b),
                    hyperplane_pos: pos,
                    flatten: false,
                };
                proof {
                    assert(half == (b - a) / 2);
                    assert(a < pos && pos < b);
                    assert(r@ =~= spec_activate(shape@));
                }
                r
            },
        }
    }

    /// Produces the model of the current sliced shape, as [`spec_resolve`]
    /// describes.  Read by the change-propagation pipeline; never called by
    /// the controller itself.
    pub fn resolve(&self) -> (r: Option<Shape>)
        requires
            section_wf(self@),
        ensures
            match r {
                Some(s) => spec_resolve(self@) == Some(s@) && shape_wf(s@),
                None => spec_resolve(self@) is None,
            },
    {
        match self {
            SectionState::Inactive => None,
            SectionState::Active { original_polytope, minmax: _, hyperplane_pos, flatten } => {
                match original_polytope.dim {
                    None => None,
                    Some(d) => {
                        let dim: usize = if *flatten && d > 0 {
                            d - 1
                        } else {
                            d
                        };
                        let at: i64 = *hyperplane_pos + SECTION_EPS;
                        let extent: (i64, i64) = if *flatten {
                            (0, 0)
                        } else {
                            (at, at)
                        };
                        let s = Shape {
                            name: clone_bytes(&original_polytope.name),
                            dim: Some(dim),
                            extent: Some(extent),
                        };
                        proof {
                            assert(Some(s@) =~~= spec_resolve(self@));
                        }
                        Some(s)
                    },
                }
            },
        }
    }
}

impl Default for SectionState {
    /// The view starts out inactive.
    fn default() -> (r: Self)
        ensures
            r@ == SectionV::Inactive,
    {
        Self::Inactive
    }
}

/// LAW — determinism of resolution: the resolved slice is a function of the
/// snapshot, the position and the flatten toggle alone.  Two active states
/// that agree on those three resolve to the same shape, whatever their
/// ranges and however many position updates produced them.
pub proof fn lemma_resolve_deterministic(
    original: ShapeV,
    mm1: (int, int),
    mm2: (int, int),
    pos: int,
    flatten: bool,
)
    ensures
        spec_resolve(
            SectionV::Active { original, minmax: mm1, hyperplane_pos: pos, flatten },
        ) == spec_resolve(SectionV::Active { original, minmax: mm2, hyperplane_pos: pos, flatten }),
{
}

/// LAW — position updates only move the position: a `set_pos` while active
/// keeps the snapshot, the range and the flatten toggle, so resolution after
/// any sequence of position updates depends only on the last position.
pub proof fn lemma_set_pos_then_resolve(s: SectionV, pos: int)
    requires
        s is Active,
    ensures
        spec_set_pos(s, pos) matches SectionV::Active { original, minmax, hyperplane_pos, flatten }
            && original == s->Active_original && minmax == s->Active_minmax && hyperplane_pos == pos
            && flatten == s->Active_flatten,
{
}

/// LAW — deactivating makes every `Active`-only update and query a safe
/// no-op: after a reset, position and flatten updates change nothing and
/// resolution yields nothing.
pub proof fn lemma_reset_then_updates_noop(s: SectionV, pos: int, flat: bool)
    ensures
        spec_set_pos(spec_reset(s), pos) == spec_reset(s),
        spec_set_flat(spec_reset(s), flat) == spec_reset(s),
        spec_resolve(spec_reset(s)) is None,
{
}

} // verus!
