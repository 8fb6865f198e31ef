//! The change-propagation pipeline and the file-dialog mediator.
//!
//! Each recomputation rule is gated by the version counters of its inputs:
//! it fires only when a counter has advanced past the version the rule last
//! observed, never merely because a frame elapsed.  Derived artifacts are
//! modeled by the inputs the external collaborators were invoked with: a
//! mesh by the shape version and projection mode it was tessellated from, a
//! title by the name and language it was rendered from.
//!
//! Within one pass the cross-section rule runs before the mesh and title
//! rules, so a resolved slice is never one frame stale relative to the mesh
//! it produces; the dialog drain runs after every rule, so a loaded shape is
//! picked up on the next pass.

use vstd::prelude::*;

use crate::dialog::{spec_dialog_cleared, FileDialogMode};
use crate::section::spec_resolve;
use crate::session::{
    session_wf, spec_replace_shape, spec_reset_section, versions_ok, Language, Message,
    ProjectionType, Session, SessionV,
};
use crate::shape::{clone_bytes, shape_wf, Shape};

verus! {

/// The inputs a mesh was tessellated from.  The external tessellation
/// collaborator regenerates the actual mesh exactly when this stamp is
/// replaced.
#[derive(Clone, Copy, PartialEq, Eq, Structural, Debug)]
pub struct MeshStamp {
    /// The shape version the mesh was generated from.
    pub shape_version: u64,
    /// The projection mode it was generated with.
    pub projection: ProjectionType,
}

/// Mathematical model of a [`MeshStamp`].
pub ghost struct MeshStampV {
    pub shape_version: int,
    pub projection: ProjectionType,
}

impl View for MeshStamp {
    type V = MeshStampV;

    open spec fn view(&self) -> MeshStampV {
        MeshStampV { shape_version: self.shape_version as int, projection: self.projection }
    }
}

/// The inputs the window title was rendered from by the external naming
/// collaborator.
pub struct TitleStamp {
    /// The shape name the title renders.
    pub name: Vec<u8>,
    /// The language it was rendered in.
    pub language: Language,
}

/// Mathematical model of a [`TitleStamp`].
#[verifier::ext_equal]
pub ghost struct TitleV {
    pub name: Seq<u8>,
    pub language: Language,
}

impl View for TitleStamp {
    type V = TitleV;

    open spec fn view(&self) -> TitleV {
        TitleV { name: self.name@, language: self.language }
    }
}

/// The derived artifacts and the versions each rule last observed.
pub struct Derived {
    /// The solid mesh, by the inputs it was tessellated from.
    pub mesh: Option<MeshStamp>,
    /// The wireframe mesh, by the inputs it was tessellated from.
    pub wireframe: Option<MeshStamp>,
    /// The window title, by the inputs it was rendered from.
    pub title: Option<TitleStamp>,
    /// Shape version last observed by the mesh rule.
    pub seen_shape_version: u64,
    /// Projection version last observed by the mesh rule.
    pub seen_projection_version: u64,
    /// Language version last observed by the title rule.
    pub seen_language_version: u64,
    /// Section version last observed by the cross-section rule.
    pub seen_section_version: u64,
    /// How many times the external tessellation collaborator was invoked.
    pub tessellation_count: u64,
}

/// Mathematical model of [`Derived`].
#[verifier::ext_equal]
pub ghost struct DerivedV {
    pub mesh: Option<MeshStampV>,
    pub wireframe: Option<MeshStampV>,
    pub title: Option<TitleV>,
    pub seen_shape_version: int,
    pub seen_projection_version: int,
    pub seen_language_version: int,
    pub seen_section_version: int,
    pub tessellation_count: int,
}

impl View for Derived {
    type V = DerivedV;

    open spec fn view(&self) -> DerivedV {
        DerivedV {
            mesh: match self.mesh {
                Some(m) => Some(m@),
                None => None,
            },
            wireframe: match self.wireframe {
                Some(m) => Some(m@),
                None => None,
            },
            title: match self.title {
                Some(ref t) => Some(t@),
                None => None,
            },
            seen_shape_version: self.seen_shape_version as int,
            seen_projection_version: self.seen_projection_version as int,
            seen_language_version: self.seen_language_version as int,
            seen_section_version: self.seen_section_version as int,
            tessellation_count: self.tessellation_count as int,
        }
    }
}

/// Room for the tessellation counter to advance: a machine limit.
pub open spec fn derived_ok(d: DerivedV) -> bool {
    d.tessellation_count < u64::MAX
}

impl Derived {
    /// A pipeline that has observed nothing and derived nothing yet.
    pub fn new() -> (r: Derived)
        ensures
            r@ == (DerivedV {
                mesh: None,
                wireframe: None,
                title: None,
                seen_shape_version: 0,
                seen_projection_version: 0,
                seen_language_version: 0,
                seen_section_version: 0,
                tessellation_count: 0,
            }),
    {
        Derived {
            mesh: None,
            wireframe: None,
            title: None,
            seen_shape_version: 0,
            seen_projection_version: 0,
            seen_language_version: 0,
            seen_section_version: 0,
            tessellation_count: 0,
        }
    }
}

/// The cross-section rule.  Fires exactly when the controller's counter has
/// advanced; on fire it replaces the live shape with the resolved slice of
/// the active snapshot, and leaves the shape as the user last set it while
/// the controller is inactive or its snapshot reports no dimension.
pub open spec fn spec_update_cross_section(s: SessionV, d: DerivedV) -> (SessionV, DerivedV) {
    if s.section_version != d.seen_section_version {
        let d2 = DerivedV { seen_section_version: s.section_version, ..d };
        match spec_resolve(s.section) {
            Some(sh) => (spec_replace_shape(s, sh), d2),
            None => (s, d2),
        }
    } else {
        (s, d)
    }
}

/// The mesh-regeneration rule (which also re-renders the title, since the
/// shape's name may have changed with it).  Fires exactly when the shape's
/// counter or the projection's counter has advanced.
pub open spec fn spec_update_changed(s: SessionV, d: DerivedV) -> DerivedV {
    if s.shape_version != d.seen_shape_version || s.projection_version
        != d.seen_projection_version {
        DerivedV {
            mesh: Some(MeshStampV { shape_version: s.shape_version, projection: s.projection }),
            wireframe: Some(
                MeshStampV { shape_version: s.shape_version, projection: s.projection },
            ),
            title: Some(TitleV { name: s.shape.name, language: s.language }),
            seen_shape_version: s.shape_version,
            seen_projection_version: s.projection_version,
            tessellation_count: d.tessellation_count + 1,
            ..d
        }
    } else {
        d
    }
}

/// The title rule.  Fires exactly when the language counter has advanced.
pub open spec fn spec_update_language(s: SessionV, d: DerivedV) -> DerivedV {
    if s.language_version != d.seen_language_version {
        DerivedV {
            title: Some(TitleV { name: s.shape.name, language: s.language }),
            seen_language_version: s.language_version,
            ..d
        }
    } else {
        d
    }
}

/// What the designated-context worker reported back for a pending request.
pub enum DialogOutcome {
    /// The user closed the open dialog without choosing: an explicit
    /// no-selection outcome, not an error.
    OpenCancelled,
    /// A file was chosen but loading or parsing it failed; the previous
    /// shape is retained unchanged.
    OpenFailed,
    /// A file was chosen, loaded, parsed and recentered: the new shape.
    OpenLoaded(Shape),
    /// The user closed the save dialog without choosing.
    SaveCancelled,
    /// The shape was written to the chosen path.
    SaveWritten,
    /// Writing to the chosen path failed.
    SaveFailed,
}

/// An outcome answers the kind of request that was pending.
pub open spec fn outcome_matches(mode: FileDialogMode, o: DialogOutcome) -> bool {
    match mode {
        FileDialogMode::Open => o is OpenCancelled || o is OpenFailed || o is OpenLoaded,
        FileDialogMode::Save => o is SaveCancelled || o is SaveWritten || o is SaveFailed,
        FileDialogMode::Disabled => true,
    }
}

/// The loaded shape of an open outcome must be well formed.
pub open spec fn outcome_wf(o: DialogOutcome) -> bool {
    o matches DialogOutcome::OpenLoaded(sh) ==> shape_wf(sh@)
}

/// The mediator's drain.  With no request pending the session is untouched,
/// whatever outcome is offered: a result can only be delivered against a
/// pending request, so each completed dialog is consumed at most once.
/// Otherwise the slot is cleared immediately — even on cancellation — and a
/// successfully loaded shape replaces the live one and invalidates the
/// cross-section controller.
pub open spec fn spec_file_dialog(s: SessionV, o: DialogOutcome) -> SessionV {
    if s.dialog.mode is Disabled {
        s
    } else {
        let cleared = SessionV { dialog: spec_dialog_cleared(), ..s };
        match o {
            DialogOutcome::OpenLoaded(sh) => spec_reset_section(
                spec_replace_shape(cleared, sh@),
            ),
            _ => cleared,
        }
    }
}

/// The message the drain reports.
pub open spec fn spec_file_dialog_msg(s: SessionV, o: DialogOutcome) -> Option<Message> {
    if s.dialog.mode is Disabled {
        None
    } else {
        match o {
            DialogOutcome::OpenFailed => Some(Message::LoadFailed),
            DialogOutcome::SaveFailed => Some(Message::SaveFailed),
            _ => None,
        }
    }
}

/// One whole propagation pass: the cross-section rule, then the mesh rule,
/// then the title rule, then the dialog drain (with the worker's outcome,
/// where a request was pending and the worker ran).
pub open spec fn spec_pipeline_pass(s: SessionV, d: DerivedV, o: Option<DialogOutcome>) -> (
    SessionV,
    DerivedV,
) {
    let (s1, d1) = spec_update_cross_section(s, d);
    let d2 = spec_update_changed(s1, d1);
    let d3 = spec_update_language(s1, d2);
    let s2 = match o {
        Some(oc) => spec_file_dialog(s1, oc),
        None => s1,
    };
    (s2, d3)
}

/// Updates the cross-section shown, as [`spec_update_cross_section`]
/// describes.
pub fn update_cross_section(sess: &mut Session, der: &mut Derived)
    requires
        session_wf(old(sess)@),
        versions_ok(old(sess)@),
    ensures
        (final(sess)@, final(der)@) == spec_update_cross_section(old(sess)@, old(der)@),
        session_wf(final(sess)@),
{
    if sess.section_version != der.seen_section_version {
        der.seen_section_version = sess.section_version;
        match sess.section.resolve() {
            Some(sh) => {
                sess.shape = sh;
                sess.shape_version = sess.shape_version + 1;
            },
            None => {},
        }
    }
}

/// Regenerates the meshes and the title after a shape or projection change,
/// as [`spec_update_changed`] describes.
pub fn update_changed_polytopes(sess: &Session, der: &mut Derived)
    requires
        old(der)@.tessellation_count < u64::MAX,
    ensures
        final(der)@ == spec_update_changed(sess@, old(der)@),
{
    if sess.shape_version != der.seen_shape_version || sess.projection_version
        != der.seen_projection_version {
        let stamp = MeshStamp { shape_version: sess.shape_version, projection: sess.projection };
        der.mesh = Some(stamp);
        der.wireframe = Some(stamp);
        der.title = Some(
            TitleStamp { name: clone_bytes(&sess.shape.name), language: sess.language },
        );
        der.seen_shape_version = sess.shape_version;
        der.seen_projection_version = sess.projection_version;
        der.tessellation_count = der.tessellation_count + 1;
        proof {
            assert(final(der)@ =~= spec_update_changed(sess@, old(der)@));
        }
    }
}

/// Re-renders the title after a language switch, as [`spec_update_language`]
/// describes.
pub fn update_language(sess: &Session, der: &mut Derived)
    ensures
        final(der)@ == spec_update_language(sess@, old(der)@),
{
    if sess.language_version != der.seen_language_version {
        der.title = Some(
            TitleStamp { name: clone_bytes(&sess.shape.name), language: sess.language },
        );
        der.seen_language_version = sess.language_version;
        proof {
            assert(final(der)@ =~= spec_update_language(sess@, old(der)@));
        }
    }
}

/// Drains the pending dialog request with the outcome the designated
/// context reported, as [`spec_file_dialog`] describes.
pub fn file_dialog(sess: &mut Session, outcome: DialogOutcome) -> (msg: Option<Message>)
    requires
        session_wf(old(sess)@),
        versions_ok(old(sess)@),
        outcome_matches(old(sess)@.dialog.mode, outcome),
        outcome_wf(outcome),
    ensures
        final(sess)@ == spec_file_dialog(old(sess)@, outcome),
        msg == spec_file_dialog_msg(old(sess)@, outcome),
        session_wf(final(sess)@),
{
    match sess.dialog.mode {
        FileDialogMode::Disabled => None,
        _ => {
            sess.dialog.clear();
            match outcome {
                DialogOutcome::OpenLoaded(sh) => {
                    sess.shape = sh;
                    sess.shape_version = sess.shape_version + 1;
                    if sess.section.is_active() {
                        sess.section.reset();
                        sess.section_version = sess.section_version + 1;
                    }
                    None
                },
                DialogOutcome::OpenFailed => Some(Message::LoadFailed),
                DialogOutcome::SaveFailed => Some(Message::SaveFailed),
                _ => None,
            }
        },
    }
}

/// One whole propagation pass, as [`spec_pipeline_pass`] describes: the
/// cross-section rule first, so its shape replacement is observed by the
/// mesh and title rules within the same pass; the dialog drain last, so a
/// loaded shape re-triggers the pipeline on the next pass.
pub fn pipeline_pass(sess: &mut Session, der: &mut Derived, outcome: Option<DialogOutcome>) -> (msg:
    Option<Message>)
    requires
        session_wf(old(sess)@),
        versions_ok(old(sess)@),
        old(sess)@.shape_version + 1 < u64::MAX,
        old(der)@.tessellation_count < u64::MAX,
        (outcome matches Some(o) ==> outcome_matches(old(sess)@.dialog.mode, o) && outcome_wf(o)),
    ensures
        (final(sess)@, final(der)@) == spec_pipeline_pass(old(sess)@, old(der)@, outcome),
        msg == (match outcome {
            Some(o) => spec_file_dialog_msg(
                spec_update_cross_section(old(sess)@, old(der)@).0,
                o,
            ),
            None => None,
        }),
        session_wf(final(sess)@),
{
    update_cross_section(sess, der);
    update_changed_polytopes(sess, der);
    update_language(sess, der);
    match outcome {
        Some(o) => file_dialog(sess, o),
        None => None,
    }
}

/// The mesh rule has observed the current shape and projection versions.
pub open spec fn mesh_observed(s: SessionV, d: DerivedV) -> bool {
    d.seen_shape_version == s.shape_version && d.seen_projection_version == s.projection_version
}

/// Every rule has observed the current versions.
pub open spec fn all_observed(s: SessionV, d: DerivedV) -> bool {
    &&& mesh_observed(s, d)
    &&& d.seen_language_version == s.language_version
    &&& d.seen_section_version == s.section_version
}

/// The meshes were tessellated from the current shape version and
/// projection mode.
pub open spec fn mesh_synced(s: SessionV, d: DerivedV) -> bool {
    &&& d.mesh == Some(MeshStampV { shape_version: s.shape_version, projection: s.projection })
    &&& d.wireframe == Some(
        MeshStampV { shape_version: s.shape_version, projection: s.projection },
    )
}

/// The title was rendered from the current name and language.
pub open spec fn title_synced(s: SessionV, d: DerivedV) -> bool {
    d.title == Some(TitleV { name: s.shape.name, language: s.language })
}

/// No rule has observed a version that does not exist yet: each counter is
/// monotonic and rules only copy current values, so what was last observed
/// is never ahead of the current version.
pub open spec fn versions_seen_ok(s: SessionV, d: DerivedV) -> bool {
    &&& d.seen_shape_version <= s.shape_version
    &&& d.seen_projection_version <= s.projection_version
    &&& d.seen_language_version <= s.language_version
    &&& d.seen_section_version <= s.section_version
}

/// The pipeline's invariant: whatever a rule has observed, it has acted on,
/// and nothing observed is ahead of the present.
pub open spec fn pipeline_inv(s: SessionV, d: DerivedV) -> bool {
    &&& versions_seen_ok(s, d)
    &&& (mesh_observed(s, d) ==> mesh_synced(s, d))
    &&& (mesh_observed(s, d) && d.seen_language_version == s.language_version ==> title_synced(
        s,
        d,
    ))
}

/// LAW — the dispatcher re-dirties what it touches: dispatching any action
/// preserves the pipeline's invariant, because every mutation advances the
/// version counter the affected rules are gated on.
pub proof fn lemma_ui_preserves_pipeline_inv(s: SessionV, d: DerivedV, a: crate::session::UiAction)
    requires
        pipeline_inv(s, d),
    ensures
        pipeline_inv(crate::session::spec_ui(s, a), d),
{
}

/// LAW — freshness and ordering: after one pass with no dialog delivery,
/// every rule has observed every current version, the meshes match the
/// final shape (including a slice resolved in the same pass: slicing is
/// never one frame stale relative to the mesh) and the title matches the
/// final name and language; and the invariant is maintained.
pub proof fn lemma_pass_fresh(s: SessionV, d: DerivedV)
    requires
        pipeline_inv(s, d),
    ensures
        ({
            let (s2, d2) = spec_pipeline_pass(s, d, None);
            all_observed(s2, d2) && mesh_synced(s2, d2) && title_synced(s2, d2) && pipeline_inv(
                s2,
                d2,
            )
        }),
{
}

/// LAW — stability: when nothing changed since the last observation, a pass
/// recomputes nothing at all — the external tessellation collaborator is
/// not invoked and session and derived state are untouched.
pub proof fn lemma_pass_stable(s: SessionV, d: DerivedV)
    requires
        all_observed(s, d),
    ensures
        spec_pipeline_pass(s, d, None) == (s, d),
{
}

/// LAW — a fresh session and a fresh pipeline satisfy the pipeline's
/// invariant, so [`lemma_pass_fresh`] applies from the first pass on: the
/// session's counters start at one, ahead of a pipeline that has observed
/// nothing.
pub proof fn lemma_fresh_state_satisfies_inv(s: SessionV, d: DerivedV)
    requires
        s.shape_version == 1,
        s.section_version == 1,
        s.language_version == 1,
        s.projection_version == 1,
        d.seen_shape_version == 0,
        d.seen_projection_version == 0,
        d.seen_language_version == 0,
        d.seen_section_version == 0,
    ensures
        pipeline_inv(s, d),
{
}

/// LAW — at-most-once delivery: draining any outcome leaves the slot empty,
/// an empty slot makes every further delivery a no-op, and a second pass
/// with no new request does not reload the shape delivered by the first.
pub proof fn lemma_dialog_at_most_once(
    s: SessionV,
    d: DerivedV,
    o: DialogOutcome,
    o2: DialogOutcome,
)
    ensures
        spec_file_dialog(s, o).dialog.mode is Disabled || s.dialog.mode is Disabled,
        s.dialog.mode is Disabled ==> spec_file_dialog(s, o2) == s,
        ({
            let (s1, d1) = spec_pipeline_pass(s, d, Some(o));
            let (s2, d2) = spec_pipeline_pass(s1, d1, None);
            s2.shape == s1.shape && s2.shape_version == s1.shape_version
        }),
{
    let (s1, d1) = spec_pipeline_pass(s, d, Some(o));
    assert(d1.seen_section_version == spec_update_cross_section(s, d).0.section_version);
}

} // verus!
