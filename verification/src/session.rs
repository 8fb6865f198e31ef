//! The session state and the command dispatcher.
//!
//! A session owns exactly one live shape, the cross-section controller, the
//! pending dialog slot and the process-wide selections (language,
//! projection mode), each paired with an explicit monotonic version
//! counter that is incremented on every mutation.  The change-propagation
//! pipeline compares these counters against the versions it last observed.
//!
//! The dispatcher [`ui`] turns one discrete user action into one mutation
//! of the session.  The geometry algorithms behind the topological
//! operations are external collaborators: their results enter the
//! dispatcher as plain values, and the dispatcher is verified for every
//! value they could hand back.  A failed operation leaves the session
//! exactly as it was, apart from the reported message.

use vstd::prelude::*;

use crate::dialog::{dialog_wf, DialogV, FileDialogMode, FileDialogState};
use crate::section::{section_wf, spec_activate, SectionState, SectionV};
use crate::shape::{clone_bytes, shape_wf, Shape, ShapeV};

verus! {

/// How the Shape's display name is rendered; changing it never mutates the
/// shape, only the derived title.
#[derive(Clone, Copy, PartialEq, Eq, Structural, Debug)]
pub enum Language {
    English,
    Spanish,
    German,
}

impl Language {
    /// Every selectable language, for the language menu.
    pub fn all() -> (r: Vec<Language>)
        ensures
            r@ == seq![Language::English, Language::Spanish, Language::German],
    {
        let mut v: Vec<Language> = Vec::new();
        v.push(Language::English);
        v.push(Language::Spanish);
        v.push(Language::German);
        proof {
            assert(v@ =~= seq![Language::English, Language::Spanish, Language::German]);
        }
        v
    }
}

/// The process-wide projection toggle; it affects only how derived meshes
/// are generated, never the shape's own geometry.
#[derive(Clone, Copy, PartialEq, Eq, Structural, Debug)]
pub enum ProjectionType {
    Orthogonal,
    Perspective,
}

/// The other projection mode.
pub open spec fn spec_flip(p: ProjectionType) -> ProjectionType {
    match p {
        ProjectionType::Orthogonal => ProjectionType::Perspective,
        ProjectionType::Perspective => ProjectionType::Orthogonal,
    }
}

impl ProjectionType {
    /// Whether the projection is orthogonal.
    pub fn is_orthogonal(&self) -> (r: bool)
        ensures
            r == (*self is Orthogonal),
    {
        match self {
            ProjectionType::Orthogonal => true,
            ProjectionType::Perspective => false,
        }
    }

    /// Switches to the other projection mode.
    pub fn flip(&mut self)
        ensures
            *final(self) == spec_flip(*old(self)),
    {
        *self = match self {
            ProjectionType::Orthogonal => ProjectionType::Perspective,
            ProjectionType::Perspective => ProjectionType::Orthogonal,
        };
    }
}

/// Which element extraction a command asked for.
#[derive(Clone, Copy, PartialEq, Eq, Structural, Debug)]
pub enum ElementKind {
    Facet,
    Verf,
}

/// A user-visible, non-fatal report.  The session is never left in an
/// inconsistent state by any of these.
#[derive(Clone, Copy, PartialEq, Eq, Structural, Debug)]
pub enum Message {
    /// The dual operation succeeded.
    DualOk,
    /// The dual failed: the facet at this index passes through the
    /// inversion center.
    DualFailed(usize),
    /// The requested element extraction succeeded.
    ElementOk(ElementKind),
    /// No element exists at the requested index.
    ElementFailed(ElementKind),
    /// Whether the shape is orientable.
    Orientable(bool),
    /// Whether the shape's volume is defined.
    VolumeKnown(bool),
    /// Loading or parsing a shape failed; the previous shape is retained.
    LoadFailed,
    /// Writing the shape out failed.
    SaveFailed,
}

/// The session: the one live shape and everything that must stay consistent
/// with it, each entity with its monotonic version counter.
pub struct Session {
    /// The current shape.
    pub shape: Shape,
    /// Incremented on every replacement of the shape.
    pub shape_version: u64,
    /// The cross-section controller.
    pub section: SectionState,
    /// Incremented on every transition or field update of the controller.
    pub section_version: u64,
    /// The selected display language.
    pub language: Language,
    /// Incremented on every language switch.
    pub language_version: u64,
    /// The projection toggle.
    pub projection: ProjectionType,
    /// Incremented on every projection flip.
    pub projection_version: u64,
    /// The pending file-dialog request slot.
    pub dialog: FileDialogState,
}

/// Mathematical model of a [`Session`].
#[verifier::ext_equal]
pub ghost struct SessionV {
    pub shape: ShapeV,
    pub shape_version: int,
    pub section: SectionV,
    pub section_version: int,
    pub language: Language,
    pub language_version: int,
    pub projection: ProjectionType,
    pub projection_version: int,
    pub dialog: DialogV,
}

impl View for Session {
    type V = SessionV;

    open spec fn view(&self) -> SessionV {
        SessionV {
            shape: self.shape@,
            shape_version: self.shape_version as int,
            section: self.section@,
            section_version: self.section_version as int,
            language: self.language,
            language_version: self.language_version as int,
            projection: self.projection,
            projection_version: self.projection_version as int,
            dialog: self.dialog@,
        }
    }
}

/// Session well-formedness: every entity is well formed.
pub open spec fn session_wf(s: SessionV) -> bool {
    &&& shape_wf(s.shape)
    &&& section_wf(s.section)
    &&& dialog_wf(s.dialog)
}

/// Room for every counter to advance: a machine limit, not a policy.
pub open spec fn versions_ok(s: SessionV) -> bool {
    &&& s.shape_version < u64::MAX
    &&& s.section_version < u64::MAX
    &&& s.language_version < u64::MAX
    &&& s.projection_version < u64::MAX
}

/// Wholesale replacement of the live shape, advancing its counter.
pub open spec fn spec_replace_shape(s: SessionV, sh: ShapeV) -> SessionV {
    SessionV { shape: sh, shape_version: s.shape_version + 1, ..s }
}

/// Invalidation of the cross-section controller.  The counter advances only
/// when the controller actually leaves `Active`; re-resetting an inactive
/// controller is not a mutation.
pub open spec fn spec_reset_section(s: SessionV) -> SessionV {
    if s.section is Active {
        SessionV {
            section: SectionV::Inactive,
            section_version: s.section_version + 1,
            ..s
        }
    } else {
        s
    }
}

/// One discrete user action, with the outcome of the external geometry call
/// it triggered, where it triggered one.
pub enum UiAction {
    /// File ▸ Open: request an open-file dialog.
    Open,
    /// File ▸ Save: request a save-file dialog, suggesting the current
    /// shape's name.
    Save,
    /// View ▸ projection checkbox: flip the projection mode.
    ToggleProjection,
    /// The dual operation's outcome: the new shape, or the index of a facet
    /// passing through the inversion center.
    Dual(Result<Shape, usize>),
    /// The pyramid of the current shape.
    Pyramid(Shape),
    /// The prism of the current shape.
    Prism(Shape),
    /// The tegum of the current shape.
    Tegum(Shape),
    /// The current shape, recentered.
    Recenter(Shape),
    /// Toggle the cross-section view.
    ToggleCrossSection,
    /// A facet of the current shape (flattened and recentered), if one
    /// exists at the requested index.
    Facet(Option<Shape>),
    /// A vertex figure of the current shape (flattened and recentered), if
    /// one exists at the requested index.
    Verf(Option<Shape>),
    /// Whether the current shape is orientable: a read-only query.
    Orientability(bool),
    /// Whether the current shape's volume is defined: a read-only query.
    Volume(bool),
    /// Switch the display language.
    SetLanguage(Language),
    /// Commit a new slicing position from the slider.
    SetSectionPos(i64),
    /// Commit a new flatten toggle from the checkbox.
    SetSectionFlatten(bool),
    /// "Make main": keep the last resolved slice as the live shape by
    /// deactivating the controller.
    MakeMain,
    /// A shape picked in the library side panel, already parsed; `None`
    /// when parsing failed.
    LoadFromLibrary(Option<Shape>),
}

/// What [`ui`] asks of its caller: well-formed collaborator results, and a
/// slider position inside the active range (the widget clamps).
pub open spec fn ui_action_allowed(s: SessionV, a: UiAction) -> bool {
    match a {
        UiAction::Dual(r) => (r matches Ok(sh) ==> shape_wf(sh@)),
        UiAction::Pyramid(sh) => shape_wf(sh@),
        UiAction::Prism(sh) => shape_wf(sh@),
        UiAction::Tegum(sh) => shape_wf(sh@),
        UiAction::Recenter(sh) => shape_wf(sh@),
        UiAction::Facet(r) => (r matches Some(sh) ==> shape_wf(sh@)),
        UiAction::Verf(r) => (r matches Some(sh) ==> shape_wf(sh@)),
        UiAction::LoadFromLibrary(r) => (r matches Some(sh) ==> shape_wf(sh@)),
        UiAction::SetSectionPos(p) => (s.section matches SectionV::Active { minmax, .. }
            ==> minmax.0 < p as int && (p as int) < minmax.1),
        _ => true,
    }
}

/// The session after one dispatched action.
pub open spec fn spec_ui(s: SessionV, a: UiAction) -> SessionV {
    match a {
        UiAction::Open => SessionV {
            dialog: DialogV { mode: FileDialogMode::Open, ..s.dialog },
            ..s
        },
        UiAction::Save => SessionV {
            dialog: DialogV { mode: FileDialogMode::Save, name: Some(s.shape.name) },
            ..s
        },
        UiAction::ToggleProjection => SessionV {
            projection: spec_flip(s.projection),
            projection_version: s.projection_version + 1,
            ..s
        },
        UiAction::Dual(r) => match r {
            Ok(sh) => spec_reset_section(spec_replace_shape(s, sh@)),
            Err(_) => s,
        },
        UiAction::Pyramid(sh) => spec_reset_section(spec_replace_shape(s, sh@)),
        UiAction::Prism(sh) => spec_reset_section(spec_replace_shape(s, sh@)),
        UiAction::Tegum(sh) => spec_replace_shape(s, sh@),
        UiAction::Recenter(sh) => spec_replace_shape(s, sh@),
        UiAction::ToggleCrossSection => match s.section {
            SectionV::Active { .. } => spec_reset_section(s),
            SectionV::Inactive => {
                let ns = spec_activate(s.shape);
                if ns is Active {
                    SessionV { section: ns, section_version: s.section_version + 1, ..s }
                } else {
                    s
                }
            },
        },
        UiAction::Facet(r) => match r {
            Some(sh) => spec_reset_section(spec_replace_shape(s, sh@)),
            None => s,
        },
        UiAction::Verf(r) => match r {
            Some(sh) => spec_reset_section(spec_replace_shape(s, sh@)),
            None => s,
        },
        UiAction::Orientability(_) => s,
        UiAction::Volume(_) => s,
        UiAction::SetLanguage(l) => if l == s.language {
            s
        } else {
            SessionV { language: l, language_version: s.language_version + 1, ..s }
        },
        UiAction::SetSectionPos(p) => match s.section {
            SectionV::Active { original, minmax, hyperplane_pos, flatten } => {
                if p as int == hyperplane_pos {
                    s
                } else {
                    SessionV {
                        section: SectionV::Active {
                            original,
                            minmax,
                            hyperplane_pos: p as int,
                            flatten,
                        },
                        section_version: s.section_version + 1,
                        ..s
                    }
                }
            },
            SectionV::Inactive => s,
        },
        UiAction::SetSectionFlatten(f) => match s.section {
            SectionV::Active { original, minmax, hyperplane_pos, flatten } => {
                if f == flatten {
                    s
                } else {
                    SessionV {
                        section: SectionV::Active {
                            original,
                            minmax,
                            hyperplane_pos,
                            flatten: f,
                        },
                        section_version: s.section_version + 1,
                        ..s
                    }
                }
            },
            SectionV::Inactive => s,
        },
        UiAction::MakeMain => spec_reset_section(s),
        UiAction::LoadFromLibrary(r) => match r {
            Some(sh) => spec_reset_section(spec_replace_shape(s, sh@)),
            None => s,
        },
    }
}

/// The message one dispatched action reports.
pub open spec fn spec_ui_msg(s: SessionV, a: UiAction) -> Option<Message> {
    match a {
        UiAction::Dual(r) => match r {
            Ok(_) => Some(Message::DualOk),
            Err(idx) => Some(Message::DualFailed(idx)),
        },
        UiAction::Facet(r) => match r {
            Some(_) => Some(Message::ElementOk(ElementKind::Facet)),
            None => Some(Message::ElementFailed(ElementKind::Facet)),
        },
        UiAction::Verf(r) => match r {
            Some(_) => Some(Message::ElementOk(ElementKind::Verf)),
            None => Some(Message::ElementFailed(ElementKind::Verf)),
        },
        UiAction::Orientability(b) => Some(Message::Orientable(b)),
        UiAction::Volume(b) => Some(Message::VolumeKnown(b)),
        UiAction::LoadFromLibrary(r) => match r {
            Some(_) => None,
            None => Some(Message::LoadFailed),
        },
        _ => None,
    }
}

/// Replaces the live shape wholesale and advances its counter.
fn replace_shape(sess: &mut Session, sh: Shape)
    requires
        old(sess)@.shape_version < u64::MAX,
    ensures
        final(sess)@ == spec_replace_shape(old(sess)@, sh@),
{
    sess.shape = sh;
    sess.shape_version = sess.shape_version + 1;
}

/// Invalidates the cross-section controller, advancing its counter when it
/// actually transitions.
fn reset_section_versioned(sess: &mut Session)
    requires
        old(sess)@.section_version < u64::MAX,
    ensures
        final(sess)@ == spec_reset_section(old(sess)@),
{
    if sess.section.is_active() {
        sess.section.reset();
        sess.section_version = sess.section_version + 1;
    }
}

/// The command dispatcher: applies one discrete user action to the session,
/// as [`spec_ui`] describes, and reports what [`spec_ui_msg`] says.
///
/// Topological operations other than tegum and plain recentering invalidate
/// the cross-section controller; tegum and recentering do not change the
/// combinatorial identity an in-progress slice snapshot depends on, so they
/// keep it — a policy made explicit here.  Fallible operations leave the
/// session exactly as it was when they fail.
pub fn ui(sess: &mut Session, action: UiAction) -> (msg: Option<Message>)
    requires
        session_wf(old(sess)@),
        versions_ok(old(sess)@),
        ui_action_allowed(old(sess)@, action),
    ensures
        final(sess)@ == spec_ui(old(sess)@, action),
        msg == spec_ui_msg(old(sess)@, action),
        session_wf(final(sess)@),
{
    match action {
        UiAction::Open => {
            sess.dialog.open();
            None
        },
        UiAction::Save => {
            let name = clone_bytes(&sess.shape.name);
            sess.dialog.save(name);
            None
        },
        UiAction::ToggleProjection => {
            sess.projection.flip();
            sess.projection_version = sess.projection_version + 1;
            None
        },
        UiAction::Dual(r) => match r {
            Ok(sh) => {
                replace_shape(sess, sh);
                reset_section_versioned(sess);
                Some(Message::DualOk)
            },
            Err(idx) => Some(Message::DualFailed(idx)),
        },
        UiAction::Pyramid(sh) => {
            replace_shape(sess, sh);
            reset_section_versioned(sess);
            None
        },
        UiAction::Prism(sh) => {
            replace_shape(sess, sh);
            reset_section_versioned(sess);
            None
        },
        UiAction::Tegum(sh) => {
            replace_shape(sess, sh);
            None
        },
        UiAction::Recenter(sh) => {
            replace_shape(sess, sh);
            None
        },
        UiAction::ToggleCrossSection => {
            if sess.section.is_active() {
                reset_section_versioned(sess);
            } else {
                let ns = SectionState::activate(&sess.shape);
                if ns.is_active() {
                    sess.section = ns;
                    sess.section_version = sess.section_version + 1;
                }
            }
            None
        },
        UiAction::Facet(r) => match r {
            Some(sh) => {
                replace_shape(sess, sh);
                reset_section_versioned(sess);
                Some(Message::ElementOk(ElementKind::Facet))
            },
            None => Some(Message::ElementFailed(ElementKind::Facet)),
        },
        UiAction::Verf(r) => match r {
            Some(sh) => {
                replace_shape(sess, sh);
                reset_section_versioned(sess);
                Some(Message::ElementOk(ElementKind::Verf))
            },
            None => Some(Message::ElementFailed(ElementKind::Verf)),
        },
        UiAction::Orientability(b) => Some(Message::Orientable(b)),
        UiAction::Volume(b) => Some(Message::VolumeKnown(b)),
        UiAction::SetLanguage(l) => {
            if !(l == sess.language) {
                sess.language = l;
                sess.language_version = sess.language_version + 1;
            }
            None
        },
        UiAction::SetSectionPos(p) => {
            let same: bool = match &sess.section {
                SectionState::Active { hyperplane_pos, .. } => *hyperplane_pos == p,
                SectionState::Inactive => true,
            };
            if !same {
                sess.section.set_pos(p);
                sess.section_version = sess.section_version + 1;
            }
            None
        },
        UiAction::SetSectionFlatten(f) => {
            let same: bool = match &sess.section {
                SectionState::Active { flatten, .. } => *flatten == f,
                SectionState::Inactive => true,
            };
            if !same {
                sess.section.set_flat(f);
                sess.section_version = sess.section_version + 1;
            }
            None
        },
        UiAction::MakeMain => {
            reset_section_versioned(sess);
            None
        },
        UiAction::LoadFromLibrary(r) => match r {
            Some(sh) => {
                replace_shape(sess, sh);
                reset_section_versioned(sess);
                None
            },
            None => Some(Message::LoadFailed),
        },
    }
}

impl Session {
    /// A fresh session over an initial shape.  Counters start ahead of a
    /// pipeline that has observed nothing, so the first pass regenerates
    /// every derived artifact.
    pub fn new(shape: Shape, language: Language, projection: ProjectionType) -> (r: Session)
        ensures
            r@ == (SessionV {
                shape: shape@,
                shape_version: 1,
                section: SectionV::Inactive,
                section_version: 1,
                language,
                language_version: 1,
                projection,
                projection_version: 1,
                dialog: DialogV { mode: FileDialogMode::Disabled, name: None },
            }),
            shape_wf(shape@) ==> session_wf(r@),
            versions_ok(r@),
    {
        Session {
            shape,
            shape_version: 1,
            section: SectionState::Inactive,
            section_version: 1,
            language,
            language_version: 1,
            projection,
            projection_version: 1,
            dialog: FileDialogState { mode: FileDialogMode::Disabled, name: None },
        }
    }
}

/// LAW — the dispatcher preserves session well-formedness: whatever action
/// is dispatched under its stated conditions, every entity of the session
/// stays well formed.
pub proof fn lemma_ui_preserves_wf(s: SessionV, a: UiAction)
    requires
        session_wf(s),
        ui_action_allowed(s, a),
    ensures
        session_wf(spec_ui(s, a)),
{
}

/// LAW — invalidation: every topological operation that invalidates the
/// cross-section controller leaves it `Inactive`, whatever state it was in:
/// checked for dual, pyramid, prism, facet and vertex figure (file loads
/// are covered by [`crate::pipeline::lemma_dialog_at_most_once`] and the
/// library-load case below).
pub proof fn lemma_topological_ops_invalidate(s: SessionV, sh: Shape, sh2: Shape)
    ensures
        spec_ui(s, UiAction::Dual(Ok(sh))).section is Inactive,
        spec_ui(s, UiAction::Pyramid(sh)).section is Inactive,
        spec_ui(s, UiAction::Prism(sh)).section is Inactive,
        spec_ui(s, UiAction::Facet(Some(sh))).section is Inactive,
        spec_ui(s, UiAction::Verf(Some(sh))).section is Inactive,
        spec_ui(s, UiAction::LoadFromLibrary(Some(sh))).section is Inactive,
        spec_ui(s, UiAction::Tegum(sh)).section == s.section,
        spec_ui(s, UiAction::Recenter(sh)).section == s.section,
{
}

/// LAW — monotonic counters: no dispatched action ever moves a version
/// counter backwards, so "changed since last observed" can be read off a
/// plain comparison and a derived artifact never looks newer than its
/// inputs.
pub proof fn lemma_ui_versions_monotone(s: SessionV, a: UiAction)
    ensures
        spec_ui(s, a).shape_version >= s.shape_version,
        spec_ui(s, a).section_version >= s.section_version,
        spec_ui(s, a).language_version >= s.language_version,
        spec_ui(s, a).projection_version >= s.projection_version,
{
}

/// LAW — failure atomicity: a failed fallible operation and a read-only
/// query leave the session exactly as it was; only a message is reported.
pub proof fn lemma_failed_ops_change_nothing(s: SessionV, idx: usize, b: bool)
    ensures
        spec_ui(s, UiAction::Dual(Err(idx))) == s,
        spec_ui(s, UiAction::Facet(None)) == s,
        spec_ui(s, UiAction::Verf(None)) == s,
        spec_ui(s, UiAction::LoadFromLibrary(None)) == s,
        spec_ui(s, UiAction::Orientability(b)) == s,
        spec_ui(s, UiAction::Volume(b)) == s,
{
}

} // verus!
