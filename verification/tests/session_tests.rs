//! Tests of the command dispatcher.

use polyview::dialog::FileDialogMode;
use polyview::session::{
    ElementKind, Language, Message, ProjectionType, Session, UiAction,
};
use polyview::shape::{Shape, SCALE};

fn shape(name: &str, dim: Option<usize>, extent: Option<(i64, i64)>) -> Shape {
    Shape { name: name.as_bytes().to_vec(), dim, extent }
}

fn fresh_session() -> Session {
    Session::new(
        shape("cube", Some(3), Some((-SCALE, SCALE))),
        Language::English,
        ProjectionType::Perspective,
    )
}

fn active_session() -> Session {
    let mut sess = fresh_session();
    let msg = polyview::session::ui(&mut sess, UiAction::ToggleCrossSection);
    assert!(msg.is_none());
    assert!(sess.section.is_active());
    sess
}

#[test]
fn dual_success_replaces_shape_and_invalidates_section() {
    let mut sess = active_session();
    let v = sess.shape_version;
    let msg = polyview::session::ui(&mut sess, UiAction::Dual(Ok(shape("octahedron", Some(3), None))));
    assert_eq!(msg, Some(Message::DualOk));
    assert_eq!(sess.shape.name, b"octahedron".to_vec());
    assert_eq!(sess.shape_version, v + 1);
    assert!(!sess.section.is_active());
}

#[test]
fn dual_failure_changes_nothing_but_reports_the_facet() {
    let mut sess = active_session();
    let v = sess.shape_version;
    let sv = sess.section_version;
    let msg = polyview::session::ui(&mut sess, UiAction::Dual(Err(7)));
    assert_eq!(msg, Some(Message::DualFailed(7)));
    assert_eq!(sess.shape.name, b"cube".to_vec());
    assert_eq!(sess.shape_version, v);
    assert_eq!(sess.section_version, sv);
    assert!(sess.section.is_active());
}

#[test]
fn pyramid_and_prism_invalidate_section() {
    for action in [
        UiAction::Pyramid(shape("pyramid", Some(4), None)),
        UiAction::Prism(shape("prism", Some(4), None)),
    ] {
        let mut sess = active_session();
        polyview::session::ui(&mut sess, action);
        assert!(!sess.section.is_active());
    }
}

#[test]
fn tegum_and_recenter_keep_the_section() {
    for action in [
        UiAction::Tegum(shape("tegum", Some(4), None)),
        UiAction::Recenter(shape("cube", Some(3), Some((-SCALE, SCALE)))),
    ] {
        let mut sess = active_session();
        let v = sess.shape_version;
        polyview::session::ui(&mut sess, action);
        assert!(sess.section.is_active());
        assert_eq!(sess.shape_version, v + 1);
    }
}

#[test]
fn facet_and_verf_extractions() {
    let mut sess = active_session();
    let msg = polyview::session::ui(&mut sess, UiAction::Facet(Some(shape("square", Some(2), None))));
    assert_eq!(msg, Some(Message::ElementOk(ElementKind::Facet)));
    assert!(!sess.section.is_active());
    assert_eq!(sess.shape.name, b"square".to_vec());

    let v = sess.shape_version;
    let msg = polyview::session::ui(&mut sess, UiAction::Verf(None));
    assert_eq!(msg, Some(Message::ElementFailed(ElementKind::Verf)));
    assert_eq!(sess.shape_version, v);

    let msg = polyview::session::ui(&mut sess, UiAction::Verf(Some(shape("triangle", Some(2), None))));
    assert_eq!(msg, Some(Message::ElementOk(ElementKind::Verf)));

    let msg = polyview::session::ui(&mut sess, UiAction::Facet(None));
    assert_eq!(msg, Some(Message::ElementFailed(ElementKind::Facet)));
}

#[test]
fn queries_never_mutate() {
    let mut sess = active_session();
    let v = sess.shape_version;
    let sv = sess.section_version;
    let msg = polyview::session::ui(&mut sess, UiAction::Orientability(true));
    assert_eq!(msg, Some(Message::Orientable(true)));
    let msg = polyview::session::ui(&mut sess, UiAction::Volume(false));
    assert_eq!(msg, Some(Message::VolumeKnown(false)));
    assert_eq!(sess.shape_version, v);
    assert_eq!(sess.section_version, sv);
    assert!(sess.section.is_active());
}

#[test]
fn save_action_issues_a_save_request_under_the_shape_name() {
    let mut sess = fresh_session();
    polyview::session::ui(&mut sess, UiAction::Save);
    assert_eq!(sess.dialog.mode, FileDialogMode::Save);
    assert_eq!(sess.dialog.name, Some(b"cube".to_vec()));
}

#[test]
fn open_action_issues_an_open_request() {
    let mut sess = fresh_session();
    polyview::session::ui(&mut sess, UiAction::Open);
    assert_eq!(sess.dialog.mode, FileDialogMode::Open);
}

#[test]
fn language_switch_bumps_only_on_change() {
    let mut sess = fresh_session();
    let lv = sess.language_version;
    polyview::session::ui(&mut sess, UiAction::SetLanguage(Language::English));
    assert_eq!(sess.language_version, lv);
    polyview::session::ui(&mut sess, UiAction::SetLanguage(Language::German));
    assert_eq!(sess.language_version, lv + 1);
    assert_eq!(sess.language, Language::German);
    // the shape itself is never mutated by a language switch
    assert_eq!(sess.shape.name, b"cube".to_vec());
}

#[test]
fn projection_toggle_flips_and_bumps() {
    let mut sess = fresh_session();
    let pv = sess.projection_version;
    polyview::session::ui(&mut sess, UiAction::ToggleProjection);
    assert!(sess.projection.is_orthogonal());
    assert_eq!(sess.projection_version, pv + 1);
}

#[test]
fn slider_commits_only_on_explicit_change() {
    let mut sess = active_session();
    let sv = sess.section_version;
    let pos = match &sess.section {
        polyview::section::SectionState::Active { hyperplane_pos, .. } => *hyperplane_pos,
        polyview::section::SectionState::Inactive => panic!("must be active"),
    };
    // committing the same value is not a mutation
    polyview::session::ui(&mut sess, UiAction::SetSectionPos(pos));
    assert_eq!(sess.section_version, sv);
    polyview::session::ui(&mut sess, UiAction::SetSectionPos(pos + 1));
    assert_eq!(sess.section_version, sv + 1);
    // same for the flatten checkbox
    polyview::session::ui(&mut sess, UiAction::SetSectionFlatten(false));
    assert_eq!(sess.section_version, sv + 1);
    polyview::session::ui(&mut sess, UiAction::SetSectionFlatten(true));
    assert_eq!(sess.section_version, sv + 2);
}

#[test]
fn make_main_keeps_the_shape_and_deactivates() {
    let mut sess = active_session();
    let name = sess.shape.name.clone();
    polyview::session::ui(&mut sess, UiAction::MakeMain);
    assert!(!sess.section.is_active());
    assert_eq!(sess.shape.name, name);
}

#[test]
fn library_load_replaces_and_invalidates() {
    let mut sess = active_session();
    let msg = polyview::session::ui(
        &mut sess,
        UiAction::LoadFromLibrary(Some(shape("dodecahedron", Some(3), None))),
    );
    assert!(msg.is_none());
    assert_eq!(sess.shape.name, b"dodecahedron".to_vec());
    assert!(!sess.section.is_active());
}

#[test]
fn library_load_failure_retains_the_shape() {
    let mut sess = fresh_session();
    let v = sess.shape_version;
    let msg = polyview::session::ui(&mut sess, UiAction::LoadFromLibrary(None));
    assert_eq!(msg, Some(Message::LoadFailed));
    assert_eq!(sess.shape_version, v);
    assert_eq!(sess.shape.name, b"cube".to_vec());
}

#[test]
fn toggle_cross_section_twice_returns_to_inactive() {
    let mut sess = active_session();
    polyview::session::ui(&mut sess, UiAction::ToggleCrossSection);
    assert!(!sess.section.is_active());
}

#[test]
fn all_languages_are_selectable() {
    let all = Language::all();
    assert_eq!(all, vec![Language::English, Language::Spanish, Language::German]);
}
