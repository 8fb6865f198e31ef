//! Tests of the change-propagation pipeline and the dialog mediator.

use polyview::dialog::FileDialogMode;
use polyview::pipeline::{file_dialog, pipeline_pass, Derived, DialogOutcome};
use polyview::session::{Language, Message, ProjectionType, Session, UiAction};
use polyview::shape::{Shape, SCALE, SECTION_EPS};

fn shape(name: &str, dim: Option<usize>, extent: Option<(i64, i64)>) -> Shape {
    Shape { name: name.as_bytes().to_vec(), dim, extent }
}

fn fresh() -> (Session, Derived) {
    let sess = Session::new(
        shape("cube", Some(3), Some((-SCALE, SCALE))),
        Language::English,
        ProjectionType::Perspective,
    );
    (sess, Derived::new())
}

#[test]
fn first_pass_generates_everything() {
    let (mut sess, mut der) = fresh();
    pipeline_pass(&mut sess, &mut der, None);
    let mesh = der.mesh.expect("the first pass tessellates");
    assert_eq!(mesh.shape_version, sess.shape_version);
    assert_eq!(mesh.projection, ProjectionType::Perspective);
    assert_eq!(der.wireframe, Some(mesh));
    let title = der.title.as_ref().expect("the first pass renders the title");
    assert_eq!(title.name, b"cube".to_vec());
    assert_eq!(title.language, Language::English);
    assert_eq!(der.tessellation_count, 1);
}

#[test]
fn a_pass_with_no_changes_recomputes_nothing() {
    let (mut sess, mut der) = fresh();
    pipeline_pass(&mut sess, &mut der, None);
    let v = sess.shape_version;
    pipeline_pass(&mut sess, &mut der, None);
    pipeline_pass(&mut sess, &mut der, None);
    // tessellation must not fire merely because frames elapsed
    assert_eq!(der.tessellation_count, 1);
    assert_eq!(sess.shape_version, v);
}

#[test]
fn projection_flip_regenerates_the_mesh() {
    let (mut sess, mut der) = fresh();
    pipeline_pass(&mut sess, &mut der, None);
    polyview::session::ui(&mut sess, UiAction::ToggleProjection);
    pipeline_pass(&mut sess, &mut der, None);
    assert_eq!(der.tessellation_count, 2);
    assert_eq!(der.mesh.unwrap().projection, ProjectionType::Orthogonal);
}

#[test]
fn language_switch_rerenders_title_without_tessellating() {
    let (mut sess, mut der) = fresh();
    pipeline_pass(&mut sess, &mut der, None);
    polyview::session::ui(&mut sess, UiAction::SetLanguage(Language::Spanish));
    pipeline_pass(&mut sess, &mut der, None);
    assert_eq!(der.tessellation_count, 1);
    assert_eq!(der.title.as_ref().unwrap().language, Language::Spanish);
    assert_eq!(der.title.as_ref().unwrap().name, b"cube".to_vec());
}

#[test]
fn cross_section_rule_replaces_shape_before_the_mesh_rule() {
    let (mut sess, mut der) = fresh();
    pipeline_pass(&mut sess, &mut der, None);
    polyview::session::ui(&mut sess, UiAction::ToggleCrossSection);
    polyview::session::ui(&mut sess, UiAction::SetSectionPos(42));
    pipeline_pass(&mut sess, &mut der, None);
    // the live shape is now the resolved slice
    assert_eq!(sess.shape.extent, Some((42 + SECTION_EPS, 42 + SECTION_EPS)));
    assert_eq!(sess.shape.dim, Some(3));
    // and the mesh was tessellated from it in the same pass, never one frame stale
    assert_eq!(der.mesh.unwrap().shape_version, sess.shape_version);
}

#[test]
fn inactive_section_leaves_the_shape_as_the_user_set_it() {
    let (mut sess, mut der) = fresh();
    pipeline_pass(&mut sess, &mut der, None);
    polyview::session::ui(&mut sess, UiAction::ToggleCrossSection);
    pipeline_pass(&mut sess, &mut der, None);
    let sliced_version = sess.shape_version;
    // "make main": deactivate, keeping the slice as the live shape
    polyview::session::ui(&mut sess, UiAction::MakeMain);
    pipeline_pass(&mut sess, &mut der, None);
    assert_eq!(sess.shape_version, sliced_version);
}

#[test]
fn dialog_open_loads_recenters_and_invalidates() {
    let (mut sess, mut der) = fresh();
    pipeline_pass(&mut sess, &mut der, None);
    polyview::session::ui(&mut sess, UiAction::ToggleCrossSection);
    assert!(sess.section.is_active());
    polyview::session::ui(&mut sess, UiAction::Open);
    let loaded = shape("icosahedron", Some(3), Some((-SCALE, SCALE)));
    let msg = pipeline_pass(&mut sess, &mut der, Some(DialogOutcome::OpenLoaded(loaded)));
    assert!(msg.is_none());
    assert_eq!(sess.shape.name, b"icosahedron".to_vec());
    assert!(!sess.section.is_active());
    assert_eq!(sess.dialog.mode, FileDialogMode::Disabled);
}

#[test]
fn dialog_outcome_is_consumed_at_most_once() {
    let (mut sess, mut der) = fresh();
    polyview::session::ui(&mut sess, UiAction::Open);
    pipeline_pass(&mut sess, &mut der, Some(DialogOutcome::OpenLoaded(shape(
        "icosahedron",
        Some(3),
        None,
    ))));
    let v = sess.shape_version;
    // a second pass with no new request must not reload the shape
    pipeline_pass(&mut sess, &mut der, None);
    assert_eq!(sess.shape_version, v);
    assert_eq!(sess.shape.name, b"icosahedron".to_vec());
    // and a stray delivery against the empty slot is a no-op
    let msg = file_dialog(&mut sess, DialogOutcome::OpenLoaded(shape("stray", Some(2), None)));
    assert!(msg.is_none());
    assert_eq!(sess.shape_version, v);
    assert_eq!(sess.shape.name, b"icosahedron".to_vec());
}

#[test]
fn dialog_cancellation_is_not_an_error() {
    let (mut sess, mut der) = fresh();
    polyview::session::ui(&mut sess, UiAction::Open);
    let v = sess.shape_version;
    let msg = pipeline_pass(&mut sess, &mut der, Some(DialogOutcome::OpenCancelled));
    assert!(msg.is_none());
    assert_eq!(sess.shape_version, v);
    assert_eq!(sess.dialog.mode, FileDialogMode::Disabled);
}

#[test]
fn failed_load_retains_the_previous_shape() {
    let (mut sess, mut der) = fresh();
    polyview::session::ui(&mut sess, UiAction::Open);
    let msg = pipeline_pass(&mut sess, &mut der, Some(DialogOutcome::OpenFailed));
    assert_eq!(msg, Some(Message::LoadFailed));
    assert_eq!(sess.shape.name, b"cube".to_vec());
    assert_eq!(sess.dialog.mode, FileDialogMode::Disabled);
}

#[test]
fn failed_save_is_reported() {
    let (mut sess, mut der) = fresh();
    polyview::session::ui(&mut sess, UiAction::Save);
    let msg = pipeline_pass(&mut sess, &mut der, Some(DialogOutcome::SaveFailed));
    assert_eq!(msg, Some(Message::SaveFailed));
    let (mut sess2, mut der2) = fresh();
    polyview::session::ui(&mut sess2, UiAction::Save);
    let msg = pipeline_pass(&mut sess2, &mut der2, Some(DialogOutcome::SaveWritten));
    assert!(msg.is_none());
    assert_eq!(sess2.dialog.mode, FileDialogMode::Disabled);
}

#[test]
fn shape_replacement_rerenders_mesh_and_title() {
    let (mut sess, mut der) = fresh();
    pipeline_pass(&mut sess, &mut der, None);
    polyview::session::ui(&mut sess, UiAction::Pyramid(shape("cubical pyramid", Some(4), None)));
    pipeline_pass(&mut sess, &mut der, None);
    assert_eq!(der.tessellation_count, 2);
    assert_eq!(der.mesh.unwrap().shape_version, sess.shape_version);
    assert_eq!(der.title.as_ref().unwrap().name, b"cubical pyramid".to_vec());
}
