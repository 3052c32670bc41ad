use jk_editor::context::Context;
use jk_editor::control::{key_action, selection_changed, CameraMove, Control, KeyAction, MouseDownAction, MouseUpAction, State};
use jk_editor::data::{SceneT, ToId};
use jk_editor::dragger::manager::{
    face_camera_angle, rotation_angle_negated, state_color, Axis, Collision, Dragger, DraggerColor,
    DraggerManager, Kind, MouseOperation, Repere, State as DState,
};

#[derive(Clone, Copy, Debug, PartialEq)]
struct Ob(u128);

impl ToId for Ob {
    fn id_view(&self) -> u128 {
        self.0
    }

    fn to_id(&self) -> u128 {
        self.0
    }
}

/// A scene that only the selection context refers to.
struct NoScene;

impl ToId for NoScene {
    fn id_view(&self) -> u128 {
        0
    }

    fn to_id(&self) -> u128 {
        0
    }
}

impl SceneT for NoScene {
    type Object = Ob;
    type Vector = ();
    type Orientation = ();
    type Value = ();

    fn new_empty(_name: &str, _count: usize) -> Self {
        NoScene
    }
    fn new_from_file(_name: &str, _count: usize) -> Self {
        NoScene
    }
    fn get_name(&self) -> String {
        String::new()
    }
    fn set_name(&mut self, _s: String) {}
    fn save(&mut self) {}
    fn get_objects(&self) -> Vec<Ob> {
        Vec::new()
    }
    fn find_objects_with_id(&self, _ids: &mut Vec<u128>) -> Vec<Ob> {
        Vec::new()
    }
    fn find_object_with_id(&self, _id: u128) -> Option<Ob> {
        None
    }
    fn add_objects(&mut self, _parents: &[Option<u128>], _obs: &[Ob]) {}
    fn remove_objects(&mut self, _parents: &[Option<u128>], _obs: &[Ob]) {}
    fn set_camera(&self, _ob: Option<Ob>) {}
    fn get_camera_obj(&self) -> Option<Ob> {
        None
    }
    fn parent_of(&self, _o: Ob) -> Option<Ob> {
        None
    }
    fn full_object_of(&self, o: Ob) -> Ob {
        o
    }
    fn position_of(&self, _o: Ob) {}
    fn scale_of(&self, _o: Ob) {}
    fn orientation_of(&self, _o: Ob) {}
    fn get_parent(&self, _o: Ob) -> Option<Ob> {
        None
    }
    fn get_children(&self, _o: Ob) -> Vec<Ob> {
        Vec::new()
    }
    fn get_object_name(&self, _o: Ob) -> String {
        String::new()
    }
    fn get_full_object(&self, o: Ob) -> Ob {
        o
    }
    fn get_position(&self, _o: Ob) {}
    fn get_scale(&self, _o: Ob) {}
    fn get_orientation(&self, _o: Ob) {}
    fn set_position(&mut self, _o: Ob, _v: ()) {}
    fn set_scale(&mut self, _o: Ob, _v: ()) {}
    fn set_orientation(&mut self, _o: Ob, _ori: ()) {}
    fn set_property(&mut self, _o: Ob, _path: &str, _value: &()) {}
    fn set_property_none(&mut self, _o: Ob, _path: &str) {}
    fn set_property_some(&mut self, _o: Ob, _path: &str) {}
    fn add_item(&mut self, _o: Ob, _path: &str, _index: usize, _value: &()) {}
    fn add_empty_item(&mut self, _o: Ob, _path: &str, _index: usize) {}
    fn del_item(&mut self, _o: Ob, _path: &str, _index: usize) {}
}

// The pointer state machine.

#[test]
fn control_with_ctrl_starts_a_rectangle() {
    let mut c = Control::new();
    let context: Context<NoScene> = Context::new();
    assert_eq!(c.mouse_down(&context, 2, 10, 20), MouseDownAction::StartRectangle(10, 20));
    assert_eq!(c.state, State::MultipleSelect);
    assert_eq!(c.mouse_start, Some((10, 20)));
    assert_eq!(c.selection_rect(4, 30), Some((4, 20, 6, 10)));
    assert_eq!(c.mouse_up(&context), MouseUpAction::HideRectangle);
    assert_eq!(c.state, State::Idle);
}

#[test]
fn control_with_shift_and_ctrl_tests_the_draggers() {
    let mut c = Control::new();
    let mut context: Context<NoScene> = Context::new();
    assert_eq!(c.mouse_down(&context, 3, 1, 1), MouseDownAction::Nothing);
    context.selected = vec![Ob(1)];
    assert_eq!(c.mouse_down(&context, 3, 1, 1), MouseDownAction::TestDragger);
    assert_eq!(c.mouse_down(&context, 0, 1, 1), MouseDownAction::TestDragger);
    assert_eq!(c.state, State::Idle);
    assert!(c.dragger_pressed(true));
    assert_eq!(c.state, State::Dragger);
    assert_eq!(c.mouse_up(&context), MouseUpAction::ReleaseDragger);
    assert!(!c.dragger_pressed(false));
    assert_eq!(c.state, State::Idle);
    assert_eq!(c.mouse_up(&context), MouseUpAction::Nothing);
    context.set_scene(4);
    assert_eq!(c.mouse_up(&context), MouseUpAction::Pick);
}

#[test]
fn control_camera_moves() {
    let mut c = Control::new();
    assert_eq!(c.camera_move(0, 0), CameraMove::Nothing);
    assert_eq!(c.camera_move(1, 1), CameraMove::Pan);
    assert_eq!(c.state, State::Idle);
    assert_eq!(c.camera_move(0, 1), CameraMove::Rotate);
    assert_eq!(c.state, State::CameraRotation);
    let mut context: Context<NoScene> = Context::new();
    context.set_scene(1);
    assert_eq!(c.mouse_up(&context), MouseUpAction::Nothing);
    assert_eq!(c.state, State::Idle);
}

#[test]
fn selection_rect_needs_a_press() {
    let c = Control::new();
    assert_eq!(c.selection_rect(5, 5), None);
    let far = Control { state: State::MultipleSelect, mouse_start: Some((i32::MIN, i32::MAX)) };
    assert_eq!(
        far.selection_rect(i32::MAX, i32::MIN),
        Some((i32::MIN as i64, i32::MIN as i64, u32::MAX as i64, u32::MAX as i64))
    );
}

#[test]
fn keys_map_to_actions() {
    assert_eq!(key_action("e"), KeyAction::MoveCamera(0, -50));
    assert_eq!(key_action("d"), KeyAction::MoveCamera(0, 50));
    assert_eq!(key_action("f"), KeyAction::MoveCamera(50, 0));
    assert_eq!(key_action("s"), KeyAction::MoveCamera(-50, 0));
    assert_eq!(key_action("z"), KeyAction::Undo);
    assert_eq!(key_action("r"), KeyAction::Redo);
    assert_eq!(key_action("space"), KeyAction::ChangeDragger);
    assert_eq!(key_action("E"), KeyAction::Unknown);
    assert_eq!(key_action(""), KeyAction::Unknown);
    let mut c = Control::new();
    assert_eq!(c.key_down("z"), KeyAction::Undo);
    assert_eq!(c.state, State::Idle);
}

#[test]
fn rectangle_changes_the_selection_when_it_differs() {
    let mut context: Context<NoScene> = Context::new();
    context.selected = vec![Ob(1), Ob(2)];
    assert!(!selection_changed(&context, &[Ob(2), Ob(1)]));
    assert!(selection_changed(&context, &[Ob(1)]));
    assert!(selection_changed(&context, &[Ob(1), Ob(3)]));
    assert!(selection_changed(&context, &[]));
}

// The draggers.

fn group(kinds: &[Kind]) -> Vec<Dragger> {
    kinds.iter().map(|k| Dragger::new(*k, Collision::MeshAABox)).collect()
}

fn manager() -> DraggerManager {
    DraggerManager::with_groups(vec![
        group(&[Kind::Translate, Kind::Translate, Kind::Translate]),
        group(&[Kind::Scale]),
        group(&[Kind::Rotate, Kind::Rotate]),
    ])
}

#[test]
fn dragger_state_colours() {
    assert_eq!(state_color(DState::Highlight), Some(DraggerColor::Highlight));
    assert_eq!(state_color(DState::Selected), Some(DraggerColor::Selected));
    assert_eq!(state_color(DState::Idle), Some(DraggerColor::Own));
    let mut d = Dragger::new(Kind::Scale, Collision::SpecialMesh("model/dragger.mesh".to_string()));
    assert_eq!(d.state, DState::Idle);
    assert_eq!(d.repere, Repere::Local);
    assert_eq!(d.set_state(DState::Highlight), Some(DraggerColor::Highlight));
    assert_eq!(d.state, DState::Highlight);
}

#[test]
fn new_draggers_get_distinct_version_four_identifiers() {
    let a = Dragger::new(Kind::Translate, Collision::Mesh);
    let b = Dragger::new(Kind::Translate, Collision::Mesh);
    assert_ne!(a.id, b.id);
    for id in [a.id, b.id] {
        assert_eq!((id >> 76) & 0xf, 4);
        assert_eq!((id >> 62) & 0x3, 2);
    }
}

#[test]
fn changing_groups_cycles_through_them() {
    let mut m = manager();
    assert_eq!(m.current_group, 0);
    let mut seen = Vec::new();
    for _ in 0..7 {
        m.change();
        seen.push(m.current_group);
    }
    assert_eq!(seen, vec![1, 2, 0, 1, 2, 0, 1]);
}

#[test]
fn a_click_selects_the_closest_dragger_and_starts_a_drag() {
    let mut m = manager();
    let id1 = m.draggers[0][1].id;
    assert_eq!(m.check_collision(Some(1), 1), Some(id1));
    let states: Vec<DState> = m.draggers[0].iter().map(|d| d.state).collect();
    assert_eq!(states, vec![DState::Idle, DState::Selected, DState::Idle]);
    assert_eq!(m.mouse, Some(MouseOperation { kind: Kind::Translate, dragger: 1, repere: Repere::Local }));
    assert_eq!(m.mouse_up(), Some(MouseOperation { kind: Kind::Translate, dragger: 1, repere: Repere::Local }));
    assert_eq!(m.mouse, None);
    assert!(m.draggers[0].iter().all(|d| d.state == DState::Idle));
    assert_eq!(m.mouse_up(), None);
}

#[test]
fn hovering_highlights_without_a_drag() {
    let mut m = manager();
    let id0 = m.draggers[0][0].id;
    assert!(m.mouse_move_hover(Some(0), 0));
    assert_eq!(m.draggers[0][0].state, DState::Highlight);
    assert_eq!(m.dragger_focus, Some(id0));
    assert_eq!(m.mouse, None);
    assert!(!m.mouse_move_hover(Some(0), 0));
    assert!(m.mouse_move_hover(Some(2), 0));
    assert!(m.mouse_move_hover(None, 0));
    assert_eq!(m.dragger_focus, None);
    assert!(!m.mouse_move_hover(None, 0));
    assert!(m.draggers[0].iter().all(|d| d.state == DState::Idle));
}

#[test]
fn mouse_down_reports_a_hit() {
    let mut m = manager();
    m.change();
    assert!(!m.mouse_down(None, 1));
    assert_eq!(m.mouse, None);
    assert!(m.mouse_down(Some(0), 1));
    assert_eq!(m.mouse, Some(MouseOperation { kind: Kind::Scale, dragger: 0, repere: Repere::Local }));
    assert_eq!(m.draggers[1][0].state, DState::Selected);
    assert!(m.mouse_down(Some(0), 2));
    assert_eq!(m.draggers[1][0].state, DState::Idle);
}

#[test]
fn rotation_draggers_face_the_camera() {
    assert_eq!(face_camera_angle(Axis::Z, true, true, false), 180);
    assert_eq!(face_camera_angle(Axis::Z, true, false, true), 90);
    assert_eq!(face_camera_angle(Axis::Z, false, true, true), -90);
    assert_eq!(face_camera_angle(Axis::Z, false, false, true), 0);
    assert_eq!(face_camera_angle(Axis::Y, true, false, true), 180);
    assert_eq!(face_camera_angle(Axis::Y, true, true, false), 90);
    assert_eq!(face_camera_angle(Axis::Y, false, false, true), -90);
    assert_eq!(face_camera_angle(Axis::X, true, true, true), -180);
    assert_eq!(face_camera_angle(Axis::X, false, true, false), -90);
    assert_eq!(face_camera_angle(Axis::X, false, false, true), 90);
    assert_eq!(face_camera_angle(Axis::X, true, false, false), 0);
    assert_eq!(face_camera_angle(Axis::Other, true, true, true), 0);
}

#[test]
fn rotation_angle_sign() {
    assert!(rotation_angle_negated(true, true, false));
    assert!(!rotation_angle_negated(true, false, true));
    assert!(rotation_angle_negated(false, false, true));
    assert!(!rotation_angle_negated(false, true, false));
}

#[test]
fn mouse_move_while_idle_moves_the_camera() {
    let mut c = Control::new();
    let context: Context<NoScene> = Context::new();
    let r = c.mouse_move(&context, 0, 0, 5, 5, false, None, vec![]);
    assert_eq!(r.camera, CameraMove::Nothing);
    assert!(!r.camera_change);
    let r = c.mouse_move(&context, 0, 0, 5, 5, true, None, vec![]);
    assert!(r.camera_change);
    let r = c.mouse_move(&context, 1, 1, 5, 5, false, None, vec![]);
    assert_eq!(r.camera, CameraMove::Pan);
    assert!(r.camera_change);
    assert_eq!(c.state, State::Idle);
    let r = c.mouse_move(&context, 0, 1, 5, 5, false, Some(Kind::Scale), vec![]);
    assert_eq!(r.camera, CameraMove::Rotate);
    assert_eq!(r.drag, None);
    assert_eq!(c.state, State::CameraRotation);
}

#[test]
fn mouse_move_while_dragging_reports_the_drag() {
    let mut c = Control { state: State::Dragger, mouse_start: None };
    let context: Context<NoScene> = Context::new();
    let r = c.mouse_move(&context, 0, 1, 5, 5, true, Some(Kind::Rotate), vec![]);
    assert_eq!(r.drag, Some(Kind::Rotate));
    assert_eq!(r.camera, CameraMove::Nothing);
    assert!(!r.camera_change);
    assert_eq!(c.state, State::Dragger);
}

#[test]
fn mouse_move_while_selecting_shows_the_rectangle() {
    let mut c = Control::new();
    let mut context: Context<NoScene> = Context::new();
    c.mouse_down(&context, 2, 10, 10);
    let r = c.mouse_move(&context, 0, 1, 4, 12, false, None, vec![Ob(1)]);
    assert_eq!(r.rect, Some((4, 10, 6, 2)));
    assert!(r.select.is_none());
    context.set_scene(3);
    let r = c.mouse_move(&context, 0, 1, 4, 12, false, None, vec![Ob(1)]);
    assert_eq!(r.select, Some(vec![Ob(1)]));
    context.selected = vec![Ob(1)];
    let r = c.mouse_move(&context, 0, 1, 4, 12, false, None, vec![Ob(1)]);
    assert!(r.select.is_none());
    assert_eq!(c.state, State::MultipleSelect);
}

#[test]
fn a_press_then_a_release_gives_back_the_drag() {
    let mut m = manager();
    m.change();
    m.change();
    assert!(m.mouse_down(Some(1), 1));
    assert_eq!(m.draggers[2][1].state, DState::Selected);
    assert_eq!(m.draggers[2][0].state, DState::Idle);
    assert_eq!(m.mouse_up(), Some(MouseOperation { kind: Kind::Rotate, dragger: 1, repere: Repere::Local }));
    assert_eq!(m.draggers[2][1].state, DState::Idle);
    assert_eq!(m.draggers[0].len(), 3);
}

#[test]
fn the_editor_draggers_are_translation_then_rotation() {
    let m = DraggerManager::new();
    assert_eq!(m.draggers.len(), 2);
    assert_eq!(m.draggers[0].len(), 6);
    assert!(m.draggers[0].iter().all(|d| d.kind == Kind::Translate && matches!(d.collision, Collision::MeshAABox)));
    assert_eq!(m.draggers[1].len(), 3);
    assert!(m.draggers[1].iter().all(|d| d.kind == Kind::Rotate
        && matches!(&d.collision, Collision::SpecialMesh(n) if n == "model/dragger_rotate_collider_quarter.mesh")));
    assert_eq!(m.current_group, 0);
}
