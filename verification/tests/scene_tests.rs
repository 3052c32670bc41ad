use std::cell::Cell;
use std::rc::Rc;

use jk_editor::context::Context;
use jk_editor::data::{
    scene_name_base_from, scene_name_candidate, strip_scene_suffix_exec, Data, SceneNameSearch, SceneT, ToId,
};
use jk_editor::dragger::manager::Kind;
use jk_editor::operation::{
    get_ids, AnyOperation, Change, ReceivedLog, OldNew, Operation, OperationData, OperationManager, OperationReceiver,
    OperationTrait, ToNone, ToSome,
};
use jk_editor::state::State;
use jk_editor::ui::def::{Core, Event, PropertyHandle, SetOutcome, UiAction, WindowKey, WidgetConfig, WidgetContainer, WindowConfig};
use jk_editor::ui::tree::Tree;

#[derive(Clone, Copy, Debug, PartialEq)]
struct Ob(u128);

impl ToId for Ob {
    fn id_view(&self) -> u128 {
        self.0
    }

    fn to_id(&self) -> u128 {
        self.0
    }
}

/// A scene of plain objects; `parents` pairs a child with its parent.
struct TestScene {
    id: u128,
    name: String,
    objects: Vec<Ob>,
    parents: Vec<(u128, u128)>,
    camera: Cell<Option<Ob>>,
    log: Vec<String>,
}

impl ToId for TestScene {
    fn id_view(&self) -> u128 {
        self.id
    }

    fn to_id(&self) -> u128 {
        self.id
    }
}

impl SceneT for TestScene {
    type Object = Ob;
    type Vector = i32;
    type Orientation = i32;
    type Value = i32;

    fn new_empty(name: &str, count: usize) -> Self {
        TestScene {
            id: 1000 + count as u128,
            name: name.to_string(),
            objects: Vec::new(),
            parents: Vec::new(),
            camera: Cell::new(None),
            log: Vec::new(),
        }
    }

    fn new_from_file(name: &str, count: usize) -> Self {
        TestScene {
            id: 100 + count as u128,
            name: name.to_string(),
            objects: vec![Ob(1), Ob(2), Ob(3)],
            parents: vec![(3, 1)],
            camera: Cell::new(None),
            log: Vec::new(),
        }
    }

    fn get_name(&self) -> String {
        self.name.clone()
    }

    fn set_name(&mut self, s: String) {
        self.name = s;
    }

    fn save(&mut self) {}

    fn get_objects(&self) -> Vec<Ob> {
        self.objects.clone()
    }

    fn find_objects_with_id(&self, ids: &mut Vec<u128>) -> Vec<Ob> {
        self.objects.iter().filter(|o| ids.contains(&o.0)).cloned().collect()
    }

    fn find_object_with_id(&self, id: u128) -> Option<Ob> {
        self.objects.iter().find(|o| o.0 == id).cloned()
    }

    fn add_objects(&mut self, _parents: &[Option<u128>], obs: &[Ob]) {
        self.objects.extend_from_slice(obs);
    }

    fn remove_objects(&mut self, _parents: &[Option<u128>], obs: &[Ob]) {
        self.objects.retain(|o| !obs.contains(o));
    }

    fn set_camera(&self, ob: Option<Ob>) {
        self.camera.set(ob);
    }

    fn get_camera_obj(&self) -> Option<Ob> {
        self.camera.get()
    }

    fn parent_of(&self, o: Ob) -> Option<Ob> {
        self.get_parent(o)
    }

    fn full_object_of(&self, o: Ob) -> Ob {
        o
    }

    fn position_of(&self, o: Ob) -> i32 {
        o.0 as i32 * 10
    }

    fn scale_of(&self, _o: Ob) -> i32 {
        1
    }

    fn orientation_of(&self, _o: Ob) -> i32 {
        0
    }

    fn get_parent(&self, o: Ob) -> Option<Ob> {
        self.parents.iter().find(|(c, _)| *c == o.0).map(|(_, p)| Ob(*p))
    }

    fn get_children(&self, o: Ob) -> Vec<Ob> {
        self.parents.iter().filter(|(_, p)| *p == o.0).map(|(c, _)| Ob(*c)).collect()
    }

    fn get_object_name(&self, o: Ob) -> String {
        format!("object{}", o.0)
    }

    fn get_full_object(&self, o: Ob) -> Ob {
        o
    }

    fn get_position(&self, o: Ob) -> i32 {
        o.0 as i32 * 10
    }

    fn get_scale(&self, _o: Ob) -> i32 {
        1
    }

    fn get_orientation(&self, _o: Ob) -> i32 {
        0
    }

    fn set_position(&mut self, o: Ob, v: i32) {
        self.log.push(format!("position {} {}", o.0, v));
    }

    fn set_scale(&mut self, o: Ob, v: i32) {
        self.log.push(format!("scale {} {}", o.0, v));
    }

    fn set_orientation(&mut self, o: Ob, ori: i32) {
        self.log.push(format!("orientation {} {}", o.0, ori));
    }

    fn set_property(&mut self, o: Ob, path: &str, value: &i32) {
        self.log.push(format!("set {} {} {}", o.0, path, value));
    }

    fn set_property_none(&mut self, o: Ob, path: &str) {
        self.log.push(format!("none {} {}", o.0, path));
    }

    fn set_property_some(&mut self, o: Ob, path: &str) {
        self.log.push(format!("some {} {}", o.0, path));
    }

    fn add_item(&mut self, o: Ob, path: &str, index: usize, value: &i32) {
        self.log.push(format!("add {} {} {} {}", o.0, path, index, value));
    }

    fn add_empty_item(&mut self, o: Ob, path: &str, index: usize) {
        self.log.push(format!("add_empty {} {} {}", o.0, path, index));
    }

    fn del_item(&mut self, o: Ob, path: &str, index: usize) {
        self.log.push(format!("del {} {} {}", o.0, path, index));
    }
}

/// Writes down every call it receives.
#[derive(Default)]
struct Recorder {
    calls: Vec<String>,
}

impl OperationReceiver<TestScene, i32> for Recorder {
    fn received(&self) -> ReceivedLog<Ob, i32> {
        unreachable!("the log is a proof model")
    }

    fn set_property(&mut self, object_id: u128, path: &str, value: &i32) {
        self.calls.push(format!("set {} {} {}", object_id, path, value));
    }

    fn set_property_none(&mut self, object_id: u128, path: &str) {
        self.calls.push(format!("none {} {}", object_id, path));
    }

    fn set_property_some(&mut self, object_id: u128, path: &str) {
        self.calls.push(format!("some {} {}", object_id, path));
    }

    fn add_item(&mut self, object_id: u128, path: &str, index: usize, value: &i32) {
        self.calls.push(format!("add {} {} {} {}", object_id, path, index, value));
    }

    fn add_empty_item(&mut self, object_id: u128, path: &str, index: usize) {
        self.calls.push(format!("add_empty {} {} {}", object_id, path, index));
    }

    fn del_item(&mut self, object_id: u128, path: &str, index: usize) {
        self.calls.push(format!("del {} {} {}", object_id, path, index));
    }

    fn add_objects(&mut self, scene_id: u128, parents: &[Option<u128>], objects: &[Ob]) {
        self.calls.push(format!("add_objects {} {:?} {:?}", scene_id, parents, objects));
    }

    fn remove_objects(&mut self, scene_id: u128, parents: &[Option<u128>], objects: &[Ob]) {
        self.calls.push(format!("remove_objects {} {:?} {:?}", scene_id, parents, objects));
    }

    fn set_camera(&mut self, scene_id: u128, camera: Option<Ob>) {
        self.calls.push(format!("camera {} {:?}", scene_id, camera));
    }
}

fn names(v: &[&str]) -> Vec<String> {
    v.iter().map(|s| s.to_string()).collect()
}

fn scene_objects(data: &Data<TestScene>, id: u128) -> Vec<Ob> {
    data.get_scene(id).unwrap().objects.clone()
}

// Scene names.

#[test]
fn scene_name_candidate_pads_to_three_digits() {
    assert_eq!(scene_name_candidate("scene/new", 0), "scene/new000.scene");
    assert_eq!(scene_name_candidate("scene/new", 7), "scene/new007.scene");
    assert_eq!(scene_name_candidate("scene/new", 42), "scene/new042.scene");
    assert_eq!(scene_name_candidate("scene/new", 1234), "scene/new1234.scene");
    assert_eq!(scene_name_candidate("", 100), "100.scene");
}

#[test]
fn scene_name_candidate_matches_the_format_macro() {
    for i in [0u32, 1, 9, 10, 99, 100, 999, 1000, 65535, u32::MAX] {
        assert_eq!(scene_name_candidate("b", i), format!("b{:03}.scene", i));
    }
}

#[test]
fn strip_scene_suffix_removes_only_the_suffix() {
    assert_eq!(strip_scene_suffix_exec("scene/a.scene"), "scene/a");
    assert_eq!(strip_scene_suffix_exec(".scene"), "");
    assert_eq!(strip_scene_suffix_exec("scene/a.scen"), "scene/a.scen");
    assert_eq!(strip_scene_suffix_exec("abc"), "abc");
    assert_eq!(strip_scene_suffix_exec("a.scene.scene"), "a.scene");
}

#[test]
fn scene_name_base_without_a_scene_is_the_default_name() {
    assert_eq!(scene_name_base_from(None), "scene/new.scene");
    assert_eq!(scene_name_base_from(Some("scene/level.scene".to_string())), "scene/level");
    let data: Data<TestScene> = Data::new();
    let context: Context<TestScene> = Context::new();
    assert_eq!(data.scene_name_base(&context), "scene/new.scene");
}

#[test]
fn scene_name_base_strips_the_current_scene_name() {
    let mut data: Data<TestScene> = Data::new();
    let id = data.get_or_load_scene("scene/level.scene").to_id();
    let mut context: Context<TestScene> = Context::new();
    context.set_scene(id);
    assert_eq!(data.scene_name_base(&context), "scene/level");
}

// The scene registry.

#[test]
fn data_starts_empty() {
    let data: Data<TestScene> = Data::new();
    assert!(data.scenes().is_empty());
    assert!(data.get_scene(101).is_none());
}

#[test]
fn loading_a_registered_scene_gives_back_the_registered_one() {
    let mut data: Data<TestScene> = Data::new();
    let first = data.get_or_load_scene("a.scene").to_id();
    assert_eq!(first, 101);
    let again = data.get_or_load_scene("a.scene").to_id();
    assert_eq!(again, 101);
    assert_eq!(data.scenes().len(), 1);
    let other = data.get_or_load_scene("b.scene").to_id();
    assert_eq!(other, 103);
    assert_eq!(data.scenes().len(), 2);
    assert_eq!(data.scenes()[1].0, "b.scene");
}

#[test]
fn add_empty_scene_registers_under_the_name() {
    let mut data: Data<TestScene> = Data::new();
    let id = data.add_empty_scene("e.scene".to_string()).to_id();
    assert_eq!(id, 1001);
    assert!(data.get_scene(1001).unwrap().objects.is_empty());
    let again = data.add_empty_scene("e.scene".to_string()).to_id();
    assert_eq!(again, 1001);
    assert_eq!(data.scenes().len(), 1);
}

#[test]
fn any_scene_is_a_new_one_when_there_is_nothing() {
    let mut data: Data<TestScene> = Data::new();
    let s = data.get_or_load_any_scene(&[]);
    assert_eq!(s.get_name(), "scene/new.scene");
    assert_eq!(s.to_id(), 1002);
    assert_eq!(data.scenes()[0].0, "scene/new.scene");
}

#[test]
fn any_scene_is_the_first_file_when_none_is_registered() {
    let mut data: Data<TestScene> = Data::new();
    let files = names(&["scene/x.scene", "scene/y.scene"]);
    let s = data.get_or_load_any_scene(&files);
    assert_eq!(s.get_name(), "scene/x.scene");
    assert_eq!(data.scenes().len(), 1);
}

#[test]
fn any_scene_is_the_first_registered_one() {
    let mut data: Data<TestScene> = Data::new();
    data.get_or_load_scene("first.scene");
    data.get_or_load_scene("second.scene");
    let files = names(&["scene/x.scene"]);
    let s = data.get_or_load_any_scene(&files);
    assert_eq!(s.get_name(), "first.scene");
    assert_eq!(s.to_id(), 101);
    assert_eq!(data.scenes().len(), 2);
}

#[test]
fn data_hands_objects_to_the_right_scene() {
    let mut data: Data<TestScene> = Data::new();
    data.get_or_load_scene("a.scene");
    data.get_or_load_scene("b.scene");
    data.add_objects(102, &[None], &[Ob(7)]);
    assert_eq!(scene_objects(&data, 102), vec![Ob(1), Ob(2), Ob(3), Ob(7)]);
    assert_eq!(scene_objects(&data, 101), vec![Ob(1), Ob(2), Ob(3)]);
    data.remove_objects(101, &[None], &[Ob(2)]);
    assert_eq!(scene_objects(&data, 101), vec![Ob(1), Ob(3)]);
    data.add_objects(999, &[None], &[Ob(8)]);
    assert_eq!(data.scenes().len(), 2);
    data.set_camera(101, Some(Ob(3)));
    assert_eq!(data.get_scene(101).unwrap().get_camera_obj(), Some(Ob(3)));
}

#[test]
fn renaming_a_scene_keeps_its_registration() {
    let mut data: Data<TestScene> = Data::new();
    data.get_or_load_scene("a.scene");
    data.rename_scene(101, "b.scene".to_string());
    assert_eq!(data.get_scene(101).unwrap().get_name(), "b.scene");
    assert_eq!(data.scenes()[0].0, "a.scene");
    data.rename_scene(7, "c.scene".to_string());
    assert_eq!(data.scenes().len(), 1);
    assert_eq!(data.id_count(), 1);
}

// The selection context.

#[test]
fn context_remove_objects_by_id_keeps_the_order() {
    let mut c: Context<TestScene> = Context::new();
    c.selected = vec![Ob(1), Ob(2), Ob(3), Ob(2), Ob(4)];
    c.remove_objects_by_id(&[2, 9]);
    assert_eq!(c.selected, vec![Ob(1), Ob(3), Ob(4)]);
    assert!(!c.has_object_with_id(&2));
    assert!(c.has_object(Ob(3)));
    assert_eq!(c.get_vec_selected_ids(), vec![1, 3, 4]);
}

#[test]
fn context_set_scene_empties_the_selection() {
    let mut c: Context<TestScene> = Context::new();
    assert_eq!(c.get_scene(), None);
    c.selected = vec![Ob(1)];
    c.set_scene(5);
    assert_eq!(c.get_scene(), Some(5));
    assert!(c.selected.is_empty());
}

#[test]
fn context_select_by_ob_appends_and_empties() {
    let mut c: Context<TestScene> = Context::new();
    c.selected = vec![Ob(1)];
    let mut more = vec![Ob(2), Ob(3)];
    c.select_by_ob(&mut more);
    assert!(more.is_empty());
    assert_eq!(c.selected, vec![Ob(1), Ob(2), Ob(3)]);
}

// Operations.

#[test]
fn get_ids_lists_identifiers_in_order() {
    assert_eq!(get_ids(&[Ob(5), Ob(1), Ob(5)]), vec![5, 1, 5]);
    assert!(get_ids::<Ob>(&[]).is_empty());
}

#[test]
fn vector_operation_writes_new_then_old_values() {
    let op: Operation<TestScene, i32> = Operation::new(
        vec![Ob(1), Ob(2)],
        names(&["transform", "*"]),
        OperationData::Vector(vec![10, 20], vec![11, 21]),
    );
    let mut rec = Recorder::default();
    let c = op.apply(&mut rec);
    assert!(matches!(c, Change::Objects(ref s, ref ids) if s == "transform/*" && *ids == vec![1, 2]));
    let u = op.undo(&mut rec);
    assert!(matches!(u, Change::Objects(ref s, ref ids) if s == "transform/*" && *ids == vec![1, 2]));
    assert_eq!(
        rec.calls,
        names(&["set 1 transform 11", "set 2 transform 21", "set 1 transform 10", "set 2 transform 20"])
    );
}

#[test]
fn vec_add_and_vec_del_are_inverse() {
    let add: Operation<TestScene, i32> =
        Operation::new(vec![Ob(4)], names(&["comps"]), OperationData::VecAdd(2));
    let mut rec = Recorder::default();
    assert!(matches!(add.apply(&mut rec), Change::VecAdd(ref ids, ref s, 2) if *ids == vec![4] && s == "comps"));
    assert!(matches!(add.undo(&mut rec), Change::VecDel(ref ids, ref s, 2) if *ids == vec![4] && s == "comps"));
    let del: Operation<TestScene, i32> =
        Operation::new(vec![Ob(4)], names(&["comps"]), OperationData::VecDel(0, 77));
    assert!(matches!(del.apply(&mut rec), Change::VecDel(_, _, 0)));
    assert!(matches!(del.undo(&mut rec), Change::VecAdd(_, _, 0)));
    assert_eq!(
        rec.calls,
        names(&["add_empty 4 comps 2", "del 4 comps 2", "del 4 comps 0", "add 4 comps 0 77"])
    );
}

#[test]
fn scene_operations_report_the_reverse_when_undone() {
    let op: Operation<TestScene, i32> =
        Operation::new(vec![], vec![], OperationData::SceneAddObjects(9, vec![Some(1)], vec![Ob(3)]));
    let mut rec = Recorder::default();
    assert!(matches!(op.apply(&mut rec), Change::SceneAdd(9, ref p, ref ids) if *p == vec![Some(1)] && *ids == vec![3]));
    assert!(matches!(op.undo(&mut rec), Change::SceneRemove(9, ref p, ref ids) if *p == vec![Some(1)] && *ids == vec![3]));
    let cam: Operation<TestScene, i32> =
        Operation::new(vec![], vec![], OperationData::SetSceneCamera(9, None, Some(Ob(2))));
    assert!(matches!(cam.apply(&mut rec), Change::Scene(9)));
    assert!(matches!(cam.undo(&mut rec), Change::Scene(9)));
    assert_eq!(
        rec.calls,
        names(&[
            "add_objects 9 [Some(1)] [Ob(3)]",
            "remove_objects 9 [Some(1)] [Ob(3)]",
            "camera 9 Some(Ob(2))",
            "camera 9 None",
        ])
    );
}

#[test]
fn component_operations_report_nothing() {
    let op: Operation<TestScene, i32> =
        Operation::new(vec![Ob(1)], vec![], OperationData::AddComponent(9, Ob(1), "light".to_string()));
    let mut rec = Recorder::default();
    assert!(matches!(op.apply(&mut rec), Change::Nothing));
    assert!(matches!(op.undo(&mut rec), Change::Nothing));
    assert!(rec.calls.is_empty());
}

#[test]
fn property_operations_write_one_property() {
    let mut rec = Recorder::default();
    let on: OldNew<TestScene, i32> = OldNew::new(8, "speed".to_string(), 1, 2);
    assert!(matches!(on.apply(&mut rec), Change::PropertyId(8, ref s) if s == "speed"));
    assert!(matches!(on.undo(&mut rec), Change::PropertyId(8, _)));
    let tn: ToNone<TestScene, i32> = ToNone::new(8, "mesh".to_string(), 5);
    tn.apply(&mut rec);
    tn.undo(&mut rec);
    let ts: ToSome<TestScene, i32> = ToSome::new(8, "mesh".to_string());
    ts.apply(&mut rec);
    ts.undo(&mut rec);
    assert_eq!(
        rec.calls,
        names(&[
            "set 8 speed 2",
            "set 8 speed 1",
            "none 8 mesh",
            "set 8 mesh 5",
            "some 8 mesh",
            "none 8 mesh",
        ])
    );
}

#[test]
fn manager_undo_then_redo_replays_the_operation() {
    let mut m: OperationManager<AnyOperation<TestScene, i32>> = OperationManager::new();
    let mut rec = Recorder::default();
    assert!(matches!(m.undo(&mut rec), Change::Nothing));
    assert!(matches!(m.redo(&mut rec), Change::Nothing));
    let op = OldNew::new(3, "x".to_string(), 0, 1);
    assert!(matches!(m.add_with_trait(AnyOperation::OldNew(op), &mut rec), Change::PropertyId(3, _)));
    assert!(matches!(m.undo(&mut rec), Change::PropertyId(3, _)));
    assert!(matches!(m.undo(&mut rec), Change::Nothing));
    assert!(matches!(m.redo(&mut rec), Change::PropertyId(3, _)));
    assert!(matches!(m.redo(&mut rec), Change::Nothing));
    assert_eq!(rec.calls, names(&["set 3 x 1", "set 3 x 0", "set 3 x 1"]));
}

#[test]
fn manager_add_forgets_what_was_undone() {
    let mut m: OperationManager<AnyOperation<TestScene, i32>> = OperationManager::new();
    let mut rec = Recorder::default();
    m.add_with_trait(AnyOperation::OldNew(OldNew::new(1, "a".to_string(), 0, 1)), &mut rec);
    m.undo(&mut rec);
    m.add_with_trait2(AnyOperation::OldNew(OldNew::new(2, "b".to_string(), 0, 1)));
    assert!(matches!(m.redo(&mut rec), Change::Nothing));
    assert!(matches!(m.undo(&mut rec), Change::PropertyId(2, _)));
    assert!(matches!(m.undo(&mut rec), Change::Nothing));
    assert_eq!(rec.calls, names(&["set 1 a 1", "set 1 a 0", "set 2 b 0"]));
}

// The editing state.

fn state_with_scene() -> (State<TestScene, i32>, Data<TestScene>) {
    let mut data: Data<TestScene> = Data::new();
    let id = data.get_or_load_scene("a.scene").to_id();
    let mut state: State<TestScene, i32> = State::new();
    state.context.set_scene(id);
    (state, data)
}

#[test]
fn vec_del_needs_a_selection_a_value_and_an_index() {
    let (mut state, mut data) = state_with_scene();
    assert!(matches!(state.request_operation_vec_del("comps/2", Some(5), &mut data), Change::Nothing));
    state.context.selected = vec![Ob(1)];
    assert!(matches!(state.request_operation_vec_del("comps/2", None, &mut data), Change::Nothing));
    assert!(matches!(state.request_operation_vec_del("comps/x", Some(5), &mut data), Change::Nothing));
    assert!(matches!(state.undo(&mut data), Change::Nothing));
    let c = state.request_operation_vec_del("comps/2", Some(5), &mut data);
    assert!(matches!(c, Change::VecDel(ref ids, ref s, 2) if *ids == vec![1] && s == "comps"));
    assert!(matches!(state.undo(&mut data), Change::VecAdd(ref ids, ref s, 2) if *ids == vec![1] && s == "comps"));
}

#[test]
fn vec_add_goes_first_without_an_index() {
    let (mut state, mut data) = state_with_scene();
    state.context.selected = vec![Ob(1), Ob(2)];
    let c = state.request_operation_vec_add("comps", &mut data);
    assert!(matches!(c, Change::VecAdd(ref ids, ref s, 0) if *ids == vec![1, 2] && s == "comps"));
    let c = state.request_operation_vec_add("a/comps/3", &mut data);
    assert!(matches!(c, Change::VecAdd(_, ref s, 3) if s == "a/comps"));
    assert!(matches!(state.undo(&mut data), Change::VecDel(_, ref s, 3) if s == "a/comps"));
    assert!(matches!(state.redo(&mut data), Change::VecAdd(_, ref s, 3) if s == "a/comps"));
}

#[test]
fn old_new_is_not_recorded_for_equal_values() {
    let (mut state, mut data) = state_with_scene();
    let c = state.request_operation_property_old_new(4, "speed", 1, 1, true, &mut data);
    assert!(matches!(c, Change::Nothing));
    assert!(matches!(state.undo(&mut data), Change::Nothing));
    let c = state.request_operation_property_old_new(4, "speed", 1, 2, false, &mut data);
    assert!(matches!(c, Change::PropertyId(4, ref s) if s == "speed"));
    let c = state.request_operation_property_old_new_dontcheckequal(4, "speed", 2, 2, &mut data);
    assert!(matches!(c, Change::PropertyId(4, _)));
    assert!(matches!(state.undo(&mut data), Change::PropertyId(4, _)));
    assert!(matches!(state.undo(&mut data), Change::PropertyId(4, _)));
    assert!(matches!(state.undo(&mut data), Change::Nothing));
}

#[test]
fn removing_the_selection_is_undoable() {
    let (mut state, mut data) = state_with_scene();
    state.context.selected = vec![Ob(3)];
    let c = state.remove_selected_objects(&mut data);
    assert!(matches!(c, Change::SceneRemove(101, ref p, ref ids) if *p == vec![Some(1)] && *ids == vec![3]));
    assert_eq!(scene_objects(&data, 101), vec![Ob(1), Ob(2)]);
    let u = state.undo(&mut data);
    assert!(matches!(u, Change::SceneAdd(101, ref p, ref ids) if *p == vec![Some(1)] && *ids == vec![3]));
    assert_eq!(scene_objects(&data, 101), vec![Ob(1), Ob(2), Ob(3)]);
    let r = state.redo(&mut data);
    assert!(matches!(r, Change::SceneRemove(101, _, _)));
    assert_eq!(scene_objects(&data, 101), vec![Ob(1), Ob(2)]);
}

#[test]
fn nothing_happens_to_a_scene_without_a_current_scene() {
    let mut data: Data<TestScene> = Data::new();
    let mut state: State<TestScene, i32> = State::new();
    state.context.selected = vec![Ob(1)];
    assert!(matches!(state.remove_selected_objects(&mut data), Change::Nothing));
    assert!(matches!(state.copy_selected_objects(&mut data), Change::Nothing));
    assert!(matches!(state.set_scene_camera(&mut data), Change::Nothing));
    assert!(matches!(state.add_component("light", &mut data), Change::Nothing));
    assert!(matches!(state.undo(&mut data), Change::Nothing));
}

#[test]
fn copying_the_selection_records_its_parents() {
    let (mut state, mut data) = state_with_scene();
    state.context.selected = vec![Ob(3), Ob(2)];
    let c = state.copy_selected_objects(&mut data);
    assert!(matches!(c, Change::SceneAdd(101, ref p, ref ids) if *p == vec![Some(1), None] && ids.is_empty()));
}

#[test]
fn scene_camera_is_the_first_selected_object() {
    let (mut state, mut data) = state_with_scene();
    state.context.selected = vec![Ob(2), Ob(3)];
    assert!(matches!(state.set_scene_camera(&mut data), Change::Scene(101)));
    assert_eq!(data.get_scene(101).unwrap().get_camera_obj(), Some(Ob(2)));
    assert!(matches!(state.undo(&mut data), Change::Scene(101)));
    assert_eq!(data.get_scene(101).unwrap().get_camera_obj(), None);
}

#[test]
fn components_are_recorded_on_the_first_selected_object() {
    let (mut state, mut data) = state_with_scene();
    assert!(matches!(state.add_component("light", &mut data), Change::Nothing));
    assert!(matches!(state.undo(&mut data), Change::Nothing));
    state.context.selected = vec![Ob(2)];
    assert!(matches!(state.add_component("light", &mut data), Change::Nothing));
    assert!(matches!(state.remove_component("light", &mut data), Change::Nothing));
}

#[test]
fn dragger_operation_names_the_property() {
    let (mut state, mut data) = state_with_scene();
    state.context.selected = vec![Ob(1), Ob(2)];
    let c = state.request_dragger_operation(Kind::Translate, vec![10, 20], vec![11, 21], &mut data);
    assert!(matches!(c, Change::Objects(ref s, ref ids) if s == "position" && *ids == vec![1, 2]));
    let c = state.request_dragger_operation(Kind::Scale, vec![1, 1], vec![2, 2], &mut data);
    assert!(matches!(c, Change::Objects(ref s, _) if s == "scale"));
    let c = state.request_dragger_operation(Kind::Rotate, vec![0, 0], vec![1, 1], &mut data);
    assert!(matches!(c, Change::Objects(ref s, _) if s == "orientation/*"));
}

#[test]
fn a_drag_moves_each_selected_object() {
    let (mut state, mut data) = state_with_scene();
    data.get_or_load_scene("b.scene");
    state.context.selected = vec![Ob(3), Ob(1)];
    let c = state.request_translation(&mut data, vec![31, 11, 99]);
    assert!(matches!(c, Change::DirectChange(ref s) if s == "transform/position"));
    let c = state.request_scale(&mut data, vec![2, 3]);
    assert!(matches!(c, Change::DirectChange(ref s) if s == "transform/scale"));
    let c = state.request_rotation(&mut data, vec![5, 6]);
    assert!(matches!(c, Change::DirectChange(ref s) if s == "transform/orientation/*"));
    assert_eq!(
        data.get_scene(101).unwrap().log,
        names(&["position 3 31", "position 1 11", "scale 3 2", "scale 1 3", "orientation 3 5", "orientation 1 6"])
    );
    assert!(data.get_scene(102).unwrap().log.is_empty());
    assert!(matches!(state.undo(&mut data), Change::Nothing));
}

#[test]
fn save_transforms_reads_each_selected_object() {
    let (mut state, data) = state_with_scene();
    state.context.selected = vec![Ob(2), Ob(3)];
    state.save_transforms(&data);
    assert_eq!(state.saved_positions, vec![20, 30]);
    assert_eq!(state.saved_scales, vec![1, 1]);
    assert_eq!(state.saved_oris, vec![0, 0]);
    assert_eq!(state.get_selected_object(), Some(Ob(2)));
}

// The window container.

fn container_with_scene() -> WidgetContainer<TestScene, i32> {
    let mut c: WidgetContainer<TestScene, i32> = WidgetContainer::new();
    let id = c.data.get_or_load_scene("a.scene").to_id();
    let acts = c.set_scene(id);
    assert!(matches!(acts.as_slice(), [UiAction::UpdateAllViews]));
    c
}

#[test]
fn set_scene_resets_property_and_menu() {
    let mut c = container_with_scene();
    c.property.widget = Some(Rc::new(PropertyHandle { id: 50 }));
    c.state.context.selected = vec![Ob(1)];
    let acts = c.set_scene(101);
    assert!(matches!(acts.as_slice(), [UiAction::PropertySetNothing, UiAction::UpdateAllViews]));
    assert!(c.state.context.selected.is_empty());
    assert_eq!(c.get_scene(), Some(101));
}

#[test]
fn add_empty_adds_and_selects_the_object() {
    let mut c = container_with_scene();
    let acts = c.add_empty(Ob(9), 7);
    assert!(matches!(acts.as_slice(), [UiAction::UpdateAllViews]));
    assert_eq!(c.state.context.selected, vec![Ob(9)]);
    assert_eq!(scene_objects(&c.data, 101), vec![Ob(1), Ob(2), Ob(3), Ob(9)]);
    let acts = c.handle_event(Event::Undo, 7);
    assert!(matches!(acts.as_slice(), [UiAction::UpdateAllViews]));
    assert!(c.state.context.selected.is_empty());
    assert_eq!(scene_objects(&c.data, 101), vec![Ob(1), Ob(2), Ob(3)]);
    let acts = c.handle_event(Event::Redo, 7);
    assert!(matches!(acts.as_slice(), [UiAction::UpdateAllViews]));
    assert_eq!(scene_objects(&c.data, 101), vec![Ob(1), Ob(2), Ob(3), Ob(9)]);
}

#[test]
fn add_empty_without_a_scene_does_nothing() {
    let mut c: WidgetContainer<TestScene, i32> = WidgetContainer::new();
    assert!(c.add_empty(Ob(9), 7).is_empty());
    assert!(c.state.context.selected.is_empty());
    assert_eq!(c.get_selected_object(), None);
}

fn container_with_widgets() -> (WidgetContainer<TestScene, i32>, u128) {
    let mut c = container_with_scene();
    let tree = Tree::new(0, &WidgetConfig::new());
    let tree_id = tree.get_id();
    c.tree = Some(tree);
    c.property.widget = Some(Rc::new(PropertyHandle { id: 50 }));
    (c, tree_id)
}

#[test]
fn selecting_one_object_shows_it_everywhere() {
    let (mut c, tree_id) = container_with_widgets();
    let acts = c.handle_event(Event::SelectObject(Ob(1)), 7);
    assert!(matches!(
        acts.as_slice(),
        [UiAction::TreeSelectObjects(ids), UiAction::PropertySetObject(1)] if *ids == vec![1]
    ));
    let acts = c.handle_event(Event::SelectObject(Ob(2)), tree_id);
    assert!(matches!(acts.as_slice(), [UiAction::PropertySetNothing]));
    let acts = c.handle_event(Event::UnselectObject(Ob(1)), 50);
    assert!(matches!(acts.as_slice(), [UiAction::TreeSelectObjects(ids)] if *ids == vec![2]));
    let acts = c.handle_event(Event::ChangeSelected(vec![]), 7);
    assert!(matches!(
        acts.as_slice(),
        [UiAction::TreeSelectObjects(ids), UiAction::PropertySetScene(101)] if ids.is_empty()
    ));
}

#[test]
fn a_changed_property_reaches_the_widget_that_shows_it() {
    let (mut c, _) = container_with_widgets();
    c.handle_event(Event::SelectObject(Ob(1)), 7);
    let acts = c.handle_change(&Change::PropertyId(1, "name".to_string()), 7);
    assert!(matches!(
        acts.as_slice(),
        [UiAction::PropertyChanged(50, 1, n), UiAction::TreeUpdateObject(1), UiAction::UpdateAllViews] if n == "name"
    ));
    let acts = c.handle_change(&Change::PropertyId(2, "speed".to_string()), 7);
    assert!(matches!(acts.as_slice(), [UiAction::UpdateAllViews]));
    let acts = c.handle_change_new_id(7, 1, "speed");
    assert!(matches!(acts.as_slice(), [UiAction::PropertyChanged(50, 1, n)] if n == "speed"));
}

#[test]
fn a_direct_change_updates_tree_and_property() {
    let (mut c, tree_id) = container_with_widgets();
    c.state.context.selected = vec![Ob(1)];
    let acts = c.handle_change(&Change::DirectChange("name".to_string()), 7);
    assert!(matches!(
        acts.as_slice(),
        [UiAction::TreeUpdateObject(1), UiAction::PropertyUpdateObjectProperty(1, n), UiAction::UpdateAllViews]
            if n == "name"
    ));
    let acts = c.handle_change(&Change::DirectChange("speed".to_string()), 50);
    assert!(matches!(acts.as_slice(), [UiAction::UpdateAllViews]));
    let acts = c.handle_change(&Change::DirectChange("name".to_string()), tree_id);
    assert!(matches!(acts.as_slice(), [UiAction::PropertyUpdateObjectProperty(1, _), UiAction::UpdateAllViews]));
    c.state.context.selected.clear();
    assert!(c.handle_change(&Change::DirectChange("name".to_string()), 7).is_empty());
    assert!(c.handle_change(&Change::Nothing, 7).is_empty());
}

#[test]
fn object_changes_update_the_shown_object_once_per_occurrence() {
    let (mut c, _) = container_with_widgets();
    c.state.context.selected = vec![Ob(1)];
    let acts = c.handle_change(&Change::Objects("pos".to_string(), vec![1, 2, 1]), 7);
    assert_eq!(acts.len(), 3);
    assert!(matches!(&acts[0], UiAction::PropertyUpdateObjectProperty(1, n) if n == "pos"));
    assert!(matches!(&acts[1], UiAction::PropertyUpdateObjectProperty(1, _)));
    assert!(matches!(&acts[2], UiAction::UpdateAllViews));
    let acts = c.handle_change(&Change::VecAdd(vec![1], "comps".to_string(), 2), 50);
    assert!(matches!(acts.as_slice(), [UiAction::PropertyVecAdd(1, _, 2), UiAction::UpdateAllViews]));
    let acts = c.handle_change(&Change::VecDel(vec![1], "comps".to_string(), 2), 50);
    assert!(matches!(acts.as_slice(), [UiAction::UpdateAllViews]));
    let acts = c.handle_change(&Change::VecDel(vec![1], "comps".to_string(), 2), 7);
    assert!(matches!(acts.as_slice(), [UiAction::PropertyVecDel(1, _, 2), UiAction::UpdateAllViews]));
    let acts = c.handle_change(&Change::ComponentChanged(1, "light".to_string()), 7);
    assert!(matches!(acts.as_slice(), [UiAction::PropertyUpdateObject(1), UiAction::UpdateAllViews]));
}

#[test]
fn removing_objects_unselects_them() {
    let (mut c, _) = container_with_widgets();
    c.state.context.selected = vec![Ob(1), Ob(2)];
    let acts = c.handle_change(&Change::SceneRemove(101, vec![None], vec![2]), 7);
    assert_eq!(c.state.context.selected, vec![Ob(1)]);
    assert!(matches!(
        acts.as_slice(),
        [
            UiAction::TreeRemoveObjects(r),
            UiAction::TreeSelectObjects(s),
            UiAction::PropertySetObject(1),
            UiAction::UpdateAllViews,
        ] if *r == vec![2] && *s == vec![1]
    ));
    let acts = c.handle_change(&Change::SceneAdd(101, vec![Some(1)], vec![5]), 7);
    assert!(matches!(
        acts.as_slice(),
        [UiAction::TreeAddObjects(p, o), UiAction::UpdateAllViews] if *p == vec![Some(1)] && *o == vec![5]
    ));
    let acts = c.handle_change(&Change::Scene(101), 7);
    assert!(matches!(acts.as_slice(), [UiAction::UpdateAllViews]));
}

#[test]
fn other_events_ask_little() {
    let (mut c, _) = container_with_widgets();
    assert!(c.handle_event(Event::CameraChange, 7).is_empty());
    c.views = vec![7];
    let acts = c.handle_event(Event::CameraChange, 7);
    assert!(matches!(acts.as_slice(), [UiAction::UpdateView(7)]));
    assert!(c.handle_event(Event::Empty, 7).is_empty());
    assert!(c.handle_event(Event::KeyPressed("a".to_string()), 7).is_empty());
    assert!(matches!(c.handle_event(Event::Undo, 7).as_slice(), [] ));
}

#[test]
fn views_and_game_view() {
    let mut c = container_with_scene();
    c.views = vec![7, 8];
    assert_eq!(c.find_view(8), Some(1));
    assert_eq!(c.find_view(9), None);
    assert!(matches!(c.update_view(8).as_slice(), [UiAction::UpdateView(8)]));
    assert!(c.update_view(9).is_empty());
    assert!(matches!(c.update_all_views().as_slice(), [UiAction::UpdateAllViews]));
    assert_eq!(c.can_create_gameview(), Some(101));
    assert!(!c.play_gameview());
    assert!(c.set_gameview(40));
    assert!(!c.set_gameview(41));
    assert_eq!(c.gameview, Some(40));
    assert_eq!(c.can_create_gameview(), None);
    assert!(c.play_gameview());
    assert!(c.open_gameview());
}

#[test]
fn core_starts_without_scene() {
    let core: Core<TestScene, i32> = Core::new();
    assert!(core.container.tree.is_none());
    assert!(core.container.views.is_empty());
    assert_eq!(core.container.get_scene(), None);
}

#[test]
fn window_config_names_the_current_scene_in_every_view() {
    let (c, _) = container_with_widgets();
    let views = vec![(WidgetConfig::new(), 1u32), (WidgetConfig::with_width_height(5, 6), 2u32)];
    let wc = WindowConfig::new(&c, views, None);
    assert_eq!(wc.views.len(), 2);
    assert_eq!(wc.views[0].scene.as_deref(), Some("a.scene"));
    assert_eq!(wc.views[1].scene.as_deref(), Some("a.scene"));
    assert_eq!(wc.views[1].camera, 2);
    assert_eq!(wc.views[1].window.w, 5);
    assert_eq!(wc.tree.map(|t| t.w), Some(300));
    assert!(wc.gameview.is_none());
    assert_eq!((wc.property.w, wc.property.h), (100, 400));
    let empty: WidgetContainer<TestScene, i32> = WidgetContainer::new();
    let wc2: WindowConfig<u32> = WindowConfig::new(&empty, vec![(WidgetConfig::new(), 0)], Some(WidgetConfig::new()));
    assert_eq!(wc2.views[0].scene, None);
    assert!(wc2.tree.is_none());
    assert!(wc2.gameview.is_some());
}

#[test]
fn an_enum_set_in_the_property_widget_is_undoable() {
    let (mut c, _) = container_with_widgets();
    c.handle_event(Event::SelectObject(Ob(1)), 7);
    let acts = c.changed_enum(Some(1), "mode", Some(0), 2);
    assert!(matches!(
        acts.as_slice(),
        [UiAction::PropertyChanged(50, 1, n), UiAction::UpdateAllViews] if n == "mode"
    ));
    assert!(c.changed_enum(None, "mode", Some(0), 2).is_empty());
    assert!(c.changed_enum(Some(1), "mode", None, 2).is_empty());
    let acts = c.handle_event(Event::Undo, 7);
    assert!(matches!(acts.as_slice(), [UiAction::PropertyChanged(50, 1, _), UiAction::UpdateAllViews]));
    assert!(c.handle_event(Event::Undo, 7).is_empty());
}

#[test]
fn a_value_set_in_the_property_widget() {
    let (mut c, _) = container_with_widgets();
    assert!(matches!(c.changed_set(Some(1), "speed", None, 2, false, 1), SetOutcome::WriteDirectly(2)));
    assert!(matches!(c.changed_set(Some(1), "speed", Some(1), 2, false, 0), SetOutcome::WriteDirectly(2)));
    assert!(matches!(c.changed_set(Some(1), "speed", Some(2), 2, true, 1), SetOutcome::Done(ref a) if a.is_empty()));
    assert!(matches!(c.changed_set(None, "speed", Some(1), 2, false, 1), SetOutcome::Done(ref a) if a.is_empty()));
    assert!(c.handle_event(Event::Undo, 7).is_empty());
    let r = c.changed_set(Some(4), "speed", Some(1), 2, false, 1);
    assert!(matches!(r, SetOutcome::Done(ref a) if matches!(a.as_slice(), [UiAction::UpdateAllViews])));
    let acts = c.handle_event(Event::Undo, 7);
    assert!(matches!(acts.as_slice(), [UiAction::UpdateAllViews]));
}

#[test]
fn window_keys_toggle_the_panels() {
    let (mut c, _) = container_with_widgets();
    assert_eq!(c.window_key_down("Return"), WindowKey::Nothing);
    c.command = Some(jk_editor::ui::command::Command::new(3));
    assert_eq!(c.window_key_down("Return"), WindowKey::ShowCommands);
    assert_eq!(c.window_key_down("t"), WindowKey::ShowTree(false));
    assert!(!c.tree.as_ref().unwrap().visible());
    assert_eq!(c.window_key_down("t"), WindowKey::ShowTree(true));
    assert_eq!(c.window_key_down("p"), WindowKey::ShowProperty(false));
    assert!(!c.property.visible());
    assert_eq!(c.window_key_down("a"), WindowKey::Nothing);
    c.action = Some(jk_editor::ui::action::Action::new(1, 7));
    assert_eq!(c.window_key_down("a"), WindowKey::ShowAction(false));
    assert_eq!(c.window_key_down("z"), WindowKey::ToView);
    assert_eq!(c.window_key_down("return"), WindowKey::ToView);
}

#[test]
fn property_edits_reach_the_scene_holding_the_object() {
    let (mut state, mut data) = state_with_scene();
    data.get_or_load_scene("b.scene");
    let c = state.request_operation_property_old_new(2, "speed", 1, 5, false, &mut data);
    assert!(matches!(c, Change::PropertyId(2, _)));
    state.context.selected = vec![Ob(3)];
    state.request_operation_vec_add("comps/1", &mut data);
    state.request_operation_vec_del("comps/0", Some(7), &mut data);
    state.undo(&mut data);
    state.undo(&mut data);
    state.undo(&mut data);
    assert_eq!(
        data.get_scene(101).unwrap().log,
        names(&[
            "set 2 speed 5",
            "add_empty 3 comps 1",
            "del 3 comps 0",
            "add 3 comps 0 7",
            "del 3 comps 1",
            "set 2 speed 1",
        ])
    );
    assert!(data.get_scene(102).unwrap().log.is_empty());
    data.set_property(99, "x", &1);
    assert!(data.get_scene(101).unwrap().log.len() == 6);
}

#[test]
fn scene_name_search_tries_numbers_in_turn() {
    let mut search = SceneNameSearch::new("scene/level".to_string());
    assert_eq!(search.candidate(), "scene/level000.scene");
    search.taken();
    search.taken();
    assert_eq!(search.candidate(), "scene/level002.scene");
    assert_eq!(search.next, 2);
}

#[test]
fn the_end_of_a_drag_is_undoable() {
    let mut c = container_with_scene();
    c.state.context.selected = vec![Ob(1), Ob(2)];
    let ch = c.handle_dragger_operation(Kind::Translate, vec![10, 20], vec![11, 21]);
    assert!(matches!(ch, Change::Objects(ref s, ref ids) if s == "position" && *ids == vec![1, 2]));
    let acts = c.handle_event(Event::Undo, 7);
    assert!(matches!(acts.as_slice(), [UiAction::UpdateAllViews]));
    assert_eq!(
        c.data.get_scene(101).unwrap().log,
        names(&["set 1 position 11", "set 2 position 21", "set 1 position 10", "set 2 position 20"])
    );
    assert!(c.handle_event(Event::Undo, 7).is_empty());
}
