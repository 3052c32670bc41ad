use vstd::prelude::*;

use crate::context::{ids_of, Context};
use crate::data::{index_with_id, written_value, Data, Id, SceneRequest, SceneT, ToId};
use crate::dragger::manager::Kind;
use crate::operation::{
    AnyOperation, ChangeView, Change, OldNew, Operation, OperationData, OperationManager,
    OperationTrait, ReceiverRequest,
};
use crate::util::{
    lemma_join_split, lemma_split_nonempty, parse_usize, parse_usize_exec, seq_join, split_path,
    split_path_exec, strings_view,
};

verus! {

/// The operation that `request_operation` records for the current selection.
pub open spec fn selection_operation<S: SceneT, V>(
    selected: Vec<S::Object>,
    name: Vec<String>,
    change: OperationData<S::Object, V>,
) -> Operation<S, V> {
    Operation { objects: selected, name, change }
}

/// `op` is an operation on exactly `objects`, named `name`, making `change`.
pub open spec fn records<S: SceneT, V>(
    op: AnyOperation<S, V>,
    objects: Seq<S::Object>,
    name: Seq<Seq<char>>,
    change: OperationData<S::Object, V>,
) -> bool {
    op matches AnyOperation::Operation(o) && o.objects@ == objects && strings_view(o.name@) == name
        && o.change == change
}

/// One operation was put on top of the undo stack, and nothing can be redone.
pub open spec fn pushed<S: SceneT, V>(
    before: OperationManager<AnyOperation<S, V>>,
    after: OperationManager<AnyOperation<S, V>>,
) -> bool {
    &&& after.undo_stack().len() == before.undo_stack().len() + 1
    &&& after.undo_stack().drop_last() == before.undo_stack()
    &&& after.redo_stack().len() == 0
}

/// `after` is `before` having received the requests of the operation on
/// top of the undo stack of `mgr`, applied.
pub open spec fn top_applied<S: SceneT<Value = V>, V>(
    before: Data<S>,
    after: Data<S>,
    mgr: OperationManager<AnyOperation<S, V>>,
) -> bool {
    after.received_log() == before.received_log() + mgr.undo_stack().last().applied_requests()
}

/// The property a drag of the draggers of `kind` changes.
pub open spec fn dragger_property(kind: Kind) -> Seq<Seq<char>> {
    match kind {
        Kind::Translate => seq![seq!['p', 'o', 's', 'i', 't', 'i', 'o', 'n']],
        Kind::Scale => seq![seq!['s', 'c', 'a', 'l', 'e']],
        Kind::Rotate => seq![
            seq!['o', 'r', 'i', 'e', 'n', 't', 'a', 't', 'i', 'o', 'n'],
            seq!['*'],
        ],
    }
}

/// The first registered scene with identifier `sid`.
pub open spec fn scene_with_id<S: SceneT>(data: Data<S>, sid: Id) -> S {
    data.entries()[index_with_id(data.entries(), sid).unwrap()].1
}

/// The objects as `scene` holds them.
pub open spec fn full_objects_in<S: SceneT>(scene: S, objs: Seq<S::Object>) -> Seq<S::Object> {
    Seq::new(objs.len(), |k: int| scene.full_object_of(objs[k]))
}

/// The identifiers of the parents of the objects in `scene`.
pub open spec fn parent_ids_in<S: SceneT>(scene: S, objs: Seq<S::Object>) -> Seq<Option<Id>> {
    Seq::new(
        objs.len(),
        |k: int|
            match scene.parent_of(objs[k]) {
                Some(p) => Some(p.id_view()),
                None => None,
            },
    )
}

/// `op` removes from scene `sid` the selected objects as `scene` holds
/// them, under their parents, and was made on the selection.
pub open spec fn removes_selection<S: SceneT, V>(
    op: AnyOperation<S, V>,
    scene: S,
    sid: Id,
    selected: Seq<S::Object>,
) -> bool {
    match op {
        AnyOperation::Operation(o) => {
            &&& o.objects@ == selected
            &&& o.name@.len() == 0
            &&& match o.change {
                OperationData::SceneRemoveObjects(s, p, obs) => s == sid && obs@ == full_objects_in(
                    scene,
                    selected,
                ) && p@ == parent_ids_in(scene, obs@),
                _ => false,
            }
        },
        _ => false,
    }
}

/// `op` adds copies of the selected objects to scene `sid` under the
/// parents `scene` gives them (the copies themselves are made when the
/// operation is applied), and was made on the selection.
pub open spec fn copies_selection<S: SceneT, V>(
    op: AnyOperation<S, V>,
    scene: S,
    sid: Id,
    selected: Seq<S::Object>,
) -> bool {
    match op {
        AnyOperation::Operation(o) => {
            &&& o.objects@ == selected
            &&& o.name@.len() == 0
            &&& match o.change {
                OperationData::SceneAddObjects(s, p, obs) => s == sid && obs@.len() == 0 && p@
                    == parent_ids_in(scene, selected),
                _ => false,
            }
        },
        _ => false,
    }
}

/// The first of `selected`, or none when nothing is selected.
pub open spec fn first_selected<O>(selected: Seq<O>) -> Option<O> {
    if selected.len() > 0 {
        Some(selected[0])
    } else {
        None
    }
}

/// `op` makes the first of `selected` the camera of the scene `scene`,
/// whose identifier is `sid`, remembering the camera that scene had.
pub open spec fn records_camera_change<S: SceneT, V>(
    op: AnyOperation<S, V>,
    scene: S,
    sid: Id,
    selected: Seq<S::Object>,
) -> bool {
    &&& op matches AnyOperation::Operation(o)
    &&& o.objects@ == selected
    &&& o.name@.len() == 0
    &&& o.change == OperationData::<S::Object, V>::SetSceneCamera(sid, scene.camera_of(), first_selected(selected))
}

/// Making a selected object the scene camera and undoing it: applying the
/// operation asks the scene for the first selected object as camera, and
/// undoing it asks for the camera the scene had before, so the former
/// camera is the scene camera again.
pub proof fn lemma_scene_camera_undo_restores_former<S: SceneT, V>(
    op: AnyOperation<S, V>,
    scene: S,
    sid: Id,
    selected: Seq<S::Object>,
)
    requires
        records_camera_change(op, scene, sid, selected),
    ensures
        op.applied_requests() == seq![
            ReceiverRequest::<S::Object, V>::SetCamera(sid, first_selected(selected)),
        ],
        op.undone_requests() == seq![ReceiverRequest::<S::Object, V>::SetCamera(sid, scene.camera_of())],
{
}

/// The current scene of the context is registered in `data`.
pub open spec fn scene_present<S: SceneT>(context: Context<S>, data: Data<S>) -> bool {
    context.scene matches Some(sc) && index_with_id(data.entries(), sc) is Some
}

/// The editor state: the context, the undo history and the transforms saved
/// when a drag started.
pub struct State<S: SceneT, V> {
    pub context: Context<S>,
    pub op_mgr: OperationManager<AnyOperation<S, V>>,
    pub saved_positions: Vec<S::Vector>,
    pub saved_scales: Vec<S::Vector>,
    pub saved_oris: Vec<S::Orientation>,
}

fn copy_objects<O: Copy>(v: &Vec<O>) -> (r: Vec<O>)
    ensures
        r@ == v@,
{
    let mut r: Vec<O> = Vec::new();
    let mut i: usize = 0;
    while i < v.len()
        invariant
            0 <= i <= v.len(),
            r@ == v@.take(i as int),
        decreases v.len() - i,
    {
        proof {
            assert(v@.take(i + 1) =~= v@.take(i as int).push(v@[i as int]));
        }
        r.push(v[i]);
        i = i + 1;
    }
    proof {
        assert(v@.take(i as int) =~= v@);
    }
    r
}

fn full_objects<S: SceneT>(scene: &S, objs: &Vec<S::Object>) -> (r: Vec<S::Object>)
    ensures
        r@ == full_objects_in(*scene, objs@),
{
    let mut r: Vec<S::Object> = Vec::new();
    let mut i: usize = 0;
    while i < objs.len()
        invariant
            0 <= i <= objs.len(),
            r@ == full_objects_in(*scene, objs@.take(i as int)),
        decreases objs.len() - i,
    {
        r.push(scene.get_full_object(objs[i]));
        proof {
            assert(r@ =~= full_objects_in(*scene, objs@.take(i + 1)));
        }
        i = i + 1;
    }
    proof {
        assert(objs@.take(i as int) =~= objs@);
    }
    r
}

fn parents_of<S: SceneT>(scene: &S, objs: &Vec<S::Object>) -> (r: Vec<Option<Id>>)
    ensures
        r@ == parent_ids_in(*scene, objs@),
{
    let mut r: Vec<Option<Id>> = Vec::new();
    let mut i: usize = 0;
    while i < objs.len()
        invariant
            0 <= i <= objs.len(),
            r@ == parent_ids_in(*scene, objs@.take(i as int)),
        decreases objs.len() - i,
    {
        let p = match scene.get_parent(objs[i]) {
            Some(x) => Some(x.to_id()),
            None => None,
        };
        r.push(p);
        proof {
            assert(r@ =~= parent_ids_in(*scene, objs@.take(i + 1)));
        }
        i = i + 1;
    }
    proof {
        assert(objs@.take(i as int) =~= objs@);
    }
    r
}

impl<S: SceneT<Value = V>, V> State<S, V> {
    pub fn new() -> (s: State<S, V>)
        ensures
            s.context.selected@.len() == 0,
            s.context.scene is None,
            s.op_mgr.undo_stack().len() == 0,
            s.op_mgr.redo_stack().len() == 0,
            s.saved_positions@.len() == 0,
            s.saved_scales@.len() == 0,
            s.saved_oris@.len() == 0,
    {
        State {
            context: Context::new(),
            op_mgr: OperationManager::new(),
            saved_positions: Vec::new(),
            saved_scales: Vec::new(),
            saved_oris: Vec::new(),
        }
    }

    /// Saves the position, scale and orientation of each selected object,
    /// in selection order, as the scene reports them.
    pub fn save_transforms(&mut self, data: &Data<S>)
        requires
            scene_present(old(self).context, *data),
        ensures
            ({
                let sc = scene_with_id(*data, old(self).context.scene.unwrap());
                let sel = old(self).context.selected@;
                &&& final(self).saved_positions@ == Seq::new(sel.len(), |k: int| sc.position_of(sel[k]))
                &&& final(self).saved_scales@ == Seq::new(sel.len(), |k: int| sc.scale_of(sel[k]))
                &&& final(self).saved_oris@ == Seq::new(sel.len(), |k: int| sc.orientation_of(sel[k]))
            }),
            final(self).context == old(self).context,
            final(self).op_mgr == old(self).op_mgr,
    {
        let sid = self.context.scene.unwrap();
        let scene = data.get_scene(sid).unwrap();
        let mut positions: Vec<S::Vector> = Vec::new();
        let mut scales: Vec<S::Vector> = Vec::new();
        let mut oris: Vec<S::Orientation> = Vec::new();
        let ghost sel = self.context.selected@;
        let mut i: usize = 0;
        while i < self.context.selected.len()
            invariant
                0 <= i <= self.context.selected.len(),
                sel == self.context.selected@,
                positions@ == Seq::new(i as nat, |k: int| scene.position_of(sel[k])),
                scales@ == Seq::new(i as nat, |k: int| scene.scale_of(sel[k])),
                oris@ == Seq::new(i as nat, |k: int| scene.orientation_of(sel[k])),
            decreases self.context.selected.len() - i,
        {
            let o = self.context.selected[i];
            positions.push(scene.get_position(o));
            scales.push(scene.get_scale(o));
            oris.push(scene.get_orientation(o));
            proof {
                assert(positions@ =~= Seq::new((i + 1) as nat, |k: int| scene.position_of(sel[k])));
                assert(scales@ =~= Seq::new((i + 1) as nat, |k: int| scene.scale_of(sel[k])));
                assert(oris@ =~= Seq::new((i + 1) as nat, |k: int| scene.orientation_of(sel[k])));
            }
            i = i + 1;
        }
        self.saved_positions = positions;
        self.saved_scales = scales;
        self.saved_oris = oris;
    }

    /// An operation on the selected objects.
    pub fn make_operation(&mut self, name: Vec<String>, op_data: OperationData<S::Object, V>) -> (op: Operation<S, V>)
        ensures
            op.objects@ == old(self).context.selected@,
            op.name == name,
            op.change == op_data,
            *final(self) == *old(self),
    {
        let obs = copy_objects(&self.context.selected);
        Operation::new(obs, name, op_data)
    }

    /// Applies an operation on the selected objects and records it in the
    /// undo history; returns what applying it reports.
    pub fn request_operation(
        &mut self,
        name: Vec<String>,
        op_data: OperationData<S::Object, V>,
        rec: &mut Data<S>,
    ) -> (c: Change)
        requires
            selection_operation::<S, V>(old(self).context.selected, name, op_data).well_formed(),
        ensures
            c@ == selection_operation::<S, V>(old(self).context.selected, name, op_data).applied(),
            pushed(old(self).op_mgr, final(self).op_mgr),
            final(rec).received_log() == old(rec).received_log() + selection_operation::<S, V>(
                old(self).context.selected,
                name,
                op_data,
            ).applied_requests(),
            records(
                final(self).op_mgr.undo_stack().last(),
                old(self).context.selected@,
                strings_view(name@),
                op_data,
            ),
            final(self).context == old(self).context,
            final(self).saved_positions == old(self).saved_positions,
            final(self).saved_scales == old(self).saved_scales,
            final(self).saved_oris == old(self).saved_oris,
    {
        let ghost old_selected = self.context.selected;
        let op = self.make_operation(name, op_data);
        proof {
            assert(op.applied() == selection_operation::<S, V>(old_selected, name, op_data).applied());
        }
        let ghost before = self.op_mgr;
        let c = self.op_mgr.add_with_trait(AnyOperation::Operation(op), rec);
        proof {
            assert(self.op_mgr.undo_stack().drop_last() =~= before.undo_stack());
        }
        c
    }

    /// Undoes the last done operation.
    pub fn undo(&mut self, rec: &mut Data<S>) -> (c: Change)
        ensures
            c@ == if old(self).op_mgr.undo_stack().len() == 0 {
                ChangeView::Nothing
            } else {
                old(self).op_mgr.undo_stack().last().undone()
            },
            (final(self).op_mgr.undo_stack(), final(self).op_mgr.redo_stack())
                == crate::operation::undo_stacks(
                old(self).op_mgr.undo_stack(),
                old(self).op_mgr.redo_stack(),
            ),
            final(self).context == old(self).context,
            old(self).op_mgr.undo_stack().len() == 0 ==> *final(rec) == *old(rec) && *final(self) == *old(self),
            old(self).op_mgr.undo_stack().len() > 0 ==> final(rec).received_log() == old(rec).received_log()
                + old(self).op_mgr.undo_stack().last().undone_requests(),
            final(self).saved_positions == old(self).saved_positions,
            final(self).saved_scales == old(self).saved_scales,
            final(self).saved_oris == old(self).saved_oris,
    {
        self.op_mgr.undo(rec)
    }

    /// Applies again the last undone operation.
    pub fn redo(&mut self, rec: &mut Data<S>) -> (c: Change)
        ensures
            c@ == if old(self).op_mgr.redo_stack().len() == 0 {
                ChangeView::Nothing
            } else {
                old(self).op_mgr.redo_stack().last().applied()
            },
            (final(self).op_mgr.undo_stack(), final(self).op_mgr.redo_stack())
                == crate::operation::redo_stacks(
                old(self).op_mgr.undo_stack(),
                old(self).op_mgr.redo_stack(),
            ),
            final(self).context == old(self).context,
            old(self).op_mgr.redo_stack().len() == 0 ==> *final(rec) == *old(rec) && *final(self) == *old(self),
            old(self).op_mgr.redo_stack().len() > 0 ==> final(rec).received_log() == old(rec).received_log()
                + old(self).op_mgr.redo_stack().last().applied_requests(),
            final(self).saved_positions == old(self).saved_positions,
            final(self).saved_scales == old(self).saved_scales,
            final(self).saved_oris == old(self).saved_oris,
    {
        self.op_mgr.redo(rec)
    }

    /// The first selected object.
    pub fn get_selected_object(&self) -> (r: Option<S::Object>)
        ensures
            r == if self.context.selected@.len() > 0 {
                Some(self.context.selected@[0])
            } else {
                None
            },
    {
        if self.context.selected.len() > 0 {
            Some(self.context.selected[0])
        } else {
            None
        }
    }

    /// Removes the selected objects from the current scene, as an undoable
    /// operation; with no current scene nothing happens.
    pub fn remove_selected_objects(&mut self, data: &mut Data<S>) -> (c: Change)
        requires
            old(self).context.scene is Some ==> scene_present(old(self).context, *old(data)),
        ensures
            old(self).context.scene is None ==> c@ == ChangeView::Nothing && *final(self) == *old(self) && *final(data) == *old(data),
            old(self).context.scene matches Some(sid) ==> {
                &&& pushed(old(self).op_mgr, final(self).op_mgr)
                &&& top_applied(*old(data), *final(data), final(self).op_mgr)
                &&& removes_selection(
                    final(self).op_mgr.undo_stack().last(),
                    scene_with_id(*old(data), sid),
                    sid,
                    old(self).context.selected@,
                )
                &&& c@ == final(self).op_mgr.undo_stack().last().applied()
                &&& c@ == ChangeView::SceneRemove(
                    sid,
                    parent_ids_in(
                        scene_with_id(*old(data), sid),
                        full_objects_in(scene_with_id(*old(data), sid), old(self).context.selected@),
                    ),
                    ids_of(full_objects_in(scene_with_id(*old(data), sid), old(self).context.selected@)),
                )
            },
            final(self).context == old(self).context,
    {
        let sid = match self.context.scene {
            Some(s) => s,
            None => {
                return Change::Nothing;
            },
        };
        let (objects, parents) = {
            let s = data.get_scene(sid).unwrap();
            let objects = full_objects(s, &self.context.selected);
            let parents = parents_of(s, &objects);
            (objects, parents)
        };
        let ghost ob = objects;
        let ghost pa = parents;
        let c = self.request_operation(
            Vec::new(),
            OperationData::SceneRemoveObjects(sid, parents, objects),
            data,
        );
        proof {
            let top = self.op_mgr.undo_stack().last();
            assert(top matches AnyOperation::Operation(o) && strings_view(o.name@).len() == 0);
        }
        c
    }

    /// Removes the item designated by `path` (a vector property path whose
    /// last part is the index) from the selected objects, as an undoable
    /// operation; `prop` is the current value of that item. Nothing happens
    /// when nothing is selected, when there is no value or when the last
    /// part of the path is not an index.
    pub fn request_operation_vec_del(&mut self, path: &str, prop: Option<V>, rec: &mut Data<S>) -> (c: Change)
        ensures
            ({
                let parts = split_path(path@);
                let done = old(self).context.selected@.len() > 0 && prop is Some && parse_usize(
                    parts.last(),
                ) is Some;
                &&& !done ==> c@ == ChangeView::Nothing && *final(self) == *old(self) && *final(rec) == *old(rec)
                &&& done ==> c@ == ChangeView::VecDel(
                    ids_of(old(self).context.selected@),
                    seq_join(parts.drop_last()),
                    parse_usize(parts.last()).unwrap(),
                ) && pushed(old(self).op_mgr, final(self).op_mgr) && top_applied(
                    *old(rec),
                    *final(rec),
                    final(self).op_mgr,
                ) && records(
                    final(self).op_mgr.undo_stack().last(),
                    old(self).context.selected@,
                    parts.drop_last(),
                    OperationData::VecDel(parse_usize(parts.last()).unwrap(), prop.unwrap()),
                )
            }),
            final(self).context == old(self).context,
    {
        let mut vs = split_path_exec(path);
        proof {
            lemma_split_nonempty(path@);
        }
        if self.context.selected.len() == 0 {
            return Change::Nothing;
        }
        let prop = match prop {
            Some(p) => p,
            None => {
                return Change::Nothing;
            },
        };
        let n = vs.len();
        match parse_usize_exec(vs[n - 1].as_str()) {
            Some(index) => {
                vs.pop();
                proof {
                    assert(strings_view(vs@) =~= split_path(path@).drop_last());
                }
                self.request_operation(vs, OperationData::VecDel(index, prop), rec)
            },
            None => Change::Nothing,
        }
    }

    /// Inserts an item into the vector property designated by `path` of
    /// the selected objects, as an undoable operation: when the last part of
    /// the path is an index, the item goes there in the vector named by the
    /// rest of the path; otherwise it goes first in the vector named by the
    /// whole path.
    pub fn request_operation_vec_add(&mut self, path: &str, rec: &mut Data<S>) -> (c: Change)
        ensures
            ({
                let parts = split_path(path@);
                let indexed = parse_usize(parts.last()) is Some;
                let name = if indexed {
                    parts.drop_last()
                } else {
                    parts
                };
                let index: usize = if indexed {
                    parse_usize(parts.last()).unwrap()
                } else {
                    0
                };
                &&& c@ == ChangeView::VecAdd(
                    ids_of(old(self).context.selected@),
                    seq_join(name),
                    index,
                )
                &&& !indexed ==> seq_join(name) == path@
                &&& pushed(old(self).op_mgr, final(self).op_mgr)
                &&& top_applied(*old(rec), *final(rec), final(self).op_mgr)
                &&& records(
                    final(self).op_mgr.undo_stack().last(),
                    old(self).context.selected@,
                    name,
                    OperationData::VecAdd(index),
                )
            }),
            final(self).context == old(self).context,
    {
        let mut vs = split_path_exec(path);
        proof {
            lemma_split_nonempty(path@);
            lemma_join_split(path@);
        }
        let n = vs.len();
        let index = match parse_usize_exec(vs[n - 1].as_str()) {
            Some(index) => {
                vs.pop();
                proof {
                    assert(strings_view(vs@) =~= split_path(path@).drop_last());
                }
                index
            },
            None => 0,
        };
        self.request_operation(vs, OperationData::VecAdd(index), rec)
    }

    /// Records the end of a drag of the draggers as an undoable operation on
    /// the selected objects: their positions (a translation), scales or
    /// orientations (a rotation) go from `old_values` to `new_values`.
    pub fn request_dragger_operation(
        &mut self,
        kind: Kind,
        old_values: Vec<V>,
        new_values: Vec<V>,
        rec: &mut Data<S>,
    ) -> (c: Change)
        requires
            old_values@.len() >= old(self).context.selected@.len(),
            new_values@.len() >= old(self).context.selected@.len(),
        ensures
            c@ == ChangeView::Objects(
                seq_join(dragger_property(kind)),
                ids_of(old(self).context.selected@),
            ),
            pushed(old(self).op_mgr, final(self).op_mgr),
            top_applied(*old(rec), *final(rec), final(self).op_mgr),
            records(
                final(self).op_mgr.undo_stack().last(),
                old(self).context.selected@,
                dragger_property(kind),
                OperationData::Vector(old_values, new_values),
            ),
            final(self).context == old(self).context,
    {
        let mut prop: Vec<String> = Vec::new();
        proof {
            reveal_strlit("position");
            reveal_strlit("scale");
            reveal_strlit("orientation");
            reveal_strlit("*");
            assert("position"@ =~= seq!['p', 'o', 's', 'i', 't', 'i', 'o', 'n']);
            assert("scale"@ =~= seq!['s', 'c', 'a', 'l', 'e']);
            assert("orientation"@ =~= seq!['o', 'r', 'i', 'e', 'n', 't', 'a', 't', 'i', 'o', 'n']);
            assert("*"@ =~= seq!['*']);
        }
        match kind {
            Kind::Translate => {
                prop.push("position".to_owned());
            },
            Kind::Scale => {
                prop.push("scale".to_owned());
            },
            Kind::Rotate => {
                prop.push("orientation".to_owned());
                prop.push("*".to_owned());
            },
        }
        proof {
            assert(strings_view(prop@) =~= dragger_property(kind));
        }
        self.request_operation(prop, OperationData::Vector(old_values, new_values), rec)
    }

    /// Shows a drag of the draggers going on: each selected object of the
    /// current scene gets the position at the same index of `values` (the
    /// saved positions moved by the drag), without recording an operation.
    pub fn request_translation(&mut self, data: &mut Data<S>, values: Vec<S::Vector>) -> (c: Change)
        requires
            scene_present(old(self).context, *old(data)),
            values@.len() >= old(self).context.selected@.len(),
        ensures
            c@ == ChangeView::DirectChange(seq!['t', 'r', 'a', 'n', 's', 'f', 'o', 'r', 'm', '/', 'p', 'o', 's', 'i', 't', 'i', 'o', 'n']),
            *final(self) == *old(self),
            final(data).count() == old(data).count(),
            final(data).entries().len() == old(data).entries().len(),
            forall|j: int|
                0 <= j < old(data).entries().len() ==> #[trigger] final(data).entries()[j].0
                    == old(data).entries()[j].0,
            forall|j: int|
                0 <= j < old(data).entries().len() && Some(j) != index_with_id(
                    old(data).entries(),
                    old(self).context.scene.unwrap(),
                ) ==> #[trigger] final(data).entries()[j] == old(data).entries()[j],
            final(data).requests() == old(data).requests_after(
                old(self).context.scene.unwrap(),
                SceneRequest::SetPositions(
                    old(self).context.scene.unwrap(),
                    old(self).context.selected@,
                    values@.take(old(self).context.selected@.len() as int),
                ),
            ),
            final(data).received_log() == old(data).received_log(),
            forall|p: S::Object|
                #[trigger] final(data).entries()[index_with_id(old(data).entries(), old(self).context.scene.unwrap()).unwrap()].1.position_of(p)
                    == written_value(
                    old(self).context.selected@,
                    values@,
                    p,
                    scene_with_id(*old(data), old(self).context.scene.unwrap()).position_of(p),
                ),
    {
        let sid = self.context.scene.unwrap();
        data.set_positions(sid, self.context.selected.as_slice(), values.as_slice());
        proof {
            reveal_strlit("transform/position");
        }
        let s = "transform/position".to_owned();
        proof {
            assert(s@ =~= seq!['t', 'r', 'a', 'n', 's', 'f', 'o', 'r', 'm', '/', 'p', 'o', 's', 'i', 't', 'i', 'o', 'n']);
        }
        Change::DirectChange(s)
    }

    /// Shows a drag of the draggers going on: each selected object of the
    /// current scene gets the scale at the same index of `values` (the
    /// saved scales moved by the drag), without recording an operation.
    pub fn request_scale(&mut self, data: &mut Data<S>, values: Vec<S::Vector>) -> (c: Change)
        requires
            scene_present(old(self).context, *old(data)),
            values@.len() >= old(self).context.selected@.len(),
        ensures
            c@ == ChangeView::DirectChange(seq!['t', 'r', 'a', 'n', 's', 'f', 'o', 'r', 'm', '/', 's', 'c', 'a', 'l', 'e']),
            *final(self) == *old(self),
            final(data).count() == old(data).count(),
            final(data).entries().len() == old(data).entries().len(),
            forall|j: int|
                0 <= j < old(data).entries().len() ==> #[trigger] final(data).entries()[j].0
                    == old(data).entries()[j].0,
            forall|j: int|
                0 <= j < old(data).entries().len() && Some(j) != index_with_id(
                    old(data).entries(),
                    old(self).context.scene.unwrap(),
                ) ==> #[trigger] final(data).entries()[j] == old(data).entries()[j],
            final(data).requests() == old(data).requests_after(
                old(self).context.scene.unwrap(),
                SceneRequest::SetScales(
                    old(self).context.scene.unwrap(),
                    old(self).context.selected@,
                    values@.take(old(self).context.selected@.len() as int),
                ),
            ),
            final(data).received_log() == old(data).received_log(),
            forall|p: S::Object|
                #[trigger] final(data).entries()[index_with_id(old(data).entries(), old(self).context.scene.unwrap()).unwrap()].1.scale_of(p)
                    == written_value(
                    old(self).context.selected@,
                    values@,
                    p,
                    scene_with_id(*old(data), old(self).context.scene.unwrap()).scale_of(p),
                ),
    {
        let sid = self.context.scene.unwrap();
        data.set_scales(sid, self.context.selected.as_slice(), values.as_slice());
        proof {
            reveal_strlit("transform/scale");
        }
        let s = "transform/scale".to_owned();
        proof {
            assert(s@ =~= seq!['t', 'r', 'a', 'n', 's', 'f', 'o', 'r', 'm', '/', 's', 'c', 'a', 'l', 'e']);
        }
        Change::DirectChange(s)
    }

    /// Shows a drag of the draggers going on: each selected object of the
    /// current scene gets the orientation at the same index of `values` (the
    /// saved orientations moved by the drag), without recording an operation.
    pub fn request_rotation(&mut self, data: &mut Data<S>, values: Vec<S::Orientation>) -> (c: Change)
        requires
            scene_present(old(self).context, *old(data)),
            values@.len() >= old(self).context.selected@.len(),
        ensures
            c@ == ChangeView::DirectChange(seq!['t', 'r', 'a', 'n', 's', 'f', 'o', 'r', 'm', '/', 'o', 'r', 'i', 'e', 'n', 't', 'a', 't', 'i', 'o', 'n', '/', '*']),
            *final(self) == *old(self),
            final(data).count() == old(data).count(),
            final(data).entries().len() == old(data).entries().len(),
            forall|j: int|
                0 <= j < old(data).entries().len() ==> #[trigger] final(data).entries()[j].0
                    == old(data).entries()[j].0,
            forall|j: int|
                0 <= j < old(data).entries().len() && Some(j) != index_with_id(
                    old(data).entries(),
                    old(self).context.scene.unwrap(),
                ) ==> #[trigger] final(data).entries()[j] == old(data).entries()[j],
            final(data).requests() == old(data).requests_after(
                old(self).context.scene.unwrap(),
                SceneRequest::SetOrientations(
                    old(self).context.scene.unwrap(),
                    old(self).context.selected@,
                    values@.take(old(self).context.selected@.len() as int),
                ),
            ),
            final(data).received_log() == old(data).received_log(),
            forall|p: S::Object|
                #[trigger] final(data).entries()[index_with_id(old(data).entries(), old(self).context.scene.unwrap()).unwrap()].1.orientation_of(p)
                    == written_value(
                    old(self).context.selected@,
                    values@,
                    p,
                    scene_with_id(*old(data), old(self).context.scene.unwrap()).orientation_of(p),
                ),
    {
        let sid = self.context.scene.unwrap();
        data.set_orientations(sid, self.context.selected.as_slice(), values.as_slice());
        proof {
            reveal_strlit("transform/orientation/*");
        }
        let s = "transform/orientation/*".to_owned();
        proof {
            assert(s@ =~= seq!['t', 'r', 'a', 'n', 's', 'f', 'o', 'r', 'm', '/', 'o', 'r', 'i', 'e', 'n', 't', 'a', 't', 'i', 'o', 'n', '/', '*']);
        }
        Change::DirectChange(s)
    }

    /// Sets property `name` of object `id` from `old_value` to `new_value`, as an
    /// undoable operation, without comparing the two values.
    pub fn request_operation_property_old_new_dontcheckequal(
        &mut self,
        id: Id,
        name: &str,
        old_value: V,
        new_value: V,
        rec: &mut Data<S>,
    ) -> (c: Change)
        ensures
            c@ == ChangeView::PropertyId(id, name@),
            pushed(old(self).op_mgr, final(self).op_mgr),
            top_applied(*old(rec), *final(rec), final(self).op_mgr),
            ({
                &&& final(self).op_mgr.undo_stack().last() matches AnyOperation::OldNew(o)
                &&& o.object_id == id
                &&& o.name@ == name@
                &&& o.old == old_value
                &&& o.new == new_value
            }),
            final(self).context == old(self).context,
    {
        let op: OldNew<S, V> = OldNew::new(id, name.to_owned(), old_value, new_value);
        let ghost before = self.op_mgr;
        let c = self.op_mgr.add_with_trait(AnyOperation::OldNew(op), rec);
        proof {
            assert(self.op_mgr.undo_stack().drop_last() =~= before.undo_stack());
        }
        c
    }

    /// Sets property `name` of object `id` from `old_value` to `new_value`, as an
    /// undoable operation, unless the two values are equal (`equal` is the
    /// comparison of the two values); then nothing happens.
    pub fn request_operation_property_old_new(
        &mut self,
        id: Id,
        name: &str,
        old_value: V,
        new_value: V,
        equal: bool,
        rec: &mut Data<S>,
    ) -> (c: Change)
        ensures
            equal ==> c@ == ChangeView::Nothing && *final(self) == *old(self) && *final(rec) == *old(rec),
            !equal ==> {
                &&& c@ == ChangeView::PropertyId(id, name@)
                &&& pushed(old(self).op_mgr, final(self).op_mgr)
                &&& top_applied(*old(rec), *final(rec), final(self).op_mgr)
                &&& final(self).op_mgr.undo_stack().last() matches AnyOperation::OldNew(o)
                &&& o.object_id == id
                &&& o.name@ == name@
                &&& o.old == old_value
                &&& o.new == new_value
            },
            final(self).context == old(self).context,
    {
        if equal {
            return Change::Nothing;
        }
        self.request_operation_property_old_new_dontcheckequal(id, name, old_value, new_value, rec)
    }

    /// Records the adding of the selected objects' copies to the current
    /// scene, under their parents, as an undoable operation; with no current
    /// scene nothing happens.
    pub fn copy_selected_objects(&mut self, data: &mut Data<S>) -> (c: Change)
        requires
            old(self).context.scene is Some ==> scene_present(old(self).context, *old(data)),
        ensures
            old(self).context.scene is None ==> c@ == ChangeView::Nothing && *final(self) == *old(self) && *final(data) == *old(data),
            old(self).context.scene matches Some(sid) ==> {
                &&& pushed(old(self).op_mgr, final(self).op_mgr)
                &&& top_applied(*old(data), *final(data), final(self).op_mgr)
                &&& copies_selection(
                    final(self).op_mgr.undo_stack().last(),
                    scene_with_id(*old(data), sid),
                    sid,
                    old(self).context.selected@,
                )
                &&& c@ == final(self).op_mgr.undo_stack().last().applied()
                &&& c@ == ChangeView::SceneAdd(
                    sid,
                    parent_ids_in(scene_with_id(*old(data), sid), old(self).context.selected@),
                    Seq::empty(),
                )
            },
            final(self).context == old(self).context,
    {
        let sid = match self.context.scene {
            Some(s) => s,
            None => {
                return Change::Nothing;
            },
        };
        let parents = {
            let s = data.get_scene(sid).unwrap();
            parents_of(s, &self.context.selected)
        };
        let objects: Vec<S::Object> = Vec::new();
        let ghost ob = objects;
        let c = self.request_operation(
            Vec::new(),
            OperationData::SceneAddObjects(sid, parents, objects),
            data,
        );
        proof {
            assert(ids_of(ob@) =~= Seq::<Id>::empty());
            let top = self.op_mgr.undo_stack().last();
            assert(top matches AnyOperation::Operation(o) && strings_view(o.name@).len() == 0);
        }
        c
    }

    /// Records the adding of component `component_name` to the first
    /// selected object; nothing happens when nothing is selected or there
    /// is no current scene.
    pub fn add_component(&mut self, component_name: &str, rec: &mut Data<S>) -> (c: Change)
        ensures
            c@ == ChangeView::Nothing,
            (old(self).context.selected@.len() == 0 || old(self).context.scene is None) ==> *final(self) == *old(self) && *final(rec) == *old(rec),
            (old(self).context.selected@.len() > 0 && old(self).context.scene is Some) ==> {
                &&& pushed(old(self).op_mgr, final(self).op_mgr)
                &&& top_applied(*old(rec), *final(rec), final(self).op_mgr)
                &&& final(self).op_mgr.undo_stack().last() matches AnyOperation::Operation(o)
                &&& o.change matches OperationData::AddComponent(s, ob, n)
                &&& Some(s) == old(self).context.scene
                &&& ob == old(self).context.selected@[0]
                &&& n@ == component_name@
            },
            final(self).context == old(self).context,
    {
        let o = if self.context.selected.len() > 0 {
            self.context.selected[0]
        } else {
            return Change::Nothing;
        };
        let s = match self.context.scene {
            Some(s) => s,
            None => {
                return Change::Nothing;
            },
        };
        self.request_operation(
            Vec::new(),
            OperationData::AddComponent(s, o, component_name.to_owned()),
            rec,
        )
    }

    /// Records the removing of component `component_name` from the first
    /// selected object; nothing happens when nothing is selected or there
    /// is no current scene.
    pub fn remove_component(&mut self, component_name: &str, rec: &mut Data<S>) -> (c: Change)
        ensures
            c@ == ChangeView::Nothing,
            (old(self).context.selected@.len() == 0 || old(self).context.scene is None) ==> *final(self) == *old(self) && *final(rec) == *old(rec),
            (old(self).context.selected@.len() > 0 && old(self).context.scene is Some) ==> {
                &&& pushed(old(self).op_mgr, final(self).op_mgr)
                &&& top_applied(*old(rec), *final(rec), final(self).op_mgr)
                &&& final(self).op_mgr.undo_stack().last() matches AnyOperation::Operation(o)
                &&& o.change matches OperationData::RemoveComponent(s, ob, n)
                &&& Some(s) == old(self).context.scene
                &&& ob == old(self).context.selected@[0]
                &&& n@ == component_name@
            },
            final(self).context == old(self).context,
    {
        let o = if self.context.selected.len() > 0 {
            self.context.selected[0]
        } else {
            return Change::Nothing;
        };
        let s = match self.context.scene {
            Some(s) => s,
            None => {
                return Change::Nothing;
            },
        };
        self.request_operation(
            Vec::new(),
            OperationData::RemoveComponent(s, o, component_name.to_owned()),
            rec,
        )
    }

    /// Makes the first selected object (or no object) the camera of the
    /// current scene, as an undoable operation that remembers the former
    /// camera; with no current scene nothing happens.
    pub fn set_scene_camera(&mut self, data: &mut Data<S>) -> (c: Change)
        requires
            old(self).context.scene is Some ==> scene_present(old(self).context, *old(data)),
        ensures
            old(self).context.scene is None ==> c@ == ChangeView::Nothing && *final(self) == *old(self) && *final(data) == *old(data),
            old(self).context.scene matches Some(sid) ==> {
                &&& c@ == ChangeView::Scene(sid)
                &&& pushed(old(self).op_mgr, final(self).op_mgr)
                &&& top_applied(*old(data), *final(data), final(self).op_mgr)
                &&& final(self).op_mgr.undo_stack().last() matches AnyOperation::Operation(o)
                &&& o.change matches OperationData::SetSceneCamera(s, _, new)
                &&& s == sid
                &&& new == if old(self).context.selected@.len() > 0 {
                    Some(old(self).context.selected@[0])
                } else {
                    None
                }
                &&& records_camera_change(
                    final(self).op_mgr.undo_stack().last(),
                    scene_with_id(*old(data), sid),
                    sid,
                    old(self).context.selected@,
                )
            },
            final(self).context == old(self).context,
    {
        let sid = match self.context.scene {
            Some(s) => s,
            None => {
                return Change::Nothing;
            },
        };
        let current = {
            let s = data.get_scene(sid).unwrap();
            s.get_camera_obj()
        };
        let o = self.get_selected_object();
        let c = self.request_operation(Vec::new(), OperationData::SetSceneCamera(sid, current, o), data);
        proof {
            let top = self.op_mgr.undo_stack().last();
            assert(top matches AnyOperation::Operation(op) && strings_view(op.name@).len() == 0);
        }
        c
    }
}

} // verus!
