use vstd::prelude::*;

use crate::context::ids_of;
use crate::data::{index_with_id, Data, Id, SceneRequest, SceneT, ToId};
use crate::util::{join_string, join_string_prefix, seq_join, strings_view};

verus! {

/// A request made of the data an operation edits.
pub ghost enum ReceiverRequest<O, V> {
    /// Write the value into the property at the path of the object.
    SetProperty(Id, Seq<char>, V),
    /// Set the optional property at the path of the object to none.
    SetPropertyNone(Id, Seq<char>),
    /// Set the optional property at the path of the object to some value.
    SetPropertySome(Id, Seq<char>),
    /// Insert the value at the index of the vector property at the path.
    AddItem(Id, Seq<char>, usize, V),
    /// Insert an empty item at the index of the vector property at the path.
    AddEmptyItem(Id, Seq<char>, usize),
    /// Remove the item at the index of the vector property at the path.
    DelItem(Id, Seq<char>, usize),
    /// Add the objects, under the parents, to the scene.
    AddObjects(Id, Seq<Option<Id>>, Seq<O>),
    /// Remove the objects, under the parents, from the scene.
    RemoveObjects(Id, Seq<Option<Id>>, Seq<O>),
    /// Make the object, or none, the camera of the scene.
    SetCamera(Id, Option<O>),
}

/// A log of the requests a receiver was given.
pub type ReceivedLog<O, V> = Seq<ReceiverRequest<O, V>>;

/// What applying or undoing an operation asks of the data it edits. Its
/// model is the log of the requests it was given, in order.
pub trait OperationReceiver<S: SceneT, V> {
    /// The requests given so far, oldest first.
    spec fn received(&self) -> ReceivedLog<S::Object, V>;

    /// Writes `value` into the property at `path` of object `object_id`.
    fn set_property(&mut self, object_id: Id, path: &str, value: &V)
        ensures
            final(self).received() == old(self).received().push(
                ReceiverRequest::SetProperty(object_id, path@, *value),
            ),
    ;

    /// Sets the optional property at `path` of object `object_id` to none.
    fn set_property_none(&mut self, object_id: Id, path: &str)
        ensures
            final(self).received() == old(self).received().push(
                ReceiverRequest::SetPropertyNone(object_id, path@),
            ),
    ;

    /// Sets the optional property at `path` of object `object_id` to some
    /// default value.
    fn set_property_some(&mut self, object_id: Id, path: &str)
        ensures
            final(self).received() == old(self).received().push(
                ReceiverRequest::SetPropertySome(object_id, path@),
            ),
    ;

    /// Inserts `value` at `index` of the vector property at `path`.
    fn add_item(&mut self, object_id: Id, path: &str, index: usize, value: &V)
        ensures
            final(self).received() == old(self).received().push(
                ReceiverRequest::AddItem(object_id, path@, index, *value),
            ),
    ;

    /// Inserts an empty item at `index` of the vector property at `path`.
    fn add_empty_item(&mut self, object_id: Id, path: &str, index: usize)
        ensures
            final(self).received() == old(self).received().push(
                ReceiverRequest::AddEmptyItem(object_id, path@, index),
            ),
    ;

    /// Removes the item at `index` of the vector property at `path`.
    fn del_item(&mut self, object_id: Id, path: &str, index: usize)
        ensures
            final(self).received() == old(self).received().push(
                ReceiverRequest::DelItem(object_id, path@, index),
            ),
    ;

    /// Adds `objects`, under `parents`, to the scene `scene_id`.
    fn add_objects(&mut self, scene_id: Id, parents: &[Option<Id>], objects: &[S::Object])
        ensures
            final(self).received() == old(self).received().push(
                ReceiverRequest::AddObjects(scene_id, parents@, objects@),
            ),
    ;

    /// Removes `objects`, under `parents`, from the scene `scene_id`.
    fn remove_objects(&mut self, scene_id: Id, parents: &[Option<Id>], objects: &[S::Object])
        ensures
            final(self).received() == old(self).received().push(
                ReceiverRequest::RemoveObjects(scene_id, parents@, objects@),
            ),
    ;

    /// Makes `camera` the camera of the scene `scene_id`.
    fn set_camera(&mut self, scene_id: Id, camera: Option<S::Object>)
        ensures
            final(self).received() == old(self).received().push(
                ReceiverRequest::SetCamera(scene_id, camera),
            ),
    ;
}

impl<S: SceneT> OperationReceiver<S, S::Value> for Data<S> {
    open spec fn received(&self) -> ReceivedLog<S::Object, S::Value> {
        self.received_log()
    }

    fn set_property(&mut self, object_id: Id, path: &str, value: &S::Value) {
        Data::set_property(self, object_id, path, value);
    }

    fn set_property_none(&mut self, object_id: Id, path: &str) {
        Data::set_property_none(self, object_id, path);
    }

    fn set_property_some(&mut self, object_id: Id, path: &str) {
        Data::set_property_some(self, object_id, path);
    }

    fn add_item(&mut self, object_id: Id, path: &str, index: usize, value: &S::Value) {
        Data::add_item(self, object_id, path, index, value);
    }

    fn add_empty_item(&mut self, object_id: Id, path: &str, index: usize) {
        Data::add_empty_item(self, object_id, path, index);
    }

    fn del_item(&mut self, object_id: Id, path: &str, index: usize) {
        Data::del_item(self, object_id, path, index);
    }

    /// Hands the objects to the scene `scene_id`, if there is one, to be
    /// added (see `Data::add_objects`).
    fn add_objects(&mut self, scene_id: Id, parents: &[Option<Id>], objects: &[S::Object])
        ensures
            final(self).count() == old(self).count(),
            final(self).entries().len() == old(self).entries().len(),
            forall|j: int|
                0 <= j < old(self).entries().len() ==> #[trigger] final(self).entries()[j].0
                    == old(self).entries()[j].0,
            forall|j: int|
                0 <= j < old(self).entries().len() && Some(j) != index_with_id(
                    old(self).entries(),
                    scene_id,
                ) ==> #[trigger] final(self).entries()[j] == old(self).entries()[j],
            final(self).requests() == old(self).requests_after(
                scene_id,
                SceneRequest::AddObjects(scene_id, parents@, objects@),
            ),
    {
        self.receive(Ghost(ReceiverRequest::AddObjects(scene_id, parents@, objects@)));
        Data::add_objects(self, scene_id, parents, objects);
    }

    /// Hands the objects to the scene `scene_id`, if there is one, to be
    /// removed (see `Data::remove_objects`).
    fn remove_objects(&mut self, scene_id: Id, parents: &[Option<Id>], objects: &[S::Object])
        ensures
            final(self).count() == old(self).count(),
            final(self).entries().len() == old(self).entries().len(),
            forall|j: int|
                0 <= j < old(self).entries().len() ==> #[trigger] final(self).entries()[j].0
                    == old(self).entries()[j].0,
            forall|j: int|
                0 <= j < old(self).entries().len() && Some(j) != index_with_id(
                    old(self).entries(),
                    scene_id,
                ) ==> #[trigger] final(self).entries()[j] == old(self).entries()[j],
            final(self).requests() == old(self).requests_after(
                scene_id,
                SceneRequest::RemoveObjects(scene_id, parents@, objects@),
            ),
    {
        self.receive(Ghost(ReceiverRequest::RemoveObjects(scene_id, parents@, objects@)));
        Data::remove_objects(self, scene_id, parents, objects);
    }

    /// Hands the camera to the scene `scene_id`, if there is one (see
    /// `Data::set_camera`).
    fn set_camera(&mut self, scene_id: Id, camera: Option<S::Object>)
        ensures
            final(self).entries() == old(self).entries(),
            final(self).count() == old(self).count(),
            final(self).requests() == old(self).requests_after(
                scene_id,
                SceneRequest::SetCamera(scene_id, camera),
            ),
    {
        self.receive(Ghost(ReceiverRequest::SetCamera(scene_id, camera)));
        Data::set_camera(self, scene_id, camera);
    }
}

/// What changed, as reported to the widgets after an edit.
pub enum Change {
    Nothing,
    PropertyId(Id, String),
    Objects(String, Vec<Id>),
    DirectChange(String),
    SceneAdd(Id, Vec<Option<Id>>, Vec<Id>),
    SceneRemove(Id, Vec<Option<Id>>, Vec<Id>),
    Scene(Id),
    ComponentChanged(Id, String),
    VecAdd(Vec<Id>, String, usize),
    VecDel(Vec<Id>, String, usize),
}

/// The mathematical value of a `Change`.
pub ghost enum ChangeView {
    Nothing,
    PropertyId(Id, Seq<char>),
    Objects(Seq<char>, Seq<Id>),
    DirectChange(Seq<char>),
    SceneAdd(Id, Seq<Option<Id>>, Seq<Id>),
    SceneRemove(Id, Seq<Option<Id>>, Seq<Id>),
    Scene(Id),
    ComponentChanged(Id, Seq<char>),
    VecAdd(Seq<Id>, Seq<char>, usize),
    VecDel(Seq<Id>, Seq<char>, usize),
}

impl View for Change {
    type V = ChangeView;

    open spec fn view(&self) -> ChangeView {
        match self {
            Change::Nothing => ChangeView::Nothing,
            Change::PropertyId(id, s) => ChangeView::PropertyId(*id, s@),
            Change::Objects(s, ids) => ChangeView::Objects(s@, ids@),
            Change::DirectChange(s) => ChangeView::DirectChange(s@),
            Change::SceneAdd(id, p, ids) => ChangeView::SceneAdd(*id, p@, ids@),
            Change::SceneRemove(id, p, ids) => ChangeView::SceneRemove(*id, p@, ids@),
            Change::Scene(id) => ChangeView::Scene(*id),
            Change::ComponentChanged(id, s) => ChangeView::ComponentChanged(*id, s@),
            Change::VecAdd(ids, s, i) => ChangeView::VecAdd(ids@, s@, *i),
            Change::VecDel(ids, s, i) => ChangeView::VecDel(ids@, s@, *i),
        }
    }
}

/// The edit an `Operation` makes to the objects it names, with what is
/// needed to undo it.
pub enum OperationData<O, V> {
    /// Insert an item at this index of a vector property.
    VecAdd(usize),
    /// Remove the item at this index of a vector property; the removed value.
    VecDel(usize, V),
    /// Old values and new values of a property, one per object.
    Vector(Vec<V>, Vec<V>),
    /// Scene, parents, objects added to the scene.
    SceneAddObjects(Id, Vec<Option<Id>>, Vec<O>),
    /// Scene, parents, objects removed from the scene.
    SceneRemoveObjects(Id, Vec<Option<Id>>, Vec<O>),
    /// Scene, old camera, new camera.
    SetSceneCamera(Id, Option<O>, Option<O>),
    /// Scene, object, component name.
    AddComponent(Id, O, String),
    /// Scene, object, component name.
    RemoveComponent(Id, O, String),
    /// Old values, new value.
    OldNewVec(Vec<V>, V),
}

/// An undoable edit: applied, undone, and reported as a `Change`.
pub trait OperationTrait {
    type Scene: SceneT;

    type Value;

    /// The operation can be applied and undone.
    spec fn well_formed(&self) -> bool;

    /// The change reported when the operation is applied.
    spec fn applied(&self) -> ChangeView;

    /// The change reported when the operation is undone.
    spec fn undone(&self) -> ChangeView;

    /// The requests applying the operation makes of the data, in order.
    spec fn applied_requests(&self) -> ReceivedLog<<Self::Scene as SceneT>::Object, Self::Value>;

    /// The requests undoing the operation makes of the data, in order.
    spec fn undone_requests(&self) -> ReceivedLog<<Self::Scene as SceneT>::Object, Self::Value>;

    /// Applies the operation to `rec`; reports what changed.
    fn apply<R: OperationReceiver<Self::Scene, Self::Value>>(&self, rec: &mut R) -> (c: Change)
        requires
            self.well_formed(),
        ensures
            c@ == self.applied(),
            final(rec).received() == old(rec).received() + self.applied_requests(),
    ;

    /// Undoes the operation on `rec`; reports what changed.
    fn undo<R: OperationReceiver<Self::Scene, Self::Value>>(&self, rec: &mut R) -> (c: Change)
        requires
            self.well_formed(),
        ensures
            c@ == self.undone(),
            final(rec).received() == old(rec).received() + self.undone_requests(),
    ;
}

/// The request that `edit_items` makes of object `id`: with `add`, the
/// value (or an empty item) is inserted at `index`; otherwise the item at
/// `index` is removed.
pub open spec fn edit_request<O, V>(
    id: Id,
    path: Seq<char>,
    index: usize,
    add: bool,
    value: Option<V>,
) -> ReceiverRequest<O, V> {
    if add {
        match value {
            Some(v) => ReceiverRequest::AddItem(id, path, index, v),
            None => ReceiverRequest::AddEmptyItem(id, path, index),
        }
    } else {
        ReceiverRequest::DelItem(id, path, index)
    }
}

/// The property path an operation writes: the joined name, without a
/// trailing "*" part.
pub open spec fn property_path(name: Seq<Seq<char>>) -> Seq<char> {
    if name.len() > 0 && name.last() == seq!['*'] {
        seq_join(name.drop_last())
    } else {
        seq_join(name)
    }
}

/// The identifiers of the objects, in order.
pub fn get_ids<O: ToId>(obs: &[O]) -> (v: Vec<Id>)
    ensures
        v@ == ids_of(obs@),
{
    let mut list: Vec<Id> = Vec::new();
    let mut i: usize = 0;
    while i < obs.len()
        invariant
            0 <= i <= obs.len(),
            list@ == ids_of(obs@.take(i as int)),
        decreases obs.len() - i,
    {
        let id = obs[i].to_id();
        proof {
            assert(ids_of(obs@.take(i + 1)) =~= ids_of(obs@.take(i as int)).push(id));
        }
        list.push(id);
        i = i + 1;
    }
    proof {
        assert(obs@.take(i as int) =~= obs@);
    }
    list
}

pub(crate) fn copy_parents(p: &Vec<Option<Id>>) -> (r: Vec<Option<Id>>)
    ensures
        r@ == p@,
{
    let mut r: Vec<Option<Id>> = Vec::new();
    let mut i: usize = 0;
    while i < p.len()
        invariant
            0 <= i <= p.len(),
            r@ == p@.take(i as int),
        decreases p.len() - i,
    {
        proof {
            assert(p@.take(i + 1) =~= p@.take(i as int).push(p@[i as int]));
        }
        r.push(p[i]);
        i = i + 1;
    }
    proof {
        assert(p@.take(i as int) =~= p@);
    }
    r
}

fn property_path_exec(name: &Vec<String>) -> (s: String)
    ensures
        s@ == property_path(strings_view(name@)),
{
    let n = name.len();
    proof {
        reveal_strlit("*");
    }
    if n > 0 {
        let star = "*".to_owned();
        if name[n - 1] == star {
            let s = join_string_prefix(name.as_slice(), n - 1);
            proof {
                assert(strings_view(name@.take(n - 1)) =~= strings_view(name@).drop_last());
                assert(strings_view(name@).last() =~= seq!['*']);
            }
            return s;
        }
        proof {
            assert(star@ =~= seq!['*']);
            assert(strings_view(name@).last() == name@[n - 1]@);
        }
    }
    join_string(name.as_slice())
}

/// An edit of the named property (or of the scene) of some objects.
pub struct Operation<S: SceneT, V> {
    pub objects: Vec<S::Object>,
    pub name: Vec<String>,
    pub change: OperationData<S::Object, V>,
}

impl<S: SceneT, V> Operation<S, V> {
    pub fn new(objects: Vec<S::Object>, name: Vec<String>, change: OperationData<S::Object, V>) -> (o: Operation<S, V>)
        ensures
            o.objects == objects,
            o.name == name,
            o.change == change,
    {
        Operation { objects, name, change }
    }

    /// The joined property name.
    pub open spec fn path(&self) -> Seq<char> {
        seq_join(strings_view(self.name@))
    }

    /// The identifiers of the objects.
    pub open spec fn object_ids(&self) -> Seq<Id> {
        ids_of(self.objects@)
    }

    fn write_values<R: OperationReceiver<S, V>>(&self, rec: &mut R, values: &Vec<V>) -> (ids: Vec<Id>)
        requires
            values@.len() >= self.objects@.len(),
        ensures
            ids@ == self.object_ids(),
            final(rec).received() == old(rec).received() + self.value_requests(values@),
    {
        let sp = property_path_exec(&self.name);
        let mut ids: Vec<Id> = Vec::new();
        let ghost r0 = rec.received();
        let mut i: usize = 0;
        while i < self.objects.len()
            invariant
                0 <= i <= self.objects.len(),
                values@.len() >= self.objects@.len(),
                ids@ == ids_of(self.objects@.take(i as int)),
                sp@ == property_path(strings_view(self.name@)),
                rec.received() == r0 + self.value_requests(values@).take(i as int),
            decreases self.objects.len() - i,
        {
            let id = self.objects[i].to_id();
            rec.set_property(id, sp.as_str(), &values[i]);
            proof {
                assert(ids_of(self.objects@.take(i + 1)) =~= ids_of(self.objects@.take(i as int)).push(id));
                assert(self.value_requests(values@).take(i + 1) =~= self.value_requests(values@).take(
                    i as int,
                ).push(self.value_requests(values@)[i as int]));
                assert(r0 + self.value_requests(values@).take(i + 1) =~= (r0 + self.value_requests(
                    values@,
                ).take(i as int)).push(self.value_requests(values@)[i as int]));
            }
            ids.push(id);
            i = i + 1;
        }
        proof {
            assert(self.objects@.take(i as int) =~= self.objects@);
            assert(self.value_requests(values@).take(i as int) =~= self.value_requests(values@));
        }
        ids
    }

    fn edit_items<R: OperationReceiver<S, V>>(
        &self,
        rec: &mut R,
        path: &str,
        index: usize,
        add: bool,
        value: Option<&V>,
    ) -> (ids: Vec<Id>)
        ensures
            ids@ == self.object_ids(),
            final(rec).received() == old(rec).received() + self.edit_requests(
                path@,
                index,
                add,
                match value {
                    Some(v) => Some(*v),
                    None => None,
                },
            ),
    {
        let ghost val = match value {
            Some(v) => Some(*v),
            None => None,
        };
        let ghost reqs = self.edit_requests(path@, index, add, val);
        let ghost r0 = rec.received();
        let mut ids: Vec<Id> = Vec::new();
        let mut i: usize = 0;
        while i < self.objects.len()
            invariant
                0 <= i <= self.objects.len(),
                ids@ == ids_of(self.objects@.take(i as int)),
                reqs == self.edit_requests(path@, index, add, val),
                val == match value {
                    Some(v) => Some(*v),
                    None => None,
                },
                rec.received() == r0 + reqs.take(i as int),
            decreases self.objects.len() - i,
        {
            let id = self.objects[i].to_id();
            if add {
                match value {
                    Some(v) => rec.add_item(id, path, index, v),
                    None => rec.add_empty_item(id, path, index),
                }
            } else {
                rec.del_item(id, path, index);
            }
            proof {
                assert(ids_of(self.objects@.take(i + 1)) =~= ids_of(self.objects@.take(i as int)).push(id));
                assert(reqs.take(i + 1) =~= reqs.take(i as int).push(reqs[i as int]));
                assert(r0 + reqs.take(i + 1) =~= (r0 + reqs.take(i as int)).push(reqs[i as int]));
            }
            ids.push(id);
            i = i + 1;
        }
        proof {
            assert(self.objects@.take(i as int) =~= self.objects@);
            assert(reqs.take(i as int) =~= reqs);
        }
        ids
    }

    /// One request per object: `values` written at the property path.
    pub open spec fn value_requests(&self, values: Seq<V>) -> ReceivedLog<S::Object, V> {
        Seq::new(
            self.objects@.len(),
            |k: int|
                ReceiverRequest::SetProperty(
                    self.objects@[k].id_view(),
                    property_path(strings_view(self.name@)),
                    values[k],
                ),
        )
    }

    /// One item edit per object, at `path` (see `edit_request`).
    pub open spec fn edit_requests(&self, path: Seq<char>, index: usize, add: bool, value: Option<V>) -> ReceivedLog<S::Object, V> {
        Seq::new(
            self.objects@.len(),
            |k: int| edit_request(self.objects@[k].id_view(), path, index, add, value),
        )
    }
}

impl<S: SceneT, V> OperationTrait for Operation<S, V> {
    type Scene = S;

    type Value = V;

    open spec fn well_formed(&self) -> bool {
        match self.change {
            OperationData::Vector(old, new) => old@.len() >= self.objects@.len() && new@.len()
                >= self.objects@.len(),
            _ => true,
        }
    }

    open spec fn applied(&self) -> ChangeView {
        match self.change {
            OperationData::VecAdd(i) => ChangeView::VecAdd(self.object_ids(), self.path(), i),
            OperationData::VecDel(i, _) => ChangeView::VecDel(self.object_ids(), self.path(), i),
            OperationData::Vector(_, _) => ChangeView::Objects(self.path(), self.object_ids()),
            OperationData::SceneAddObjects(s, p, obs) => ChangeView::SceneAdd(s, p@, ids_of(obs@)),
            OperationData::SceneRemoveObjects(s, p, obs) => ChangeView::SceneRemove(
                s,
                p@,
                ids_of(obs@),
            ),
            OperationData::SetSceneCamera(s, _, _) => ChangeView::Scene(s),
            _ => ChangeView::Nothing,
        }
    }

    open spec fn undone(&self) -> ChangeView {
        match self.change {
            OperationData::VecAdd(i) => ChangeView::VecDel(self.object_ids(), self.path(), i),
            OperationData::VecDel(i, _) => ChangeView::VecAdd(self.object_ids(), self.path(), i),
            OperationData::Vector(_, _) => ChangeView::Objects(self.path(), self.object_ids()),
            OperationData::SceneAddObjects(s, p, obs) => ChangeView::SceneRemove(
                s,
                p@,
                ids_of(obs@),
            ),
            OperationData::SceneRemoveObjects(s, p, obs) => ChangeView::SceneAdd(s, p@, ids_of(obs@)),
            OperationData::SetSceneCamera(s, _, _) => ChangeView::Scene(s),
            _ => ChangeView::Nothing,
        }
    }

    /// Item edits insert an empty item (or remove the item) on each object;
    /// vector edits write the new values; scene edits hand the objects or
    /// the new camera to the scene; component edits ask nothing.
    open spec fn applied_requests(&self) -> ReceivedLog<S::Object, V> {
        match self.change {
            OperationData::VecAdd(i) => self.edit_requests(self.path(), i, true, None),
            OperationData::VecDel(i, _) => self.edit_requests(self.path(), i, false, None),
            OperationData::Vector(_, new) => self.value_requests(new@),
            OperationData::SceneAddObjects(s, p, obs) => seq![ReceiverRequest::AddObjects(s, p@, obs@)],
            OperationData::SceneRemoveObjects(s, p, obs) => seq![
                ReceiverRequest::RemoveObjects(s, p@, obs@),
            ],
            OperationData::SetSceneCamera(s, _, new) => seq![ReceiverRequest::SetCamera(s, new)],
            _ => Seq::empty(),
        }
    }

    /// The mirror of `applied_requests`: an inserted item is removed, a
    /// removed item is inserted again with its value, the old values are
    /// written back, added objects are removed and removed ones added, and
    /// the old camera is set again.
    open spec fn undone_requests(&self) -> ReceivedLog<S::Object, V> {
        match self.change {
            OperationData::VecAdd(i) => self.edit_requests(self.path(), i, false, None),
            OperationData::VecDel(i, v) => self.edit_requests(self.path(), i, true, Some(v)),
            OperationData::Vector(old, _) => self.value_requests(old@),
            OperationData::SceneAddObjects(s, p, obs) => seq![
                ReceiverRequest::RemoveObjects(s, p@, obs@),
            ],
            OperationData::SceneRemoveObjects(s, p, obs) => seq![ReceiverRequest::AddObjects(s, p@, obs@)],
            OperationData::SetSceneCamera(s, old, _) => seq![ReceiverRequest::SetCamera(s, old)],
            _ => Seq::empty(),
        }
    }

    fn apply<R: OperationReceiver<S, V>>(&self, rec: &mut R) -> (c: Change) {
        match &self.change {
            OperationData::VecAdd(i) => {
                let s = join_string(self.name.as_slice());
                let ids = self.edit_items(rec, s.as_str(), *i, true, None);
                Change::VecAdd(ids, s, *i)
            },
            OperationData::VecDel(i, _) => {
                let s = join_string(self.name.as_slice());
                let ids = self.edit_items(rec, s.as_str(), *i, false, None);
                Change::VecDel(ids, s, *i)
            },
            OperationData::Vector(_, new) => {
                let s = join_string(self.name.as_slice());
                let ids = self.write_values(rec, new);
                Change::Objects(s, ids)
            },
            OperationData::SceneAddObjects(s, parents, obs) => {
                rec.add_objects(*s, parents.as_slice(), obs.as_slice());
                Change::SceneAdd(*s, copy_parents(parents), get_ids(obs.as_slice()))
            },
            OperationData::SceneRemoveObjects(s, parents, obs) => {
                rec.remove_objects(*s, parents.as_slice(), obs.as_slice());
                Change::SceneRemove(*s, copy_parents(parents), get_ids(obs.as_slice()))
            },
            OperationData::SetSceneCamera(s, _, new) => {
                rec.set_camera(*s, *new);
                Change::Scene(*s)
            },
            _ => Change::Nothing,
        }
    }

    fn undo<R: OperationReceiver<S, V>>(&self, rec: &mut R) -> (c: Change) {
        match &self.change {
            OperationData::VecAdd(i) => {
                let s = join_string(self.name.as_slice());
                let ids = self.edit_items(rec, s.as_str(), *i, false, None);
                Change::VecDel(ids, s, *i)
            },
            OperationData::VecDel(i, value) => {
                let s = join_string(self.name.as_slice());
                let ids = self.edit_items(rec, s.as_str(), *i, true, Some(value));
                Change::VecAdd(ids, s, *i)
            },
            OperationData::Vector(old, _) => {
                let s = join_string(self.name.as_slice());
                let ids = self.write_values(rec, old);
                Change::Objects(s, ids)
            },
            OperationData::SceneAddObjects(s, parents, obs) => {
                rec.remove_objects(*s, parents.as_slice(), obs.as_slice());
                Change::SceneRemove(*s, copy_parents(parents), get_ids(obs.as_slice()))
            },
            OperationData::SceneRemoveObjects(s, parents, obs) => {
                rec.add_objects(*s, parents.as_slice(), obs.as_slice());
                Change::SceneAdd(*s, copy_parents(parents), get_ids(obs.as_slice()))
            },
            OperationData::SetSceneCamera(s, old, _) => {
                rec.set_camera(*s, *old);
                Change::Scene(*s)
            },
            _ => Change::Nothing,
        }
    }
}


/// The change that reports the reverse of `c`.
pub open spec fn inverse(c: ChangeView) -> ChangeView {
    match c {
        ChangeView::SceneAdd(s, p, ids) => ChangeView::SceneRemove(s, p, ids),
        ChangeView::SceneRemove(s, p, ids) => ChangeView::SceneAdd(s, p, ids),
        ChangeView::VecAdd(ids, n, i) => ChangeView::VecDel(ids, n, i),
        ChangeView::VecDel(ids, n, i) => ChangeView::VecAdd(ids, n, i),
        _ => c,
    }
}

/// Undoing an operation reports the reverse of what applying it reports.
pub proof fn lemma_operation_undo_reports_inverse<S: SceneT, V>(op: Operation<S, V>)
    ensures
        op.undone() == inverse(op.applied()),
{
}

/// Sets one property of one object from an old value to a new one.
pub struct OldNew<S, V> {
    pub object_id: Id,
    pub name: String,
    pub old: V,
    pub new: V,
    pub phantom: core::marker::PhantomData<S>,
}

impl<S, V> OldNew<S, V> {
    pub fn new(object_id: Id, name: String, old: V, new: V) -> (o: OldNew<S, V>)
        ensures
            o.object_id == object_id,
            o.name == name,
            o.old == old,
            o.new == new,
    {
        OldNew { object_id, name, old, new, phantom: core::marker::PhantomData }
    }
}

impl<S: SceneT, V> OperationTrait for OldNew<S, V> {
    type Scene = S;

    type Value = V;

    open spec fn well_formed(&self) -> bool {
        true
    }

    open spec fn applied(&self) -> ChangeView {
        ChangeView::PropertyId(self.object_id, self.name@)
    }

    open spec fn undone(&self) -> ChangeView {
        ChangeView::PropertyId(self.object_id, self.name@)
    }

    open spec fn applied_requests(&self) -> ReceivedLog<S::Object, V> {
        seq![ReceiverRequest::SetProperty(self.object_id, self.name@, self.new)]
    }

    open spec fn undone_requests(&self) -> ReceivedLog<S::Object, V> {
        seq![ReceiverRequest::SetProperty(self.object_id, self.name@, self.old)]
    }

    fn apply<R: OperationReceiver<S, V>>(&self, rec: &mut R) -> (c: Change) {
        rec.set_property(self.object_id, self.name.as_str(), &self.new);
        Change::PropertyId(self.object_id, self.name.clone())
    }

    fn undo<R: OperationReceiver<S, V>>(&self, rec: &mut R) -> (c: Change) {
        rec.set_property(self.object_id, self.name.as_str(), &self.old);
        Change::PropertyId(self.object_id, self.name.clone())
    }
}

/// Sets an optional property to none; undoing restores the old value.
pub struct ToNone<S, V> {
    pub object_id: Id,
    pub name: String,
    pub old: V,
    pub phantom: core::marker::PhantomData<S>,
}

impl<S, V> ToNone<S, V> {
    pub fn new(object_id: Id, name: String, old: V) -> (o: ToNone<S, V>)
        ensures
            o.object_id == object_id,
            o.name == name,
            o.old == old,
    {
        ToNone { object_id, name, old, phantom: core::marker::PhantomData }
    }
}

impl<S: SceneT, V> OperationTrait for ToNone<S, V> {
    type Scene = S;

    type Value = V;

    open spec fn well_formed(&self) -> bool {
        true
    }

    open spec fn applied(&self) -> ChangeView {
        ChangeView::PropertyId(self.object_id, self.name@)
    }

    open spec fn undone(&self) -> ChangeView {
        ChangeView::PropertyId(self.object_id, self.name@)
    }

    open spec fn applied_requests(&self) -> ReceivedLog<S::Object, V> {
        seq![ReceiverRequest::SetPropertyNone(self.object_id, self.name@)]
    }

    open spec fn undone_requests(&self) -> ReceivedLog<S::Object, V> {
        seq![ReceiverRequest::SetProperty(self.object_id, self.name@, self.old)]
    }

    fn apply<R: OperationReceiver<S, V>>(&self, rec: &mut R) -> (c: Change) {
        rec.set_property_none(self.object_id, self.name.as_str());
        Change::PropertyId(self.object_id, self.name.clone())
    }

    fn undo<R: OperationReceiver<S, V>>(&self, rec: &mut R) -> (c: Change) {
        rec.set_property(self.object_id, self.name.as_str(), &self.old);
        Change::PropertyId(self.object_id, self.name.clone())
    }
}

/// Sets an optional property to some value; undoing sets it to none.
pub struct ToSome<S, V> {
    pub object_id: Id,
    pub name: String,
    pub phantom: core::marker::PhantomData<(S, V)>,
}

impl<S, V> ToSome<S, V> {
    pub fn new(object_id: Id, name: String) -> (o: ToSome<S, V>)
        ensures
            o.object_id == object_id,
            o.name == name,
    {
        ToSome { object_id, name, phantom: core::marker::PhantomData }
    }
}

impl<S: SceneT, V> OperationTrait for ToSome<S, V> {
    type Scene = S;

    type Value = V;

    open spec fn well_formed(&self) -> bool {
        true
    }

    open spec fn applied(&self) -> ChangeView {
        ChangeView::PropertyId(self.object_id, self.name@)
    }

    open spec fn undone(&self) -> ChangeView {
        ChangeView::PropertyId(self.object_id, self.name@)
    }

    open spec fn applied_requests(&self) -> ReceivedLog<S::Object, V> {
        seq![ReceiverRequest::SetPropertySome(self.object_id, self.name@)]
    }

    open spec fn undone_requests(&self) -> ReceivedLog<S::Object, V> {
        seq![ReceiverRequest::SetPropertyNone(self.object_id, self.name@)]
    }

    fn apply<R: OperationReceiver<S, V>>(&self, rec: &mut R) -> (c: Change) {
        rec.set_property_some(self.object_id, self.name.as_str());
        Change::PropertyId(self.object_id, self.name.clone())
    }

    fn undo<R: OperationReceiver<S, V>>(&self, rec: &mut R) -> (c: Change) {
        rec.set_property_none(self.object_id, self.name.as_str());
        Change::PropertyId(self.object_id, self.name.clone())
    }
}

/// Any of the operations the editor records.
pub enum AnyOperation<S: SceneT, V> {
    Operation(Operation<S, V>),
    OldNew(OldNew<S, V>),
    ToNone(ToNone<S, V>),
    ToSome(ToSome<S, V>),
}

impl<S: SceneT, V> OperationTrait for AnyOperation<S, V> {
    type Scene = S;

    type Value = V;

    open spec fn well_formed(&self) -> bool {
        match self {
            AnyOperation::Operation(o) => o.well_formed(),
            AnyOperation::OldNew(o) => o.well_formed(),
            AnyOperation::ToNone(o) => o.well_formed(),
            AnyOperation::ToSome(o) => o.well_formed(),
        }
    }

    open spec fn applied(&self) -> ChangeView {
        match self {
            AnyOperation::Operation(o) => o.applied(),
            AnyOperation::OldNew(o) => o.applied(),
            AnyOperation::ToNone(o) => o.applied(),
            AnyOperation::ToSome(o) => o.applied(),
        }
    }

    open spec fn undone(&self) -> ChangeView {
        match self {
            AnyOperation::Operation(o) => o.undone(),
            AnyOperation::OldNew(o) => o.undone(),
            AnyOperation::ToNone(o) => o.undone(),
            AnyOperation::ToSome(o) => o.undone(),
        }
    }

    open spec fn applied_requests(&self) -> ReceivedLog<S::Object, V> {
        match self {
            AnyOperation::Operation(o) => o.applied_requests(),
            AnyOperation::OldNew(o) => o.applied_requests(),
            AnyOperation::ToNone(o) => o.applied_requests(),
            AnyOperation::ToSome(o) => o.applied_requests(),
        }
    }

    open spec fn undone_requests(&self) -> ReceivedLog<S::Object, V> {
        match self {
            AnyOperation::Operation(o) => o.undone_requests(),
            AnyOperation::OldNew(o) => o.undone_requests(),
            AnyOperation::ToNone(o) => o.undone_requests(),
            AnyOperation::ToSome(o) => o.undone_requests(),
        }
    }

    fn apply<R: OperationReceiver<S, V>>(&self, rec: &mut R) -> (c: Change) {
        match self {
            AnyOperation::Operation(o) => o.apply(rec),
            AnyOperation::OldNew(o) => o.apply(rec),
            AnyOperation::ToNone(o) => o.apply(rec),
            AnyOperation::ToSome(o) => o.apply(rec),
        }
    }

    fn undo<R: OperationReceiver<S, V>>(&self, rec: &mut R) -> (c: Change) {
        match self {
            AnyOperation::Operation(o) => o.undo(rec),
            AnyOperation::OldNew(o) => o.undo(rec),
            AnyOperation::ToNone(o) => o.undo(rec),
            AnyOperation::ToSome(o) => o.undo(rec),
        }
    }
}

/// Undoing pops the last done operation onto the redo stack; nothing
/// happens when nothing was done.
pub open spec fn undo_stacks<Op>(u: Seq<Op>, r: Seq<Op>) -> (Seq<Op>, Seq<Op>) {
    if u.len() == 0 {
        (u, r)
    } else {
        (u.drop_last(), r.push(u.last()))
    }
}

/// Redoing pops the last undone operation back onto the undo stack; nothing
/// happens when nothing was undone.
pub open spec fn redo_stacks<Op>(u: Seq<Op>, r: Seq<Op>) -> (Seq<Op>, Seq<Op>) {
    if r.len() == 0 {
        (u, r)
    } else {
        (u.push(r.last()), r.drop_last())
    }
}

/// A new operation is pushed onto the undo stack and forgets what was undone.
pub open spec fn add_stacks<Op>(u: Seq<Op>, r: Seq<Op>, op: Op) -> (Seq<Op>, Seq<Op>) {
    (u.push(op), Seq::empty())
}

/// Every operation of both stacks can be applied and undone.
pub open spec fn stacks_well_formed<Op: OperationTrait>(u: Seq<Op>, r: Seq<Op>) -> bool {
    &&& forall|i: int| 0 <= i < u.len() ==> (#[trigger] u[i]).well_formed()
    &&& forall|i: int| 0 <= i < r.len() ==> (#[trigger] r[i]).well_formed()
}

/// The undo and redo history of the editor. Every operation it holds can
/// be applied and undone.
pub struct OperationManager<Op: OperationTrait> {
    undo: Vec<Op>,
    redo: Vec<Op>,
}

impl<Op: OperationTrait> OperationManager<Op> {
    #[verifier::type_invariant]
    spec fn inv(self) -> bool {
        stacks_well_formed(self.undo@, self.redo@)
    }

    /// The done operations, oldest first.
    pub closed spec fn undo_stack(&self) -> Seq<Op> {
        self.undo@
    }

    /// The undone operations, the next one to redo last.
    pub closed spec fn redo_stack(&self) -> Seq<Op> {
        self.redo@
    }

    pub fn new() -> (m: OperationManager<Op>)
        ensures
            m.undo_stack().len() == 0,
            m.redo_stack().len() == 0,
    {
        OperationManager { undo: Vec::new(), redo: Vec::new() }
    }

    /// Takes both stacks out, leaving both empty.
    fn take(&mut self) -> (r: (Vec<Op>, Vec<Op>))
        ensures
            r.0@ == old(self).undo_stack(),
            r.1@ == old(self).redo_stack(),
            stacks_well_formed(r.0@, r.1@),
            final(self).undo_stack().len() == 0,
            final(self).redo_stack().len() == 0,
    {
        proof {
            use_type_invariant(&*self);
        }
        let mut u: Vec<Op> = Vec::new();
        let mut r: Vec<Op> = Vec::new();
        std::mem::swap(&mut u, &mut self.undo);
        std::mem::swap(&mut r, &mut self.redo);
        (u, r)
    }

    /// Applies `op`, records it as the last done operation and forgets the
    /// undone ones; returns what applying it reports.
    pub fn add_with_trait<R: OperationReceiver<Op::Scene, Op::Value>>(&mut self, op: Op, rec: &mut R) -> (c: Change)
        requires
            op.well_formed(),
        ensures
            c@ == op.applied(),
            final(rec).received() == old(rec).received() + op.applied_requests(),
            (final(self).undo_stack(), final(self).redo_stack()) == add_stacks(
                old(self).undo_stack(),
                old(self).redo_stack(),
                op,
            ),
    {
        let change = op.apply(rec);
        self.add_with_trait2(op);
        change
    }

    /// Records `op` as the last done operation, without applying it, and
    /// forgets the undone ones.
    pub fn add_with_trait2(&mut self, op: Op)
        requires
            op.well_formed(),
        ensures
            (final(self).undo_stack(), final(self).redo_stack()) == add_stacks(
                old(self).undo_stack(),
                old(self).redo_stack(),
                op,
            ),
    {
        let (mut u, _r) = self.take();
        u.push(op);
        self.undo = u;
    }

    /// Undoes the last done operation and moves it to the redo stack;
    /// reports `Nothing` when nothing was done.
    pub fn undo<R: OperationReceiver<Op::Scene, Op::Value>>(&mut self, rec: &mut R) -> (c: Change)
        ensures
            c@ == if old(self).undo_stack().len() == 0 {
                ChangeView::Nothing
            } else {
                old(self).undo_stack().last().undone()
            },
            old(self).undo_stack().len() == 0 ==> *final(rec) == *old(rec) && *final(self) == *old(self),
            old(self).undo_stack().len() > 0 ==> final(rec).received() == old(rec).received()
                + old(self).undo_stack().last().undone_requests(),
            (final(self).undo_stack(), final(self).redo_stack()) == undo_stacks(
                old(self).undo_stack(),
                old(self).redo_stack(),
            ),
    {
        if self.undo.len() == 0 {
            return Change::Nothing;
        }
        let (mut u, mut r) = self.take();
        let change = match u.pop() {
            Some(op) => {
                let change = op.undo(rec);
                r.push(op);
                change
            },
            None => Change::Nothing,
        };
        self.undo = u;
        self.redo = r;
        change
    }

    /// Applies again the last undone operation and moves it back to the undo
    /// stack; reports `Nothing` when nothing was undone.
    pub fn redo<R: OperationReceiver<Op::Scene, Op::Value>>(&mut self, rec: &mut R) -> (c: Change)
        ensures
            c@ == if old(self).redo_stack().len() == 0 {
                ChangeView::Nothing
            } else {
                old(self).redo_stack().last().applied()
            },
            old(self).redo_stack().len() == 0 ==> *final(rec) == *old(rec) && *final(self) == *old(self),
            old(self).redo_stack().len() > 0 ==> final(rec).received() == old(rec).received()
                + old(self).redo_stack().last().applied_requests(),
            (final(self).undo_stack(), final(self).redo_stack()) == redo_stacks(
                old(self).undo_stack(),
                old(self).redo_stack(),
            ),
    {
        if self.redo.len() == 0 {
            return Change::Nothing;
        }
        let (mut u, mut r) = self.take();
        let change = match r.pop() {
            Some(op) => {
                let change = op.apply(rec);
                u.push(op);
                change
            },
            None => Change::Nothing,
        };
        self.redo = r;
        self.undo = u;
        change
    }
}

/// Redo after undo gives back both stacks as they were.
pub proof fn lemma_redo_after_undo<Op>(u: Seq<Op>, r: Seq<Op>)
    requires
        u.len() > 0,
    ensures
        ({
            let (u1, r1) = undo_stacks(u, r);
            redo_stacks(u1, r1)
        }) == (u, r),
{
    let (u1, r1) = undo_stacks(u, r);
    assert(u1.push(r1.last()) =~= u);
    assert(r1.drop_last() =~= r);
}

/// Undo after redo gives back both stacks as they were.
pub proof fn lemma_undo_after_redo<Op>(u: Seq<Op>, r: Seq<Op>)
    requires
        r.len() > 0,
    ensures
        ({
            let (u1, r1) = redo_stacks(u, r);
            undo_stacks(u1, r1)
        }) == (u, r),
{
    let (u1, r1) = redo_stacks(u, r);
    assert(u1.drop_last() =~= u);
    assert(r1.push(u1.last()) =~= r);
}

/// The operation that undo sets aside is the one that redo takes back.
pub proof fn lemma_undo_then_redo_same_operation<Op>(u: Seq<Op>, r: Seq<Op>)
    requires
        u.len() > 0,
    ensures
        undo_stacks(u, r).1.last() == u.last(),
        undo_stacks(u, r).1.len() > 0,
{
}

/// After a new operation nothing can be redone, and undo takes that
/// operation back.
pub proof fn lemma_add_then_undo<Op>(u: Seq<Op>, r: Seq<Op>, op: Op)
    ensures
        ({
            let (u1, r1) = add_stacks(u, r, op);
            redo_stacks(u1, r1)
        }) == add_stacks(u, r, op),
        ({
            let (u1, r1) = add_stacks(u, r, op);
            undo_stacks(u1, r1)
        }) == (u, seq![op]),
{
    let (u1, r1) = add_stacks(u, r, op);
    assert(u1.drop_last() =~= u);
    assert(r1.push(u1.last()) =~= seq![op]);
}

/// Undo and redo keep the number of recorded operations.
pub proof fn lemma_undo_redo_keep_count<Op>(u: Seq<Op>, r: Seq<Op>)
    ensures
        undo_stacks(u, r).0.len() + undo_stacks(u, r).1.len() == u.len() + r.len(),
        redo_stacks(u, r).0.len() + redo_stacks(u, r).1.len() == u.len() + r.len(),
{
}

/// Undoing right after an operation was added to the history reports the
/// reverse of what adding it reported, and then the operation can be redone.
pub proof fn lemma_undo_after_add_reports_reverse<S: SceneT, V>(
    u: Seq<AnyOperation<S, V>>,
    r: Seq<AnyOperation<S, V>>,
    op: Operation<S, V>,
)
    ensures
        ({
            let (u1, r1) = add_stacks(u, r, AnyOperation::Operation(op));
            &&& u1.len() > 0
            &&& u1.last().undone() == inverse(AnyOperation::Operation(op).applied())
            &&& undo_stacks(u1, r1).1 == seq![AnyOperation::Operation(op)]
        }),
{
    lemma_operation_undo_reports_inverse(op);
    lemma_add_then_undo(u, r, AnyOperation::Operation(op));
}

/// `u` takes back what `a` asked: added objects are removed and removed
/// ones added, an inserted item is removed and a removed item inserted
/// again at the same place, a property or a camera is set again, and an
/// optional property set to none or to some value is set back.
pub open spec fn undoes<O, V>(u: ReceiverRequest<O, V>, a: ReceiverRequest<O, V>) -> bool {
    match (a, u) {
        (ReceiverRequest::AddObjects(s, p, o), ReceiverRequest::RemoveObjects(s2, p2, o2)) => s == s2
            && p == p2 && o == o2,
        (ReceiverRequest::RemoveObjects(s, p, o), ReceiverRequest::AddObjects(s2, p2, o2)) => s == s2
            && p == p2 && o == o2,
        (ReceiverRequest::AddEmptyItem(id, p, i), ReceiverRequest::DelItem(id2, p2, i2)) => id == id2
            && p == p2 && i == i2,
        (ReceiverRequest::AddItem(id, p, i, _), ReceiverRequest::DelItem(id2, p2, i2)) => id == id2
            && p == p2 && i == i2,
        (ReceiverRequest::DelItem(id, p, i), ReceiverRequest::AddItem(id2, p2, i2, _)) => id == id2
            && p == p2 && i == i2,
        (ReceiverRequest::SetProperty(id, p, _), ReceiverRequest::SetProperty(id2, p2, _)) => id == id2
            && p == p2,
        (ReceiverRequest::SetPropertyNone(id, p), ReceiverRequest::SetProperty(id2, p2, _)) => id
            == id2 && p == p2,
        (ReceiverRequest::SetPropertySome(id, p), ReceiverRequest::SetPropertyNone(id2, p2)) => id
            == id2 && p == p2,
        (ReceiverRequest::SetCamera(s, _), ReceiverRequest::SetCamera(s2, _)) => s == s2,
        _ => false,
    }
}

/// Undoing an operation takes back, one by one, each request that applying
/// it made: the undo makes as many requests as the apply, and the `k`-th
/// undoes the `k`-th. A vector edit writes back the old values, a removed
/// item comes back with its value, and the former camera is set again.
pub proof fn lemma_undo_undoes_apply<S: SceneT, V>(op: AnyOperation<S, V>)
    requires
        op.well_formed(),
    ensures
        op.undone_requests().len() == op.applied_requests().len(),
        forall|k: int|
            0 <= k < op.applied_requests().len() ==> undoes(
                #[trigger] op.undone_requests()[k],
                op.applied_requests()[k],
            ),
        op matches AnyOperation::Operation(o) ==> match o.change {
            OperationData::Vector(old, _) => o.undone_requests() == o.value_requests(old@),
            OperationData::VecDel(i, v) => o.undone_requests() == o.edit_requests(o.path(), i, true, Some(v)),
            OperationData::SetSceneCamera(s, old, _) => o.undone_requests() == seq![
                ReceiverRequest::<S::Object, V>::SetCamera(s, old),
            ],
            _ => true,
        },
        op matches AnyOperation::OldNew(o) ==> o.undone_requests() == seq![
            ReceiverRequest::<S::Object, V>::SetProperty(o.object_id, o.name@, o.old),
        ],
{
}

} // verus!
