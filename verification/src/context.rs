use vstd::prelude::*;

use crate::data::{Id, SceneT, ToId};

verus! {

/// The identifiers of a sequence of objects.
pub open spec fn ids_of<O: ToId>(s: Seq<O>) -> Seq<Id> {
    s.map_values(|o: O| o.id_view())
}

/// `s` without the objects whose identifier occurs in `ids` (order kept).
pub open spec fn without_ids<O: ToId>(s: Seq<O>, ids: Seq<Id>) -> Seq<O>
    decreases s.len(),
{
    if s.len() == 0 {
        Seq::empty()
    } else {
        let rest = without_ids(s.drop_last(), ids);
        if ids.contains(s.last().id_view()) {
            rest
        } else {
            rest.push(s.last())
        }
    }
}

/// Some object of `s` has identifier `id`.
pub open spec fn has_id<O: ToId>(s: Seq<O>, id: Id) -> bool {
    exists|i: int| 0 <= i < s.len() && #[trigger] s[i].id_view() == id
}

/// After removing the identifiers `ids`, no remaining object has one of
/// them, every other object of `s` remains, and nothing is added.
pub proof fn lemma_without_ids<O: ToId>(s: Seq<O>, ids: Seq<Id>)
    ensures
        forall|i: int|
            0 <= i < without_ids(s, ids).len() ==> !ids.contains(
                #[trigger] without_ids(s, ids)[i].id_view(),
            ),
        forall|o: O| #[trigger]
            without_ids(s, ids).contains(o) <==> (s.contains(o) && !ids.contains(o.id_view())),
        without_ids(s, ids).len() <= s.len(),
    decreases s.len(),
{
    if s.len() > 0 {
        let t = s.drop_last();
        lemma_without_ids(t, ids);
        assert forall|o: O| #[trigger] s.contains(o) <==> (t.contains(o) || o == s.last()) by {
            if s.contains(o) {
                let k = choose|k: int| 0 <= k < s.len() && s[k] == o;
                if k < s.len() - 1 {
                    assert(t[k] == o);
                }
            }
            if t.contains(o) {
                let k = choose|k: int| 0 <= k < t.len() && t[k] == o;
                assert(s[k] == o);
            }
            if o == s.last() {
                assert(s[s.len() - 1] == o);
            }
        }
        let rest = without_ids(t, ids);
        if !ids.contains(s.last().id_view()) {
            assert forall|o: O| #[trigger]
                rest.push(s.last()).contains(o) <==> (rest.contains(o) || o == s.last()) by {
                if rest.push(s.last()).contains(o) {
                    let k = choose|k: int| 0 <= k < rest.len() + 1 && rest.push(s.last())[k] == o;
                    if k < rest.len() {
                        assert(rest[k] == o);
                    }
                }
                if rest.contains(o) {
                    let k = choose|k: int| 0 <= k < rest.len() && rest[k] == o;
                    assert(rest.push(s.last())[k] == o);
                }
                if o == s.last() {
                    assert(rest.push(s.last())[rest.len() as int] == o);
                }
            }
        }
    }
}

/// The editing context: the current scene and the selected objects.
pub struct Context<S: SceneT> {
    pub selected: Vec<S::Object>,
    pub scene: Option<Id>,
}

impl<S: SceneT> Context<S> {
    pub fn new() -> (c: Context<S>)
        ensures
            c.selected@.len() == 0,
            c.scene is None,
    {
        Context { selected: Vec::new(), scene: None }
    }

    /// Makes `scene` current; the selection is emptied.
    pub fn set_scene(&mut self, scene: Id)
        ensures
            final(self).scene == Some(scene),
            final(self).selected@.len() == 0,
    {
        self.scene = Some(scene);
        self.selected.clear();
    }

    pub fn get_scene(&self) -> (r: Option<Id>)
        ensures
            r == self.scene,
    {
        self.scene
    }

    /// The identifiers of the selected objects, in selection order.
    pub fn get_vec_selected_ids(&self) -> (v: Vec<Id>)
        ensures
            v@ == ids_of(self.selected@),
    {
        let mut v: Vec<Id> = Vec::with_capacity(self.selected.len());
        let mut i: usize = 0;
        while i < self.selected.len()
            invariant
                0 <= i <= self.selected.len(),
                v@ == ids_of(self.selected@.take(i as int)),
            decreases self.selected.len() - i,
        {
            let id = self.selected[i].to_id();
            proof {
                assert(ids_of(self.selected@.take(i + 1)) =~= ids_of(self.selected@.take(i as int)).push(id));
            }
            v.push(id);
            i = i + 1;
        }
        proof {
            assert(self.selected@.take(i as int) =~= self.selected@);
        }
        v
    }

    /// Unselects every object whose identifier is in `ids`; the others keep
    /// their order.
    pub fn remove_objects_by_id(&mut self, ids: &[Id])
        ensures
            final(self).selected@ == without_ids(old(self).selected@, ids@),
            final(self).scene == old(self).scene,
    {
        let mut new_list: Vec<S::Object> = Vec::new();
        let mut i: usize = 0;
        while i < self.selected.len()
            invariant
                0 <= i <= self.selected.len(),
                new_list@ == without_ids(self.selected@.take(i as int), ids@),
            decreases self.selected.len() - i,
        {
            let o = self.selected[i];
            let oid = o.to_id();
            let mut not_found = true;
            let mut j: usize = 0;
            while j < ids.len()
                invariant
                    0 <= j <= ids.len(),
                    oid == o.id_view(),
                    not_found == !ids@.take(j as int).contains(oid),
                decreases ids.len() - j,
            {
                proof {
                    let t0 = ids@.take(j as int);
                    let t1 = ids@.take(j + 1);
                    assert(t1 =~= t0.push(ids@[j as int]));
                    if t0.contains(oid) {
                        let k = choose|k: int| 0 <= k < t0.len() && t0[k] == oid;
                        assert(t1[k] == oid);
                    }
                    if t1.contains(oid) && ids@[j as int] != oid {
                        let k = choose|k: int| 0 <= k < t1.len() && t1[k] == oid;
                        assert(t0[k] == oid);
                    }
                    if ids@[j as int] == oid {
                        assert(t1[j as int] == oid);
                    }
                }
                if ids[j] == oid {
                    not_found = false;
                }
                j = j + 1;
            }
            proof {
                assert(ids@.take(ids.len() as int) =~= ids@);
                assert(self.selected@.take(i + 1).drop_last() =~= self.selected@.take(i as int));
                assert(self.selected@.take(i + 1).last() == o);
            }
            if not_found {
                new_list.push(o);
            }
            i = i + 1;
        }
        proof {
            assert(self.selected@.take(i as int) =~= self.selected@);
        }
        self.selected = new_list;
    }

    /// Whether some selected object has identifier `id`.
    pub fn has_object_with_id(&self, id: &Id) -> (b: bool)
        ensures
            b == has_id(self.selected@, *id),
    {
        let mut i: usize = 0;
        while i < self.selected.len()
            invariant
                0 <= i <= self.selected.len(),
                forall|k: int| 0 <= k < i ==> self.selected@[k].id_view() != *id,
            decreases self.selected.len() - i,
        {
            if *id == self.selected[i].to_id() {
                return true;
            }
            i = i + 1;
        }
        false
    }

    /// Whether some selected object has the identifier of `ob`.
    pub fn has_object(&self, ob: S::Object) -> (b: bool)
        ensures
            b == has_id(self.selected@, ob.id_view()),
    {
        let id = ob.to_id();
        self.has_object_with_id(&id)
    }

    /// Adds the objects of `obs` to the selection, after the ones already
    /// selected; `obs` is emptied.
    pub fn select_by_ob(&mut self, obs: &mut Vec<S::Object>)
        ensures
            final(self).selected@ == old(self).selected@ + old(obs)@,
            final(obs)@.len() == 0,
            final(self).scene == old(self).scene,
    {
        self.selected.append(obs);
    }
}

} // verus!
