use vstd::prelude::*;

use vstd::hash_map::HashMapWithView;

use crate::data::Id;
use crate::ui::def::WidgetConfig;
use crate::util::new_uuid;

verus! {

/// An item of the toolkit's tree widget (only ever handled by address).
#[allow(non_camel_case_types)]
pub struct Elm_Object_Item;

/// The toolkit's tree widget (only ever handled by address).
pub struct JkTree;

/// Where a new object goes in the tree.
#[derive(Clone, Copy, Debug, PartialEq, Eq, Structural)]
pub enum TreeSlot {
    /// At the top level.
    Root,
    /// Under the item at this address.
    Under(usize),
    /// Nowhere: its parent is not in the tree.
    Missing,
}

/// The items of the objects `ids` that have one, in the order of `ids`.
pub open spec fn items_of(m: Map<Id, usize>, ids: Seq<Id>) -> Seq<usize>
    decreases ids.len(),
{
    if ids.len() == 0 {
        Seq::empty()
    } else {
        items_of(m, ids.drop_last()) + if m.contains_key(ids.last()) {
            seq![m[ids.last()]]
        } else {
            Seq::empty()
        }
    }
}

/// The items forgotten when the objects `ids` are forgotten one after the
/// other: an object's item comes at its first occurrence in `ids`.
pub open spec fn removed_items(m: Map<Id, usize>, ids: Seq<Id>) -> Seq<usize>
    decreases ids.len(),
{
    if ids.len() == 0 {
        Seq::empty()
    } else {
        removed_items(m, ids.drop_last()) + if m.contains_key(ids.last()) && !ids.drop_last().contains(
            ids.last(),
        ) {
            seq![m[ids.last()]]
        } else {
            Seq::empty()
        }
    }
}

/// The scene tree widget: which toolkit item (by address) shows which
/// object.
pub struct Tree {
    pub name: String,
    pub objects: HashMapWithView<Id, usize>,
    pub jk_tree: usize,
    pub id: Id,
    pub config: WidgetConfig,
    pub scene: Option<Id>,
}

impl Tree {
    /// The items of the tree, by object identifier.
    pub open spec fn items(&self) -> Map<Id, usize> {
        self.objects@
    }

    /// The scene the tree shows.
    pub open spec fn scene_view(&self) -> Option<Id> {
        self.scene
    }

    /// An empty tree over the toolkit widget `jk_tree`, with a fresh
    /// identifier; the caller shows it as `config` says.
    pub fn new(jk_tree: usize, config: &WidgetConfig) -> (t: Tree)
        ensures
            t.items() == Map::<Id, usize>::empty(),
            t.scene_view() is None,
            t.jk_tree == jk_tree,
            t.config == *config,
    {
        broadcast use vstd::std_specs::hash::group_hash_axioms;

        let name = "tree_name".to_owned();
        Tree {
            name,
            objects: HashMapWithView::new(),
            jk_tree,
            id: new_uuid(),
            config: config.clone_config(),
            scene: None,
        }
    }

    /// Forgets every item, before the objects of `scene` are added again.
    pub fn set_scene(&mut self, scene: Id)
        ensures
            final(self).items() == Map::<Id, usize>::empty(),
            final(self).scene_view() == Some(scene),
            final(self).id == old(self).id,
            final(self).jk_tree == old(self).jk_tree,
            final(self).config == old(self).config,
    {
        self.objects.clear();
        self.scene = Some(scene);
    }

    /// Where an object whose parent is `parent` goes.
    pub fn slot_for(&self, parent: Option<Id>) -> (s: TreeSlot)
        ensures
            s == match parent {
                None => TreeSlot::Root,
                Some(p) => if self.items().contains_key(p) {
                    TreeSlot::Under(self.items()[p])
                } else {
                    TreeSlot::Missing
                },
            },
    {
        match parent {
            None => TreeSlot::Root,
            Some(p) => match self.objects.get(&p) {
                Some(item) => TreeSlot::Under(*item),
                None => TreeSlot::Missing,
            },
        }
    }

    /// Whether the object `id` still has to be added (it has no item yet).
    pub fn should_add(&self, id: Id) -> (b: bool)
        ensures
            b == !self.items().contains_key(id),
    {
        !self.objects.contains_key(&id)
    }

    /// Records the item created for object `id`; a null item (address 0)
    /// is not recorded.
    pub fn record_item(&mut self, id: Id, item: usize)
        ensures
            final(self).items() == if item != 0 {
                old(self).items().insert(id, item)
            } else {
                old(self).items()
            },
            final(self).scene_view() == old(self).scene_view(),
            final(self).id == old(self).id,
            final(self).jk_tree == old(self).jk_tree,
            final(self).config == old(self).config,
    {
        if item != 0 {
            self.objects.insert(id, item);
        }
    }

    /// Forgets the items of the objects `ids`; returns the forgotten items,
    /// in the order of `ids`, for the caller to remove from the widget.
    pub fn remove_objects_by_id(&mut self, ids: Vec<Id>) -> (removed: Vec<usize>)
        ensures
            forall|k: Id|
                #[trigger] final(self).items().contains_key(k) == (old(self).items().contains_key(k)
                    && !ids@.contains(k)),
            forall|k: Id|
                #[trigger] final(self).items().contains_key(k) ==> final(self).items()[k] == old(self).items()[k],
            final(self).scene_view() == old(self).scene_view(),
            final(self).id == old(self).id,
            final(self).jk_tree == old(self).jk_tree,
            final(self).config == old(self).config,
            removed@ == removed_items(old(self).items(), ids@),
    {
        let mut removed: Vec<usize> = Vec::new();
        let mut i: usize = 0;
        let ghost m0 = self.objects@;
        while i < ids.len()
            invariant
                0 <= i <= ids.len(),
                m0 == old(self).objects@,
                self.scene == old(self).scene,
                self.id == old(self).id,
                self.jk_tree == old(self).jk_tree,
                self.config == old(self).config,
                forall|k: Id|
                    #[trigger] self.objects@.contains_key(k) == (m0.contains_key(k)
                        && !ids@.take(i as int).contains(k)),
                forall|k: Id| #[trigger] self.objects@.contains_key(k) ==> self.objects@[k] == m0[k],
                removed@ == removed_items(m0, ids@.take(i as int)),
            decreases ids.len() - i,
        {
            let id = ids[i];
            let ghost t0 = ids@.take(i as int);
            let ghost t1 = ids@.take(i + 1);
            proof {
                assert(t1 =~= t0.push(id));
                assert forall|k: Id| #[trigger] t1.contains(k) == (t0.contains(k) || k == id) by {
                    if t1.contains(k) {
                        let j = choose|j: int| 0 <= j < t1.len() && t1[j] == k;
                        if j < t0.len() {
                            assert(t0[j] == k);
                        }
                    }
                    if t0.contains(k) {
                        let j = choose|j: int| 0 <= j < t0.len() && t0[j] == k;
                        assert(t1[j] == k);
                    }
                    if k == id {
                        assert(t1[i as int] == k);
                    }
                }
            }
            proof {
                assert(t1.drop_last() =~= t0);
                assert(t1.last() == id);
            }
            let r = self.objects.remove(&id);
            if let Some(item) = r {
                proof {
                    assert(m0.contains_key(id) && m0[id] == item);
                }
                removed.push(item);
            }
            proof {
                assert(removed@ =~= removed_items(m0, t1));
            }
            i = i + 1;
        }
        proof {
            assert(ids@.take(i as int) =~= ids@);
        }
        removed
    }

    /// The items to select (in the order of `ids`) once every item is
    /// unselected; objects without an item are skipped.
    pub fn select_objects(&self, ids: Vec<Id>) -> (items: Vec<usize>)
        ensures
            items@ == items_of(self.items(), ids@),
    {
        let mut items: Vec<usize> = Vec::new();
        let mut i: usize = 0;
        while i < ids.len()
            invariant
                0 <= i <= ids.len(),
                items@ == items_of(self.items(), ids@.take(i as int)),
            decreases ids.len() - i,
        {
            proof {
                assert(ids@.take(i + 1).drop_last() =~= ids@.take(i as int));
                assert(ids@.take(i + 1).last() == ids@[i as int]);
            }
            if let Some(item) = self.objects.get(&ids[i]) {
                items.push(*item);
            }
            proof {
                assert(items@ =~= items_of(self.items(), ids@.take(i + 1)));
            }
            i = i + 1;
        }
        proof {
            assert(ids@.take(i as int) =~= ids@);
        }
        items
    }

    /// The item to select once every item is unselected, if `id` has one.
    pub fn select(&self, id: &Id) -> (item: Option<usize>)
        ensures
            item == if self.items().contains_key(*id) {
                Some(self.items()[*id])
            } else {
                None::<usize>
            },
    {
        match self.objects.get(id) {
            Some(item) => Some(*item),
            None => None,
        }
    }

    /// The item to redraw after object `id` changed, if it has one.
    pub fn update_object(&self, id: &Id) -> (item: Option<usize>)
        ensures
            item == if self.items().contains_key(*id) {
                Some(self.items()[*id])
            } else {
                None::<usize>
            },
    {
        self.select(id)
    }

    /// Records whether the tree is shown; the caller shows or hides the
    /// widget.
    pub fn set_visible(&mut self, b: bool)
        ensures
            final(self).config.visible == b,
            final(self).config.x == old(self).config.x,
            final(self).config.y == old(self).config.y,
            final(self).config.w == old(self).config.w,
            final(self).config.h == old(self).config.h,
            final(self).items() == old(self).items(),
            final(self).id == old(self).id,
    {
        self.config.visible = b;
    }

    pub fn visible(&self) -> (b: bool)
        ensures
            b == self.config.visible,
    {
        self.config.visible
    }

    pub fn get_config(&self) -> (c: WidgetConfig)
        ensures
            c == self.config,
    {
        self.config.clone_config()
    }

    pub fn get_id(&self) -> (id: Id)
        ensures
            id == self.id,
    {
        self.id
    }
}

} // verus!
