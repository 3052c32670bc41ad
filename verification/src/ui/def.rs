use vstd::prelude::*;

use std::rc::Rc;

use vstd::hash_map::HashMapWithView;

use crate::context::ids_of;
use crate::data::{index_with_id, scene_name_of, Data, Id, SceneT, ToId};
use crate::operation::{copy_parents, AnyOperation, Change, ChangeView, OperationData, OperationTrait};
use crate::state::{dragger_property, pushed, records, top_applied, State};
use crate::dragger::manager::Kind;
use crate::util::{seq_join, strings_view};
use crate::ui::action::Action;
use crate::ui::command::Command;
use crate::ui::tree::Tree;

verus! {

/// A window of the native toolkit (only ever handled by address).
#[allow(non_camel_case_types)]
pub struct Window;

/// An object of the native toolkit (only ever handled by address).
#[allow(non_camel_case_types)]
pub struct Evas_Object;

/// An animator of the native toolkit (only ever handled by address).
#[allow(non_camel_case_types)]
pub struct Ecore_Animator;

/// Where a widget stands on screen and whether it is shown.
pub struct WidgetConfig {
    pub visible: bool,
    pub x: i32,
    pub y: i32,
    pub w: i32,
    pub h: i32,
}

impl WidgetConfig {
    /// The configuration of a visible widget with the geometry `(x, y, w, h)`
    /// of a toolkit object.
    pub fn new_from_obj(geometry: (i32, i32, i32, i32)) -> (c: WidgetConfig)
        ensures
            c.x == geometry.0,
            c.y == geometry.1,
            c.w == geometry.2,
            c.h == geometry.3,
            c.visible,
    {
        let (x, y, w, h) = geometry;
        WidgetConfig { x, y, w, h, visible: true }
    }

    /// A visible 300 x 400 widget at (10, 10).
    pub fn new() -> (c: WidgetConfig)
        ensures
            c == (WidgetConfig { visible: true, x: 10, y: 10, w: 300, h: 400 }),
    {
        WidgetConfig::with_width_height(300, 400)
    }

    /// A visible widget of the given size at (10, 10).
    pub fn with_width_height(w: i32, h: i32) -> (c: WidgetConfig)
        ensures
            c == (WidgetConfig { visible: true, x: 10, y: 10, w, h }),
    {
        WidgetConfig { x: 10, y: 10, w, h, visible: true }
    }

    pub fn clone_config(&self) -> (c: WidgetConfig)
        ensures
            c == *self,
    {
        WidgetConfig { visible: self.visible, x: self.x, y: self.y, w: self.w, h: self.h }
    }
}

impl Default for WidgetConfig {
    fn default() -> (c: WidgetConfig)
        ensures
            c == (WidgetConfig { visible: true, x: 10, y: 10, w: 300, h: 400 }),
    {
        WidgetConfig::new()
    }
}

/// Where a panel stands on screen and whether it is shown.
pub struct WidgetPanelConfig {
    pub visible: bool,
    pub x: i32,
    pub y: i32,
    pub w: i32,
    pub h: i32,
}

impl WidgetPanelConfig {
    pub fn clone_config(&self) -> (c: WidgetPanelConfig)
        ensures
            c == *self,
    {
        WidgetPanelConfig { visible: self.visible, x: self.x, y: self.y, w: self.w, h: self.h }
    }
}

impl Default for WidgetPanelConfig {
    /// A visible 100 x 400 panel at (0, 0).
    fn default() -> (c: WidgetPanelConfig)
        ensures
            c == (WidgetPanelConfig { visible: true, x: 0, y: 0, w: 100, h: 400 }),
    {
        WidgetPanelConfig { visible: true, x: 0i32, y: 0i32, w: 100i32, h: 400i32 }
    }
}

/// Records the geometry a panel was moved or resized to.
pub fn panel_move(config: &mut WidgetPanelConfig, x: i32, y: i32, w: i32, h: i32)
    ensures
        *final(config) == (WidgetPanelConfig { visible: old(config).visible, x, y, w, h }),
{
    config.x = x;
    config.y = y;
    config.w = w;
    config.h = h;
}

/// A panel holding a widget; `eo` is the address of the panel's toolkit
/// object (0 before the panel is created).
pub struct WidgetPanel<T> {
    pub config: WidgetPanelConfig,
    pub widget: Option<Rc<T>>,
    pub eo: usize,
}

impl<T> WidgetPanel<T> {
    pub fn new(config: WidgetPanelConfig, widget: Option<Rc<T>>) -> (p: WidgetPanel<T>)
        ensures
            p.config == config,
            p.widget == widget,
            p.eo == 0,
    {
        WidgetPanel { config, widget, eo: 0 }
    }

    /// Records the toolkit object created for the panel; the panel is then
    /// shown or hidden as its configuration says.
    pub fn create(&mut self, eo: usize) -> (show: bool)
        ensures
            final(self).eo == eo,
            final(self).config == old(self).config,
            final(self).widget == old(self).widget,
            show == old(self).config.visible,
    {
        self.eo = eo;
        self.config.visible
    }

    pub fn visible(&self) -> (b: bool)
        ensures
            b == self.config.visible,
    {
        self.config.visible
    }

    /// Records whether the panel is shown; the caller shows or hides the
    /// toolkit object `eo` accordingly.
    pub fn set_visible(&mut self, b: bool)
        ensures
            final(self).config.visible == b,
            final(self).config.x == old(self).config.x,
            final(self).config.y == old(self).config.y,
            final(self).config.w == old(self).config.w,
            final(self).config.h == old(self).config.h,
            final(self).eo == old(self).eo,
            final(self).widget == old(self).widget,
    {
        self.config.visible = b;
    }
}

/// What is kept of one edit view between sessions: its window, its scene
/// and its camera `C`.
pub struct ViewConfig<C> {
    pub window: WidgetConfig,
    pub scene: Option<String>,
    pub camera: C,
}

/// What is kept of the editor's windows between sessions.
pub struct WindowConfig<C> {
    pub views: Vec<ViewConfig<C>>,
    pub property: WidgetPanelConfig,
    pub tree: Option<WidgetConfig>,
    pub gameview: Option<WidgetConfig>,
}

impl<C> WindowConfig<C> {
    /// No view, the default property panel, no tree, no game view.
    pub fn default() -> (wc: WindowConfig<C>)
        ensures
            wc.views@.len() == 0,
            wc.property == (WidgetPanelConfig { visible: true, x: 0, y: 0, w: 100, h: 400 }),
            wc.tree is None,
            wc.gameview is None,
    {
        WindowConfig {
            views: Vec::new(),
            property: WidgetPanelConfig::default(),
            tree: None,
            gameview: None,
        }
    }

    /// Completes a loaded configuration: when it names no view, `view` is
    /// added as the only one.
    pub fn ensure_view(&mut self, view: ViewConfig<C>)
        ensures
            old(self).views@.len() == 0 ==> final(self).views@ == seq![view],
            old(self).views@.len() > 0 ==> final(self).views@ == old(self).views@,
            final(self).property == old(self).property,
            final(self).tree == old(self).tree,
            final(self).gameview == old(self).gameview,
    {
        if self.views.len() == 0 {
            self.views.push(view);
            proof {
                assert(self.views@ =~= seq![view]);
            }
        }
    }
}


impl<C> WindowConfig<C> {
    /// The configuration of the editor's windows as they stand: the panels
    /// of `c`, the game view window `gameview`, and one view configuration
    /// per edit view (its window and camera, in `views`), each naming the
    /// current scene's file.
    pub fn new<S: SceneT, V>(
        c: &WidgetContainer<S, V>,
        views: Vec<(WidgetConfig, C)>,
        gameview: Option<WidgetConfig>,
    ) -> (wc: WindowConfig<C>)
        requires
            c.state.context.scene matches Some(sc) ==> index_with_id(c.data.entries(), sc) is Some,
        ensures
            wc.property == c.property.config,
            wc.tree == match c.tree {
                Some(t) => Some(t.config),
                None => None::<WidgetConfig>,
            },
            wc.gameview == gameview,
            wc.views@.len() == views@.len(),
            forall|i: int|
                0 <= i < views@.len() ==> {
                    &&& (#[trigger] wc.views@[i]).window == views@[i].0
                    &&& wc.views@[i].camera == views@[i].1
                    &&& (wc.views@[i].scene is Some <==> c.state.context.scene is Some)
                    &&& (c.state.context.scene matches Some(sc) ==> wc.views@[i].scene matches Some(n)
                        && n@ == scene_name_of(c.data.entries(), sc))
                },
            forall|i: int, j: int|
                0 <= i < views@.len() && 0 <= j < views@.len() ==> #[trigger] wc.views@[i].scene@
                    == #[trigger] wc.views@[j].scene@,
    {
        let scene_name: Option<String> = match c.state.context.scene {
            Some(sc) => Some(c.data.get_scene(sc).unwrap().get_name()),
            None => None,
        };
        let tree = match &c.tree {
            Some(t) => Some(t.get_config()),
            None => None,
        };
        let mut out: Vec<ViewConfig<C>> = Vec::new();
        let mut rest = views;
        let ghost all = rest@;
        let n = rest.len();
        let mut i: usize = 0;
        while rest.len() > 0
            invariant
                out@.len() == i,
                all.len() == n,
                i + rest@.len() == all.len(),
                rest@ == all.skip(i as int),
                scene_name is Some <==> c.state.context.scene is Some,
                c.state.context.scene matches Some(sc) ==> scene_name matches Some(n) && n@
                    == scene_name_of(c.data.entries(), sc),
                forall|k: int|
                    0 <= k < i ==> {
                        &&& (#[trigger] out@[k]).window == all[k].0
                        &&& out@[k].camera == all[k].1
                        &&& out@[k].scene@ == scene_name@
                    },
            decreases rest@.len(),
        {
            let (window, camera) = rest.remove(0);
            let scene = match &scene_name {
                Some(n) => Some(n.clone()),
                None => None,
            };
            proof {
                assert(all.skip(i + 1) =~= all.skip(i as int).drop_first());
            }
            out.push(ViewConfig { window, scene, camera });
            i = i + 1;
        }
        WindowConfig { views: out, property: c.property.config.clone_config(), tree, gameview }
    }
}

/// The property widget, as the container knows it.
pub struct PropertyHandle {
    pub id: Id,
}

/// What the container asks of its widgets after a change or an event.
pub enum UiAction {
    /// Redraw the tree item of this object.
    TreeUpdateObject(Id),
    /// Remove the tree items of these objects.
    TreeRemoveObjects(Vec<Id>),
    /// Add tree items for these objects, under these parents.
    TreeAddObjects(Vec<Option<Id>>, Vec<Id>),
    /// Select the tree items of these objects, and only them.
    TreeSelectObjects(Vec<Id>),
    /// Show again the named property of this object in the property widget.
    PropertyUpdateObjectProperty(Id, String),
    /// Show again every property of this object in the property widget.
    PropertyUpdateObject(Id),
    /// An item was inserted at this index of the named vector property.
    PropertyVecAdd(Id, String, usize),
    /// The item at this index of the named vector property was removed.
    PropertyVecDel(Id, String, usize),
    /// Show the properties of this scene in the property widget.
    PropertySetScene(Id),
    /// Show nothing in the property widget.
    PropertySetNothing,
    /// Show the properties of this object in the property widget.
    PropertySetObject(Id),
    /// Tell the widget showing this object that its named property changed.
    PropertyChanged(Id, Id, String),
    /// Show the name of the current scene in the menu.
    MenuSceneName,
    /// Redraw every view.
    UpdateAllViews,
    /// Redraw this view.
    UpdateView(Id),
}

/// The mathematical value of a `UiAction`.
pub ghost enum UiActionView {
    TreeUpdateObject(Id),
    TreeRemoveObjects(Seq<Id>),
    TreeAddObjects(Seq<Option<Id>>, Seq<Id>),
    TreeSelectObjects(Seq<Id>),
    PropertyUpdateObjectProperty(Id, Seq<char>),
    PropertyUpdateObject(Id),
    PropertyVecAdd(Id, Seq<char>, usize),
    PropertyVecDel(Id, Seq<char>, usize),
    PropertySetScene(Id),
    PropertySetNothing,
    PropertySetObject(Id),
    PropertyChanged(Id, Id, Seq<char>),
    MenuSceneName,
    UpdateAllViews,
    UpdateView(Id),
}

impl View for UiAction {
    type V = UiActionView;

    open spec fn view(&self) -> UiActionView {
        match self {
            UiAction::TreeUpdateObject(i) => UiActionView::TreeUpdateObject(*i),
            UiAction::TreeRemoveObjects(v) => UiActionView::TreeRemoveObjects(v@),
            UiAction::TreeAddObjects(p, v) => UiActionView::TreeAddObjects(p@, v@),
            UiAction::TreeSelectObjects(v) => UiActionView::TreeSelectObjects(v@),
            UiAction::PropertyUpdateObjectProperty(i, n) => UiActionView::PropertyUpdateObjectProperty(*i, n@),
            UiAction::PropertyUpdateObject(i) => UiActionView::PropertyUpdateObject(*i),
            UiAction::PropertyVecAdd(i, n, k) => UiActionView::PropertyVecAdd(*i, n@, *k),
            UiAction::PropertyVecDel(i, n, k) => UiActionView::PropertyVecDel(*i, n@, *k),
            UiAction::PropertySetScene(i) => UiActionView::PropertySetScene(*i),
            UiAction::PropertySetNothing => UiActionView::PropertySetNothing,
            UiAction::PropertySetObject(i) => UiActionView::PropertySetObject(*i),
            UiAction::PropertyChanged(w, i, n) => UiActionView::PropertyChanged(*w, *i, n@),
            UiAction::MenuSceneName => UiActionView::MenuSceneName,
            UiAction::UpdateAllViews => UiActionView::UpdateAllViews,
            UiAction::UpdateView(i) => UiActionView::UpdateView(*i),
        }
    }
}

/// The views of a sequence of actions.
pub open spec fn actions_view(v: Seq<UiAction>) -> Seq<UiActionView> {
    v.map_values(|a: UiAction| a@)
}

/// One copy of `a` for each occurrence of the selected object in `ids`.
pub open spec fn for_selected(ids: Seq<Id>, sel: Option<Id>, a: UiActionView) -> Seq<UiActionView>
    decreases ids.len(),
{
    if ids.len() == 0 {
        Seq::empty()
    } else {
        let r = for_selected(ids.drop_last(), sel, a);
        if sel == Some(ids.last()) {
            r.push(a)
        } else {
            r
        }
    }
}

/// A widget with identifier `w` exists and is not the origin of the change.
pub open spec fn other_widget(w: Option<Id>, origin: Id) -> bool {
    w matches Some(i) && i != origin
}

/// What the widgets are asked when the selection (the objects `sel`)
/// changed: the tree selects the same objects (unless the change came from
/// it); the property widget shows the scene when nothing is selected,
/// nothing when several objects are, and the object when one is (unless the
/// change came from it).
pub open spec fn selection_actions(
    sel: Seq<Id>,
    scene: Option<Id>,
    tree_id: Option<Id>,
    property_id: Option<Id>,
    origin: Id,
) -> Seq<UiActionView> {
    let t = if other_widget(tree_id, origin) {
        seq![UiActionView::TreeSelectObjects(sel)]
    } else {
        Seq::empty()
    };
    let p = if sel.len() == 0 {
        if property_id is Some && scene is Some {
            seq![UiActionView::PropertySetScene(scene.unwrap())]
        } else {
            Seq::empty()
        }
    } else if sel.len() != 1 {
        if other_widget(property_id, origin) {
            seq![UiActionView::PropertySetNothing]
        } else {
            Seq::empty()
        }
    } else {
        if other_widget(property_id, origin) {
            seq![UiActionView::PropertySetObject(sel[0])]
        } else {
            Seq::empty()
        }
    };
    t + p
}

/// The objects a change removed from the scene.
pub open spec fn removed_ids(c: ChangeView) -> Seq<Id> {
    match c {
        ChangeView::SceneRemove(_, _, obs) => obs,
        _ => Seq::<Id>::empty(),
    }
}

/// The word that names the name property.
pub open spec fn name_property() -> Seq<char> {
    seq!['n', 'a', 'm', 'e']
}

/// What the widgets are asked when property `name` of object `id` changed:
/// the widget showing the object is told, and the tree redraws the object
/// when its name changed.
pub open spec fn property_changed_actions(
    visible_prop: Map<Id, Id>,
    tree_id: Option<Id>,
    id: Id,
    name: Seq<char>,
) -> Seq<UiActionView> {
    (if visible_prop.contains_key(id) {
        seq![UiActionView::PropertyChanged(visible_prop[id], id, name)]
    } else {
        Seq::empty()
    }) + (if name == name_property() && tree_id is Some {
        seq![UiActionView::TreeUpdateObject(id)]
    } else {
        Seq::empty()
    })
}

/// What the widgets are asked after `change`, which came from the widget
/// `origin`; `sel` is the first selected object, `selection` the actions
/// for the selection after the change (see `selection_actions`).
pub open spec fn change_actions(
    change: ChangeView,
    origin: Id,
    tree_id: Option<Id>,
    property_id: Option<Id>,
    sel: Option<Id>,
    scene: Option<Id>,
    visible_prop: Map<Id, Id>,
    selection: Seq<UiActionView>,
) -> Seq<UiActionView> {
    let update = seq![UiActionView::UpdateAllViews];
    match change {
        ChangeView::Nothing => Seq::empty(),
        ChangeView::DirectChange(name) => match sel {
            None => Seq::empty(),
            Some(o) => (if name == name_property() && other_widget(tree_id, origin) {
                seq![UiActionView::TreeUpdateObject(o)]
            } else {
                Seq::empty()
            }) + (if other_widget(property_id, origin) {
                seq![UiActionView::PropertyUpdateObjectProperty(o, name)]
            } else {
                Seq::empty()
            }) + update,
        },
        ChangeView::Objects(name, ids) => (if other_widget(property_id, origin) && sel is Some {
            for_selected(ids, sel, UiActionView::PropertyUpdateObjectProperty(sel.unwrap(), name))
        } else {
            Seq::empty()
        }) + update,
        ChangeView::VecAdd(ids, name, i) => (if property_id is Some && sel is Some {
            for_selected(ids, sel, UiActionView::PropertyVecAdd(sel.unwrap(), name, i))
        } else {
            Seq::empty()
        }) + update,
        ChangeView::VecDel(ids, name, i) => (if other_widget(property_id, origin) && sel is Some {
            for_selected(ids, sel, UiActionView::PropertyVecDel(sel.unwrap(), name, i))
        } else {
            Seq::empty()
        }) + update,
        ChangeView::ComponentChanged(id, _) => (if sel == Some(id) && other_widget(
            property_id,
            origin,
        ) {
            seq![UiActionView::PropertyUpdateObject(id)]
        } else {
            Seq::empty()
        }) + update,
        ChangeView::SceneRemove(_, _, obs) => (if other_widget(tree_id, origin) {
            seq![UiActionView::TreeRemoveObjects(obs)]
        } else {
            Seq::empty()
        }) + selection + update,
        ChangeView::SceneAdd(_, parents, obs) => if scene is None {
            Seq::empty()
        } else {
            (if other_widget(tree_id, origin) {
                seq![UiActionView::TreeAddObjects(parents, obs)]
            } else {
                Seq::empty()
            }) + update
        },
        ChangeView::PropertyId(id, name) => property_changed_actions(visible_prop, tree_id, id, name)
            + update,
        ChangeView::Scene(_) => update,
    }
}

fn copy_ids(v: &Vec<Id>) -> (r: Vec<Id>)
    ensures
        r@ == v@,
{
    let mut r: Vec<Id> = Vec::new();
    let mut i: usize = 0;
    while i < v.len()
        invariant
            0 <= i <= v.len(),
            r@ == v@.take(i as int),
        decreases v.len() - i,
    {
        proof {
            assert(v@.take(i + 1) =~= v@.take(i as int).push(v@[i as int]));
        }
        r.push(v[i]);
        i = i + 1;
    }
    proof {
        assert(v@.take(i as int) =~= v@);
    }
    r
}

fn is_name_property(name: &String) -> (b: bool)
    ensures
        b == (name@ == name_property()),
{
    proof {
        reveal_strlit("name");
        assert("name"@ =~= name_property());
    }
    *name == "name".to_owned()
}

/// The events the container handles itself (those carrying positions or
/// rotations are handled by the caller).
pub enum Event<O> {
    KeyPressed(String),
    ViewKeyPressed(String),
    ShowTree(String),
    SelectedChange,
    SelectObject(O),
    UnselectObject(O),
    ChangeSelected(Vec<O>),
    RectVisibleSet(bool),
    CameraChange,
    DraggerClicked,
    DraggerChange,
    Undo,
    Redo,
    Empty,
}

/// The kinds of per-object property actions.
enum PerObject {
    UpdateProperty,
    VecAdd(usize),
    VecDel(usize),
}

spec fn per_object_view(k: PerObject, id: Id, name: Seq<char>) -> UiActionView {
    match k {
        PerObject::UpdateProperty => UiActionView::PropertyUpdateObjectProperty(id, name),
        PerObject::VecAdd(i) => UiActionView::PropertyVecAdd(id, name, i),
        PerObject::VecDel(i) => UiActionView::PropertyVecDel(id, name, i),
    }
}

fn push_for_selected(
    out: &mut Vec<UiAction>,
    ids: &Vec<Id>,
    sel: Option<Id>,
    enabled: bool,
    kind: &PerObject,
    name: &String,
)
    ensures
        actions_view(final(out)@) == actions_view(old(out)@) + if enabled && sel is Some {
            for_selected(ids@, sel, per_object_view(*kind, sel.unwrap(), name@))
        } else {
            Seq::empty()
        },
{
    let ghost out0 = actions_view(out@);
    if !enabled {
        proof {
            assert(actions_view(out@) =~= out0 + Seq::<UiActionView>::empty());
        }
        return;
    }
    let sid = match sel {
        Some(s) => s,
        None => {
            proof {
                assert(actions_view(out@) =~= out0 + Seq::<UiActionView>::empty());
            }
            return;
        },
    };
    let ghost a = per_object_view(*kind, sid, name@);
    let mut i: usize = 0;
    proof {
        assert(ids@.take(0) =~= Seq::<Id>::empty());
        assert(actions_view(out@) =~= out0 + for_selected(ids@.take(0), sel, a));
    }
    while i < ids.len()
        invariant
            0 <= i <= ids.len(),
            sel == Some(sid),
            a == per_object_view(*kind, sid, name@),
            actions_view(out@) == out0 + for_selected(ids@.take(i as int), sel, a),
        decreases ids.len() - i,
    {
        let id = ids[i];
        proof {
            assert(ids@.take(i + 1).drop_last() =~= ids@.take(i as int));
            assert(ids@.take(i + 1).last() == id);
        }
        if id == sid {
            let act = match kind {
                PerObject::UpdateProperty => UiAction::PropertyUpdateObjectProperty(id, name.clone()),
                PerObject::VecAdd(k) => UiAction::PropertyVecAdd(id, name.clone(), *k),
                PerObject::VecDel(k) => UiAction::PropertyVecDel(id, name.clone(), *k),
            };
            proof {
                assert(act@ == a);
            }
            let ghost before = out@;
            out.push(act);
            proof {
                assert(for_selected(ids@.take(i + 1), sel, a) == for_selected(ids@.take(i as int), sel, a).push(a));
                assert(actions_view(out@) =~= actions_view(before).push(a));
                assert(actions_view(out@) =~= out0 + for_selected(ids@.take(i + 1), sel, a));
            }
        } else {
            proof {
                assert(actions_view(out@) =~= out0 + for_selected(ids@.take(i + 1), sel, a));
            }
        }
        i = i + 1;
    }
    proof {
        assert(ids@.take(i as int) =~= ids@);
    }
}

/// `op` adds the single object `o` at the root of scene `sid`, and was made
/// while `selected` were selected.
pub open spec fn adds_one_object<S: SceneT, V>(
    op: AnyOperation<S, V>,
    selected: Seq<S::Object>,
    sid: Id,
    o: S::Object,
) -> bool {
    match op {
        AnyOperation::Operation(op) => {
            &&& op.objects@ == selected
            &&& op.name@.len() == 0
            &&& match op.change {
                OperationData::SceneAddObjects(s2, p, obs) => s2 == sid && p@ == seq![None::<Id>]
                    && obs@ == seq![o],
                _ => false,
            }
        },
        _ => false,
    }
}

/// What a key pressed in an edit view asks of the window.
#[derive(Clone, Copy, Debug, PartialEq, Eq, Structural)]
pub enum WindowKey {
    /// Fill the command list with the scene commands and show it.
    ShowCommands,
    /// Show (`true`) or hide the tree.
    ShowTree(bool),
    /// Show (`true`) or hide the property panel.
    ShowProperty(bool),
    /// Show (`true`) or hide the action bar.
    ShowAction(bool),
    /// Nothing: the widget the key is for does not exist.
    Nothing,
    /// The key is for the view itself (see `Control::key_down`).
    ToView,
}

/// What a key asks of the window, given whether there is a command list
/// and whether the tree, the property panel and the action bar are shown.
pub open spec fn window_key_spec(
    key: Seq<char>,
    has_command: bool,
    tree_visible: Option<bool>,
    property_visible: bool,
    action_visible: Option<bool>,
) -> WindowKey {
    if key == seq!['R', 'e', 't', 'u', 'r', 'n'] {
        if has_command {
            WindowKey::ShowCommands
        } else {
            WindowKey::Nothing
        }
    } else if key == seq!['t'] {
        match tree_visible {
            Some(b) => WindowKey::ShowTree(!b),
            None => WindowKey::Nothing,
        }
    } else if key == seq!['p'] {
        WindowKey::ShowProperty(!property_visible)
    } else if key == seq!['a'] {
        match action_visible {
            Some(b) => WindowKey::ShowAction(!b),
            None => WindowKey::Nothing,
        }
    } else {
        WindowKey::ToView
    }
}

/// What becomes of a value set in the property widget.
pub enum SetOutcome<V> {
    /// The change was recorded (or there was nothing to record); the
    /// widgets are asked these.
    Done(Vec<UiAction>),
    /// The value is to be written directly into the shown object, and the
    /// change then reported with `handle_change` as coming from the
    /// property widget. The value is handed back for that.
    WriteDirectly(V),
}

/// Everything the editor window holds: its widgets (as far as the decisions
/// need them), the scenes and the editing state.
pub struct WidgetContainer<S: SceneT, V> {
    pub tree: Option<Tree>,
    pub property: WidgetPanel<PropertyHandle>,
    pub command: Option<Command>,
    pub action: Option<Action>,
    pub menu: Option<Action>,
    pub views: Vec<Id>,
    pub gameview: Option<Id>,
    pub name: String,
    pub visible_prop: HashMapWithView<Id, Id>,
    pub anim: Option<usize>,
    pub data: Data<S>,
    pub state: State<S, V>,
}

impl<S: SceneT<Value = V>, V> WidgetContainer<S, V> {
    /// Everything but the selection, the shown-property map and the
    /// history is as in `before`.
    pub open spec fn frame_kept(&self, before: Self) -> bool {
        &&& self.widgets_kept(before)
        &&& self.data == before.data
    }

    /// The widgets, the views, the current scene and the saved transforms
    /// are as in `before`.
    pub open spec fn widgets_kept(&self, before: Self) -> bool {
        &&& self.tree == before.tree
        &&& self.property == before.property
        &&& self.command == before.command
        &&& self.action == before.action
        &&& self.menu == before.menu
        &&& self.views == before.views
        &&& self.gameview == before.gameview
        &&& self.name == before.name
        &&& self.anim == before.anim
        &&& self.state.context.scene == before.state.context.scene
        &&& self.state.saved_positions == before.state.saved_positions
        &&& self.state.saved_scales == before.state.saved_scales
        &&& self.state.saved_oris == before.state.saved_oris
    }

    /// The identifier of the tree widget, if there is one.
    pub open spec fn tree_id(&self) -> Option<Id> {
        match self.tree {
            Some(t) => Some(t.id),
            None => None,
        }
    }

    /// The identifier of the property widget, if there is one.
    pub open spec fn property_id(&self) -> Option<Id> {
        match self.property.widget {
            Some(w) => Some(w.id),
            None => None,
        }
    }

    /// The identifier of the first selected object.
    pub open spec fn selected_id(&self) -> Option<Id> {
        if self.state.context.selected@.len() > 0 {
            Some(self.state.context.selected@[0].id_view())
        } else {
            None
        }
    }

    /// What the widgets are asked after `c`, which came from `origin`.
    pub open spec fn change_spec(&self, c: ChangeView, origin: Id) -> Seq<UiActionView> {
        change_actions(
            c,
            origin,
            self.tree_id(),
            self.property_id(),
            self.selected_id(),
            self.state.context.scene,
            self.visible_prop@,
            selection_actions(
                ids_of(crate::context::without_ids(self.state.context.selected@, removed_ids(c))),
                self.state.context.scene,
                self.tree_id(),
                self.property_id(),
                origin,
            ),
        )
    }

    /// What the widgets are asked when the selection changed.
    pub open spec fn selected_change_spec(&self, origin: Id) -> Seq<UiActionView> {
        selection_actions(
            ids_of(self.state.context.selected@),
            self.state.context.scene,
            self.tree_id(),
            self.property_id(),
            origin,
        )
    }

    pub fn new() -> (c: WidgetContainer<S, V>)
        ensures
            c.tree is None,
            c.property.widget is None,
            c.views@.len() == 0,
            c.gameview is None,
            c.data.entries().len() == 0,
            c.state.context.selected@.len() == 0,
            c.state.context.scene is None,
            c.visible_prop@ == Map::<Id, Id>::empty(),
    {
        broadcast use vstd::std_specs::hash::group_hash_axioms;

        WidgetContainer {
            tree: None,
            property: WidgetPanel::new(WidgetPanelConfig::default(), None),
            command: None,
            action: None,
            menu: None,
            views: Vec::new(),
            gameview: None,
            name: "yoplaboum".to_owned(),
            visible_prop: HashMapWithView::new(),
            anim: None,
            data: Data::new(),
            state: State::new(),
        }
    }

    fn tree_id_exec(&self) -> (r: Option<Id>)
        ensures
            r == self.tree_id(),
    {
        match &self.tree {
            Some(t) => Some(t.id),
            None => None,
        }
    }

    fn property_id_exec(&self) -> (r: Option<Id>)
        ensures
            r == self.property_id(),
    {
        match &self.property.widget {
            Some(w) => Some(w.id),
            None => None,
        }
    }

    fn selected_id_exec(&self) -> (r: Option<Id>)
        ensures
            r == self.selected_id(),
    {
        match self.state.get_selected_object() {
            Some(o) => Some(o.to_id()),
            None => None,
        }
    }

    /// What the widgets are asked when the selection changed; when one
    /// object is selected, the property widget is recorded as the one that
    /// shows it.
    fn selected_change(&mut self, origin: Id) -> (acts: Vec<UiAction>)
        ensures
            actions_view(acts@) == old(self).selected_change_spec(origin),
            final(self).frame_kept(*old(self)),
            final(self).state == old(self).state,
            final(self).data == old(self).data,
            final(self).tree == old(self).tree,
            final(self).property == old(self).property,
    {
        let mut acts: Vec<UiAction> = Vec::new();
        let tid = self.tree_id_exec();
        let pid = self.property_id_exec();
        let ids = self.state.context.get_vec_selected_ids();
        let n = ids.len();
        let ghost sel = ids@;
        let ghost t = if other_widget(self.tree_id(), origin) {
            seq![UiActionView::TreeSelectObjects(sel)]
        } else {
            Seq::empty()
        };
        if let Some(t) = tid {
            if t != origin {
                acts.push(UiAction::TreeSelectObjects(ids));
            }
        }
        proof {
            assert(actions_view(acts@) =~= t);
        }
        if n == 0 {
            if pid.is_some() {
                if let Some(s) = self.state.context.scene {
                    acts.push(UiAction::PropertySetScene(s));
                }
            }
        } else if n != 1 {
            if let Some(p) = pid {
                if p != origin {
                    acts.push(UiAction::PropertySetNothing);
                }
            }
        } else {
            let oid = self.state.context.selected[0].to_id();
            if let Some(p) = pid {
                if p != origin {
                    acts.push(UiAction::PropertySetObject(oid));
                    broadcast use vstd::std_specs::hash::group_hash_axioms;

                    self.visible_prop.insert(oid, p);
                }
            }
        }
        proof {
            assert(actions_view(acts@) =~= old(self).selected_change_spec(origin));
        }
        acts
    }

    /// Tells the widgets about `change`, which came from the widget
    /// `widget_origin`; when objects were removed from the scene they are
    /// also unselected.
    pub fn handle_change(&mut self, change: &Change, widget_origin: Id) -> (acts: Vec<UiAction>)
        ensures
            final(self).state.context.selected@ == crate::context::without_ids(
                old(self).state.context.selected@,
                removed_ids(change@),
            ),
            actions_view(acts@) == old(self).change_spec(change@, widget_origin),
            !(change@ is SceneRemove) ==> *final(self) == *old(self),
            final(self).frame_kept(*old(self)),
            final(self).state.context.scene == old(self).state.context.scene,
            final(self).state.op_mgr == old(self).state.op_mgr,
            final(self).data == old(self).data,
            final(self).tree_id() == old(self).tree_id(),
            final(self).property_id() == old(self).property_id(),
    {
        let tid = self.tree_id_exec();
        let pid = self.property_id_exec();
        let sel = self.selected_id_exec();
        let mut acts: Vec<UiAction> = Vec::new();
        proof {
            assert(crate::context::without_ids(self.state.context.selected@, Seq::<Id>::empty())
                =~= self.state.context.selected@) by {
                lemma_without_no_ids(self.state.context.selected@);
            }
        }
        match change {
            Change::Nothing => {
                return acts;
            },
            Change::DirectChange(name) => {
                let o = match sel {
                    Some(o) => o,
                    None => {
                        return acts;
                    },
                };
                if is_name_property(name) {
                    if let Some(t) = tid {
                        if t != widget_origin {
                            acts.push(UiAction::TreeUpdateObject(o));
                        }
                    }
                }
                if let Some(p) = pid {
                    if p != widget_origin {
                        acts.push(UiAction::PropertyUpdateObjectProperty(o, name.clone()));
                    }
                }
            },
            Change::Objects(name, ids) => {
                let enabled = match pid {
                    Some(p) => p != widget_origin,
                    None => false,
                };
                push_for_selected(&mut acts, ids, sel, enabled, &PerObject::UpdateProperty, name);
            },
            Change::VecAdd(ids, name, index) => {
                push_for_selected(&mut acts, ids, sel, pid.is_some(), &PerObject::VecAdd(*index), name);
            },
            Change::VecDel(ids, name, index) => {
                let enabled = match pid {
                    Some(p) => p != widget_origin,
                    None => false,
                };
                push_for_selected(&mut acts, ids, sel, enabled, &PerObject::VecDel(*index), name);
            },
            Change::ComponentChanged(id, _) => {
                if sel == Some(*id) {
                    if let Some(p) = pid {
                        if p != widget_origin {
                            acts.push(UiAction::PropertyUpdateObject(*id));
                        }
                    }
                }
            },
            Change::SceneRemove(_, _, obs) => {
                self.state.context.remove_objects_by_id(obs.as_slice());
                if let Some(t) = tid {
                    if t != widget_origin {
                        acts.push(UiAction::TreeRemoveObjects(copy_ids(obs)));
                    }
                }
                let mut more = self.selected_change(widget_origin);
                acts.append(&mut more);
            },
            Change::SceneAdd(_, parents, obs) => {
                if self.state.context.scene.is_none() {
                    return acts;
                }
                if let Some(t) = tid {
                    if t != widget_origin {
                        acts.push(UiAction::TreeAddObjects(copy_parents(parents), copy_ids(obs)));
                    }
                }
            },
            Change::PropertyId(id, name) => {
                let mut more = self.handle_change_new_id(widget_origin, *id, name.as_str());
                acts.append(&mut more);
            },
            Change::Scene(_) => {},
        }
        acts.push(UiAction::UpdateAllViews);
        proof {
            assert(actions_view(acts@) =~= change_actions(
                change@,
                widget_origin,
                old(self).tree_id(),
                old(self).property_id(),
                old(self).selected_id(),
                old(self).state.context.scene,
                old(self).visible_prop@,
                selection_actions(
                    ids_of(self.state.context.selected@),
                    old(self).state.context.scene,
                    old(self).tree_id(),
                    old(self).property_id(),
                    widget_origin,
                ),
            ));
        }
        acts
    }

    /// Handles `event`, which came from the widget `widget_origin`: changes
    /// of the selection, undo and redo; a camera change redraws that view.
    pub fn handle_event(&mut self, event: Event<S::Object>, widget_origin: Id) -> (acts: Vec<UiAction>)
        ensures
            final(self).state.context.scene == old(self).state.context.scene,
            final(self).tree_id() == old(self).tree_id(),
            final(self).property_id() == old(self).property_id(),
            !(event is Undo) && !(event is Redo) ==> final(self).state.op_mgr == old(self).state.op_mgr
                && final(self).data == old(self).data,
            final(self).widgets_kept(*old(self)),
            (event is Undo && old(self).state.op_mgr.undo_stack().len() == 0) ==> *final(self)
                == *old(self) && acts@.len() == 0,
            (event is Redo && old(self).state.op_mgr.redo_stack().len() == 0) ==> *final(self)
                == *old(self) && acts@.len() == 0,
            match event {
                Event::SelectObject(ob) => final(self).state.context.selected@
                    == old(self).state.context.selected@.push(ob) && actions_view(acts@)
                    == final(self).selected_change_spec(widget_origin),
                Event::UnselectObject(ob) => final(self).state.context.selected@
                    == crate::context::without_ids(old(self).state.context.selected@, seq![ob.id_view()])
                    && actions_view(acts@) == final(self).selected_change_spec(widget_origin),
                Event::ChangeSelected(list) => final(self).state.context.selected@ == list@
                    && actions_view(acts@) == final(self).selected_change_spec(widget_origin),
                Event::SelectedChange => final(self).state.context.selected@
                    == old(self).state.context.selected@ && actions_view(acts@)
                    == old(self).selected_change_spec(widget_origin),
                Event::Undo => {
                    let c = if old(self).state.op_mgr.undo_stack().len() == 0 {
                        ChangeView::Nothing
                    } else {
                        old(self).state.op_mgr.undo_stack().last().undone()
                    };
                    &&& (final(self).state.op_mgr.undo_stack(), final(self).state.op_mgr.redo_stack())
                        == crate::operation::undo_stacks(
                        old(self).state.op_mgr.undo_stack(),
                        old(self).state.op_mgr.redo_stack(),
                    )
                    &&& actions_view(acts@) == old(self).change_spec(c, widget_origin)
                    &&& final(self).state.context.selected@ == crate::context::without_ids(
                        old(self).state.context.selected@,
                        removed_ids(c),
                    )
                },
                Event::Redo => {
                    let c = if old(self).state.op_mgr.redo_stack().len() == 0 {
                        ChangeView::Nothing
                    } else {
                        old(self).state.op_mgr.redo_stack().last().applied()
                    };
                    &&& (final(self).state.op_mgr.undo_stack(), final(self).state.op_mgr.redo_stack())
                        == crate::operation::redo_stacks(
                        old(self).state.op_mgr.undo_stack(),
                        old(self).state.op_mgr.redo_stack(),
                    )
                    &&& actions_view(acts@) == old(self).change_spec(c, widget_origin)
                    &&& final(self).state.context.selected@ == crate::context::without_ids(
                        old(self).state.context.selected@,
                        removed_ids(c),
                    )
                },
                Event::CameraChange => actions_view(acts@) == (if old(self).views@.contains(widget_origin) {
                    seq![UiActionView::UpdateView(widget_origin)]
                } else {
                    Seq::empty()
                }) && final(self).state.context.selected@ == old(self).state.context.selected@,
                _ => acts@.len() == 0 && final(self).state.context.selected@
                    == old(self).state.context.selected@,
            },
    {
        match event {
            Event::SelectObject(ob) => {
                self.state.context.selected.push(ob);
                self.selected_change(widget_origin)
            },
            Event::UnselectObject(ob) => {
                let v = vec![ob.to_id()];
                proof {
                    assert(v@ =~= seq![ob.id_view()]);
                }
                self.state.context.remove_objects_by_id(v.as_slice());
                self.selected_change(widget_origin)
            },
            Event::ChangeSelected(list) => {
                self.state.context.selected = list;
                self.selected_change(widget_origin)
            },
            Event::SelectedChange => self.selected_change(widget_origin),
            Event::Undo => {
                let change = self.state.undo(&mut self.data);
                self.handle_change(&change, widget_origin)
            },
            Event::Redo => {
                let change = self.state.redo(&mut self.data);
                self.handle_change(&change, widget_origin)
            },
            Event::CameraChange => self.update_view(widget_origin),
            _ => Vec::new(),
        }
    }

    /// Adds the new object `o`, made for the view `view_id`, to the current
    /// scene as an undoable operation, tells the widgets, and selects it;
    /// with no current scene nothing happens.
    pub fn add_empty(&mut self, o: S::Object, view_id: Id) -> (acts: Vec<UiAction>)
        ensures
            old(self).state.context.scene is None ==> acts@.len() == 0 && *final(self) == *old(self),
            final(self).widgets_kept(*old(self)),
            old(self).state.context.scene matches Some(sid) ==> {
                &&& final(self).state.context.selected@ == seq![o]
                &&& final(self).state.op_mgr.undo_stack().len() == old(self).state.op_mgr.undo_stack().len() + 1
                &&& final(self).state.op_mgr.undo_stack().drop_last() == old(self).state.op_mgr.undo_stack()
                &&& final(self).state.op_mgr.redo_stack().len() == 0
                &&& adds_one_object(
                    final(self).state.op_mgr.undo_stack().last(),
                    old(self).state.context.selected@,
                    sid,
                    o,
                )
                &&& actions_view(acts@) == old(self).change_spec(
                    ChangeView::SceneAdd(sid, seq![None::<Id>], seq![o.id_view()]),
                    view_id,
                ) + final(self).selected_change_spec(view_id)
            },
    {
        let s = match self.state.context.scene {
            Some(s) => s,
            None => {
                return Vec::new();
            },
        };
        let mut objects: Vec<S::Object> = Vec::new();
        objects.push(o);
        let mut parent: Vec<Option<Id>> = Vec::new();
        parent.push(None);
        proof {
            assert(parent@ =~= seq![None::<Id>]);
            assert(objects@ =~= seq![o]);
        }
        let addob = self.state.request_operation(
            Vec::new(),
            OperationData::SceneAddObjects(s, parent, objects),
            &mut self.data,
        );
        proof {
            let top = self.state.op_mgr.undo_stack().last();
            if let AnyOperation::Operation(op) = top {
                assert(strings_view(op.name@).len() == op.name@.len());
                assert(strings_view(Seq::<String>::empty()) =~= Seq::<Seq<char>>::empty());
            }
        }
        proof {
            assert(ids_of(seq![o]) =~= seq![o.id_view()]);
        }
        let mut acts = self.handle_change(&addob, view_id);
        let mut selected: Vec<S::Object> = Vec::new();
        selected.push(o);
        let mut more = self.handle_event(Event::ChangeSelected(selected), view_id);
        let ghost a0 = acts@;
        let ghost m0 = more@;
        acts.append(&mut more);
        proof {
            assert(acts@ == a0 + m0);
            assert(actions_view(a0 + m0) =~= actions_view(a0) + actions_view(m0));
        }
        acts
    }

    /// A drag of the draggers ended: the move of the selected objects'
    /// positions, scales or orientations (as `kind` says) from `old_values`
    /// to `new_values` is recorded as an undoable operation on the data.
    pub fn handle_dragger_operation(&mut self, kind: Kind, old_values: Vec<V>, new_values: Vec<V>) -> (c: Change)
        requires
            old_values@.len() >= old(self).state.context.selected@.len(),
            new_values@.len() >= old(self).state.context.selected@.len(),
        ensures
            c@ == ChangeView::Objects(
                seq_join(dragger_property(kind)),
                ids_of(old(self).state.context.selected@),
            ),
            pushed(old(self).state.op_mgr, final(self).state.op_mgr),
            records(
                final(self).state.op_mgr.undo_stack().last(),
                old(self).state.context.selected@,
                dragger_property(kind),
                OperationData::Vector(old_values, new_values),
            ),
            top_applied(old(self).data, final(self).data, final(self).state.op_mgr),
            final(self).state.context == old(self).state.context,
            final(self).tree == old(self).tree,
            final(self).property == old(self).property,
            final(self).views == old(self).views,
            final(self).visible_prop == old(self).visible_prop,
    {
        self.state.request_dragger_operation(kind, old_values, new_values, &mut self.data)
    }

    /// Makes `scene` the current scene: the selection is emptied, the
    /// property widget shows nothing, the menu shows the scene's name and
    /// every view is redrawn.
    pub fn set_scene(&mut self, scene: Id) -> (acts: Vec<UiAction>)
        ensures
            final(self).state.context.scene == Some(scene),
            final(self).state.context.selected@.len() == 0,
            final(self).state.op_mgr == old(self).state.op_mgr,
            actions_view(acts@) == (if old(self).property_id() is Some {
                seq![UiActionView::PropertySetNothing]
            } else {
                Seq::empty()
            }) + (if old(self).menu is Some {
                seq![UiActionView::MenuSceneName]
            } else {
                Seq::empty()
            }) + seq![UiActionView::UpdateAllViews],
    {
        let mut acts: Vec<UiAction> = Vec::new();
        if self.property.widget.is_some() {
            acts.push(UiAction::PropertySetNothing);
        }
        if self.menu.is_some() {
            acts.push(UiAction::MenuSceneName);
        }
        self.state.context.set_scene(scene);
        acts.push(UiAction::UpdateAllViews);
        proof {
            assert(actions_view(acts@) =~= (if old(self).property_id() is Some {
                seq![UiActionView::PropertySetNothing]
            } else {
                Seq::empty()
            }) + (if old(self).menu is Some {
                seq![UiActionView::MenuSceneName]
            } else {
                Seq::empty()
            }) + seq![UiActionView::UpdateAllViews]);
        }
        acts
    }

    /// The first selected object.
    pub fn get_selected_object(&self) -> (r: Option<S::Object>)
        ensures
            r == if self.state.context.selected@.len() > 0 {
                Some(self.state.context.selected@[0])
            } else {
                None
            },
    {
        self.state.get_selected_object()
    }

    /// The current scene.
    pub fn get_scene(&self) -> (r: Option<Id>)
        ensures
            r == self.state.context.scene,
    {
        self.state.context.scene
    }

    /// The index of the view `id` among the views.
    pub fn find_view(&self, id: Id) -> (r: Option<usize>)
        ensures
            match r {
                Some(i) => i < self.views@.len() && self.views@[i as int] == id && forall|j: int|
                    0 <= j < i ==> self.views@[j] != id,
                None => !self.views@.contains(id),
            },
    {
        let mut i: usize = 0;
        while i < self.views.len()
            invariant
                0 <= i <= self.views.len(),
                forall|j: int| 0 <= j < i ==> self.views@[j] != id,
            decreases self.views.len() - i,
        {
            if self.views[i] == id {
                return Some(i);
            }
            i = i + 1;
        }
        None
    }

    /// The views to redraw after a change: every one (the game view too,
    /// if there is one).
    pub fn update_all_views(&self) -> (r: Vec<UiAction>)
        ensures
            actions_view(r@) == seq![UiActionView::UpdateAllViews],
    {
        let mut r: Vec<UiAction> = Vec::new();
        r.push(UiAction::UpdateAllViews);
        proof {
            assert(actions_view(r@) =~= seq![UiActionView::UpdateAllViews]);
        }
        r
    }

    /// The view to redraw after its camera changed: view `id`, if it is
    /// one of the views.
    pub fn update_view(&self, id: Id) -> (r: Vec<UiAction>)
        ensures
            actions_view(r@) == if self.views@.contains(id) {
                seq![UiActionView::UpdateView(id)]
            } else {
                Seq::empty()
            },
    {
        let mut r: Vec<UiAction> = Vec::new();
        if self.find_view(id).is_some() {
            r.push(UiAction::UpdateView(id));
        }
        proof {
            assert(actions_view(r@) =~= if self.views@.contains(id) {
                seq![UiActionView::UpdateView(id)]
            } else {
                Seq::empty()
            });
        }
        r
    }

    /// The scene to play in a new game view: the current scene, when there
    /// is no game view yet.
    pub fn can_create_gameview(&self) -> (r: Option<Id>)
        ensures
            r == if self.gameview is Some {
                None
            } else {
                self.state.context.scene
            },
    {
        if self.gameview.is_some() {
            return None;
        }
        self.state.context.scene
    }

    /// Records the game view `gv` unless there is one already.
    pub fn set_gameview(&mut self, gv: Id) -> (set: bool)
        ensures
            set == old(self).gameview is None,
            final(self).gameview == if set {
                Some(gv)
            } else {
                old(self).gameview
            },
            final(self).state == old(self).state,
    {
        if self.gameview.is_some() {
            return false;
        }
        self.gameview = Some(gv);
        true
    }

    /// Whether there is a game view to play (the caller starts it).
    pub fn play_gameview(&self) -> (b: bool)
        ensures
            b == self.gameview is Some,
    {
        self.gameview.is_some()
    }

    /// Whether there is a game view to show (the caller shows it).
    pub fn open_gameview(&self) -> (b: bool)
        ensures
            b == self.gameview is Some,
    {
        self.gameview.is_some()
    }

    /// A key pressed in an edit view, as the window handles it: "Return"
    /// shows the command list (when there is one), "t", "p" and "a" show or
    /// hide the tree, the property panel and the action bar (those that
    /// exist); any other key goes to the view.
    pub fn window_key_down(&mut self, key: &str) -> (r: WindowKey)
        ensures
            r == window_key_spec(
                key@,
                old(self).command is Some,
                match old(self).tree {
                    Some(t) => Some(t.config.visible),
                    None => None::<bool>,
                },
                old(self).property.config.visible,
                match old(self).action {
                    Some(a) => Some(a.visible),
                    None => None::<bool>,
                },
            ),
            final(self).state == old(self).state,
            final(self).data == old(self).data,
            final(self).tree_id() == old(self).tree_id(),
            final(self).property_id() == old(self).property_id(),
            r matches WindowKey::ShowTree(b) ==> final(self).tree matches Some(t) && t.config.visible == b,
            r matches WindowKey::ShowProperty(b) ==> final(self).property.config.visible == b,
            r matches WindowKey::ShowAction(b) ==> final(self).action matches Some(a) && a.visible == b,
    {
        proof {
            reveal_strlit("Return");
            reveal_strlit("t");
            reveal_strlit("p");
            reveal_strlit("a");
            assert("Return"@ =~= seq!['R', 'e', 't', 'u', 'r', 'n']);
            assert("t"@ =~= seq!['t']);
            assert("p"@ =~= seq!['p']);
            assert("a"@ =~= seq!['a']);
        }
        let k = key.to_owned();
        if k == "Return".to_owned() {
            if self.command.is_some() {
                WindowKey::ShowCommands
            } else {
                WindowKey::Nothing
            }
        } else if k == "t".to_owned() {
            match &mut self.tree {
                Some(t) => {
                    let b = !t.visible();
                    t.set_visible(b);
                    WindowKey::ShowTree(b)
                },
                None => WindowKey::Nothing,
            }
        } else if k == "p".to_owned() {
            let b = !self.property.visible();
            self.property.set_visible(b);
            WindowKey::ShowProperty(b)
        } else if k == "a".to_owned() {
            match &mut self.action {
                Some(a) => {
                    let b = !a.visible();
                    a.set_visible(b);
                    WindowKey::ShowAction(b)
                },
                None => WindowKey::Nothing,
            }
        } else {
            WindowKey::ToView
        }
    }

    /// The identifier of the property widget.
    fn property_widget_id(&self) -> (r: Id)
        requires
            self.property.widget is Some,
        ensures
            Some(r) == self.property_id(),
    {
        match &self.property.widget {
            Some(w) => w.id,
            None => 0,
        }
    }

    /// An enumeration property at `path` of the object `current` shown in
    /// the property widget went from `old_value` to `new_value`: the change
    /// is recorded as an undoable operation and reported as coming from the
    /// property widget; nothing happens when no object is shown or there
    /// was no old value.
    pub fn changed_enum(&mut self, current: Option<Id>, path: &str, old_value: Option<V>, new_value: V) -> (acts: Vec<UiAction>)
        requires
            old(self).property.widget is Some,
        ensures
            final(self).state.context == old(self).state.context,
            (current is Some && old_value is Some) ==> {
                &&& pushed(old(self).state.op_mgr, final(self).state.op_mgr)
                &&& final(self).state.op_mgr.undo_stack().last() matches AnyOperation::OldNew(o)
                &&& o.object_id == current.unwrap()
                &&& o.name@ == path@
                &&& o.old == old_value.unwrap()
                &&& o.new == new_value
                &&& actions_view(acts@) == old(self).change_spec(
                    ChangeView::PropertyId(current.unwrap(), path@),
                    old(self).property_id().unwrap(),
                )
            },
            !(current is Some && old_value is Some) ==> acts@.len() == 0 && final(self).state
                == old(self).state,
    {
        let pid = self.property_widget_id();
        let change = match (current, old_value) {
            (Some(id), Some(o)) => self.state.request_operation_property_old_new_dontcheckequal(
                id,
                path,
                o,
                new_value,
                &mut self.data,
            ),
            _ => Change::Nothing,
        };
        self.handle_change(&change, pid)
    }

    /// A value at `path` of the object `current` shown in the property
    /// widget was set to `new_value`. When the widget reports the old value
    /// and the end of the edit (`action` 1), the change is recorded as an
    /// undoable operation unless the two values are equal (`equal`), and
    /// reported as coming from the property widget; otherwise the value is
    /// to be written directly into the object. Nothing happens when no
    /// object is shown.
    pub fn changed_set(
        &mut self,
        current: Option<Id>,
        path: &str,
        old_value: Option<V>,
        new_value: V,
        equal: bool,
        action: i32,
    ) -> (r: SetOutcome<V>)
        requires
            old(self).property.widget is Some,
        ensures
            final(self).state.context == old(self).state.context,
            !(old_value is Some && action == 1) && current is Some ==> r == SetOutcome::WriteDirectly(
                new_value,
            ) && *final(self) == *old(self),
            (current is None || (old_value is Some && action == 1 && equal)) ==> {
                &&& r matches SetOutcome::Done(acts) && acts@.len() == 0
                &&& *final(self) == *old(self)
            },
            (old_value is Some && action == 1 && current is Some && !equal) ==> {
                &&& pushed(old(self).state.op_mgr, final(self).state.op_mgr)
                &&& final(self).state.op_mgr.undo_stack().last() matches AnyOperation::OldNew(o)
                &&& o.object_id == current.unwrap()
                &&& o.name@ == path@
                &&& o.old == old_value.unwrap()
                &&& o.new == new_value
                &&& top_applied(old(self).data, final(self).data, final(self).state.op_mgr)
                &&& r matches SetOutcome::Done(acts) && actions_view(acts@) == old(self).change_spec(
                    ChangeView::PropertyId(current.unwrap(), path@),
                    old(self).property_id().unwrap(),
                )
            },
    {
        if current.is_none() {
            return SetOutcome::Done(Vec::new());
        }
        let o = match old_value {
            Some(o) => o,
            None => {
                return SetOutcome::WriteDirectly(new_value);
            },
        };
        if action != 1 {
            return SetOutcome::WriteDirectly(new_value);
        }
        let pid = self.property_widget_id();
        let change = match current {
            Some(id) => self.state.request_operation_property_old_new(
                id,
                path,
                o,
                new_value,
                equal,
                &mut self.data,
            ),
            None => Change::Nothing,
        };
        SetOutcome::Done(self.handle_change(&change, pid))
    }

    /// Tells the widget that shows object `pid` that its property `name`
    /// changed (the change came from the widget `widget_id`, which is told
    /// too), and the tree when the name changed.
    pub fn handle_change_new_id(&self, widget_id: Id, pid: Id, name: &str) -> (r: Vec<UiAction>)
        ensures
            actions_view(r@) == property_changed_actions(self.visible_prop@, self.tree_id(), pid, name@),
    {
        let mut r: Vec<UiAction> = Vec::new();
        let name_s = name.to_owned();
        if let Some(w) = self.visible_prop.get(&pid) {
            r.push(UiAction::PropertyChanged(*w, pid, name.to_owned()));
        }
        let ghost first = actions_view(r@);
        if is_name_property(&name_s) && self.tree.is_some() {
            r.push(UiAction::TreeUpdateObject(pid));
        }
        proof {
            assert(first =~= if self.visible_prop@.contains_key(pid) {
                seq![UiActionView::PropertyChanged(self.visible_prop@[pid], pid, name@)]
            } else {
                Seq::empty()
            });
            assert(actions_view(r@) =~= property_changed_actions(self.visible_prop@, self.tree_id(), pid, name@));
        }
        r
    }
}

/// The editor: its window container.
pub struct Core<S: SceneT, V> {
    pub container: Box<WidgetContainer<S, V>>,
}

impl<S: SceneT<Value = V>, V> Core<S, V> {
    pub fn new() -> (c: Core<S, V>)
        ensures
            c.container.tree is None,
            c.container.views@.len() == 0,
            c.container.data.entries().len() == 0,
            c.container.state.context.scene is None,
    {
        Core { container: Box::new(WidgetContainer::new()) }
    }
}

/// Removing no identifier keeps every object.
pub proof fn lemma_without_no_ids<O: ToId>(s: Seq<O>)
    ensures
        crate::context::without_ids(s, Seq::<Id>::empty()) == s,
    decreases s.len(),
{
    if s.len() > 0 {
        lemma_without_no_ids(s.drop_last());
        assert(!Seq::<Id>::empty().contains(s.last().id_view()));
        assert(s.drop_last().push(s.last()) =~= s);
    }
}

} // verus!