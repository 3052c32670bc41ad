use vstd::prelude::*;

use crate::data::Id;
use crate::util::new_uuid;

verus! {

/// How a dragger is drawn.
#[derive(Clone, Copy, Debug, PartialEq, Eq, Structural)]
pub enum State {
    Idle,
    Highlight,
    Selected,
    LowLight,
    Hide,
    ShowSecond,
}

/// What a dragger does to the selected objects.
#[derive(Clone, Copy, Debug, PartialEq, Eq, Structural)]
pub enum Kind {
    Translate,
    Scale,
    Rotate,
}

/// The frame a dragger works in.
#[derive(Clone, Copy, Debug, PartialEq, Eq, Structural)]
pub enum Repere {
    Global,
    Local,
}

/// How the pointer is tested against a dragger: by the box of its mesh, by
/// its mesh, or by a special mesh (named by its resource path).
pub enum Collision {
    MeshAABox,
    Mesh,
    SpecialMesh(String),
}

/// The colour a dragger is drawn with in a state.
#[derive(Clone, Copy, Debug, PartialEq, Eq, Structural)]
pub enum DraggerColor {
    /// Yellow (1, 1, 0, 1).
    Highlight,
    /// White (1, 1, 1, 1).
    Selected,
    /// The dragger's own colour.
    Own,
}

/// The colour to draw a dragger with when it enters `state`; `None` when
/// its colour stays as it is.
pub open spec fn state_color_spec(state: State) -> Option<DraggerColor> {
    match state {
        State::Highlight => Some(DraggerColor::Highlight),
        State::Selected => Some(DraggerColor::Selected),
        State::Idle => Some(DraggerColor::Own),
        _ => None,
    }
}

/// The colour to draw a dragger with when it enters `state`; `None` when
/// its colour stays as it is.
pub fn state_color(state: State) -> (c: Option<DraggerColor>)
    ensures
        c == state_color_spec(state),
{
    match state {
        State::Highlight => Some(DraggerColor::Highlight),
        State::Selected => Some(DraggerColor::Selected),
        State::Idle => Some(DraggerColor::Own),
        _ => None,
    }
}

/// A dragger: a handle drawn over the selection and dragged with the mouse.
/// Its geometry and colours are kept by the renderer, under `id`.
pub struct Dragger {
    pub kind: Kind,
    pub repere: Repere,
    pub collision: Collision,
    pub state: State,
    pub id: Id,
}

impl Dragger {
    /// A new idle dragger working in the local frame, with a fresh
    /// identifier.
    pub fn new(kind: Kind, collision: Collision) -> (d: Dragger)
        ensures
            d.kind == kind,
            d.collision == collision,
            d.repere == Repere::Local,
            d.state == State::Idle,
    {
        Dragger { kind, repere: Repere::Local, collision, state: State::Idle, id: new_uuid() }
    }

    /// Puts the dragger in `state`; returns the colour to draw it with from
    /// now on, if it changes.
    pub fn set_state(&mut self, state: State) -> (c: Option<DraggerColor>)
        ensures
            final(self).state == state,
            final(self).kind == old(self).kind,
            final(self).repere == old(self).repere,
            final(self).collision == old(self).collision,
            final(self).id == old(self).id,
            c == state_color_spec(state),
    {
        self.state = state;
        state_color(state)
    }
}

/// A group of draggers shown together.
pub type DraggerGroup = Vec<Dragger>;

/// The drag started by a click on a dragger: the kind of move, the
/// dragger's index in the current group and its frame.
#[derive(Clone, Copy, Debug, PartialEq, Eq, Structural)]
pub struct MouseOperation {
    pub kind: Kind,
    pub dragger: usize,
    pub repere: Repere,
}

/// The draggers of the editor, shown one group at a time.
pub struct DraggerManager {
    pub draggers: Vec<DraggerGroup>,
    pub mouse: Option<MouseOperation>,
    pub current_group: usize,
    pub dragger_focus: Option<Id>,
}

/// The resource path of the mesh the pointer is tested against for the
/// rotation draggers.
pub open spec fn rotate_collider_name() -> Seq<char> {
    "model/dragger_rotate_collider_quarter.mesh"@
}

/// Six idle translation draggers in the local frame (the three axes, then
/// the three planes), tested by the box of their mesh.
pub open spec fn translation_group(g: Seq<Dragger>) -> bool {
    &&& g.len() == 6
    &&& forall|k: int|
        0 <= k < 6 ==> {
            &&& (#[trigger] g[k]).kind == Kind::Translate
            &&& g[k].collision == Collision::MeshAABox
            &&& g[k].state == State::Idle
            &&& g[k].repere == Repere::Local
        }
}

/// Three idle rotation draggers in the local frame (about x, y and z),
/// tested by the rotation collider mesh.
pub open spec fn rotation_group(g: Seq<Dragger>) -> bool {
    &&& g.len() == 3
    &&& forall|k: int|
        0 <= k < 3 ==> {
            &&& (#[trigger] g[k]).kind == Kind::Rotate
            &&& g[k].collision matches Collision::SpecialMesh(n) && n@ == rotate_collider_name()
            &&& g[k].state == State::Idle
            &&& g[k].repere == Repere::Local
        }
}

/// The translation draggers (their meshes and axes are the renderer's).
pub fn create_dragger_translation_group() -> (g: DraggerGroup)
    ensures
        translation_group(g@),
{
    let mut g: DraggerGroup = Vec::new();
    let mut k: usize = 0;
    while k < 6
        invariant
            k <= 6,
            g@.len() == k,
            forall|j: int|
                0 <= j < k ==> {
                    &&& (#[trigger] g@[j]).kind == Kind::Translate
                    &&& g@[j].collision == Collision::MeshAABox
                    &&& g@[j].state == State::Idle
                    &&& g@[j].repere == Repere::Local
                },
        decreases 6 - k,
    {
        g.push(Dragger::new(Kind::Translate, Collision::MeshAABox));
        k = k + 1;
    }
    g
}

/// The rotation draggers (their meshes and axes are the renderer's).
pub fn create_rotation_draggers() -> (g: DraggerGroup)
    ensures
        rotation_group(g@),
{
    let mut g: DraggerGroup = Vec::new();
    let mut k: usize = 0;
    while k < 3
        invariant
            k <= 3,
            g@.len() == k,
            forall|j: int|
                0 <= j < k ==> {
                    &&& (#[trigger] g@[j]).kind == Kind::Rotate
                    &&& g@[j].collision matches Collision::SpecialMesh(n) && n@ == rotate_collider_name()
                    &&& g@[j].state == State::Idle
                    &&& g@[j].repere == Repere::Local
                },
        decreases 3 - k,
    {
        let name = "model/dragger_rotate_collider_quarter.mesh".to_owned();
        g.push(Dragger::new(Kind::Rotate, Collision::SpecialMesh(name)));
        k = k + 1;
    }
    g
}

/// The group shown after `current` among `n` groups.
pub open spec fn next_group(current: nat, n: nat) -> nat {
    if current + 1 >= n {
        0
    } else {
        current + 1
    }
}

/// The group shown after `k` changes, starting from group `current` among
/// `n` groups.
pub open spec fn after_changes(current: nat, n: nat, k: nat) -> nat
    decreases k,
{
    if k == 0 {
        current
    } else {
        next_group(after_changes(current, n, (k - 1) as nat), n)
    }
}

/// Changing the group `k` times from group `current` (one of `n`) shows
/// group `(current + k) % n`: the groups come in turn, and after `n`
/// changes the first one is shown again.
pub proof fn lemma_changes_cycle(current: nat, n: nat, k: nat)
    requires
        current < n,
    ensures
        after_changes(current, n, k) == ((current + k) as int) % (n as int),
    decreases k,
{
    if k == 0 {
        vstd::arithmetic::div_mod::lemma_fundamental_div_mod_converse(current as int, n as int, 0, current as int);
    } else {
        lemma_changes_cycle(current, n, (k - 1) as nat);
        let x = current + k - 1;
        let q = x / (n as int);
        let r = x % (n as int);
        vstd::arithmetic::div_mod::lemma_fundamental_div_mod(x, n as int);
        if r + 1 < n {
            vstd::arithmetic::div_mod::lemma_fundamental_div_mod_converse(x + 1, n as int, q, r + 1);
        } else {
            assert(x + 1 == (q + 1) * n) by (nonlinear_arith)
                requires
                    x == n * q + r,
                    r + 1 == n,
            ;
            vstd::arithmetic::div_mod::lemma_fundamental_div_mod_converse(x + 1, n as int, q + 1, 0);
        }
    }
}

/// The states and identifiers of a group.
pub open spec fn group_states(g: Seq<Dragger>) -> Seq<State> {
    g.map_values(|d: Dragger| d.state)
}

/// The state after the pointer was tested against the draggers with
/// `button`, `closest` being the dragger of the current group nearest to
/// the pointer among those it touches: that dragger is highlighted (button
/// 0) or selected with a drag of its kind starting (button 1), every other
/// dragger of the group is idle, and `r` is its identifier.
pub open spec fn collision_outcome(
    before: DraggerManager,
    after: DraggerManager,
    closest: Option<usize>,
    button: i32,
    r: Option<Id>,
) -> bool {
    let cg = before.current_group as int;
    let g0 = before.draggers@[cg]@;
    &&& after.draggers@.len() == before.draggers@.len()
    &&& forall|g: int|
        0 <= g < before.draggers@.len() && g != cg ==> #[trigger] after.draggers@[g]
            == before.draggers@[g]
    &&& after.draggers@[cg]@.len() == g0.len()
    &&& forall|k: int|
        0 <= k < g0.len() ==> {
            let d = #[trigger] after.draggers@[cg]@[k];
            &&& d.kind == g0[k].kind
            &&& d.repere == g0[k].repere
            &&& d.id == g0[k].id
            &&& d.state == if closest is Some && closest.unwrap() == k && button == 0 {
                State::Highlight
            } else if closest is Some && closest.unwrap() == k && button == 1 {
                State::Selected
            } else {
                State::Idle
            }
        }
    &&& r == match closest {
        Some(i) => Some(g0[i as int].id),
        None => None::<Id>,
    }
    &&& after.mouse == match closest {
        Some(i) => if button == 1 {
            Some(
                MouseOperation {
                    kind: g0[i as int].kind,
                    dragger: i,
                    repere: g0[i as int].repere,
                },
            )
        } else {
            before.mouse
        },
        None => before.mouse,
    }
    &&& after.current_group == before.current_group
    &&& after.dragger_focus == before.dragger_focus
}

impl DraggerManager {
    /// The editor's draggers: the translation group, then the rotation
    /// group; the first is shown, no drag is going on and no dragger is
    /// under the pointer.
    pub fn new() -> (m: DraggerManager)
        ensures
            m.draggers@.len() == 2,
            translation_group(m.draggers@[0]@),
            rotation_group(m.draggers@[1]@),
            m.current_group == 0,
            m.mouse is None,
            m.dragger_focus is None,
    {
        let mut groups: Vec<DraggerGroup> = Vec::new();
        groups.push(create_dragger_translation_group());
        groups.push(create_rotation_draggers());
        DraggerManager::with_groups(groups)
    }

    /// The manager of `groups`, showing the first one, with no drag going
    /// on and no dragger under the pointer.
    pub fn with_groups(groups: Vec<DraggerGroup>) -> (m: DraggerManager)
        ensures
            m.draggers == groups,
            m.current_group == 0,
            m.mouse is None,
            m.dragger_focus is None,
    {
        DraggerManager { draggers: groups, mouse: None, current_group: 0, dragger_focus: None }
    }

    /// Shows the next group (the first after the last).
    pub fn change(&mut self)
        ensures
            final(self).current_group == next_group(
                old(self).current_group as nat,
                old(self).draggers@.len(),
            ),
            final(self).draggers == old(self).draggers,
            final(self).mouse == old(self).mouse,
            final(self).dragger_focus == old(self).dragger_focus,
    {
        let mut newlen = if self.current_group < usize::MAX {
            self.current_group + 1
        } else {
            usize::MAX
        };
        if newlen >= self.draggers.len() {
            newlen = 0;
        }
        self.current_group = newlen;
    }

    /// Puts every dragger of the current group in `state`.
    pub fn set_state(&mut self, state: State)
        requires
            old(self).current_group < old(self).draggers@.len(),
        ensures
            final(self).draggers@.len() == old(self).draggers@.len(),
            forall|g: int|
                0 <= g < old(self).draggers@.len() && g != old(self).current_group ==> #[trigger] final(self).draggers@[g] == old(self).draggers@[g],
            final(self).draggers@[old(self).current_group as int]@.len() == old(self).draggers@[old(self).current_group as int]@.len(),
            forall|i: int|
                0 <= i < old(self).draggers@[old(self).current_group as int]@.len() ==> {
                    let d = #[trigger] final(self).draggers@[old(self).current_group as int]@[i];
                    let d0 = old(self).draggers@[old(self).current_group as int]@[i];
                    d.state == state && d.kind == d0.kind && d.repere == d0.repere && d.id == d0.id
                },
            final(self).current_group == old(self).current_group,
            final(self).mouse == old(self).mouse,
            final(self).dragger_focus == old(self).dragger_focus,
    {
        let cg = self.current_group;
        let mut group = self.draggers.remove(cg);
        let ghost g0 = group@;
        let mut i: usize = 0;
        while i < group.len()
            invariant
                0 <= i <= group.len(),
                group@.len() == g0.len(),
                forall|k: int|
                    0 <= k < g0.len() ==> {
                        let d = #[trigger] group@[k];
                        let d1 = g0[k];
                        d.kind == d1.kind && d.repere == d1.repere && d.id == d1.id && (k < i
                            ==> d.state == state) && (k >= i ==> d == d1)
                    },
            decreases group.len() - i,
        {
            let mut d = group.remove(i);
            d.set_state(state);
            group.insert(i, d);
            i = i + 1;
        }
        self.draggers.insert(cg, group);
    }

    fn set_one_state(&mut self, i: usize, state: State)
        requires
            old(self).current_group < old(self).draggers@.len(),
            i < old(self).draggers@[old(self).current_group as int]@.len(),
        ensures
            final(self).draggers@.len() == old(self).draggers@.len(),
            forall|g: int|
                0 <= g < old(self).draggers@.len() && g != old(self).current_group ==> #[trigger] final(self).draggers@[g] == old(self).draggers@[g],
            final(self).draggers@[old(self).current_group as int]@.len() == old(self).draggers@[old(self).current_group as int]@.len(),
            forall|k: int|
                0 <= k < old(self).draggers@[old(self).current_group as int]@.len() ==> {
                    let d = #[trigger] final(self).draggers@[old(self).current_group as int]@[k];
                    let d0 = old(self).draggers@[old(self).current_group as int]@[k];
                    d.kind == d0.kind && d.repere == d0.repere && d.id == d0.id && d.state == if k
                        == i {
                        state
                    } else {
                        d0.state
                    }
                },
            final(self).current_group == old(self).current_group,
            final(self).mouse == old(self).mouse,
            final(self).dragger_focus == old(self).dragger_focus,
    {
        let cg = self.current_group;
        let mut group = self.draggers.remove(cg);
        let mut d = group.remove(i);
        d.set_state(state);
        group.insert(i, d);
        self.draggers.insert(cg, group);
    }

    /// Marks the dragger `closest` of the current group (the one nearest
    /// to the pointer among those it touches, if any) for `button`: with
    /// button 0 it is highlighted, with button 1 it is selected and a drag
    /// of its kind starts; every other dragger of the group becomes idle.
    /// Returns the identifier of that dragger.
    pub fn check_collision(&mut self, closest: Option<usize>, button: i32) -> (r: Option<Id>)
        requires
            old(self).current_group < old(self).draggers@.len(),
            closest matches Some(i) ==> i < old(self).draggers@[old(self).current_group as int]@.len(),
        ensures
            collision_outcome(*old(self), *final(self), closest, button, r),
            final(self).current_group == old(self).current_group,
            final(self).dragger_focus == old(self).dragger_focus,
    {
        self.set_state(State::Idle);
        match closest {
            Some(i) => {
                let cg = self.current_group;
                if button == 0 {
                    self.set_one_state(i, State::Highlight);
                } else if button == 1 {
                    self.set_one_state(i, State::Selected);
                    let kind = self.draggers[cg][i].kind;
                    let repere = self.draggers[cg][i].repere;
                    self.mouse = Some(MouseOperation { kind, dragger: i, repere });
                }
                Some(self.draggers[cg][i].id)
            },
            None => None,
        }
    }

    /// A click of `button`: whether it fell on a dragger (see
    /// `check_collision`, which it performs).
    pub fn mouse_down(&mut self, closest: Option<usize>, button: i32) -> (b: bool)
        requires
            old(self).current_group < old(self).draggers@.len(),
            closest matches Some(i) ==> i < old(self).draggers@[old(self).current_group as int]@.len(),
        ensures
            b == closest is Some,
            collision_outcome(*old(self), *final(self), closest, button, match closest {
                Some(i) => Some(old(self).draggers@[old(self).current_group as int]@[i as int].id),
                None => None::<Id>,
            }),
    {
        self.check_collision(closest, button).is_some()
    }

    /// The pointer moved over the draggers (see `check_collision`, which it
    /// performs): records the dragger now under the pointer and tells
    /// whether it differs from the one before.
    pub fn mouse_move_hover(&mut self, closest: Option<usize>, button: i32) -> (changed: bool)
        requires
            old(self).current_group < old(self).draggers@.len(),
            closest matches Some(i) ==> i < old(self).draggers@[old(self).current_group as int]@.len(),
        ensures
            final(self).dragger_focus == match closest {
                Some(i) => Some(old(self).draggers@[old(self).current_group as int]@[i as int].id),
                None => None::<Id>,
            },
            changed == (final(self).dragger_focus != old(self).dragger_focus),
            final(self).current_group == old(self).current_group,
            final(self).draggers@.len() == old(self).draggers@.len(),
    {
        let result = self.check_collision(closest, button);
        match result {
            Some(id) => {
                if let Some(focus) = self.dragger_focus {
                    if focus == id {
                        return false;
                    }
                }
            },
            None => {
                if self.dragger_focus.is_none() {
                    return false;
                }
            },
        }
        self.dragger_focus = result;
        true
    }

    /// The button was released: every dragger of the current group becomes
    /// idle and the drag going on, if any, ends and is returned.
    pub fn mouse_up(&mut self) -> (op: Option<MouseOperation>)
        requires
            old(self).current_group < old(self).draggers@.len(),
        ensures
            op == old(self).mouse,
            final(self).mouse is None,
            final(self).current_group == old(self).current_group,
            final(self).dragger_focus == old(self).dragger_focus,
            final(self).draggers@.len() == old(self).draggers@.len(),
            forall|g: int|
                0 <= g < old(self).draggers@.len() && g != old(self).current_group ==> #[trigger] final(self).draggers@[g] == old(self).draggers@[g],
            final(self).draggers@[old(self).current_group as int]@.len() == old(self).draggers@[old(self).current_group as int]@.len(),
            forall|k: int|
                0 <= k < old(self).draggers@[old(self).current_group as int]@.len() ==> {
                    let d = #[trigger] final(self).draggers@[old(self).current_group as int]@[k];
                    let d0 = old(self).draggers@[old(self).current_group as int]@[k];
                    d.state == State::Idle && d.kind == d0.kind && d.repere == d0.repere && d.id == d0.id
                },
    {
        self.set_state(State::Idle);
        let op = match self.mouse {
            Some(m) => m,
            None => {
                return None;
            },
        };
        self.mouse = None;
        Some(op)
    }
}

/// The axis a dragger constrains a move to.
#[derive(Clone, Copy, Debug, PartialEq, Eq, Structural)]
pub enum Axis {
    X,
    Y,
    Z,
    Other,
}

/// The roll (in degrees) that turns a quarter-circle rotation dragger of
/// `axis` towards the camera, from the signs of the offset between dragger
/// and camera along the manager's three axes (`*_pos`: that component is
/// greater than zero).
pub open spec fn face_angle_spec(axis: Axis, dotx_pos: bool, doty_pos: bool, dotz_pos: bool) -> int {
    match axis {
        Axis::Z => if dotx_pos {
            if doty_pos {
                180
            } else {
                90
            }
        } else if doty_pos {
            -90
        } else {
            0
        },
        Axis::Y => if dotx_pos {
            if dotz_pos {
                180
            } else {
                90
            }
        } else if dotz_pos {
            -90
        } else {
            0
        },
        Axis::X => if doty_pos {
            if dotz_pos {
                -180
            } else {
                -90
            }
        } else if dotz_pos {
            90
        } else {
            0
        },
        Axis::Other => 0,
    }
}

/// The roll (in degrees) that turns a rotation dragger towards the camera.
pub fn face_camera_angle(axis: Axis, dotx_pos: bool, doty_pos: bool, dotz_pos: bool) -> (angle: i32)
    ensures
        angle == face_angle_spec(axis, dotx_pos, doty_pos, dotz_pos),
{
    let mut angle: i32 = 0;
    if axis == Axis::Z {
        if dotx_pos {
            if doty_pos {
                angle = 180;
            } else {
                angle = 90;
            }
        } else if doty_pos {
            angle = -90;
        }
    }
    if axis == Axis::Y {
        if dotx_pos {
            if dotz_pos {
                angle = 180;
            } else {
                angle = 90;
            }
        } else if dotz_pos {
            angle = -90;
        }
    }
    if axis == Axis::X {
        if doty_pos {
            if dotz_pos {
                angle = -180;
            } else {
                angle = -90;
            }
        } else if dotz_pos {
            angle = 90;
        }
    }
    angle
}

/// Whether the angle of a rotation drag is negated: it is when the
/// rotation axis points away from the camera (`axis_away`) and the turn
/// seen on screen is positive, or when it points towards the camera and the
/// turn is negative.
pub fn rotation_angle_negated(axis_away: bool, turn_pos: bool, turn_neg: bool) -> (b: bool)
    ensures
        b == if axis_away {
            turn_pos
        } else {
            turn_neg
        },
{
    if axis_away {
        turn_pos
    } else {
        turn_neg
    }
}

/// A press of button 1 on a dragger starts a drag of that dragger's kind,
/// in its frame; the release that follows ends it and gives it back.
pub proof fn lemma_press_then_release(
    before: DraggerManager,
    pressed: DraggerManager,
    i: usize,
    r: Option<Id>,
)
    requires
        before.current_group < before.draggers@.len(),
        i < before.draggers@[before.current_group as int]@.len(),
        collision_outcome(before, pressed, Some(i), 1, r),
    ensures
        pressed.mouse == Some(
            MouseOperation {
                kind: before.draggers@[before.current_group as int]@[i as int].kind,
                dragger: i,
                repere: before.draggers@[before.current_group as int]@[i as int].repere,
            },
        ),
        pressed.draggers@[pressed.current_group as int]@[i as int].state == State::Selected,
{
    let d = pressed.draggers@[before.current_group as int]@[i as int];
}

} // verus!
