use vstd::prelude::*;

use crate::context::{has_id, Context};
use crate::data::{SceneT, ToId};
use crate::dragger::manager::Kind;

verus! {

/// What the pointer is doing in an edit view.
#[derive(Clone, Copy, Debug, PartialEq, Eq, Structural)]
pub enum State {
    Idle,
    CameraRotation,
    Dragger,
    MultipleSelect,
}

/// What a button press asks of the view.
#[derive(Clone, Copy, Debug, PartialEq, Eq, Structural)]
pub enum MouseDownAction {
    /// Show the selection rectangle, one pixel wide at (x, y).
    StartRectangle(i32, i32),
    /// Test the press against the draggers; report the result with
    /// `dragger_pressed`.
    TestDragger,
    Nothing,
}

/// What a button release asks of the view.
#[derive(Clone, Copy, Debug, PartialEq, Eq, Structural)]
pub enum MouseUpAction {
    /// Nothing more (a camera rotation ended, or there is no scene to pick
    /// from).
    Nothing,
    /// End the drag of the draggers and report the operation it made.
    ReleaseDragger,
    /// Hide the selection rectangle.
    HideRectangle,
    /// Select the object under the pointer.
    Pick,
}

/// What a pointer move with the view idle asks of the camera.
#[derive(Clone, Copy, Debug, PartialEq, Eq, Structural)]
pub enum CameraMove {
    Pan,
    Rotate,
    Nothing,
}

/// What a key asks of the editor.
#[derive(Clone, Copy, Debug, PartialEq, Eq, Structural)]
pub enum KeyAction {
    /// Move the camera by (x, 0, z) and redraw the draggers.
    MoveCamera(i32, i32),
    /// Show the next group of draggers and redraw them.
    ChangeDragger,
    Undo,
    Redo,
    /// An unknown key: the draggers are redrawn.
    Unknown,
}

/// What a pointer move asks of the view and the editor.
pub struct MoveOutcome<O> {
    /// How the camera moves (done by the caller).
    pub camera: CameraMove,
    /// Whether the view is redrawn as after a camera change.
    pub camera_change: bool,
    /// The selection rectangle to show: corner, width and height.
    pub rect: Option<(i64, i64, i64, i64)>,
    /// The objects that become the selection.
    pub select: Option<Vec<O>>,
    /// The kind of the drag whose move the draggers report.
    pub drag: Option<Kind>,
}

/// The pointer state machine of an edit view.
pub struct Control {
    pub state: State,
    pub mouse_start: Option<(i32, i32)>,
}

/// The bit of the shift modifier.
pub open spec fn shift_bit() -> i32 {
    1
}

/// The bit of the control modifier.
pub open spec fn control_bit() -> i32 {
    2
}

impl Control {
    pub fn new() -> (c: Control)
        ensures
            c.state == State::Idle,
            c.mouse_start is None,
    {
        Control { state: State::Idle, mouse_start: None }
    }

    /// A button press at (x, y) with the modifiers `modifier`: with control
    /// (and not shift) held, a rectangle selection starts there; otherwise
    /// the draggers are tested when something is selected.
    pub fn mouse_down<S: SceneT>(&mut self, context: &Context<S>, modifier: i32, x: i32, y: i32) -> (a: MouseDownAction)
        ensures
            (modifier & 1 == 0 && modifier & 2 != 0) ==> a == MouseDownAction::StartRectangle(x, y)
                && final(self).state == State::MultipleSelect && final(self).mouse_start == Some(
                (x, y),
            ),
            !(modifier & 1 == 0 && modifier & 2 != 0) ==> *final(self) == *old(self) && a == if context.selected@.len() > 0 {
                MouseDownAction::TestDragger
            } else {
                MouseDownAction::Nothing
            },
    {
        if (modifier & 1) != 0 {
        } else if modifier & 2 != 0 {
            self.mouse_start = Some((x, y));
            self.state = State::MultipleSelect;
            return MouseDownAction::StartRectangle(x, y);
        }
        if context.selected.len() > 0 {
            MouseDownAction::TestDragger
        } else {
            MouseDownAction::Nothing
        }
    }

    /// The result of the dragger test of a press: a hit starts a drag.
    pub fn dragger_pressed(&mut self, click: bool) -> (clicked: bool)
        ensures
            clicked == click,
            click ==> final(self).state == State::Dragger,
            !click ==> final(self).state == old(self).state,
            final(self).mouse_start == old(self).mouse_start,
    {
        if click {
            self.state = State::Dragger;
        }
        click
    }

    /// A button release: whatever was going on ends and the view is idle;
    /// a click with nothing going on picks the object under the pointer,
    /// when there is a current scene.
    pub fn mouse_up<S: SceneT>(&mut self, context: &Context<S>) -> (a: MouseUpAction)
        ensures
            final(self).state == State::Idle,
            final(self).mouse_start == old(self).mouse_start,
            a == match old(self).state {
                State::CameraRotation => MouseUpAction::Nothing,
                State::Dragger => MouseUpAction::ReleaseDragger,
                State::MultipleSelect => MouseUpAction::HideRectangle,
                State::Idle => if context.scene is Some {
                    MouseUpAction::Pick
                } else {
                    MouseUpAction::Nothing
                },
            },
    {
        match self.state {
            State::CameraRotation => {
                self.state = State::Idle;
                MouseUpAction::Nothing
            },
            State::Dragger => {
                self.state = State::Idle;
                MouseUpAction::ReleaseDragger
            },
            State::MultipleSelect => {
                self.state = State::Idle;
                MouseUpAction::HideRectangle
            },
            State::Idle => if context.scene.is_some() {
                MouseUpAction::Pick
            } else {
                MouseUpAction::Nothing
            },
        }
    }

    /// A pointer move while the view is idle or rotating its camera: with
    /// button 1 held the camera pans (shift held) or rotates (then the view
    /// is rotating its camera).
    pub fn camera_move(&mut self, mod_flag: i32, button: i32) -> (m: CameraMove)
        requires
            old(self).state == State::Idle || old(self).state == State::CameraRotation,
        ensures
            m == if button != 1 {
                CameraMove::Nothing
            } else if mod_flag & 1 != 0 {
                CameraMove::Pan
            } else {
                CameraMove::Rotate
            },
            final(self).state == if m == CameraMove::Rotate {
                State::CameraRotation
            } else {
                old(self).state
            },
            final(self).mouse_start == old(self).mouse_start,
    {
        if button == 1 {
            if (mod_flag & 1) != 0 {
                CameraMove::Pan
            } else {
                self.state = State::CameraRotation;
                CameraMove::Rotate
            }
        } else {
            CameraMove::Nothing
        }
    }

    /// The selection rectangle while selecting several objects and the
    /// pointer is at (x, y): the corner nearest the origin, then the width
    /// and height, spanning from where the button was pressed; none when
    /// no press was recorded.
    pub fn selection_rect(&self, x: i32, y: i32) -> (r: Option<(i64, i64, i64, i64)>)
        ensures
            match self.mouse_start {
                None => r is None,
                Some((ex, ey)) => r == Some(
                    (
                        if x < ex { x as i64 } else { ex as i64 },
                        if y < ey { y as i64 } else { ey as i64 },
                        (if x < ex { ex - x } else { x - ex }) as i64,
                        (if y < ey { ey - y } else { y - ey }) as i64,
                    ),
                ),
            },
    {
        match self.mouse_start {
            None => None,
            Some((ex, ey)) => {
                let (x, y, ex, ey) = (x as i64, y as i64, ex as i64, ey as i64);
                let (startx, w) = if x < ex {
                    (x, ex - x)
                } else {
                    (ex, x - ex)
                };
                let (starty, h) = if y < ey {
                    (y, ey - y)
                } else {
                    (ey, y - ey)
                };
                Some((startx, starty, w, h))
            },
        }
    }

    /// A pointer move to (x, y) with `button` held and the modifiers
    /// `mod_flag`. Idle or rotating the camera: the camera moves as
    /// `camera_move` says, and the view is redrawn when the dragger under
    /// the pointer changed (`hover_changed`, from the draggers) or button 1
    /// is held. Dragging: the move the draggers made (`drag`) is reported.
    /// Selecting several objects: the rectangle is shown, and when there is
    /// a current scene the objects inside it (`in_rect`, as the renderer
    /// finds them) become the selection if they change it.
    pub fn mouse_move<S: SceneT>(
        &mut self,
        context: &Context<S>,
        mod_flag: i32,
        button: i32,
        x: i32,
        y: i32,
        hover_changed: bool,
        drag: Option<Kind>,
        in_rect: Vec<S::Object>,
    ) -> (r: MoveOutcome<S::Object>)
        ensures
            final(self).mouse_start == old(self).mouse_start,
            match old(self).state {
                State::Idle | State::CameraRotation => {
                    &&& r.camera == if button != 1 {
                        CameraMove::Nothing
                    } else if mod_flag & 1 != 0 {
                        CameraMove::Pan
                    } else {
                        CameraMove::Rotate
                    }
                    &&& final(self).state == if r.camera == CameraMove::Rotate {
                        State::CameraRotation
                    } else {
                        old(self).state
                    }
                    &&& r.camera_change == (hover_changed || button == 1)
                    &&& r.rect is None
                    &&& r.select is None
                    &&& r.drag is None
                },
                State::Dragger => {
                    &&& r.camera == CameraMove::Nothing
                    &&& !r.camera_change
                    &&& r.rect is None
                    &&& r.select is None
                    &&& r.drag == drag
                    &&& final(self).state == old(self).state
                },
                State::MultipleSelect => {
                    &&& r.camera == CameraMove::Nothing
                    &&& !r.camera_change
                    &&& r.drag is None
                    &&& final(self).state == old(self).state
                    &&& match old(self).mouse_start {
                        None => r.rect is None && r.select is None,
                        Some((ex, ey)) => {
                            &&& r.rect == Some(
                                (
                                    if x < ex { x as i64 } else { ex as i64 },
                                    if y < ey { y as i64 } else { ey as i64 },
                                    (if x < ex { ex - x } else { x - ex }) as i64,
                                    (if y < ey { ey - y } else { y - ey }) as i64,
                                ),
                            )
                            &&& (context.scene is Some && rect_selection_changed(
                                context.selected@,
                                in_rect@,
                            )) ==> (r.select matches Some(v) && v@ == in_rect@)
                            &&& !(context.scene is Some && rect_selection_changed(
                                context.selected@,
                                in_rect@,
                            )) ==> r.select is None
                        },
                    }
                },
            },
    {
        match self.state {
            State::Idle | State::CameraRotation => {
                let camera = self.camera_move(mod_flag, button);
                MoveOutcome {
                    camera,
                    camera_change: hover_changed || button == 1,
                    rect: None,
                    select: None,
                    drag: None,
                }
            },
            State::Dragger => MoveOutcome {
                camera: CameraMove::Nothing,
                camera_change: false,
                rect: None,
                select: None,
                drag,
            },
            State::MultipleSelect => {
                let rect = self.selection_rect(x, y);
                let select = if rect.is_some() && context.scene.is_some() && selection_changed(
                    context,
                    in_rect.as_slice(),
                ) {
                    Some(in_rect)
                } else {
                    None
                };
                MoveOutcome { camera: CameraMove::Nothing, camera_change: false, rect, select, drag: None }
            },
        }
    }

    /// A key press.
    pub fn key_down(&mut self, key: &str) -> (a: KeyAction)
        ensures
            a == key_action_spec(key@),
            *final(self) == *old(self),
    {
        key_action(key)
    }
}

/// What a key asks of the editor: "e" and "d" move the camera along z by
/// -50 and 50, "f" and "s" along x by 50 and -50; "z" undoes, "r" redoes,
/// "space" changes the dragger group.
pub open spec fn key_action_spec(key: Seq<char>) -> KeyAction {
    if key == seq!['e'] {
        KeyAction::MoveCamera(0, -50i32)
    } else if key == seq!['d'] {
        KeyAction::MoveCamera(0, 50)
    } else if key == seq!['f'] {
        KeyAction::MoveCamera(50, 0)
    } else if key == seq!['s'] {
        KeyAction::MoveCamera(-50i32, 0)
    } else if key == seq!['z'] {
        KeyAction::Undo
    } else if key == seq!['r'] {
        KeyAction::Redo
    } else if key == seq!['s', 'p', 'a', 'c', 'e'] {
        KeyAction::ChangeDragger
    } else {
        KeyAction::Unknown
    }
}

fn key_is(key: &String, name: &str) -> (b: bool)
    ensures
        b == (key@ == name@),
{
    *key == name.to_owned()
}

/// What a key asks of the editor.
pub fn key_action(key: &str) -> (a: KeyAction)
    ensures
        a == key_action_spec(key@),
{
    proof {
        reveal_strlit("e");
        reveal_strlit("d");
        reveal_strlit("f");
        reveal_strlit("s");
        reveal_strlit("z");
        reveal_strlit("r");
        reveal_strlit("space");
        assert("e"@ =~= seq!['e']);
        assert("d"@ =~= seq!['d']);
        assert("f"@ =~= seq!['f']);
        assert("s"@ =~= seq!['s']);
        assert("z"@ =~= seq!['z']);
        assert("r"@ =~= seq!['r']);
        assert("space"@ =~= seq!['s', 'p', 'a', 'c', 'e']);
    }
    let k = key.to_owned();
    if key_is(&k, "e") {
        KeyAction::MoveCamera(0, -50)
    } else if key_is(&k, "d") {
        KeyAction::MoveCamera(0, 50)
    } else if key_is(&k, "f") {
        KeyAction::MoveCamera(50, 0)
    } else if key_is(&k, "s") {
        KeyAction::MoveCamera(-50, 0)
    } else if key_is(&k, "z") {
        KeyAction::Undo
    } else if key_is(&k, "r") {
        KeyAction::Redo
    } else if key_is(&k, "space") {
        KeyAction::ChangeDragger
    } else {
        KeyAction::Unknown
    }
}

/// The objects inside the selection rectangle change the selection when
/// one of them is not selected or when their number differs from the
/// number of selected objects.
pub open spec fn rect_selection_changed<O: ToId>(selected: Seq<O>, in_rect: Seq<O>) -> bool {
    (exists|i: int| 0 <= i < in_rect.len() && !has_id(selected, #[trigger] in_rect[i].id_view()))
        || selected.len() != in_rect.len()
}

/// Whether the objects inside the selection rectangle change the selection.
pub fn selection_changed<S: SceneT>(context: &Context<S>, in_rect: &[S::Object]) -> (b: bool)
    ensures
        b == rect_selection_changed(context.selected@, in_rect@),
{
    let mut has_changed = false;
    let mut i: usize = 0;
    while i < in_rect.len()
        invariant
            0 <= i <= in_rect.len(),
            has_changed == exists|k: int|
                0 <= k < i && !has_id(context.selected@, #[trigger] in_rect@[k].id_view()),
        decreases in_rect.len() - i,
    {
        if !context.has_object(in_rect[i]) {
            has_changed = true;
        }
        i = i + 1;
    }
    if !has_changed {
        if context.selected.len() != in_rect.len() {
            has_changed = true;
        }
    }
    has_changed
}

/// Receives the new value of a property that changed elsewhere.
pub trait WidgetUpdate<V> {
    fn update_changed(&mut self, name: &str, new: &V);
}

} // verus!
