# jk_editor

The core of a scene editor: the scenes it knows, the selection, undoable
operations with their history, the pointer and key handling of an edit view,
the draggers, and what the editor window asks of its widgets after each
change. Every function of `src/` with a body carries a contract proved
by Verus. The traits that a user implements for the engine's scenes and
widgets (`SceneT`, `WidgetUpdate`) declare methods without one where the
engine alone decides the outcome. Operations are specified by the requests
they make of the data they edit, and undoing one takes back, request by
request, what applying it asked.

- `src/util.rs`: property paths (joining and splitting at '/') and the
  parsing of indices.
- `src/data.rs`: the scene registry and the names of new scene files.
- `src/context.rs`: the current scene and the selected objects.
- `src/operation.rs`: operations, what applying and undoing them reports,
  and the undo/redo history with its laws.
- `src/state.rs`: the editing state, which turns requests into operations.
- `src/control.rs`, `src/dragger/`: the pointer state machine, the keys,
  and the draggers.
- `src/ui/`: the widgets' bookkeeping and the window container, which
  answers each change or event with the requests for its widgets.

`app/` holds what cannot be verified: the pointer, key and widget
handlers over the toolkit, the window layout on disk (serde), the scene
directory, the floating-point arithmetic of drags, and the plugin loader.
