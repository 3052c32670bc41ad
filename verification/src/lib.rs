//! Scene-editor core: selection context, scene registry, undoable
//! operations, editor state and the decision logic of the editor widgets.

pub mod util;
pub mod data;
pub mod context;
pub mod operation;
pub mod state;
pub mod ui;
pub mod dragger;
pub mod control;
