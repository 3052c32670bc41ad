use vstd::prelude::*;

use vstd::hash_map::StringHashMap;

use crate::data::Id;

verus! {

/// The toolkit's action bar (only ever handled by address).
pub struct JkAction;

/// A label of the toolkit (only ever handled by address).
pub struct JkLabel;

/// A text entry of the toolkit (only ever handled by address).
pub struct JkEntry;

/// Where an action bar stands in its window.
#[derive(Clone, Copy, Debug, PartialEq, Eq, Structural)]
pub enum Position {
    Top,
    Bottom,
}

/// An action bar of an edit view: its buttons act on the view `view_id`;
/// `entries` are its text entries (by key, the entry's address).
pub struct Action {
    pub name: String,
    pub jk_action: usize,
    pub visible: bool,
    pub view_id: Id,
    pub entries: StringHashMap<usize>,
}

impl Action {
    /// The action bar over the toolkit bar `jk_action` (created at the top
    /// or at the bottom of the window), visible, without entries.
    pub fn new(jk_action: usize, view_id: Id) -> (a: Action)
        ensures
            a.name@ == "action_name"@,
            a.jk_action == jk_action,
            a.visible,
            a.view_id == view_id,
            a.entries@ == Map::<Seq<char>, usize>::empty(),
    {
        Action {
            name: "action_name".to_owned(),
            jk_action,
            visible: true,
            view_id,
            entries: StringHashMap::new(),
        }
    }

    /// Records the text entry `en` created under `key` (replacing any entry
    /// recorded under that key); returns it.
    pub fn add_entry(&mut self, key: String, en: usize) -> (r: usize)
        ensures
            r == en,
            final(self).entries@ == old(self).entries@.insert(key@, en),
            final(self).visible == old(self).visible,
            final(self).view_id == old(self).view_id,
            final(self).jk_action == old(self).jk_action,
    {
        self.entries.insert(key, en);
        en
    }

    /// The text entry recorded under `key`.
    pub fn entry(&self, key: &str) -> (r: Option<usize>)
        ensures
            r == if self.entries@.contains_key(key@) {
                Some(self.entries@[key@])
            } else {
                None::<usize>
            },
    {
        match self.entries.get(key) {
            Some(e) => Some(*e),
            None => None,
        }
    }

    /// Records whether the bar is shown; the caller shows or hides it.
    pub fn set_visible(&mut self, b: bool)
        ensures
            final(self).visible == b,
            final(self).entries@ == old(self).entries@,
            final(self).view_id == old(self).view_id,
            final(self).jk_action == old(self).jk_action,
    {
        self.visible = b;
    }

    pub fn visible(&self) -> (b: bool)
        ensures
            b == self.visible,
    {
        self.visible
    }
}

} // verus!
