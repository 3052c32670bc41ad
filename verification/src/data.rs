use vstd::prelude::*;

use crate::context::Context;
use crate::operation::ReceiverRequest;

verus! {

/// Identifier of a scene or of a scene object (the 128 bits of a uuid, or
/// an index for index-addressed worlds).
pub type Id = u128;

/// Something that carries an identifier.
pub trait ToId {
    /// The identifier of `self`.
    spec fn id_view(&self) -> Id;

    fn to_id(&self) -> (r: Id)
        ensures
            r == self.id_view(),
    ;
}

/// A scene as the editor sees it; implemented by the engine that owns the
/// scene graph.
pub trait SceneT: ToId + Sized {
    /// A handle to one object of the scene.
    type Object: ToId + Copy;

    /// A position or scale of an object.
    type Vector: Copy;

    /// An orientation of an object.
    type Orientation: Copy;

    /// The value of a property of an object, as the editor writes it.
    type Value;

    fn new_empty(name: &str, count: usize) -> Self;

    fn new_from_file(name: &str, count: usize) -> Self;

    // The views below are what the editor relies on of a scene. Each
    // engine gives them their meaning; the defaults fix no value.

    /// The name the scene carries (its file name).
    closed spec fn name_of(&self) -> Seq<char> {
        arbitrary()
    }

    /// The name under which the scene was last saved, if it was.
    closed spec fn saved_under(&self) -> Option<Seq<char>> {
        arbitrary()
    }

    /// The object with identifier `id` that the scene holds, if any.
    closed spec fn object_with_id(&self, id: Id) -> Option<Self::Object> {
        arbitrary()
    }

    /// The object that is the scene's camera, if any.
    closed spec fn camera_of(&self) -> Option<Self::Object> {
        arbitrary()
    }

    /// The edits of its objects and their properties that the scene was
    /// asked to make, oldest first.
    closed spec fn edits(&self) -> Seq<ReceiverRequest<Self::Object, Self::Value>> {
        arbitrary()
    }

    fn get_name(&self) -> (r: String)
        ensures
            r@ == self.name_of(),
    ;

    fn set_name(&mut self, s: String)
        ensures
            final(self).name_of() == s@,
            final(self).id_view() == old(self).id_view(),
    ;

    /// Writes the scene to the file that its name gives.
    fn save(&mut self)
        ensures
            final(self).name_of() == old(self).name_of(),
            final(self).id_view() == old(self).id_view(),
            final(self).saved_under() == Some(old(self).name_of()),
    ;

    fn get_objects(&self) -> Vec<Self::Object>;

    fn find_objects_with_id(&self, ids: &mut Vec<Id>) -> Vec<Self::Object>;

    fn find_object_with_id(&self, id: Id) -> (r: Option<Self::Object>)
        ensures
            r == self.object_with_id(id),
            r matches Some(o) ==> o.id_view() == id,
    ;

    fn add_objects(&mut self, parents: &[Option<Id>], obs: &[Self::Object])
        ensures
            final(self).edits() == old(self).edits().push(
                ReceiverRequest::AddObjects(old(self).id_view(), parents@, obs@),
            ),
    ;

    fn remove_objects(&mut self, parents: &[Option<Id>], obs: &[Self::Object])
        ensures
            final(self).edits() == old(self).edits().push(
                ReceiverRequest::RemoveObjects(old(self).id_view(), parents@, obs@),
            ),
    ;

    fn set_camera(&self, ob: Option<Self::Object>);

    fn get_camera_obj(&self) -> (r: Option<Self::Object>)
        ensures
            r == self.camera_of(),
    ;

    /// The parent of `o` in the scene.
    spec fn parent_of(&self, o: Self::Object) -> Option<Self::Object>;

    /// `o` as the scene holds it, with everything it carries.
    spec fn full_object_of(&self, o: Self::Object) -> Self::Object;

    /// The position of `o`.
    spec fn position_of(&self, o: Self::Object) -> Self::Vector;

    /// The scale of `o`.
    spec fn scale_of(&self, o: Self::Object) -> Self::Vector;

    /// The orientation of `o`.
    spec fn orientation_of(&self, o: Self::Object) -> Self::Orientation;

    fn get_parent(&self, o: Self::Object) -> (r: Option<Self::Object>)
        ensures
            r == self.parent_of(o),
    ;

    fn get_children(&self, o: Self::Object) -> Vec<Self::Object>;

    fn get_object_name(&self, o: Self::Object) -> String;

    fn get_full_object(&self, o: Self::Object) -> (r: Self::Object)
        ensures
            r == self.full_object_of(o),
    ;

    fn get_position(&self, o: Self::Object) -> (r: Self::Vector)
        ensures
            r == self.position_of(o),
    ;

    fn get_scale(&self, o: Self::Object) -> (r: Self::Vector)
        ensures
            r == self.scale_of(o),
    ;

    fn get_orientation(&self, o: Self::Object) -> (r: Self::Orientation)
        ensures
            r == self.orientation_of(o),
    ;

    /// Gives `o` the position `v`; the other objects keep theirs.
    fn set_position(&mut self, o: Self::Object, v: Self::Vector)
        ensures
            final(self).position_of(o) == v,
            forall|p: Self::Object| p != o ==> #[trigger] final(self).position_of(p) == old(self).position_of(p),
    ;

    /// Gives `o` the scale `v`; the other objects keep theirs.
    fn set_scale(&mut self, o: Self::Object, v: Self::Vector)
        ensures
            final(self).scale_of(o) == v,
            forall|p: Self::Object| p != o ==> #[trigger] final(self).scale_of(p) == old(self).scale_of(p),
    ;

    /// Gives `o` the orientation `ori`; the other objects keep theirs.
    fn set_orientation(&mut self, o: Self::Object, ori: Self::Orientation)
        ensures
            final(self).orientation_of(o) == ori,
            forall|p: Self::Object| p != o ==> #[trigger] final(self).orientation_of(p) == old(
                self,
            ).orientation_of(p),
    ;

    /// Writes `value` into the property at `path` of `o`.
    fn set_property(&mut self, o: Self::Object, path: &str, value: &Self::Value)
        ensures
            final(self).edits() == old(self).edits().push(
                ReceiverRequest::SetProperty(o.id_view(), path@, *value),
            ),
    ;

    /// Sets the optional property at `path` of `o` to none.
    fn set_property_none(&mut self, o: Self::Object, path: &str)
        ensures
            final(self).edits() == old(self).edits().push(
                ReceiverRequest::SetPropertyNone(o.id_view(), path@),
            ),
    ;

    /// Sets the optional property at `path` of `o` to some default value.
    fn set_property_some(&mut self, o: Self::Object, path: &str)
        ensures
            final(self).edits() == old(self).edits().push(
                ReceiverRequest::SetPropertySome(o.id_view(), path@),
            ),
    ;

    /// Inserts `value` at `index` of the vector property at `path` of `o`.
    fn add_item(&mut self, o: Self::Object, path: &str, index: usize, value: &Self::Value)
        ensures
            final(self).edits() == old(self).edits().push(
                ReceiverRequest::AddItem(o.id_view(), path@, index, *value),
            ),
    ;

    /// Inserts an empty item at `index` of the vector property at `path` of
    /// `o`.
    fn add_empty_item(&mut self, o: Self::Object, path: &str, index: usize)
        ensures
            final(self).edits() == old(self).edits().push(
                ReceiverRequest::AddEmptyItem(o.id_view(), path@, index),
            ),
    ;

    /// Removes the item at `index` of the vector property at `path` of `o`.
    fn del_item(&mut self, o: Self::Object, path: &str, index: usize)
        ensures
            final(self).edits() == old(self).edits().push(
                ReceiverRequest::DelItem(o.id_view(), path@, index),
            ),
    ;
}

/// The suffix of scene files.
pub open spec fn scene_suffix() -> Seq<char> {
    seq!['.', 's', 'c', 'e', 'n', 'e']
}

/// The name used when no scene is current.
pub open spec fn default_scene_name() -> Seq<char> {
    seq!['s', 'c', 'e', 'n', 'e', '/', 'n', 'e', 'w', '.', 's', 'c', 'e', 'n', 'e']
}

/// `s` without its ".scene" suffix, or `s` itself when it has none.
pub open spec fn strip_scene_suffix(s: Seq<char>) -> Seq<char> {
    let n = s.len();
    if n >= 6 && s.subrange(n - 6, n as int) == scene_suffix() {
        s.subrange(0, n - 6)
    } else {
        s
    }
}

pub open spec fn digit_char(d: nat) -> char {
    if d == 0 {
        '0'
    } else if d == 1 {
        '1'
    } else if d == 2 {
        '2'
    } else if d == 3 {
        '3'
    } else if d == 4 {
        '4'
    } else if d == 5 {
        '5'
    } else if d == 6 {
        '6'
    } else if d == 7 {
        '7'
    } else if d == 8 {
        '8'
    } else {
        '9'
    }
}

/// The decimal digits of `n`, without leading zeros.
pub open spec fn decimal(n: nat) -> Seq<char>
    decreases n,
{
    if n < 10 {
        seq![digit_char(n)]
    } else {
        decimal(n / 10).push(digit_char(n % 10))
    }
}

/// The decimal digits of `n`, left-padded with '0' to at least three digits
/// (the `{:03}` format).
pub open spec fn decimal_pad3(n: nat) -> Seq<char> {
    let d = decimal(n);
    if d.len() >= 3 {
        d
    } else {
        Seq::new((3 - d.len()) as nat, |_i: int| '0') + d
    }
}

/// The file name tried for the `i`-th new scene derived from `base`.
pub open spec fn scene_name_candidate_spec(base: Seq<char>, i: nat) -> Seq<char> {
    base + decimal_pad3(i) + scene_suffix()
}

/// The number of decimal digits of one-, two- and larger numbers.
pub proof fn lemma_decimal_len(n: nat)
    ensures
        n < 10 ==> decimal(n).len() == 1,
        10 <= n < 100 ==> decimal(n).len() == 2,
        100 <= n ==> decimal(n).len() >= 3,
    decreases n,
{
    if n >= 10 {
        lemma_decimal_len(n / 10);
    }
}

fn digit_str(d: u32) -> (r: &'static str)
    requires
        d < 10,
    ensures
        r@ == seq![digit_char(d as nat)],
{
    if d == 0 {
        proof { reveal_strlit("0"); }
        "0"
    } else if d == 1 {
        proof { reveal_strlit("1"); }
        "1"
    } else if d == 2 {
        proof { reveal_strlit("2"); }
        "2"
    } else if d == 3 {
        proof { reveal_strlit("3"); }
        "3"
    } else if d == 4 {
        proof { reveal_strlit("4"); }
        "4"
    } else if d == 5 {
        proof { reveal_strlit("5"); }
        "5"
    } else if d == 6 {
        proof { reveal_strlit("6"); }
        "6"
    } else if d == 7 {
        proof { reveal_strlit("7"); }
        "7"
    } else if d == 8 {
        proof { reveal_strlit("8"); }
        "8"
    } else {
        proof { reveal_strlit("9"); }
        "9"
    }
}

fn decimal_string(n: u32) -> (s: String)
    ensures
        s@ == decimal(n as nat),
    decreases n,
{
    if n < 10 {
        digit_str(n).to_owned()
    } else {
        let mut s = decimal_string(n / 10);
        s.append(digit_str(n % 10));
        s
    }
}

/// The file name tried for the `i`-th new scene derived from `base`:
/// `base`, then `i` with at least three digits, then ".scene".
pub fn scene_name_candidate(base: &str, i: u32) -> (s: String)
    ensures
        s@ == scene_name_candidate_spec(base@, i as nat),
{
    let digits = decimal_string(i);
    let mut s = base.to_owned();
    proof {
        lemma_decimal_len(i as nat);
        reveal_strlit("00");
        reveal_strlit("0");
        reveal_strlit(".scene");
    }
    if i < 10 {
        s.append("00");
        proof {
            assert(decimal_pad3(i as nat) =~= seq!['0', '0'] + decimal(i as nat));
        }
    } else if i < 100 {
        s.append("0");
        proof {
            assert(decimal_pad3(i as nat) =~= seq!['0'] + decimal(i as nat));
        }
    }
    s.append(digits.as_str());
    s.append(".scene");
    proof {
        assert(s@ =~= scene_name_candidate_spec(base@, i as nat));
    }
    s
}

/// The search for a free file name for a new scene: the candidates
/// derived from `base` with 0, 1, 2, ... are tried in turn until one names
/// no existing file (the caller looks at the files).
pub struct SceneNameSearch {
    pub base: String,
    pub next: u32,
}

impl SceneNameSearch {
    /// The search from `base`, starting at 0.
    pub fn new(base: String) -> (s: SceneNameSearch)
        ensures
            s.base == base,
            s.next == 0,
    {
        SceneNameSearch { base, next: 0 }
    }

    /// The name to try now.
    pub fn candidate(&self) -> (c: String)
        ensures
            c@ == scene_name_candidate_spec(self.base@, self.next as nat),
    {
        scene_name_candidate(self.base.as_str(), self.next)
    }

    /// The name tried was taken: the next number is tried.
    pub fn taken(&mut self)
        requires
            old(self).next < u32::MAX,
        ensures
            final(self).next == old(self).next + 1,
            final(self).base == old(self).base,
    {
        self.next = self.next + 1;
    }
}

/// Removes a trailing ".scene" from a scene name.
pub fn strip_scene_suffix_exec(name: &str) -> (r: String)
    ensures
        r@ == strip_scene_suffix(name@),
{
    let n = name.unicode_len();
    proof {
        reveal_strlit(".scene");
    }
    if n >= 6 {
        let tail = name.substring_char(n - 6, n).to_owned();
        let suffix = ".scene".to_owned();
        proof {
            assert(suffix@ =~= scene_suffix());
        }
        if tail == suffix {
            return name.substring_char(0, n - 6).to_owned();
        }
    }
    name.to_owned()
}

/// The name from which the name of a new scene is derived, given the name
/// of the current scene if there is one.
pub fn scene_name_base_from(current: Option<String>) -> (r: String)
    ensures
        r@ == match current {
            Some(n) => strip_scene_suffix(n@),
            None => default_scene_name(),
        },
{
    match current {
        Some(n) => strip_scene_suffix_exec(n.as_str()),
        None => {
            proof {
                reveal_strlit("scene/new.scene");
            }
            let r = "scene/new.scene".to_owned();
            proof {
                assert(r@ =~= default_scene_name());
            }
            r
        },
    }
}

/// The index of the first entry whose scene has identifier `id`.
pub open spec fn index_with_id<S: ToId>(v: Seq<(String, S)>, id: Id) -> Option<int>
    decreases v.len(),
{
    if v.len() == 0 {
        None
    } else {
        match index_with_id(v.drop_last(), id) {
            Some(i) => Some(i),
            None => if v.last().1.id_view() == id {
                Some(v.len() - 1)
            } else {
                None
            },
        }
    }
}

/// The index of the entry registered under `name`.
pub open spec fn index_with_name<S>(v: Seq<(String, S)>, name: Seq<char>) -> Option<int>
    decreases v.len(),
{
    if v.len() == 0 {
        None
    } else {
        match index_with_name(v.drop_last(), name) {
            Some(i) => Some(i),
            None => if v.last().0@ == name {
                Some(v.len() - 1)
            } else {
                None
            },
        }
    }
}

/// `index_with_id` gives the first entry whose scene has the identifier,
/// or none when no entry has it.
pub proof fn lemma_index_with_id<S: ToId>(v: Seq<(String, S)>, id: Id)
    ensures
        match index_with_id(v, id) {
            Some(i) => 0 <= i < v.len() && v[i].1.id_view() == id && forall|j: int|
                0 <= j < i ==> v[j].1.id_view() != id,
            None => forall|j: int| 0 <= j < v.len() ==> v[j].1.id_view() != id,
        },
    decreases v.len(),
{
    if v.len() > 0 {
        lemma_index_with_id(v.drop_last(), id);
        assert forall|j: int| 0 <= j < v.len() - 1 implies v.drop_last()[j] == v[j] by {}
    }
}

/// `index_with_name` gives the first entry registered under the name, or
/// none when no entry is.
pub proof fn lemma_index_with_name<S>(v: Seq<(String, S)>, name: Seq<char>)
    ensures
        match index_with_name(v, name) {
            Some(i) => 0 <= i < v.len() && v[i].0@ == name && forall|j: int|
                0 <= j < i ==> v[j].0@ != name,
            None => forall|j: int| 0 <= j < v.len() ==> v[j].0@ != name,
        },
    decreases v.len(),
{
    if v.len() > 0 {
        lemma_index_with_name(v.drop_last(), name);
        assert forall|j: int| 0 <= j < v.len() - 1 implies v.drop_last()[j] == v[j] by {}
    }
}

/// The index of the first entry whose scene holds an object with
/// identifier `id`.
pub open spec fn holder_index<S: SceneT>(v: Seq<(String, S)>, id: Id) -> Option<int>
    decreases v.len(),
{
    if v.len() == 0 {
        None
    } else {
        match holder_index(v.drop_last(), id) {
            Some(i) => Some(i),
            None => if v.last().1.object_with_id(id) is Some {
                Some(v.len() - 1)
            } else {
                None
            },
        }
    }
}

/// An edit of the properties of object `id` is for the first registered
/// scene that holds that object: that scene holds it and no scene before
/// it does; when no scene holds it, there is none.
pub proof fn lemma_holder_index<S: SceneT>(v: Seq<(String, S)>, id: Id)
    ensures
        match holder_index(v, id) {
            Some(i) => 0 <= i < v.len() && v[i].1.object_with_id(id) is Some && forall|j: int|
                0 <= j < i ==> v[j].1.object_with_id(id) is None,
            None => forall|j: int| 0 <= j < v.len() ==> v[j].1.object_with_id(id) is None,
        },
    decreases v.len(),
{
    if v.len() > 0 {
        lemma_holder_index(v.drop_last(), id);
        assert forall|j: int| 0 <= j < v.len() - 1 implies v.drop_last()[j] == v[j] by {}
    }
}

/// `holder_index` on a prefix of `v` agrees with `holder_index` on `v`
/// when the prefix already holds the object, and finds nothing when no
/// scene of the prefix holds it.
proof fn lemma_holder_prefix<S: SceneT>(v: Seq<(String, S)>, id: Id, k: int)
    requires
        0 <= k <= v.len(),
        forall|j: int| 0 <= j < k ==> v[j].1.object_with_id(id) is None,
    ensures
        holder_index(v.take(k), id) is None,
    decreases k,
{
    if k > 0 {
        assert(v.take(k).drop_last() =~= v.take(k - 1));
        lemma_holder_prefix(v, id, k - 1);
    }
}

/// The name that the scene registered with identifier `sc` carries.
pub open spec fn scene_name_of<S: SceneT>(v: Seq<(String, S)>, sc: Id) -> Seq<char> {
    v[index_with_id(v, sc).unwrap()].1.name_of()
}

/// The name of the scene with identifier `sc` is that of the first
/// registered scene whose identifier is `sc`.
pub proof fn lemma_scene_name_of<S: SceneT>(v: Seq<(String, S)>, sc: Id, i: int)
    requires
        0 <= i < v.len(),
        v[i].1.id_view() == sc,
        forall|j: int| 0 <= j < i ==> v[j].1.id_view() != sc,
    ensures
        scene_name_of(v, sc) == v[i].1.name_of(),
{
    lemma_index_with_id(v, sc);
    let k = index_with_id(v, sc).unwrap();
    assert(k == i) by {
        if k < i {
        } else if k > i {
        }
    }
}

/// A new scene derived from the current scene `sc` is named after it:
/// when that scene is called `stem` followed by ".scene", the new names
/// start with `stem`.
pub proof fn lemma_name_base_of_current<S: SceneT>(v: Seq<(String, S)>, sc: Id, stem: Seq<char>)
    requires
        index_with_id(v, sc) is Some,
        scene_name_of(v, sc) == stem + scene_suffix(),
    ensures
        strip_scene_suffix(scene_name_of(v, sc)) == stem,
{
    let n = scene_name_of(v, sc);
    assert(n.subrange(n.len() - 6, n.len() as int) =~= scene_suffix());
    assert(n.subrange(0, n.len() - 6) =~= stem);
}

/// `scene` carries the name `name` and was last saved under it.
pub open spec fn renamed_and_saved<S: SceneT>(scene: S, name: Seq<char>) -> bool {
    &&& scene.name_of() == name
    &&& scene.saved_under() == Some(name)
}

/// Two registries whose scenes have the same identifiers, index by index,
/// find a scene identifier at the same index.
pub proof fn lemma_index_with_id_same_ids<S: ToId>(v: Seq<(String, S)>, w: Seq<(String, S)>, id: Id)
    requires
        v.len() == w.len(),
        forall|j: int| 0 <= j < v.len() ==> #[trigger] v[j].1.id_view() == w[j].1.id_view(),
    ensures
        index_with_id(v, id) == index_with_id(w, id),
    decreases v.len(),
{
    if v.len() > 0 {
        assert forall|j: int| 0 <= j < v.len() - 1 implies #[trigger] v.drop_last()[j].1.id_view()
            == w.drop_last()[j].1.id_view() by {
            assert(v.drop_last()[j] == v[j]);
            assert(w.drop_last()[j] == w[j]);
        }
        lemma_index_with_id_same_ids(v.drop_last(), w.drop_last(), id);
    }
}

/// A renamed scene is on disk under the name it now carries, and new
/// scenes derived from it are named after that name: renaming the scene
/// with identifier `sc` to `stem` followed by ".scene" makes `stem` the
/// base of the next new scene's name.
pub proof fn lemma_renamed_scene_names_new_scenes<S: SceneT>(v: Seq<(String, S)>, sc: Id, stem: Seq<char>)
    requires
        index_with_id(v, sc) matches Some(i) && renamed_and_saved(v[i].1, stem + scene_suffix()),
    ensures
        v[index_with_id(v, sc).unwrap()].1.saved_under() == Some(scene_name_of(v, sc)),
        strip_scene_suffix(scene_name_of(v, sc)) == stem,
{
    lemma_name_base_of_current(v, sc, stem);
}

/// What writing `values[k]` to `objects[k]`, for each `k` in turn, leaves
/// for `p`: the value of the last write to `p`, or `before` when `p` is
/// not written.
pub open spec fn written_value<O, T>(objects: Seq<O>, values: Seq<T>, p: O, before: T) -> T
    decreases objects.len(),
{
    if objects.len() == 0 {
        before
    } else if objects.last() == p {
        values[objects.len() - 1]
    } else {
        written_value(objects.drop_last(), values, p, before)
    }
}

/// After a run of writes, an object that is written once has the value
/// written to it, and an object that is not written keeps its value.
pub proof fn lemma_written_value<O, T>(objects: Seq<O>, values: Seq<T>, p: O, before: T)
    ensures
        !objects.contains(p) ==> written_value(objects, values, p, before) == before,
        forall|k: int|
            0 <= k < objects.len() && objects[k] == p && (forall|m: int|
                0 <= m < objects.len() && m != k ==> objects[m] != p) ==> written_value(
                objects,
                values,
                p,
                before,
            ) == values[k],
    decreases objects.len(),
{
    if objects.len() > 0 {
        let d = objects.drop_last();
        lemma_written_value(d, values, p, before);
        assert forall|j: int| 0 <= j < d.len() implies d[j] == objects[j] by {}
        if !objects.contains(p) {
            assert(objects.last() != p) by {
                assert(objects[objects.len() - 1] == objects.last());
            }
            assert(!d.contains(p)) by {
                if d.contains(p) {
                    let j = choose|j: int| 0 <= j < d.len() && d[j] == p;
                    assert(objects[j] == p);
                }
            }
        }
        assert forall|k: int|
            0 <= k < objects.len() && objects[k] == p && (forall|m: int|
                0 <= m < objects.len() && m != k ==> objects[m] != p) implies written_value(
                objects,
                values,
                p,
                before,
            ) == values[k] by {
            if k < objects.len() - 1 {
                assert(objects[objects.len() - 1] != p);
                assert forall|m: int| 0 <= m < d.len() && m != k implies d[m] != p by {
                    assert(objects[m] != p);
                }
            }
        }
    }
}

/// No two entries share a name.
pub open spec fn names_unique<S>(v: Seq<(String, S)>) -> bool {
    forall|i: int, j: int| 0 <= i < j < v.len() ==> v[i].0@ != v[j].0@
}

/// A request that the registry handed to the scene with an identifier.
pub ghost enum SceneRequest<S: SceneT> {
    /// Add these objects under these parents.
    AddObjects(Id, Seq<Option<Id>>, Seq<S::Object>),
    /// Remove these objects, which are under these parents.
    RemoveObjects(Id, Seq<Option<Id>>, Seq<S::Object>),
    /// Make this object, or none, the camera.
    SetCamera(Id, Option<S::Object>),
    /// Give each object the position at the same index.
    SetPositions(Id, Seq<S::Object>, Seq<S::Vector>),
    /// Give each object the scale at the same index.
    SetScales(Id, Seq<S::Object>, Seq<S::Vector>),
    /// Give each object the orientation at the same index.
    SetOrientations(Id, Seq<S::Object>, Seq<S::Orientation>),
    /// Take this name and be saved under it.
    Rename(Id, Seq<char>),
}

/// The scenes known to the editor, each registered under its file name.
/// The scenes are the engine's: what the registry knows of the edits it
/// passes on is the requests it handed to them, in order.
pub struct Data<S: SceneT> {
    scenes: Vec<(String, S)>,
    id_count: usize,
    requests: Ghost<Seq<SceneRequest<S>>>,
    received: Ghost<Seq<ReceiverRequest<S::Object, S::Value>>>,
}

impl<S: SceneT> Data<S> {
    #[verifier::type_invariant]
    spec fn inv(self) -> bool {
        names_unique(self.scenes@)
    }

    /// Takes the entries out, leaving none.
    fn take_scenes(&mut self) -> (r: Vec<(String, S)>)
        ensures
            r@ == old(self).entries(),
            names_unique(r@),
            final(self).entries().len() == 0,
            final(self).count() == old(self).count(),
            final(self).requests() == old(self).requests(),
            final(self).received_log() == old(self).received_log(),
    {
        proof {
            use_type_invariant(&*self);
        }
        let mut v: Vec<(String, S)> = Vec::new();
        std::mem::swap(&mut v, &mut self.scenes);
        v
    }

    /// The registered (name, scene) entries, in registration order.
    pub closed spec fn entries(&self) -> Seq<(String, S)> {
        self.scenes@
    }

    /// How many scene identifiers were handed out so far.
    pub closed spec fn count(&self) -> nat {
        self.id_count as nat
    }

    /// The requests handed to the registered scenes so far, oldest first.
    pub closed spec fn requests(&self) -> Seq<SceneRequest<S>> {
        self.requests@
    }

    /// `r` recorded as handed to the scene `scene_id` when one is
    /// registered; nothing otherwise.
    pub open spec fn requests_after(&self, scene_id: Id, r: SceneRequest<S>) -> Seq<SceneRequest<S>> {
        if index_with_id(self.entries(), scene_id) is Some {
            self.requests().push(r)
        } else {
            self.requests()
        }
    }

    /// The requests received as the receiver of operations, oldest first.
    pub closed spec fn received_log(&self) -> Seq<ReceiverRequest<S::Object, S::Value>> {
        self.received@
    }

    pub fn new() -> (d: Data<S>)
        ensures
            d.entries().len() == 0,
            d.count() == 0,
            d.requests().len() == 0,
            d.received_log().len() == 0,
            names_unique(d.entries()),
    {
        Data {
            scenes: Vec::new(),
            id_count: 0,
            requests: Ghost(Seq::empty()),
            received: Ghost(Seq::empty()),
        }
    }

    /// Records `r` as received.
    pub(crate) fn receive(&mut self, Ghost(r): Ghost<ReceiverRequest<S::Object, S::Value>>)
        ensures
            final(self).received_log() == old(self).received_log().push(r),
            final(self).entries() == old(self).entries(),
            final(self).count() == old(self).count(),
            final(self).requests() == old(self).requests(),
    {
        proof {
            use_type_invariant(&*self);
        }
        self.received = Ghost(self.received@.push(r));
    }

    /// How many scene identifiers were handed out so far.
    pub fn id_count(&self) -> (r: usize)
        ensures
            r == self.count(),
    {
        self.id_count
    }

    /// The entries, in registration order.
    pub fn scenes(&self) -> (r: &Vec<(String, S)>)
        ensures
            r@ == self.entries(),
            names_unique(r@),
    {
        proof {
            use_type_invariant(self);
        }
        &self.scenes
    }

    fn find_id(&self, id: Id) -> (r: Option<usize>)
        ensures
            match r {
                Some(i) => index_with_id(self.entries(), id) == Some(i as int),
                None => index_with_id(self.entries(), id) is None,
            },
    {
        let mut i: usize = 0;
        while i < self.scenes.len()
            invariant
                0 <= i <= self.scenes.len(),
                index_with_id(self.scenes@.take(i as int), id) is None,
            decreases self.scenes.len() - i,
        {
            proof {
                assert(self.scenes@.take(i + 1).drop_last() =~= self.scenes@.take(i as int));
            }
            if self.scenes[i].1.to_id() == id {
                proof {
                    assert(self.scenes@.take(i + 1).last() == self.scenes@[i as int]);
                    lemma_index_with_id(self.scenes@.take(i + 1), id);
                    lemma_index_with_id(self.scenes@, id);
                    lemma_index_prefix_id(self.scenes@, id, i as int + 1);
                }
                return Some(i);
            }
            i = i + 1;
        }
        proof {
            assert(self.scenes@.take(i as int) =~= self.scenes@);
        }
        None
    }

    fn find_name(&self, name: &str) -> (r: Option<usize>)
        ensures
            match r {
                Some(i) => index_with_name(self.entries(), name@) == Some(i as int),
                None => index_with_name(self.entries(), name@) is None,
            },
    {
        let mut i: usize = 0;
        let key = name.to_owned();
        while i < self.scenes.len()
            invariant
                0 <= i <= self.scenes.len(),
                key@ == name@,
                index_with_name(self.scenes@.take(i as int), name@) is None,
            decreases self.scenes.len() - i,
        {
            proof {
                assert(self.scenes@.take(i + 1).drop_last() =~= self.scenes@.take(i as int));
            }
            if self.scenes[i].0 == key {
                proof {
                    assert(self.scenes@.take(i + 1).last() == self.scenes@[i as int]);
                    lemma_index_prefix_name(self.scenes@, name@, i as int + 1);
                }
                return Some(i);
            }
            i = i + 1;
        }
        proof {
            assert(self.scenes@.take(i as int) =~= self.scenes@);
        }
        None
    }

    /// The first scene whose identifier is `id`.
    pub fn get_scene(&self, id: Id) -> (r: Option<&S>)
        ensures
            r is Some <==> index_with_id(self.entries(), id) is Some,
            r is Some ==> *r.unwrap() == self.entries()[index_with_id(self.entries(), id).unwrap()].1,
    {
        proof {
            lemma_index_with_id(self.entries(), id);
        }
        match self.find_id(id) {
            Some(i) => {
                let r = &self.scenes[i].1;
                proof {
                    assert(i as int == index_with_id(self.entries(), id).unwrap());
                    assert(*r == self.entries()[i as int].1);
                }
                Some(r)
            },
            None => None,
        }
    }

    /// Registers `scene` under `name` unless an entry with that name exists;
    /// returns the index of the entry registered under `name`.
    fn insert_if_absent(&mut self, name: String, scene: S) -> (k: usize)
        ensures
            names_unique(final(self).entries()),
            final(self).count() == old(self).count(),
            match index_with_name(old(self).entries(), name@) {
                Some(i) => final(self).entries() == old(self).entries() && k == i,
                None => final(self).entries() == old(self).entries().push((name, scene)) && k
                    == old(self).entries().len(),
            },
            final(self).received_log() == old(self).received_log(),
    {
        proof {
            use_type_invariant(&*self);
        }
        proof {
            lemma_index_with_name(self.scenes@, name@);
        }
        match self.find_name(name.as_str()) {
            Some(i) => i,
            None => {
                let k = self.scenes.len();
                let mut scenes = self.take_scenes();
                let ghost before = scenes@;
                scenes.push((name, scene));
                proof {
                    assert forall|a: int, b: int| 0 <= a < b < scenes@.len() implies scenes@[a].0@
                        != scenes@[b].0@ by {
                        if b == before.len() {
                            assert(before[a] == scenes@[a]);
                        } else {
                            assert(before[a] == scenes@[a] && before[b] == scenes@[b]);
                        }
                    }
                }
                self.scenes = scenes;
                k
            },
        }
    }

    /// Creates an empty scene (the next identifier count is handed to it) and
    /// registers it under `name` unless a scene is registered there already;
    /// returns the scene registered under `name`.
    pub fn add_empty_scene(&mut self, name: String) -> (r: &S)
        requires
            old(self).count() < usize::MAX,
        ensures
            final(self).count() == old(self).count() + 1,
            names_unique(final(self).entries()),
            match index_with_name(old(self).entries(), name@) {
                Some(i) => final(self).entries() == old(self).entries() && *r == old(self).entries()[i].1,
                None => final(self).entries().len() == old(self).entries().len() + 1
                    && final(self).entries().drop_last() == old(self).entries()
                    && final(self).entries().last().0@ == name@ && *r == final(self).entries().last().1,
            },
            final(self).received_log() == old(self).received_log(),
    {
        proof {
            use_type_invariant(&*self);
        }
        self.id_count = self.id_count + 1;
        let scene = S::new_empty(name.as_str(), self.id_count);
        let k = self.insert_if_absent(name, scene);
        proof {
            lemma_index_with_name(old(self).entries(), name@);
            if index_with_name(old(self).entries(), name@) is None {
                assert(self.scenes@.drop_last() =~= old(self).entries());
            }
        }
        &self.scenes[k].1
    }

    /// Loads the scene stored in the file `name` (the next identifier count is
    /// handed to it) and registers it under `name` unless a scene is
    /// registered there already; returns the scene registered under `name`.
    pub fn get_or_load_scene(&mut self, name: &str) -> (r: &S)
        requires
            old(self).count() < usize::MAX,
        ensures
            final(self).count() == old(self).count() + 1,
            names_unique(final(self).entries()),
            match index_with_name(old(self).entries(), name@) {
                Some(i) => final(self).entries() == old(self).entries() && *r == old(self).entries()[i].1,
                None => final(self).entries().len() == old(self).entries().len() + 1
                    && final(self).entries().drop_last() == old(self).entries()
                    && final(self).entries().last().0@ == name@ && *r == final(self).entries().last().1,
            },
            final(self).received_log() == old(self).received_log(),
    {
        proof {
            use_type_invariant(&*self);
        }
        self.id_count = self.id_count + 1;
        let scene = S::new_from_file(name, self.id_count);
        let k = self.insert_if_absent(name.to_owned(), scene);
        proof {
            lemma_index_with_name(old(self).entries(), name@);
            if index_with_name(old(self).entries(), name@) is None {
                assert(self.scenes@.drop_last() =~= old(self).entries());
            }
        }
        &self.scenes[k].1
    }

    /// Some scene, loading or creating one when none is registered: the
    /// first registered scene; else the first of `files` (the files of the
    /// scene directory); else a new empty scene "scene/new.scene".
    pub fn get_or_load_any_scene(&mut self, files: &[String]) -> (r: &S)
        requires
            old(self).count() + 2 <= usize::MAX,
        ensures
            final(self).count() == old(self).count() + 2,
            names_unique(final(self).entries()),
            old(self).entries().len() > 0 ==> final(self).entries() == old(self).entries() && *r
                == old(self).entries()[0].1,
            old(self).entries().len() == 0 ==> final(self).entries().len() == 1 && *r == final(self).entries()[0].1 && final(self).entries()[0].0@ == if files@.len() == 0 {
                default_scene_name()
            } else {
                files@[0]@
            },
            final(self).received_log() == old(self).received_log(),
    {
        proof {
            use_type_invariant(&*self);
        }
        self.id_count = self.id_count + 1;
        if self.scenes.len() == 0 {
            if files.len() == 0 {
                proof {
                    reveal_strlit("scene/new.scene");
                }
                let name = "scene/new.scene".to_owned();
                proof {
                    assert(name@ =~= default_scene_name());
                }
                self.add_empty_scene(name)
            } else {
                self.get_or_load_scene(files[0].as_str())
            }
        } else {
            let first_key = self.scenes[0].0.clone();
            proof {
                lemma_index_with_name(self.scenes@, first_key@);
                assert(index_with_name(self.scenes@.take(1), first_key@) == Some(0int)) by {
                    assert(self.scenes@.take(1).drop_last() =~= Seq::<(String, S)>::empty());
                    assert(self.scenes@.take(1).last() == self.scenes@[0]);
                    assert(index_with_name(Seq::<(String, S)>::empty(), first_key@) is None);
                }
                lemma_index_prefix_name(self.scenes@, first_key@, 1);
            }
            self.get_or_load_scene(first_key.as_str())
        }
    }

    /// The name from which the name of a new scene is derived: the name of
    /// the context's scene without its ".scene" suffix, or
    /// "scene/new.scene" when the context has no scene.
    pub fn scene_name_base(&self, context: &Context<S>) -> (r: String)
        requires
            context.scene matches Some(sc) ==> index_with_id(self.entries(), sc) is Some,
        ensures
            context.scene is None ==> r@ == default_scene_name(),
            context.scene matches Some(sc) ==> r@ == strip_scene_suffix(scene_name_of(self.entries(), sc)),
    {
        let current = match context.scene {
            Some(sc) => Some(self.get_scene(sc).unwrap().get_name()),
            None => None,
        };
        scene_name_base_from(current)
    }

    /// Hands `parents` and `objects` to the scene whose identifier is
    /// `scene_id`, if there is one, to be added to it.
    pub fn add_objects(&mut self, scene_id: Id, parents: &[Option<Id>], objects: &[S::Object])
        ensures
            final(self).count() == old(self).count(),
            final(self).entries().len() == old(self).entries().len(),
            forall|j: int|
                0 <= j < old(self).entries().len() ==> #[trigger] final(self).entries()[j].0
                    == old(self).entries()[j].0,
            forall|j: int|
                0 <= j < old(self).entries().len() && Some(j) != index_with_id(
                    old(self).entries(),
                    scene_id,
                ) ==> #[trigger] final(self).entries()[j] == old(self).entries()[j],
            final(self).requests() == old(self).requests_after(scene_id, SceneRequest::AddObjects(scene_id, parents@, objects@)),
            final(self).received_log() == old(self).received_log(),
            index_with_id(old(self).entries(), scene_id) matches Some(i) ==> final(self).entries()[i].1.edits()
                == old(self).entries()[i].1.edits().push(ReceiverRequest::AddObjects(scene_id, parents@, objects@)),
    {
        proof {
            use_type_invariant(&*self);
        }
        proof {
            lemma_index_with_id(self.scenes@, scene_id);
        }
        if let Some(i) = self.find_id(scene_id) {
            self.requests = Ghost(self.requests@.push(SceneRequest::AddObjects(scene_id, parents@, objects@)));
            let ghost before = self.scenes@;
            let mut scenes = self.take_scenes();
            let mut entry = scenes.remove(i);
            entry.1.add_objects(parents, objects);
            scenes.insert(i, entry);
            proof {
                assert forall|a: int, b: int| 0 <= a < b < scenes@.len() implies scenes@[a].0@
                    != scenes@[b].0@ by {
                    assert(scenes@[a].0 == before[a].0);
                    assert(scenes@[b].0 == before[b].0);
                }
            }
            self.scenes = scenes;
            proof {
                assert forall|j: int| 0 <= j < before.len() && j != i implies #[trigger] self.scenes@[j] == before[j] by {
                    if j < i {
                    } else {
                    }
                }
            }
        }
    }

    /// Hands `parents` and `objects` to the scene whose identifier is
    /// `scene_id`, if there is one, to be removed from it.
    pub fn remove_objects(&mut self, scene_id: Id, parents: &[Option<Id>], objects: &[S::Object])
        ensures
            final(self).count() == old(self).count(),
            final(self).entries().len() == old(self).entries().len(),
            forall|j: int|
                0 <= j < old(self).entries().len() ==> #[trigger] final(self).entries()[j].0
                    == old(self).entries()[j].0,
            forall|j: int|
                0 <= j < old(self).entries().len() && Some(j) != index_with_id(
                    old(self).entries(),
                    scene_id,
                ) ==> #[trigger] final(self).entries()[j] == old(self).entries()[j],
            final(self).requests() == old(self).requests_after(scene_id, SceneRequest::RemoveObjects(scene_id, parents@, objects@)),
            final(self).received_log() == old(self).received_log(),
            index_with_id(old(self).entries(), scene_id) matches Some(i) ==> final(self).entries()[i].1.edits()
                == old(self).entries()[i].1.edits().push(ReceiverRequest::RemoveObjects(scene_id, parents@, objects@)),
    {
        proof {
            use_type_invariant(&*self);
        }
        proof {
            lemma_index_with_id(self.scenes@, scene_id);
        }
        if let Some(i) = self.find_id(scene_id) {
            self.requests = Ghost(self.requests@.push(SceneRequest::RemoveObjects(scene_id, parents@, objects@)));
            let ghost before = self.scenes@;
            let mut scenes = self.take_scenes();
            let mut entry = scenes.remove(i);
            entry.1.remove_objects(parents, objects);
            scenes.insert(i, entry);
            proof {
                assert forall|a: int, b: int| 0 <= a < b < scenes@.len() implies scenes@[a].0@
                    != scenes@[b].0@ by {
                    assert(scenes@[a].0 == before[a].0);
                    assert(scenes@[b].0 == before[b].0);
                }
            }
            self.scenes = scenes;
            proof {
                assert forall|j: int| 0 <= j < before.len() && j != i implies #[trigger] self.scenes@[j] == before[j] by {
                    if j < i {
                    } else {
                    }
                }
            }
        }
    }

    /// Gives each of `objects` of the scene whose identifier is `scene_id`,
    /// if there is one, the position at the same index of `values`.
    pub fn set_positions(&mut self, scene_id: Id, objects: &[S::Object], values: &[S::Vector])
        requires
            values@.len() >= objects@.len(),
        ensures
            final(self).count() == old(self).count(),
            final(self).entries().len() == old(self).entries().len(),
            forall|j: int|
                0 <= j < old(self).entries().len() ==> #[trigger] final(self).entries()[j].0
                    == old(self).entries()[j].0,
            forall|j: int|
                0 <= j < old(self).entries().len() && Some(j) != index_with_id(
                    old(self).entries(),
                    scene_id,
                ) ==> #[trigger] final(self).entries()[j] == old(self).entries()[j],
            final(self).requests() == old(self).requests_after(scene_id, SceneRequest::SetPositions(scene_id, objects@, values@.take(objects@.len() as int))),
            final(self).received_log() == old(self).received_log(),
            index_with_id(old(self).entries(), scene_id) matches Some(i) ==> forall|p: S::Object|
                #[trigger] final(self).entries()[i].1.position_of(p) == written_value(
                    objects@,
                    values@,
                    p,
                    old(self).entries()[i].1.position_of(p),
                ),
    {
        proof {
            use_type_invariant(&*self);
        }
        proof {
            lemma_index_with_id(self.scenes@, scene_id);
        }
        if let Some(i) = self.find_id(scene_id) {
            self.requests = Ghost(self.requests@.push(SceneRequest::SetPositions(scene_id, objects@, values@.take(objects@.len() as int))));
            let ghost before = self.scenes@;
            let mut scenes = self.take_scenes();
            let mut entry = scenes.remove(i);
            let ghost name = entry.0;
            let ghost scene0 = entry.1;
            let mut k: usize = 0;
            proof {
                assert(objects@.take(0).len() == 0);
            }
            while k < objects.len()
                invariant
                    0 <= k <= objects.len(),
                    values@.len() >= objects@.len(),
                    entry.0 == name,
                    forall|p: S::Object|
                        #[trigger] entry.1.position_of(p) == written_value(
                            objects@.take(k as int),
                            values@,
                            p,
                            scene0.position_of(p),
                        ),
                decreases objects.len() - k,
            {
                entry.1.set_position(objects[k], values[k]);
                proof {
                    let w = objects@.take(k + 1);
                    assert(w.drop_last() =~= objects@.take(k as int));
                    assert(w.last() == objects@[k as int]);
                    assert forall|p: S::Object| #[trigger] entry.1.position_of(p) == written_value(
                        w,
                        values@,
                        p,
                        scene0.position_of(p),
                    ) by {
                        if p != objects@[k as int] {
                        }
                    }
                }
                k = k + 1;
            }
            proof {
                assert(objects@.take(objects@.len() as int) =~= objects@);
            }
            scenes.insert(i, entry);
            proof {
                assert forall|a: int, b: int| 0 <= a < b < scenes@.len() implies scenes@[a].0@
                    != scenes@[b].0@ by {
                    assert(scenes@[a].0 == before[a].0);
                    assert(scenes@[b].0 == before[b].0);
                }
            }
            self.scenes = scenes;
            proof {
                assert forall|j: int| 0 <= j < before.len() && j != i implies #[trigger] self.scenes@[j] == before[j] by {
                    if j < i {
                    } else {
                    }
                }
            }
        }
    }

    /// Gives each of `objects` of the scene whose identifier is `scene_id`,
    /// if there is one, the scale at the same index of `values`.
    pub fn set_scales(&mut self, scene_id: Id, objects: &[S::Object], values: &[S::Vector])
        requires
            values@.len() >= objects@.len(),
        ensures
            final(self).count() == old(self).count(),
            final(self).entries().len() == old(self).entries().len(),
            forall|j: int|
                0 <= j < old(self).entries().len() ==> #[trigger] final(self).entries()[j].0
                    == old(self).entries()[j].0,
            forall|j: int|
                0 <= j < old(self).entries().len() && Some(j) != index_with_id(
                    old(self).entries(),
                    scene_id,
                ) ==> #[trigger] final(self).entries()[j] == old(self).entries()[j],
            final(self).requests() == old(self).requests_after(scene_id, SceneRequest::SetScales(scene_id, objects@, values@.take(objects@.len() as int))),
            final(self).received_log() == old(self).received_log(),
            index_with_id(old(self).entries(), scene_id) matches Some(i) ==> forall|p: S::Object|
                #[trigger] final(self).entries()[i].1.scale_of(p) == written_value(
                    objects@,
                    values@,
                    p,
                    old(self).entries()[i].1.scale_of(p),
                ),
    {
        proof {
            use_type_invariant(&*self);
        }
        proof {
            lemma_index_with_id(self.scenes@, scene_id);
        }
        if let Some(i) = self.find_id(scene_id) {
            self.requests = Ghost(self.requests@.push(SceneRequest::SetScales(scene_id, objects@, values@.take(objects@.len() as int))));
            let ghost before = self.scenes@;
            let mut scenes = self.take_scenes();
            let mut entry = scenes.remove(i);
            let ghost name = entry.0;
            let ghost scene0 = entry.1;
            let mut k: usize = 0;
            proof {
                assert(objects@.take(0).len() == 0);
            }
            while k < objects.len()
                invariant
                    0 <= k <= objects.len(),
                    values@.len() >= objects@.len(),
                    entry.0 == name,
                    forall|p: S::Object|
                        #[trigger] entry.1.scale_of(p) == written_value(
                            objects@.take(k as int),
                            values@,
                            p,
                            scene0.scale_of(p),
                        ),
                decreases objects.len() - k,
            {
                entry.1.set_scale(objects[k], values[k]);
                proof {
                    let w = objects@.take(k + 1);
                    assert(w.drop_last() =~= objects@.take(k as int));
                    assert(w.last() == objects@[k as int]);
                    assert forall|p: S::Object| #[trigger] entry.1.scale_of(p) == written_value(
                        w,
                        values@,
                        p,
                        scene0.scale_of(p),
                    ) by {
                        if p != objects@[k as int] {
                        }
                    }
                }
                k = k + 1;
            }
            proof {
                assert(objects@.take(objects@.len() as int) =~= objects@);
            }
            scenes.insert(i, entry);
            proof {
                assert forall|a: int, b: int| 0 <= a < b < scenes@.len() implies scenes@[a].0@
                    != scenes@[b].0@ by {
                    assert(scenes@[a].0 == before[a].0);
                    assert(scenes@[b].0 == before[b].0);
                }
            }
            self.scenes = scenes;
            proof {
                assert forall|j: int| 0 <= j < before.len() && j != i implies #[trigger] self.scenes@[j] == before[j] by {
                    if j < i {
                    } else {
                    }
                }
            }
        }
    }

    /// Gives each of `objects` of the scene whose identifier is `scene_id`,
    /// if there is one, the orientation at the same index of `values`.
    pub fn set_orientations(&mut self, scene_id: Id, objects: &[S::Object], values: &[S::Orientation])
        requires
            values@.len() >= objects@.len(),
        ensures
            final(self).count() == old(self).count(),
            final(self).entries().len() == old(self).entries().len(),
            forall|j: int|
                0 <= j < old(self).entries().len() ==> #[trigger] final(self).entries()[j].0
                    == old(self).entries()[j].0,
            forall|j: int|
                0 <= j < old(self).entries().len() && Some(j) != index_with_id(
                    old(self).entries(),
                    scene_id,
                ) ==> #[trigger] final(self).entries()[j] == old(self).entries()[j],
            final(self).requests() == old(self).requests_after(scene_id, SceneRequest::SetOrientations(scene_id, objects@, values@.take(objects@.len() as int))),
            final(self).received_log() == old(self).received_log(),
            index_with_id(old(self).entries(), scene_id) matches Some(i) ==> forall|p: S::Object|
                #[trigger] final(self).entries()[i].1.orientation_of(p) == written_value(
                    objects@,
                    values@,
                    p,
                    old(self).entries()[i].1.orientation_of(p),
                ),
    {
        proof {
            use_type_invariant(&*self);
        }
        proof {
            lemma_index_with_id(self.scenes@, scene_id);
        }
        if let Some(i) = self.find_id(scene_id) {
            self.requests = Ghost(self.requests@.push(SceneRequest::SetOrientations(scene_id, objects@, values@.take(objects@.len() as int))));
            let ghost before = self.scenes@;
            let mut scenes = self.take_scenes();
            let mut entry = scenes.remove(i);
            let ghost name = entry.0;
            let ghost scene0 = entry.1;
            let mut k: usize = 0;
            proof {
                assert(objects@.take(0).len() == 0);
            }
            while k < objects.len()
                invariant
                    0 <= k <= objects.len(),
                    values@.len() >= objects@.len(),
                    entry.0 == name,
                    forall|p: S::Object|
                        #[trigger] entry.1.orientation_of(p) == written_value(
                            objects@.take(k as int),
                            values@,
                            p,
                            scene0.orientation_of(p),
                        ),
                decreases objects.len() - k,
            {
                entry.1.set_orientation(objects[k], values[k]);
                proof {
                    let w = objects@.take(k + 1);
                    assert(w.drop_last() =~= objects@.take(k as int));
                    assert(w.last() == objects@[k as int]);
                    assert forall|p: S::Object| #[trigger] entry.1.orientation_of(p) == written_value(
                        w,
                        values@,
                        p,
                        scene0.orientation_of(p),
                    ) by {
                        if p != objects@[k as int] {
                        }
                    }
                }
                k = k + 1;
            }
            proof {
                assert(objects@.take(objects@.len() as int) =~= objects@);
            }
            scenes.insert(i, entry);
            proof {
                assert forall|a: int, b: int| 0 <= a < b < scenes@.len() implies scenes@[a].0@
                    != scenes@[b].0@ by {
                    assert(scenes@[a].0 == before[a].0);
                    assert(scenes@[b].0 == before[b].0);
                }
            }
            self.scenes = scenes;
            proof {
                assert forall|j: int| 0 <= j < before.len() && j != i implies #[trigger] self.scenes@[j] == before[j] by {
                    if j < i {
                    } else {
                    }
                }
            }
        }
    }

    /// The first registered scene holding an object with identifier `id`
    /// (as the scenes report), with its index, and that object.
    fn scene_of_object(&self, id: Id) -> (r: Option<(usize, S::Object)>)
        ensures
            match r {
                Some((i, o)) => (i as int) < self.entries().len() && holder_index(self.entries(), id) == Some(i as int) && Some(o)
                    == self.entries()[i as int].1.object_with_id(id) && o.id_view() == id,
                None => holder_index(self.entries(), id) is None,
            },
    {
        let mut i: usize = 0;
        while i < self.scenes.len()
            invariant
                0 <= i <= self.scenes.len(),
                forall|j: int| 0 <= j < i ==> self.scenes@[j].1.object_with_id(id) is None,
            decreases self.scenes.len() - i,
        {
            if let Some(o) = self.scenes[i].1.find_object_with_id(id) {
                proof {
                    lemma_holder_index(self.scenes@, id);
                    lemma_holder_prefix(self.scenes@, id, i as int);
                    if holder_index(self.scenes@, id) != Some(i as int) {
                        let h = holder_index(self.scenes@, id);
                        if h is Some {
                            assert(h.unwrap() < i || h.unwrap() > i);
                        }
                    }
                }
                return Some((i, o));
            }
            i = i + 1;
        }
        proof {
            lemma_holder_index(self.scenes@, id);
        }
        None
    }

    /// Writes `value` into the property at `path` of object `object_id`. The request goes to the first registered scene
    /// holding that object, if any.
    pub fn set_property(&mut self, object_id: Id, path: &str, value: &S::Value)
        ensures
            final(self).received_log() == old(self).received_log().push(
                ReceiverRequest::SetProperty(object_id, path@, *value),
            ),
            final(self).count() == old(self).count(),
            final(self).requests() == old(self).requests(),
            final(self).entries().len() == old(self).entries().len(),
            forall|j: int|
                0 <= j < old(self).entries().len() ==> #[trigger] final(self).entries()[j].0
                    == old(self).entries()[j].0,
            match holder_index(old(self).entries(), object_id) {
                Some(i) => final(self).entries()[i].1.edits() == old(self).entries()[i].1.edits().push(
                    ReceiverRequest::SetProperty(object_id, path@, *value),
                ) && forall|j: int|
                    0 <= j < old(self).entries().len() && j != i ==> #[trigger] final(self).entries()[j]
                        == old(self).entries()[j],
                None => final(self).entries() == old(self).entries(),
            },
    {
        proof {
            use_type_invariant(&*self);
        }
        self.receive(Ghost(ReceiverRequest::SetProperty(object_id, path@, *value)));
        if let Some((i, o)) = self.scene_of_object(object_id) {
            let ghost before = self.scenes@;
            let mut scenes = self.take_scenes();
            let mut entry = scenes.remove(i);
            entry.1.set_property(o, path, value);
            scenes.insert(i, entry);
            proof {
                assert forall|a: int, b: int| 0 <= a < b < scenes@.len() implies scenes@[a].0@
                    != scenes@[b].0@ by {
                    assert(scenes@[a].0 == before[a].0);
                    assert(scenes@[b].0 == before[b].0);
                }
            }
            self.scenes = scenes;
            proof {
                assert forall|j: int| 0 <= j < before.len() && j != i implies #[trigger] self.scenes@[j] == before[j] by {
                    if j < i {
                    } else {
                    }
                }
            }
        }
    }

    /// Sets the optional property at `path` of object `object_id` to none. The request goes to the first registered scene
    /// holding that object, if any.
    pub fn set_property_none(&mut self, object_id: Id, path: &str)
        ensures
            final(self).received_log() == old(self).received_log().push(
                ReceiverRequest::SetPropertyNone(object_id, path@),
            ),
            final(self).count() == old(self).count(),
            final(self).requests() == old(self).requests(),
            final(self).entries().len() == old(self).entries().len(),
            forall|j: int|
                0 <= j < old(self).entries().len() ==> #[trigger] final(self).entries()[j].0
                    == old(self).entries()[j].0,
            match holder_index(old(self).entries(), object_id) {
                Some(i) => final(self).entries()[i].1.edits() == old(self).entries()[i].1.edits().push(
                    ReceiverRequest::SetPropertyNone(object_id, path@),
                ) && forall|j: int|
                    0 <= j < old(self).entries().len() && j != i ==> #[trigger] final(self).entries()[j]
                        == old(self).entries()[j],
                None => final(self).entries() == old(self).entries(),
            },
    {
        proof {
            use_type_invariant(&*self);
        }
        self.receive(Ghost(ReceiverRequest::SetPropertyNone(object_id, path@)));
        if let Some((i, o)) = self.scene_of_object(object_id) {
            let ghost before = self.scenes@;
            let mut scenes = self.take_scenes();
            let mut entry = scenes.remove(i);
            entry.1.set_property_none(o, path);
            scenes.insert(i, entry);
            proof {
                assert forall|a: int, b: int| 0 <= a < b < scenes@.len() implies scenes@[a].0@
                    != scenes@[b].0@ by {
                    assert(scenes@[a].0 == before[a].0);
                    assert(scenes@[b].0 == before[b].0);
                }
            }
            self.scenes = scenes;
            proof {
                assert forall|j: int| 0 <= j < before.len() && j != i implies #[trigger] self.scenes@[j] == before[j] by {
                    if j < i {
                    } else {
                    }
                }
            }
        }
    }

    /// Sets the optional property at `path` of object `object_id` to some
    /// default value. The request goes to the first registered scene
    /// holding that object, if any.
    pub fn set_property_some(&mut self, object_id: Id, path: &str)
        ensures
            final(self).received_log() == old(self).received_log().push(
                ReceiverRequest::SetPropertySome(object_id, path@),
            ),
            final(self).count() == old(self).count(),
            final(self).requests() == old(self).requests(),
            final(self).entries().len() == old(self).entries().len(),
            forall|j: int|
                0 <= j < old(self).entries().len() ==> #[trigger] final(self).entries()[j].0
                    == old(self).entries()[j].0,
            match holder_index(old(self).entries(), object_id) {
                Some(i) => final(self).entries()[i].1.edits() == old(self).entries()[i].1.edits().push(
                    ReceiverRequest::SetPropertySome(object_id, path@),
                ) && forall|j: int|
                    0 <= j < old(self).entries().len() && j != i ==> #[trigger] final(self).entries()[j]
                        == old(self).entries()[j],
                None => final(self).entries() == old(self).entries(),
            },
    {
        proof {
            use_type_invariant(&*self);
        }
        self.receive(Ghost(ReceiverRequest::SetPropertySome(object_id, path@)));
        if let Some((i, o)) = self.scene_of_object(object_id) {
            let ghost before = self.scenes@;
            let mut scenes = self.take_scenes();
            let mut entry = scenes.remove(i);
            entry.1.set_property_some(o, path);
            scenes.insert(i, entry);
            proof {
                assert forall|a: int, b: int| 0 <= a < b < scenes@.len() implies scenes@[a].0@
                    != scenes@[b].0@ by {
                    assert(scenes@[a].0 == before[a].0);
                    assert(scenes@[b].0 == before[b].0);
                }
            }
            self.scenes = scenes;
            proof {
                assert forall|j: int| 0 <= j < before.len() && j != i implies #[trigger] self.scenes@[j] == before[j] by {
                    if j < i {
                    } else {
                    }
                }
            }
        }
    }

    /// Inserts `value` at `index` of the vector property at `path` of
    /// object `object_id`. The request goes to the first registered scene
    /// holding that object, if any.
    pub fn add_item(&mut self, object_id: Id, path: &str, index: usize, value: &S::Value)
        ensures
            final(self).received_log() == old(self).received_log().push(
                ReceiverRequest::AddItem(object_id, path@, index, *value),
            ),
            final(self).count() == old(self).count(),
            final(self).requests() == old(self).requests(),
            final(self).entries().len() == old(self).entries().len(),
            forall|j: int|
                0 <= j < old(self).entries().len() ==> #[trigger] final(self).entries()[j].0
                    == old(self).entries()[j].0,
            match holder_index(old(self).entries(), object_id) {
                Some(i) => final(self).entries()[i].1.edits() == old(self).entries()[i].1.edits().push(
                    ReceiverRequest::AddItem(object_id, path@, index, *value),
                ) && forall|j: int|
                    0 <= j < old(self).entries().len() && j != i ==> #[trigger] final(self).entries()[j]
                        == old(self).entries()[j],
                None => final(self).entries() == old(self).entries(),
            },
    {
        proof {
            use_type_invariant(&*self);
        }
        self.receive(Ghost(ReceiverRequest::AddItem(object_id, path@, index, *value)));
        if let Some((i, o)) = self.scene_of_object(object_id) {
            let ghost before = self.scenes@;
            let mut scenes = self.take_scenes();
            let mut entry = scenes.remove(i);
            entry.1.add_item(o, path, index, value);
            scenes.insert(i, entry);
            proof {
                assert forall|a: int, b: int| 0 <= a < b < scenes@.len() implies scenes@[a].0@
                    != scenes@[b].0@ by {
                    assert(scenes@[a].0 == before[a].0);
                    assert(scenes@[b].0 == before[b].0);
                }
            }
            self.scenes = scenes;
            proof {
                assert forall|j: int| 0 <= j < before.len() && j != i implies #[trigger] self.scenes@[j] == before[j] by {
                    if j < i {
                    } else {
                    }
                }
            }
        }
    }

    /// Inserts an empty item at `index` of the vector property at `path` of
    /// object `object_id`. The request goes to the first registered scene
    /// holding that object, if any.
    pub fn add_empty_item(&mut self, object_id: Id, path: &str, index: usize)
        ensures
            final(self).received_log() == old(self).received_log().push(
                ReceiverRequest::AddEmptyItem(object_id, path@, index),
            ),
            final(self).count() == old(self).count(),
            final(self).requests() == old(self).requests(),
            final(self).entries().len() == old(self).entries().len(),
            forall|j: int|
                0 <= j < old(self).entries().len() ==> #[trigger] final(self).entries()[j].0
                    == old(self).entries()[j].0,
            match holder_index(old(self).entries(), object_id) {
                Some(i) => final(self).entries()[i].1.edits() == old(self).entries()[i].1.edits().push(
                    ReceiverRequest::AddEmptyItem(object_id, path@, index),
                ) && forall|j: int|
                    0 <= j < old(self).entries().len() && j != i ==> #[trigger] final(self).entries()[j]
                        == old(self).entries()[j],
                None => final(self).entries() == old(self).entries(),
            },
    {
        proof {
            use_type_invariant(&*self);
        }
        self.receive(Ghost(ReceiverRequest::AddEmptyItem(object_id, path@, index)));
        if let Some((i, o)) = self.scene_of_object(object_id) {
            let ghost before = self.scenes@;
            let mut scenes = self.take_scenes();
            let mut entry = scenes.remove(i);
            entry.1.add_empty_item(o, path, index);
            scenes.insert(i, entry);
            proof {
                assert forall|a: int, b: int| 0 <= a < b < scenes@.len() implies scenes@[a].0@
                    != scenes@[b].0@ by {
                    assert(scenes@[a].0 == before[a].0);
                    assert(scenes@[b].0 == before[b].0);
                }
            }
            self.scenes = scenes;
            proof {
                assert forall|j: int| 0 <= j < before.len() && j != i implies #[trigger] self.scenes@[j] == before[j] by {
                    if j < i {
                    } else {
                    }
                }
            }
        }
    }

    /// Removes the item at `index` of the vector property at `path` of
    /// object `object_id`. The request goes to the first registered scene
    /// holding that object, if any.
    pub fn del_item(&mut self, object_id: Id, path: &str, index: usize)
        ensures
            final(self).received_log() == old(self).received_log().push(
                ReceiverRequest::DelItem(object_id, path@, index),
            ),
            final(self).count() == old(self).count(),
            final(self).requests() == old(self).requests(),
            final(self).entries().len() == old(self).entries().len(),
            forall|j: int|
                0 <= j < old(self).entries().len() ==> #[trigger] final(self).entries()[j].0
                    == old(self).entries()[j].0,
            match holder_index(old(self).entries(), object_id) {
                Some(i) => final(self).entries()[i].1.edits() == old(self).entries()[i].1.edits().push(
                    ReceiverRequest::DelItem(object_id, path@, index),
                ) && forall|j: int|
                    0 <= j < old(self).entries().len() && j != i ==> #[trigger] final(self).entries()[j]
                        == old(self).entries()[j],
                None => final(self).entries() == old(self).entries(),
            },
    {
        proof {
            use_type_invariant(&*self);
        }
        self.receive(Ghost(ReceiverRequest::DelItem(object_id, path@, index)));
        if let Some((i, o)) = self.scene_of_object(object_id) {
            let ghost before = self.scenes@;
            let mut scenes = self.take_scenes();
            let mut entry = scenes.remove(i);
            entry.1.del_item(o, path, index);
            scenes.insert(i, entry);
            proof {
                assert forall|a: int, b: int| 0 <= a < b < scenes@.len() implies scenes@[a].0@
                    != scenes@[b].0@ by {
                    assert(scenes@[a].0 == before[a].0);
                    assert(scenes@[b].0 == before[b].0);
                }
            }
            self.scenes = scenes;
            proof {
                assert forall|j: int| 0 <= j < before.len() && j != i implies #[trigger] self.scenes@[j] == before[j] by {
                    if j < i {
                    } else {
                    }
                }
            }
        }
    }

    /// Renames the scene whose identifier is `scene_id`, if there is one, and
    /// has it saved under its new name; it stays registered under its
    /// former name.
    pub fn rename_scene(&mut self, scene_id: Id, name: String)
        ensures
            final(self).count() == old(self).count(),
            final(self).entries().len() == old(self).entries().len(),
            forall|j: int|
                0 <= j < old(self).entries().len() ==> #[trigger] final(self).entries()[j].0
                    == old(self).entries()[j].0,
            forall|j: int|
                0 <= j < old(self).entries().len() && Some(j) != index_with_id(
                    old(self).entries(),
                    scene_id,
                ) ==> #[trigger] final(self).entries()[j] == old(self).entries()[j],
            final(self).requests() == old(self).requests_after(scene_id, SceneRequest::Rename(scene_id, name@)),
            final(self).received_log() == old(self).received_log(),
            index_with_id(final(self).entries(), scene_id) == index_with_id(old(self).entries(), scene_id),
            index_with_id(old(self).entries(), scene_id) matches Some(i) ==> renamed_and_saved(
                final(self).entries()[i].1,
                name@,
            ),
    {
        proof {
            use_type_invariant(&*self);
        }
        proof {
            lemma_index_with_id(self.scenes@, scene_id);
        }
        if let Some(i) = self.find_id(scene_id) {
            self.requests = Ghost(self.requests@.push(SceneRequest::Rename(scene_id, name@)));
            let ghost before = self.scenes@;
            let mut scenes = self.take_scenes();
            let mut entry = scenes.remove(i);
            entry.1.set_name(name);
            entry.1.save();
            scenes.insert(i, entry);
            proof {
                assert forall|a: int, b: int| 0 <= a < b < scenes@.len() implies scenes@[a].0@
                    != scenes@[b].0@ by {
                    assert(scenes@[a].0 == before[a].0);
                    assert(scenes@[b].0 == before[b].0);
                }
            }
            self.scenes = scenes;
            proof {
                assert forall|j: int| 0 <= j < before.len() && j != i implies #[trigger] self.scenes@[j] == before[j] by {
                    if j < i {
                    } else {
                    }
                }
                assert forall|j: int| 0 <= j < before.len() implies #[trigger] before[j].1.id_view()
                    == self.scenes@[j].1.id_view() by {
                    if j != i {
                        assert(self.scenes@[j] == before[j]);
                    }
                }
                lemma_index_with_id_same_ids(before, self.scenes@, scene_id);
            }
        }
    }

    /// Hands `camera` to the scene whose identifier is `scene_id`, if there
    /// is one, as its camera.
    pub fn set_camera(&mut self, scene_id: Id, camera: Option<S::Object>)
        ensures
            final(self).entries() == old(self).entries(),
            final(self).count() == old(self).count(),
            final(self).requests() == old(self).requests_after(scene_id, SceneRequest::SetCamera(scene_id, camera)),
            final(self).received_log() == old(self).received_log(),
    {
        proof {
            use_type_invariant(&*self);
        }
        proof {
            lemma_index_with_id(self.scenes@, scene_id);
        }
        if let Some(i) = self.find_id(scene_id) {
            self.requests = Ghost(self.requests@.push(SceneRequest::SetCamera(scene_id, camera)));
            self.scenes[i].1.set_camera(camera);
        }
    }
}

/// Whether the first `k` entries already decide the first index of `id`.
pub proof fn lemma_index_prefix_id<S: ToId>(v: Seq<(String, S)>, id: Id, k: int)
    requires
        0 <= k <= v.len(),
        index_with_id(v.take(k), id) is Some,
    ensures
        index_with_id(v, id) == index_with_id(v.take(k), id),
    decreases v.len() - k,
{
    if k < v.len() {
        assert(v.take(k + 1).drop_last() =~= v.take(k));
        lemma_index_prefix_id(v, id, k + 1);
    } else {
        assert(v.take(k) =~= v);
    }
}

/// Whether the first `k` entries already decide the first index of `name`.
pub proof fn lemma_index_prefix_name<S>(v: Seq<(String, S)>, name: Seq<char>, k: int)
    requires
        0 <= k <= v.len(),
        index_with_name(v.take(k), name) is Some,
    ensures
        index_with_name(v, name) == index_with_name(v.take(k), name),
    decreases v.len() - k,
{
    if k < v.len() {
        assert(v.take(k + 1).drop_last() =~= v.take(k));
        lemma_index_prefix_name(v, name, k + 1);
    } else {
        assert(v.take(k) =~= v);
    }
}

} // verus!
