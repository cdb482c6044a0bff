//! Window geometry, and the table of geometries that are set for single applications.

use vstd::prelude::*;
use crate::text::{chars_of, same_chars};

verus! {

/// Size and place of a terminal window: width and height in pixels, the screen
/// coordinates of its corner, and whether placing it is left to the platform.
#[derive(Clone, Copy, Debug, PartialEq, Eq, Structural)]
pub struct AppGeometry {
    pub width: u32,
    pub height: u32,
    pub x: i32,
    pub y: i32,
    pub auto_position: bool,
}

/// The geometry set for one application.
#[derive(Debug)]
pub struct GeometryEntry {
    pub app: String,
    pub geometry: AppGeometry,
}

/// The map that a list of entries stands for; of two entries for one application
/// the later one counts.
pub open spec fn entries_map(entries: Seq<GeometryEntry>) -> Map<Seq<char>, AppGeometry>
    decreases entries.len(),
{
    if entries.len() == 0 {
        Map::empty()
    } else {
        entries_map(entries.drop_last()).insert(entries.last().app@, entries.last().geometry)
    }
}

/// Whether no application has two entries.
pub open spec fn distinct_apps(entries: Seq<GeometryEntry>) -> bool {
    forall|i: int, j: int|
        0 <= i < j < entries.len() ==> (#[trigger] entries[i]).app@ != (#[trigger] entries[j]).app@
}

/// An application that no entry names is not in the map.
proof fn lemma_entries_absent(entries: Seq<GeometryEntry>, app: Seq<char>)
    requires
        forall|i: int| 0 <= i < entries.len() ==> (#[trigger] entries[i]).app@ != app,
    ensures
        !entries_map(entries).contains_key(app),
    decreases entries.len(),
{
    if entries.len() > 0 {
        let front = entries.drop_last();
        assert forall|i: int| 0 <= i < front.len() implies (#[trigger] front[i]).app@ != app by {
            assert(front[i] == entries[i]);
        }
        lemma_entries_absent(front, app);
        assert(entries.last() == entries[entries.len() - 1]);
    }
}

/// The map gives an application the geometry of its last entry.
proof fn lemma_entries_present(entries: Seq<GeometryEntry>, at: int)
    requires
        0 <= at < entries.len(),
        forall|j: int| at < j < entries.len() ==> (#[trigger] entries[j]).app@ != entries[at].app@,
    ensures
        entries_map(entries).contains_key(entries[at].app@),
        entries_map(entries)[entries[at].app@] == entries[at].geometry,
    decreases entries.len(),
{
    let front = entries.drop_last();
    if at < entries.len() - 1 {
        assert forall|j: int| at < j < front.len() implies (#[trigger] front[j]).app@
            != front[at].app@ by {
            assert(front[j] == entries[j]);
        }
        lemma_entries_present(front, at);
        assert(entries.last() == entries[entries.len() - 1]);
    }
}

/// Replacing the last entry of an application changes the map as an insertion does.
proof fn lemma_entries_update(entries: Seq<GeometryEntry>, at: int, entry: GeometryEntry)
    requires
        0 <= at < entries.len(),
        entry.app@ == entries[at].app@,
        forall|j: int| at < j < entries.len() ==> (#[trigger] entries[j]).app@ != entries[at].app@,
    ensures
        entries_map(entries.update(at, entry)) == entries_map(entries).insert(
            entry.app@,
            entry.geometry,
        ),
    decreases entries.len(),
{
    let front = entries.drop_last();
    let changed = entries.update(at, entry);
    if at == entries.len() - 1 {
        assert(changed.drop_last() == front);
        assert(entries_map(changed) =~= entries_map(entries).insert(entry.app@, entry.geometry));
    } else {
        assert forall|j: int| at < j < front.len() implies (#[trigger] front[j]).app@
            != front[at].app@ by {
            assert(front[j] == entries[j]);
        }
        lemma_entries_update(front, at, entry);
        assert(changed.drop_last() == front.update(at, entry));
        assert(changed.last() == entries.last());
        assert(entries.last() == entries[entries.len() - 1]);
        assert(entries_map(changed) =~= entries_map(entries).insert(entry.app@, entry.geometry));
    }
}

/// The geometries set for single applications, by application name. No name has
/// two entries.
#[derive(Debug)]
pub struct GeometryTable {
    entries: Vec<GeometryEntry>,
}

impl View for GeometryTable {
    type V = Map<Seq<char>, AppGeometry>;

    closed spec fn view(&self) -> Map<Seq<char>, AppGeometry> {
        entries_map(self.entries@)
    }
}

impl GeometryTable {
    #[verifier::type_invariant]
    spec fn names_distinct(self) -> bool {
        distinct_apps(self.entries@)
    }

    /// The table without entries.
    pub fn new() -> (r: GeometryTable)
        ensures
            r@ == Map::<Seq<char>, AppGeometry>::empty(),
    {
        GeometryTable { entries: Vec::new() }
    }

    /// The number of applications that have an entry.
    pub fn len(&self) -> (r: usize)
        ensures
            r == self@.dom().len(),
            self@.dom().finite(),
    {
        proof {
            use_type_invariant(self);
            lemma_distinct_len(self.entries@);
        }
        self.entries.len()
    }

    /// The index of the entry of `app`.
    fn position(&self, app: &Vec<char>) -> (r: Option<usize>)
        ensures
            match r {
                Some(i) => i < self.entries@.len() && self.entries@[i as int].app@ == app@ && (
                forall|j: int|
                    0 <= j < self.entries@.len() && j != i ==> (
                    #[trigger] self.entries@[j]).app@ != app@),
                None => forall|j: int|
                    0 <= j < self.entries@.len() ==> (#[trigger] self.entries@[j]).app@ != app@,
            },
    {
        proof {
            use_type_invariant(self);
        }
        let mut i: usize = 0;
        while i < self.entries.len()
            invariant
                i <= self.entries@.len(),
                distinct_apps(self.entries@),
                forall|j: int| 0 <= j < i ==> (#[trigger] self.entries@[j]).app@ != app@,
            decreases self.entries@.len() - i,
        {
            let name = chars_of(self.entries[i].app.as_str());
            if same_chars(&name, app) {
                return Some(i);
            }
            i += 1;
        }
        None
    }

    /// The geometry set for `app`, where one is set.
    pub fn get(&self, app: &str) -> (r: Option<AppGeometry>)
        ensures
            r == if self@.contains_key(app@) {
                Some(self@[app@])
            } else {
                None
            },
    {
        let name = chars_of(app);
        match self.position(&name) {
            Some(i) => {
                proof {
                    lemma_entries_present(self.entries@, i as int);
                }
                Some(self.entries[i].geometry)
            },
            None => {
                proof {
                    lemma_entries_absent(self.entries@, app@);
                }
                None
            },
        }
    }

    /// The table with the geometry of `app` set, in place of the one it had, if any.
    pub fn with(self, app: &str, geometry: AppGeometry) -> (r: GeometryTable)
        ensures
            r@ == self@.insert(app@, geometry),
    {
        let name = chars_of(app);
        let entry = GeometryEntry { app: app.to_owned(), geometry };
        let found = self.position(&name);
        proof {
            use_type_invariant(&self);
        }
        let mut entries = self.entries;
        match found {
            Some(i) => {
                proof {
                    lemma_entries_update(entries@, i as int, entry);
                }
                entries.set(i, entry);
            },
            None => {
                proof {
                    assert(entries@.push(entry).drop_last() == entries@);
                }
                entries.push(entry);
            },
        }
        GeometryTable { entries }
    }
}

/// A list without repeated names stands for a map of as many applications.
proof fn lemma_distinct_len(entries: Seq<GeometryEntry>)
    requires
        distinct_apps(entries),
    ensures
        entries_map(entries).dom().finite(),
        entries_map(entries).dom().len() == entries.len(),
    decreases entries.len(),
{
    if entries.len() > 0 {
        let front = entries.drop_last();
        assert forall|i: int, j: int| 0 <= i < j < front.len() implies (#[trigger] front[i]).app@ != (
        #[trigger] front[j]).app@ by {
            assert(front[i] == entries[i]);
            assert(front[j] == entries[j]);
        }
        lemma_distinct_len(front);
        assert forall|i: int| 0 <= i < front.len() implies (#[trigger] front[i]).app@
            != entries.last().app@ by {
            assert(front[i] == entries[i]);
            assert(entries.last() == entries[entries.len() - 1]);
        }
        lemma_entries_absent(front, entries.last().app@);
        assert(entries_map(entries).dom() =~= entries_map(front).dom().insert(entries.last().app@));
    } else {
        assert(entries_map(entries).dom() =~= Set::<Seq<char>>::empty());
    }
}

} // verus!
