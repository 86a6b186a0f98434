//! The table of active connections: from the transient bus path of a live
//! connection to the identifiers resolved when it came up.
use vstd::prelude::*;

verus! {

/// A connection that came up and was resolved: its bus path, its name and
/// its UUID.
#[derive(Debug)]
pub struct ActiveEntry {
    pub path: String,
    pub id: String,
    pub uuid: String,
}

/// The resolved identifiers of an active connection: (name, UUID).
pub type IdentityView = (Seq<char>, Seq<char>);

/// The table of active connections. A path has at most one entry.
pub struct StateTracker {
    entries: Vec<ActiveEntry>,
    model: Ghost<Map<Seq<char>, IdentityView>>,
}

impl View for StateTracker {
    type V = Map<Seq<char>, IdentityView>;

    closed spec fn view(&self) -> Map<Seq<char>, IdentityView> {
        self.model@
    }
}

impl StateTracker {
    /// One entry per path, and the map gives each path the identifiers of
    /// its entry.
    pub closed spec fn wf(&self) -> bool {
        &&& forall|i: int, j: int|
            0 <= i < j < self.entries@.len() ==> #[trigger] self.entries@[i].path@
                != #[trigger] self.entries@[j].path@
        &&& forall|i: int|
            0 <= i < self.entries@.len() ==> {
                &&& self.model@.contains_key(#[trigger] self.entries@[i].path@)
                &&& self.model@[self.entries@[i].path@] == (
                    self.entries@[i].id@,
                    self.entries@[i].uuid@,
                )
            }
        &&& forall|k: Seq<char>|
            #[trigger] self.model@.contains_key(k) ==> exists|i: int|
                0 <= i < self.entries@.len() && self.entries@[i].path@ == k
    }

    /// A table with no active connection.
    pub fn new() -> (r: StateTracker)
        ensures
            r.wf(),
            r@ == Map::<Seq<char>, IdentityView>::empty(),
    {
        StateTracker { entries: Vec::new(), model: Ghost(Map::empty()) }
    }

    /// Where the entry of `path` stands, if there is one.
    fn position(&self, path: &String) -> (r: Option<usize>)
        requires
            self.wf(),
        ensures
            match r {
                Some(i) => i < self.entries@.len() && self.entries@[i as int].path@ == path@,
                None => !self@.contains_key(path@),
            },
    {
        let mut i: usize = 0;
        while i < self.entries.len()
            invariant
                self.wf(),
                i <= self.entries@.len(),
                forall|j: int| 0 <= j < i ==> self.entries@[j].path@ != path@,
            decreases self.entries@.len() - i,
        {
            if self.entries[i].path == *path {
                return Some(i);
            }
            i = i + 1;
        }
        None
    }

    /// Tells whether `path` has an entry.
    pub fn contains(&self, path: &String) -> (r: bool)
        requires
            self.wf(),
        ensures
            r == self@.contains_key(path@),
    {
        self.position(path).is_some()
    }

    /// The identifiers recorded for `path`, as (name, UUID), if any.
    pub fn get(&self, path: &String) -> (r: Option<(String, String)>)
        requires
            self.wf(),
        ensures
            match r {
                Some(p) => self@.contains_key(path@) && self@[path@] == (p.0@, p.1@),
                None => !self@.contains_key(path@),
            },
    {
        match self.position(path) {
            Some(i) => Some((self.entries[i].id.clone(), self.entries[i].uuid.clone())),
            None => None,
        }
    }

    /// Records that `path` came up as `id` / `uuid`. A path that is already
    /// active keeps its first entry; the result tells whether an entry was
    /// added.
    pub fn record_up(&mut self, path: String, id: String, uuid: String) -> (inserted: bool)
        requires
            old(self).wf(),
        ensures
            final(self).wf(),
            inserted == !old(self)@.contains_key(path@),
            final(self)@ == if inserted {
                old(self)@.insert(path@, (id@, uuid@))
            } else {
                old(self)@
            },
    {
        if self.position(&path).is_some() {
            return false;
        }
        let ghost k = path@;
        let ghost v = (id@, uuid@);
        self.entries.push(ActiveEntry { path, id, uuid });
        self.model = Ghost(self.model@.insert(k, v));
        assert forall|q: Seq<char>| #[trigger] self.model@.contains_key(q) implies exists|i: int|
            0 <= i < self.entries@.len() && self.entries@[i].path@ == q by {
            if q == k {
                assert(self.entries@[self.entries@.len() - 1].path@ == k);
            } else {
                assert(old(self).model@.contains_key(q));
                let i = choose|i: int|
                    0 <= i < old(self).entries@.len() && old(self).entries@[i].path@ == q;
                assert(self.entries@[i].path@ == q);
            }
        }
        true
    }

    /// Removes and returns the entry of `path`, if there is one.
    pub fn take_down(&mut self, path: &String) -> (r: Option<ActiveEntry>)
        requires
            old(self).wf(),
        ensures
            final(self).wf(),
            final(self)@ == old(self)@.remove(path@),
            match r {
                Some(e) => old(self)@.contains_key(path@) && e.path@ == path@ && old(self)@[path@]
                    == (e.id@, e.uuid@),
                None => !old(self)@.contains_key(path@),
            },
    {
        match self.position(path) {
            None => {
                assert(self.model@.remove(path@) =~= self.model@);
                None
            },
            Some(i) => {
                let ghost before = self.entries@;
                let e = self.entries.remove(i);
                self.model = Ghost(self.model@.remove(path@));
                assert forall|j: int| 0 <= j < self.entries@.len() implies #[trigger] self.entries@[j]
                    == if j < i {
                    before[j]
                } else {
                    before[j + 1]
                } by {}
                assert forall|j: int| 0 <= j < self.entries@.len() implies {
                    &&& self.model@.contains_key(#[trigger] self.entries@[j].path@)
                    &&& self.model@[self.entries@[j].path@] == (
                        self.entries@[j].id@,
                        self.entries@[j].uuid@,
                    )
                } by {
                    let oj = if j < i { j } else { j + 1 };
                    assert(before[oj].path@ != before[i as int].path@);
                }
                assert forall|q: Seq<char>| #[trigger] self.model@.contains_key(q) implies exists|
                    j: int,
                | 0 <= j < self.entries@.len() && self.entries@[j].path@ == q by {
                    assert(old(self).model@.contains_key(q));
                    let oj = choose|oj: int| 0 <= oj < before.len() && before[oj].path@ == q;
                    assert(oj != i);
                    let j = if oj < i { oj } else { oj - 1 };
                    assert(self.entries@[j].path@ == q);
                }
                Some(e)
            },
        }
    }
}

} // verus!
