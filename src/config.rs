//! User configuration: which scripts run for which connection.
use vstd::prelude::*;

verus! {

/// What a connection's configuration holds, as sequences of characters.
pub struct ConnectionConfigView {
    pub name: Seq<char>,
    pub context: Seq<char>,
    pub up_script: Seq<char>,
    pub down_script: Seq<char>,
}

/// A connection configuration.
#[derive(Clone, Debug)]
pub struct ConnectionConfig {
    pub name: String,
    pub context: String,
    pub up_script: String,
    pub down_script: String,
}

impl View for ConnectionConfig {
    type V = ConnectionConfigView;

    open spec fn view(&self) -> ConnectionConfigView {
        ConnectionConfigView {
            name: self.name@,
            context: self.context@,
            up_script: self.up_script@,
            down_script: self.down_script@,
        }
    }
}

impl ConnectionConfig {
    pub fn new(name: String, context: String, up_script: String, down_script: String) -> (r:
        ConnectionConfig)
        ensures
            r.name@ == name@,
            r.context@ == context@,
            r.up_script@ == up_script@,
            r.down_script@ == down_script@,
    {
        ConnectionConfig { name, context, up_script, down_script }
    }

    /// A copy with the same contents.
    pub fn duplicate(&self) -> (r: ConnectionConfig)
        ensures
            r@ == self@,
    {
        ConnectionConfig {
            name: self.name.clone(),
            context: self.context.clone(),
            up_script: self.up_script.clone(),
            down_script: self.down_script.clone(),
        }
    }
}

/// The global configuration: a map from identifier (a connection's UUID or
/// its name) to the configuration of that connection. Keys are unique.
pub struct Config {
    connections: Vec<(String, ConnectionConfig)>,
    model: Ghost<Map<Seq<char>, ConnectionConfigView>>,
}

impl View for Config {
    type V = Map<Seq<char>, ConnectionConfigView>;

    closed spec fn view(&self) -> Map<Seq<char>, ConnectionConfigView> {
        self.model@
    }
}

impl Config {
    /// The stored entries agree with the map: one entry per key, each with
    /// the configuration that the map gives that key.
    pub closed spec fn wf(&self) -> bool {
        &&& forall|i: int, j: int|
            0 <= i < j < self.connections@.len() ==> #[trigger] self.connections@[i].0@
                != #[trigger] self.connections@[j].0@
        &&& forall|i: int|
            0 <= i < self.connections@.len() ==> {
                &&& self.model@.contains_key(#[trigger] self.connections@[i].0@)
                &&& self.model@[self.connections@[i].0@] == self.connections@[i].1@
            }
        &&& forall|k: Seq<char>|
            #[trigger] self.model@.contains_key(k) ==> exists|i: int|
                0 <= i < self.connections@.len() && self.connections@[i].0@ == k
    }

    /// A configuration with no connection.
    pub fn new() -> (r: Config)
        ensures
            r.wf(),
            r@ == Map::<Seq<char>, ConnectionConfigView>::empty(),
    {
        Config { connections: Vec::new(), model: Ghost(Map::empty()) }
    }

    /// Where `key` stands among the entries, if it does.
    fn position(&self, key: &String) -> (r: Option<usize>)
        requires
            self.wf(),
        ensures
            match r {
                Some(i) => i < self.connections@.len() && self.connections@[i as int].0@ == key@,
                None => !self@.contains_key(key@),
            },
    {
        let mut i: usize = 0;
        while i < self.connections.len()
            invariant
                self.wf(),
                i <= self.connections@.len(),
                forall|j: int| 0 <= j < i ==> self.connections@[j].0@ != key@,
            decreases self.connections@.len() - i,
        {
            if self.connections[i].0 == *key {
                return Some(i);
            }
            i = i + 1;
        }
        None
    }

    /// Adds the configuration of `key`, in place of any that it had.
    pub fn insert(&mut self, key: String, config: ConnectionConfig)
        requires
            old(self).wf(),
        ensures
            final(self).wf(),
            final(self)@ == old(self)@.insert(key@, config@),
    {
        let ghost k = key@;
        let ghost c = config@;
        let ghost at: int;
        match self.position(&key) {
            Some(i) => {
                self.connections.set(i, (key, config));
                proof {
                    at = i as int;
                }
            },
            None => {
                self.connections.push((key, config));
                proof {
                    at = self.connections@.len() - 1;
                }
            },
        }
        self.model = Ghost(self.model@.insert(k, c));
        assert forall|q: Seq<char>| #[trigger] self.model@.contains_key(q) implies exists|i: int|
            0 <= i < self.connections@.len() && self.connections@[i].0@ == q by {
            if q == k {
                assert(self.connections@[at].0@ == k);
            } else {
                assert(old(self).model@.contains_key(q));
                let i = choose|i: int|
                    0 <= i < old(self).connections@.len() && old(self).connections@[i].0@ == q;
                assert(self.connections@[i].0@ == q);
            }
        }
    }

    /// The configuration stored under `key`, if any.
    pub fn get(&self, key: &String) -> (r: Option<&ConnectionConfig>)
        requires
            self.wf(),
        ensures
            match r {
                Some(c) => self@.contains_key(key@) && c@ == self@[key@],
                None => !self@.contains_key(key@),
            },
    {
        match self.position(key) {
            Some(i) => Some(&self.connections[i].1),
            None => None,
        }
    }

    /// The stored (key, configuration) pairs, one per key.
    pub fn entries(&self) -> (r: &Vec<(String, ConnectionConfig)>)
        requires
            self.wf(),
        ensures
            forall|i: int, j: int| 0 <= i < j < r@.len() ==> #[trigger] r@[i].0@ != #[trigger] r@[j].0@,
            forall|i: int|
                0 <= i < r@.len() ==> self@.contains_key(#[trigger] r@[i].0@) && self@[r@[i].0@]
                    == r@[i].1@,
            forall|k: Seq<char>|
                #[trigger] self@.contains_key(k) ==> exists|i: int| 0 <= i < r@.len() && r@[i].0@ == k,
    {
        &self.connections
    }
}

} // verus!
