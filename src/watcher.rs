//! The watcher's decisions: one bus event in, the table updated and at most
//! one process to start out.
use vstd::prelude::*;

use crate::config::{Config, ConnectionConfig, ConnectionConfigView};
use crate::dispatch::{
    command_view, dispatch_for, lookup_connection, script_command, select_config,
    ConnectionEvent, ScriptCommand, ScriptCommandView,
};
use crate::namespace::{in_active_namespace, is_active_connection_path};
use crate::tracker::{IdentityView, StateTracker};

verus! {

/// The view of optional resolved identifiers (name, UUID).
pub open spec fn identity_view(o: Option<(String, String)>) -> Option<IdentityView> {
    match o {
        Some(p) => Some((p.0@, p.1@)),
        None => None,
    }
}

/// How an event changes the table of active connections, and the
/// identifiers that the transition runs a script with, if it is one.
///
/// An `Up` whose identifiers could not be resolved changes nothing. An `Up`
/// for a path that is already active changes nothing and is no transition.
/// A `Down` takes the identifiers that were recorded when the path came up;
/// for a path that is not active it changes nothing.
pub open spec fn event_effect(
    active: Map<Seq<char>, IdentityView>,
    action: ConnectionEvent,
    path: Seq<char>,
    resolved: Option<IdentityView>,
) -> (Map<Seq<char>, IdentityView>, Option<IdentityView>) {
    match action {
        ConnectionEvent::Up => match resolved {
            None => (active, None),
            Some(ids) => if active.contains_key(path) {
                (active, None)
            } else {
                (active.insert(path, ids), Some(ids))
            },
        },
        ConnectionEvent::Down => if active.contains_key(path) {
            (active.remove(path), Some(active[path]))
        } else {
            (active, None)
        },
    }
}

/// One bus event handled whole: events outside the activation namespace are
/// dropped; otherwise the table changes as `event_effect` says and a
/// transition starts the configured script, if the connection has one.
pub open spec fn step(
    config: Map<Seq<char>, ConnectionConfigView>,
    active: Map<Seq<char>, IdentityView>,
    action: ConnectionEvent,
    path: Seq<char>,
    resolved: Option<IdentityView>,
) -> (Map<Seq<char>, IdentityView>, Option<ScriptCommandView>) {
    if !in_active_namespace(path) {
        (active, None)
    } else {
        let (next, ids) = event_effect(active, action, path, resolved);
        match ids {
            Some(ids) => (next, dispatch_for(config, ids.0, ids.1, action)),
            None => (next, None),
        }
    }
}

/// The watcher's state: the user configuration, fixed once loaded, and the
/// table of active connections.
pub struct Watcher {
    config: Config,
    active: StateTracker,
}

/// The watcher's state, as maps.
pub struct WatcherView {
    pub config: Map<Seq<char>, ConnectionConfigView>,
    pub active: Map<Seq<char>, IdentityView>,
}

impl View for Watcher {
    type V = WatcherView;

    closed spec fn view(&self) -> WatcherView {
        WatcherView { config: self.config@, active: self.active@ }
    }
}

/// Pairs the two identifiers of a connection, if both could be read.
pub fn resolved_identity(id: Option<String>, uuid: Option<String>) -> (r: Option<(String, String)>)
    ensures
        r.is_some() == (id.is_some() && uuid.is_some()),
        r.is_some() ==> r.unwrap().0 == id.unwrap() && r.unwrap().1 == uuid.unwrap(),
{
    match (id, uuid) {
        (Some(a), Some(b)) => Some((a, b)),
        _ => None,
    }
}

impl Watcher {
    /// The configuration and the table are each well formed.
    pub closed spec fn wf(&self) -> bool {
        self.config.wf() && self.active.wf()
    }

    /// A watcher for `config`, with no connection active yet.
    pub fn from_config(config: Config) -> (r: Watcher)
        requires
            config.wf(),
        ensures
            r.wf(),
            r@.config == config@,
            r@.active == Map::<Seq<char>, IdentityView>::empty(),
    {
        Watcher { config, active: StateTracker::new() }
    }

    /// Tells whether events about `path` concern the watcher at all.
    pub fn accepts(&self, path: &String) -> (r: bool)
        ensures
            r == in_active_namespace(path@),
    {
        is_active_connection_path(path.as_str())
    }

    /// Tells whether `path` is recorded as active.
    pub fn is_active(&self, path: &String) -> (r: bool)
        requires
            self.wf(),
        ensures
            r == self@.active.contains_key(path@),
    {
        self.active.contains(path)
    }

    /// The identifiers (name, UUID) recorded for the active `path`, if any.
    pub fn active_identity(&self, path: &String) -> (r: Option<(String, String)>)
        requires
            self.wf(),
        ensures
            identity_view(r) == (if self@.active.contains_key(path@) {
                Some(self@.active[path@])
            } else {
                None
            }),
    {
        self.active.get(path)
    }

    /// Updates the table for an event and returns the identifiers (name,
    /// UUID) that the transition runs a script with, if it is one.
    /// `resolved` is what the bus gave for the path; only `Up` reads it.
    pub fn connection_event(
        &mut self,
        action: ConnectionEvent,
        path: String,
        resolved: Option<(String, String)>,
    ) -> (r: Option<(String, String)>)
        requires
            old(self).wf(),
        ensures
            final(self).wf(),
            final(self)@.config == old(self)@.config,
            (final(self)@.active, identity_view(r)) == event_effect(
                old(self)@.active,
                action,
                path@,
                identity_view(resolved),
            ),
    {
        match action {
            ConnectionEvent::Up => match resolved {
                None => None,
                Some((id, uuid)) => {
                    let ids = (id.clone(), uuid.clone());
                    if self.active.record_up(path, id, uuid) {
                        Some(ids)
                    } else {
                        None
                    }
                },
            },
            ConnectionEvent::Down => match self.active.take_down(&path) {
                Some(e) => Some((e.id, e.uuid)),
                None => None,
            },
        }
    }

    /// The configuration of a connection: the one under its UUID, else the
    /// one under its name.
    pub fn get_conn_params(&self, id: &String, uuid: &String) -> (r: Option<&ConnectionConfig>)
        requires
            self.wf(),
        ensures
            match r {
                Some(c) => select_config(self@.config, id@, uuid@) == Some(c@),
                None => select_config(self@.config, id@, uuid@).is_none(),
            },
    {
        lookup_connection(&self.config, id, uuid)
    }

    /// The process that runs the configured script of the connection for
    /// `action`, if the connection is configured.
    pub fn run_conn_cmd(&self, id: &String, uuid: &String, action: ConnectionEvent) -> (r: Option<
        ScriptCommand,
    >)
        requires
            self.wf(),
        ensures
            command_view(r) == dispatch_for(self@.config, id@, uuid@, action),
    {
        match self.get_conn_params(id, uuid) {
            Some(c) => Some(script_command(c, action)),
            None => None,
        }
    }

    /// Handles one bus event: `action` about the object at `path`, with the
    /// identifiers that the bus gave for it on `Up`. Returns the process to
    /// start, if any.
    pub fn handle_event(
        &mut self,
        action: ConnectionEvent,
        path: String,
        resolved: Option<(String, String)>,
    ) -> (r: Option<ScriptCommand>)
        requires
            old(self).wf(),
        ensures
            final(self).wf(),
            final(self)@.config == old(self)@.config,
            (final(self)@.active, command_view(r)) == step(
                old(self)@.config,
                old(self)@.active,
                action,
                path@,
                identity_view(resolved),
            ),
    {
        if !self.accepts(&path) {
            return None;
        }
        match self.connection_event(action, path, resolved) {
            Some((id, uuid)) => self.run_conn_cmd(&id, &uuid, action),
            None => None,
        }
    }
}

} // verus!
