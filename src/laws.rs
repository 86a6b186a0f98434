//! Properties of the watcher that relate several events or calls.
use vstd::prelude::*;

use crate::config::ConnectionConfigView;
use crate::dispatch::{command_for, dispatch_for, ConnectionEvent, ScriptCommandView};
use crate::namespace::in_active_namespace;
use crate::teardown::{after_removal, next_removal, teardown_start, SignalFilter};
use crate::tracker::IdentityView;
use crate::watcher::step;

verus! {

/// A `Down` event for a path that never came up (or whose `Up` could not be
/// resolved) starts no process and leaves the table as it was.
pub proof fn lemma_down_without_up_is_noop(
    config: Map<Seq<char>, ConnectionConfigView>,
    active: Map<Seq<char>, IdentityView>,
    path: Seq<char>,
    resolved: Option<IdentityView>,
)
    requires
        !active.contains_key(path),
    ensures
        step(config, active, ConnectionEvent::Down, path, resolved) == (active, None::<ScriptCommandView>),
{
}

/// An `Up` event whose identifiers could not be resolved starts no process
/// and leaves the table as it was, so the next event is handled as if it
/// had not come.
pub proof fn lemma_failed_resolve_changes_nothing(
    config: Map<Seq<char>, ConnectionConfigView>,
    active: Map<Seq<char>, IdentityView>,
    path: Seq<char>,
)
    ensures
        step(config, active, ConnectionEvent::Up, path, None) == (active, None::<ScriptCommandView>),
{
}

/// An `Up` resolved as `id` / `uuid`, then the `Down` of the same path: the
/// up-script and then the down-script of that connection run, both chosen
/// by the identifiers resolved at `Up`, whatever the bus gives at `Down`;
/// afterwards the table is as before.
pub proof fn lemma_up_then_down(
    config: Map<Seq<char>, ConnectionConfigView>,
    active: Map<Seq<char>, IdentityView>,
    path: Seq<char>,
    id: Seq<char>,
    uuid: Seq<char>,
    resolved_at_down: Option<IdentityView>,
)
    requires
        in_active_namespace(path),
        !active.contains_key(path),
    ensures
        ({
            let (up_table, up_cmd) = step(
                config,
                active,
                ConnectionEvent::Up,
                path,
                Some((id, uuid)),
            );
            let (down_table, down_cmd) = step(
                config,
                up_table,
                ConnectionEvent::Down,
                path,
                resolved_at_down,
            );
            &&& up_table == active.insert(path, (id, uuid))
            &&& up_cmd == dispatch_for(config, id, uuid, ConnectionEvent::Up)
            &&& down_cmd == dispatch_for(config, id, uuid, ConnectionEvent::Down)
            &&& down_table == active
        }),
{
    let up_table = active.insert(path, (id, uuid));
    assert(up_table.remove(path) =~= active);
}

/// Between the `Up` and the `Down` of a path, any other event keeps the
/// identifiers recorded for it, a repeated `Up` included.
pub proof fn lemma_entry_kept_until_down(
    config: Map<Seq<char>, ConnectionConfigView>,
    active: Map<Seq<char>, IdentityView>,
    path: Seq<char>,
    action: ConnectionEvent,
    other: Seq<char>,
    resolved: Option<IdentityView>,
)
    requires
        active.contains_key(path),
        !(action == ConnectionEvent::Down && other == path),
    ensures
        step(config, active, action, other, resolved).0.contains_key(path),
        step(config, active, action, other, resolved).0[path] == active[path],
{
}

/// The `Down` of an active path runs the down-script chosen by the
/// identifiers recorded for it, whatever the bus gives at `Down`, and
/// removes its entry.
pub proof fn lemma_down_uses_recorded_identity(
    config: Map<Seq<char>, ConnectionConfigView>,
    active: Map<Seq<char>, IdentityView>,
    path: Seq<char>,
    resolved: Option<IdentityView>,
)
    requires
        in_active_namespace(path),
        active.contains_key(path),
    ensures
        step(config, active, ConnectionEvent::Down, path, resolved) == (
            active.remove(path),
            dispatch_for(config, active[path].0, active[path].1, ConnectionEvent::Down),
        ),
{
}

/// The configuration under the UUID wins over the one under the name; a
/// connection configured under neither starts nothing, and that is no
/// error.
pub proof fn lemma_lookup_prefers_uuid(
    config: Map<Seq<char>, ConnectionConfigView>,
    id: Seq<char>,
    uuid: Seq<char>,
    action: ConnectionEvent,
)
    ensures
        config.contains_key(uuid) ==> dispatch_for(config, id, uuid, action) == Some(
            command_for(config[uuid], action),
        ),
        !config.contains_key(uuid) && config.contains_key(id) ==> dispatch_for(
            config,
            id,
            uuid,
            action,
        ) == Some(command_for(config[id], action)),
        !config.contains_key(uuid) && !config.contains_key(id) ==> dispatch_for(
            config,
            id,
            uuid,
            action,
        ).is_none(),
{
}

/// Teardown tries to remove both subscriptions whatever the first removal
/// gave, and fails when either removal failed.
pub proof fn lemma_teardown_tries_both(first: Option<Seq<char>>, second: Option<Seq<char>>)
    ensures
        next_removal(teardown_start()) == Some(SignalFilter::InterfacesAdded),
        ({
            let t1 = after_removal(teardown_start(), SignalFilter::InterfacesAdded, first);
            let t2 = after_removal(t1, SignalFilter::InterfacesRemoved, second);
            &&& next_removal(t1) == Some(SignalFilter::InterfacesRemoved)
            &&& next_removal(t2).is_none()
            &&& (t2.errors.len() == 0 <==> first.is_none() && second.is_none())
        }),
{
}

} // verus!
