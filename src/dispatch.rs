//! Which script a connection transition runs, and how it is launched.
use vstd::prelude::*;

use crate::config::{Config, ConnectionConfig, ConnectionConfigView};

verus! {

/// Event on a watched connection.
#[derive(Clone, Copy, Debug, PartialEq, Eq, Structural)]
pub enum ConnectionEvent {
    Up,
    Down,
}

/// The shell that runs a script.
pub const SHELL: &'static str = "/bin/sh";

/// The shell's flag that takes the script as one command string.
pub const SHELL_COMMAND_FLAG: &'static str = "-c";

/// The environment variable that carries the configured connection name.
pub const ENV_CONNECTION_NAME: &'static str = "CONNECTION_NAME";

/// The environment variable that carries the configured connection context.
pub const ENV_CONNECTION_CONTEXT: &'static str = "CONNECTION_CONTEXT";

/// A process to start: the program, its arguments and the variables added
/// to its environment. Standard input is closed; standard output and error
/// are the watcher's own.
#[derive(Debug)]
pub struct ScriptCommand {
    pub program: String,
    pub args: Vec<String>,
    pub env: Vec<(String, String)>,
}

/// A process to start, as sequences of characters.
pub struct ScriptCommandView {
    pub program: Seq<char>,
    pub args: Seq<Seq<char>>,
    pub env: Seq<(Seq<char>, Seq<char>)>,
}

impl View for ScriptCommand {
    type V = ScriptCommandView;

    open spec fn view(&self) -> ScriptCommandView {
        ScriptCommandView {
            program: self.program@,
            args: self.args@.map_values(|a: String| a@),
            env: self.env@.map_values(|p: (String, String)| (p.0@, p.1@)),
        }
    }
}

/// The configuration that applies to a connection: the one under its UUID,
/// else the one under its name, else none.
pub open spec fn select_config(
    config: Map<Seq<char>, ConnectionConfigView>,
    id: Seq<char>,
    uuid: Seq<char>,
) -> Option<ConnectionConfigView> {
    if config.contains_key(uuid) {
        Some(config[uuid])
    } else if config.contains_key(id) {
        Some(config[id])
    } else {
        None
    }
}

/// The script that a configuration gives for an event.
pub open spec fn script_for(c: ConnectionConfigView, action: ConnectionEvent) -> Seq<char> {
    match action {
        ConnectionEvent::Up => c.up_script,
        ConnectionEvent::Down => c.down_script,
    }
}

/// The process that runs the script of `c` for `action`: the shell with the
/// script as its one command string, and the configured name and context in
/// its environment.
pub open spec fn command_for(c: ConnectionConfigView, action: ConnectionEvent) -> ScriptCommandView {
    ScriptCommandView {
        program: SHELL@,
        args: seq![SHELL_COMMAND_FLAG@, script_for(c, action)],
        env: seq![(ENV_CONNECTION_NAME@, c.name), (ENV_CONNECTION_CONTEXT@, c.context)],
    }
}

/// What a transition of the connection `id` / `uuid` starts, if anything.
pub open spec fn dispatch_for(
    config: Map<Seq<char>, ConnectionConfigView>,
    id: Seq<char>,
    uuid: Seq<char>,
    action: ConnectionEvent,
) -> Option<ScriptCommandView> {
    match select_config(config, id, uuid) {
        Some(c) => Some(command_for(c, action)),
        None => None,
    }
}

/// The view of an optional command.
pub open spec fn command_view(r: Option<ScriptCommand>) -> Option<ScriptCommandView> {
    match r {
        Some(c) => Some(c@),
        None => None,
    }
}

/// Looks a connection up by its UUID first and by its name second.
pub fn lookup_connection<'a>(config: &'a Config, id: &String, uuid: &String) -> (r: Option<
    &'a ConnectionConfig,
>)
    requires
        config.wf(),
    ensures
        match r {
            Some(c) => select_config(config@, id@, uuid@) == Some(c@),
            None => select_config(config@, id@, uuid@).is_none(),
        },
{
    match config.get(uuid) {
        Some(c) => Some(c),
        None => config.get(id),
    }
}

/// Builds the process that runs the script of `c` for `action`.
pub fn script_command(c: &ConnectionConfig, action: ConnectionEvent) -> (r: ScriptCommand)
    ensures
        r@ == command_for(c@, action),
{
    let script = match action {
        ConnectionEvent::Up => c.up_script.clone(),
        ConnectionEvent::Down => c.down_script.clone(),
    };
    let args = vec![SHELL_COMMAND_FLAG.to_owned(), script];
    let env = vec![
        (ENV_CONNECTION_NAME.to_owned(), c.name.clone()),
        (ENV_CONNECTION_CONTEXT.to_owned(), c.context.clone()),
    ];
    let r = ScriptCommand { program: SHELL.to_owned(), args, env };
    assert(r@.args =~= command_for(c@, action).args);
    assert(r@.env =~= command_for(c@, action).env);
    r
}

} // verus!
