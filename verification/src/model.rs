//! The mathematical model of the session and of one dispatch step: what each
//! input line does to the state, which lines it prints, and which request it
//! hands to the outer layer.

use vstd::prelude::*;

verus! {

use crate::env::sourced;
use crate::text::dec_rep;
use crate::text::joined;
use crate::text::parsed_index;
use crate::text::tokens_of;

/// One custom command: a user-chosen name, an opaque definition stored
/// verbatim, and an opaque description.
#[verifier::ext_equal]
pub struct CommandModel {
    pub name: Seq<char>,
    pub definition: Seq<char>,
    pub description: Seq<char>,
}

/// The session state: the current location, the navigation history with its
/// cursor, the custom-command registry, and the environment overlay.
#[verifier::ext_equal]
pub struct ShellModel {
    pub location: Seq<char>,
    pub history: Seq<Seq<char>>,
    pub cursor: int,
    pub registry: Seq<CommandModel>,
    pub env: Map<Seq<char>, Seq<char>>,
}

impl ShellModel {
    /// The session invariant: the cursor lies within the history and marks
    /// the current location.
    pub open spec fn wf(self) -> bool {
        &&& self.history.len() > 0
        &&& 0 <= self.cursor < self.history.len()
        &&& self.history[self.cursor] == self.location
    }
}

/// The initial state: the starting location is the sole history entry.
pub open spec fn init_model(start: Seq<char>) -> ShellModel {
    ShellModel {
        location: start,
        history: seq![start],
        cursor: 0,
        registry: Seq::empty(),
        env: Map::empty(),
    }
}

/// A request the session hands to the outer layer; the session itself
/// touches no filesystem and spawns no process. Each `failure` field is the
/// line to print when the collaborator reports an error.
#[verifier::ext_equal]
pub enum EffectSpec {
    /// Print the entries of the directory.
    ListDir { path: Seq<char> },
    /// Create the directory, parents included.
    MakeDir { path: Seq<char>, failure: Seq<char> },
    /// Remove the (empty) directory.
    RemoveDir { path: Seq<char>, failure: Seq<char> },
    /// Rename `from` to `to`.
    RenamePath { from: Seq<char>, to: Seq<char>, failure: Seq<char> },
    /// Move `from` to `to`.
    MovePath { from: Seq<char>, to: Seq<char>, failure: Seq<char> },
    /// Copy the file `from` to `to`.
    CopyPath { from: Seq<char>, to: Seq<char>, failure: Seq<char> },
    /// Print the contents of the file.
    ReadFile { path: Seq<char>, failure: Seq<char> },
    /// Run the script if it exists, else print the `not_found` line.
    RunScript { path: Seq<char>, not_found: Seq<char> },
    /// Read the file and hand its contents back as a sourcing event.
    SourceEnv { path: Seq<char> },
    /// Clear the console.
    ClearScreen,
    /// End the session with a success status.
    Exit,
}

/// What one dispatch step yields: the next state, the lines to print, and
/// an optional request to the outer layer.
#[verifier::ext_equal]
pub struct StepOut {
    pub state: ShellModel,
    pub outputs: Seq<Seq<char>>,
    pub effect: Option<EffectSpec>,
}

pub open spec fn quiet(m: ShellModel) -> StepOut {
    StepOut { state: m, outputs: seq![], effect: None }
}

pub open spec fn told(m: ShellModel, line: Seq<char>) -> StepOut {
    StepOut { state: m, outputs: seq![line], effect: None }
}

pub open spec fn asked(m: ShellModel, e: EffectSpec) -> StepOut {
    StepOut { state: m, outputs: seq![], effect: Some(e) }
}

/// The token at position `i`, when there is one.
pub open spec fn opt_tok(t: Seq<Seq<char>>, i: int) -> Option<Seq<char>> {
    if 0 <= i < t.len() {
        Some(t[i])
    } else {
        None
    }
}

// ---------------------------------------------------------------------------
// Navigation history
// ---------------------------------------------------------------------------

/// One step backward through the history: below the start it is a no-op.
pub open spec fn back_model(m: ShellModel) -> ShellModel {
    if m.cursor > 0 {
        ShellModel { location: m.history[m.cursor - 1], cursor: m.cursor - 1, ..m }
    } else {
        m
    }
}

/// One step forward through the history: at the end it is a no-op.
pub open spec fn forward_model(m: ShellModel) -> ShellModel {
    if m.cursor + 1 < m.history.len() {
        ShellModel { location: m.history[m.cursor + 1], cursor: m.cursor + 1, ..m }
    } else {
        m
    }
}

// ---------------------------------------------------------------------------
// Custom-command registry
// ---------------------------------------------------------------------------

pub open spec fn create_step(
    m: ShellModel,
    name: Option<Seq<char>>,
    definition: Option<Seq<char>>,
    description: Option<Seq<char>>,
) -> StepOut {
    match (name, definition, description) {
        (Some(n), Some(df), Some(ds)) => StepOut {
            state: ShellModel {
                registry: m.registry.push(
                    CommandModel { name: n, definition: df, description: ds },
                ),
                ..m
            },
            outputs: seq!["Custom command '"@ + n + "' created."@],
            effect: None,
        },
        _ => told(m, "Usage: cc create <command_name> <command_definition> <command_description>"@),
    }
}

/// The line the listing prints for the entry at (0-based) position `i`.
pub open spec fn list_line(i: int, c: CommandModel) -> Seq<char> {
    dec_rep((i + 1) as nat) + ": "@ + c.name + " - "@ + c.description + " (Definition: "@
        + c.definition + ")"@
}

/// The listing: entries in registry order, numbered contiguously from 1.
pub open spec fn list_lines(reg: Seq<CommandModel>) -> Seq<Seq<char>> {
    Seq::new(reg.len(), |i: int| list_line(i, reg[i]))
}

pub open spec fn list_step(m: ShellModel) -> StepOut {
    if m.registry.len() == 0 {
        told(m, "No custom commands defined."@)
    } else {
        StepOut { state: m, outputs: list_lines(m.registry), effect: None }
    }
}

pub open spec fn delete_step(m: ShellModel, pos: Option<Seq<char>>) -> StepOut {
    match pos {
        None => told(m, "Usage: cc delete <command_number>"@),
        Some(p) => match parsed_index(p) {
            None => told(m, "Invalid command number."@),
            Some(v) => if 1 <= v && v <= m.registry.len() {
                StepOut {
                    state: ShellModel { registry: m.registry.remove(v as int - 1), ..m },
                    outputs: seq![
                        "Custom command '"@ + m.registry[v as int - 1].name + "' deleted."@,
                    ],
                    effect: None,
                }
            } else {
                told(m, "Command number out of range."@)
            },
        },
    }
}

pub open spec fn refactor_step(
    m: ShellModel,
    pos: Option<Seq<char>>,
    new_definition: Option<Seq<char>>,
    new_description: Option<Seq<char>>,
) -> StepOut {
    match pos {
        None => told(m, "Usage: cc refactor <command_number> <new_definition> <new_description>"@),
        Some(p) => match parsed_index(p) {
            None => told(m, "Invalid command number."@),
            Some(v) => if 1 <= v && v <= m.registry.len() {
                let c0 = m.registry[v as int - 1];
                let c1 = CommandModel {
                    name: c0.name,
                    definition: match new_definition {
                        Some(d) => d,
                        None => c0.definition,
                    },
                    description: match new_description {
                        Some(d) => d,
                        None => c0.description,
                    },
                };
                StepOut {
                    state: ShellModel { registry: m.registry.update(v as int - 1, c1), ..m },
                    outputs: seq!["Custom command '"@ + c0.name + "' updated."@],
                    effect: None,
                }
            } else {
                told(m, "Command number out of range."@)
            },
        },
    }
}

/// The custom-command sub-dispatch: `t` is the whole token list, with the
/// action at position 1.
pub open spec fn cc_step(m: ShellModel, t: Seq<Seq<char>>) -> StepOut {
    if t.len() < 2 {
        told(m, "Usage: cc <create/list/delete/refactor>"@)
    } else {
        let action = t[1];
        if action == "create"@ {
            create_step(m, opt_tok(t, 2), opt_tok(t, 3), opt_tok(t, 4))
        } else if action == "list"@ {
            list_step(m)
        } else if action == "delete"@ {
            delete_step(m, opt_tok(t, 2))
        } else if action == "refactor"@ {
            refactor_step(m, opt_tok(t, 2), opt_tok(t, 3), opt_tok(t, 4))
        } else {
            told(m, "Unknown custom command action: "@ + action)
        }
    }
}

// ---------------------------------------------------------------------------
// Environment overlay
// ---------------------------------------------------------------------------

pub open spec fn setenv_step(
    m: ShellModel,
    key: Option<Seq<char>>,
    value: Option<Seq<char>>,
) -> StepOut {
    match (key, value) {
        (Some(k), Some(v)) => StepOut {
            state: ShellModel { env: m.env.insert(k, v), ..m },
            outputs: seq!["Environment variable set: "@ + k + "="@ + v],
            effect: None,
        },
        _ => told(m, "Usage: setenv <key> <value>"@),
    }
}

pub open spec fn source_step(m: ShellModel, path: Option<Seq<char>>) -> StepOut {
    match path {
        Some(p) => asked(m, EffectSpec::SourceEnv { path: joined(m.location, p) }),
        None => told(m, "Usage: source <env_file_path>"@),
    }
}

/// The event that answers a `SourceEnv` request: the file's contents, or
/// nothing when the read failed. A failed read applies no binding at all.
pub open spec fn source_result_step(m: ShellModel, contents: Option<Seq<char>>) -> StepOut {
    match contents {
        Some(c) => StepOut {
            state: ShellModel { env: sourced(m.env, c), ..m },
            outputs: seq!["Environment variables sourced."@],
            effect: None,
        },
        None => told(m, "Failed to read env file."@),
    }
}

// ---------------------------------------------------------------------------
// Filesystem and process requests
// ---------------------------------------------------------------------------

pub open spec fn dir_step(m: ShellModel) -> StepOut {
    asked(m, EffectSpec::ListDir { path: m.location })
}

pub open spec fn mkdir_step(m: ShellModel, arg: Option<Seq<char>>) -> StepOut {
    match arg {
        Some(name) => asked(
            m,
            EffectSpec::MakeDir {
                path: joined(m.location, name),
                failure: "Failed to create directory: "@ + name,
            },
        ),
        None => told(m, "Usage: mkdir <directory_name>"@),
    }
}

pub open spec fn rmdir_step(m: ShellModel, arg: Option<Seq<char>>) -> StepOut {
    match arg {
        Some(name) => asked(
            m,
            EffectSpec::RemoveDir {
                path: joined(m.location, name),
                failure: "Failed to remove directory: "@ + name,
            },
        ),
        None => told(m, "Usage: rmdir <directory_name>"@),
    }
}

pub open spec fn rename_step(
    m: ShellModel,
    a: Option<Seq<char>>,
    b: Option<Seq<char>>,
) -> StepOut {
    match (a, b) {
        (Some(x), Some(y)) => asked(
            m,
            EffectSpec::RenamePath {
                from: joined(m.location, x),
                to: joined(m.location, y),
                failure: "Failed to rename directory."@,
            },
        ),
        _ => told(m, "Usage: rename <old_name> <new_name>"@),
    }
}

pub open spec fn move_step(m: ShellModel, a: Option<Seq<char>>, b: Option<Seq<char>>) -> StepOut {
    match (a, b) {
        (Some(x), Some(y)) => asked(
            m,
            EffectSpec::MovePath {
                from: joined(m.location, x),
                to: joined(m.location, y),
                failure: "Failed to move file."@,
            },
        ),
        _ => told(m, "Usage: move <source> <destination>"@),
    }
}

pub open spec fn copy_step(m: ShellModel, a: Option<Seq<char>>, b: Option<Seq<char>>) -> StepOut {
    match (a, b) {
        (Some(x), Some(y)) => asked(
            m,
            EffectSpec::CopyPath {
                from: joined(m.location, x),
                to: joined(m.location, y),
                failure: "Failed to copy file."@,
            },
        ),
        _ => told(m, "Usage: copy <source> <destination>"@),
    }
}

pub open spec fn type_step(m: ShellModel, arg: Option<Seq<char>>) -> StepOut {
    match arg {
        Some(name) => asked(
            m,
            EffectSpec::ReadFile {
                path: joined(m.location, name),
                failure: "Failed to read file."@,
            },
        ),
        None => told(m, "Usage: type <file_name>"@),
    }
}

pub open spec fn run_step(m: ShellModel, arg: Option<Seq<char>>) -> StepOut {
    match arg {
        Some(p) => asked(
            m,
            EffectSpec::RunScript {
                path: joined(m.location, p),
                not_found: "Script not found: "@ + p,
            },
        ),
        None => told(m, "Usage: run <script_path>"@),
    }
}

pub open spec fn clear_step(m: ShellModel) -> StepOut {
    asked(m, EffectSpec::ClearScreen)
}

pub open spec fn exit_step(m: ShellModel) -> StepOut {
    asked(m, EffectSpec::Exit)
}

/// The fixed lines the help operation prints.
pub open spec fn help_lines() -> Seq<Seq<char>> {
    seq![
        "Available commands:"@,
        "  dir  mkdir <name>  rmdir <name>  rename <old> <new>"@,
        "  move <src> <dest>  copy <src> <dest>  type <file>"@,
        "  <-  ->  clear  run <script>  source <file>  setenv <key> <value>"@,
        "  cc <create/list/delete/refactor>  help  exit"@,
    ]
}

pub open spec fn help_step(m: ShellModel) -> StepOut {
    StepOut { state: m, outputs: help_lines(), effect: None }
}

pub open spec fn unknown_step(m: ShellModel, tok: Seq<char>) -> StepOut {
    told(m, "Unknown command: "@ + tok)
}

// ---------------------------------------------------------------------------
// Dispatch
// ---------------------------------------------------------------------------

/// One dispatch step: the input line is split into whitespace-separated
/// tokens; an empty line is a no-op; the first token selects the operation
/// and the remaining tokens are its positional arguments.
pub open spec fn step_spec(m: ShellModel, line: Seq<char>) -> StepOut {
    let t = tokens_of(line);
    if t.len() == 0 {
        quiet(m)
    } else {
        let cmd = t[0];
        if cmd == "dir"@ {
            dir_step(m)
        } else if cmd == "mkdir"@ {
            mkdir_step(m, opt_tok(t, 1))
        } else if cmd == "rmdir"@ {
            rmdir_step(m, opt_tok(t, 1))
        } else if cmd == "help"@ {
            help_step(m)
        } else if cmd == "<-"@ {
            quiet(back_model(m))
        } else if cmd == "->"@ {
            quiet(forward_model(m))
        } else if cmd == "clear"@ {
            clear_step(m)
        } else if cmd == "rename"@ {
            rename_step(m, opt_tok(t, 1), opt_tok(t, 2))
        } else if cmd == "move"@ {
            move_step(m, opt_tok(t, 1), opt_tok(t, 2))
        } else if cmd == "copy"@ {
            copy_step(m, opt_tok(t, 1), opt_tok(t, 2))
        } else if cmd == "type"@ {
            type_step(m, opt_tok(t, 1))
        } else if cmd == "exit"@ {
            exit_step(m)
        } else if cmd == "cc"@ {
            cc_step(m, t)
        } else if cmd == "run"@ {
            run_step(m, opt_tok(t, 1))
        } else if cmd == "source"@ {
            source_step(m, opt_tok(t, 1))
        } else if cmd == "setenv"@ {
            setenv_step(m, opt_tok(t, 1), opt_tok(t, 2))
        } else {
            unknown_step(m, cmd)
        }
    }
}

} // verus!
