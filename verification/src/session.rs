//! The session itself: the verified state machine behind the shell. Every
//! operation is proved to follow the dispatch model in [`crate::model`];
//! filesystem and process work is handed out as an [`Effect`] for the outer
//! layer to perform.

use vstd::prelude::*;

verus! {

use vstd::string::StrSliceExecFns;
use vstd::string::StringExecFns;
use crate::env::EnvOverlay;
use crate::model::CommandModel;
use crate::model::EffectSpec;
use crate::model::ShellModel;
use crate::model::back_model;
use crate::model::cc_step;
use crate::model::clear_step;
use crate::model::copy_step;
use crate::model::create_step;
use crate::model::delete_step;
use crate::model::dir_step;
use crate::model::exit_step;
use crate::model::forward_model;
use crate::model::help_lines;
use crate::model::help_step;
use crate::model::init_model;
use crate::model::list_line;
use crate::model::list_lines;
use crate::model::list_step;
use crate::model::mkdir_step;
use crate::model::move_step;
use crate::model::opt_tok;
use crate::model::refactor_step;
use crate::model::rename_step;
use crate::model::rmdir_step;
use crate::model::run_step;
use crate::model::setenv_step;
use crate::model::source_result_step;
use crate::model::source_step;
use crate::model::step_spec;
use crate::model::type_step;
use crate::model::unknown_step;
use crate::text::parse_index;
use crate::text::join_path;
use crate::text::tokenize;
use crate::text::tokens_of;
use crate::text::usize_to_string;
use crate::text::views_of;
use crate::text::lemma_views_of_push;

/// One stored custom command. The definition is kept verbatim and never
/// interpreted.
pub struct CustomCommand {
    pub name: String,
    pub definition: String,
    pub description: String,
}

impl View for CustomCommand {
    type V = CommandModel;

    open spec fn view(&self) -> CommandModel {
        CommandModel { name: self.name@, definition: self.definition@, description: self.description@ }
    }
}

/// The views of a sequence of stored custom commands.
pub open spec fn reg_view(s: Seq<CustomCommand>) -> Seq<CommandModel> {
    s.map_values(|c: CustomCommand| c@)
}

/// A request the session hands to the outer layer, carrying the resolved
/// paths and the failure line to print if the collaborator reports an error.
pub enum Effect {
    ListDir { path: String },
    MakeDir { path: String, failure: String },
    RemoveDir { path: String, failure: String },
    RenamePath { from: String, to: String, failure: String },
    MovePath { from: String, to: String, failure: String },
    CopyPath { from: String, to: String, failure: String },
    ReadFile { path: String, failure: String },
    RunScript { path: String, not_found: String },
    SourceEnv { path: String },
    ClearScreen,
    Exit,
}

impl Effect {
    pub open spec fn model(self) -> EffectSpec {
        match self {
            Effect::ListDir { path } => EffectSpec::ListDir { path: path@ },
            Effect::MakeDir { path, failure } => EffectSpec::MakeDir {
                path: path@,
                failure: failure@,
            },
            Effect::RemoveDir { path, failure } => EffectSpec::RemoveDir {
                path: path@,
                failure: failure@,
            },
            Effect::RenamePath { from, to, failure } => EffectSpec::RenamePath {
                from: from@,
                to: to@,
                failure: failure@,
            },
            Effect::MovePath { from, to, failure } => EffectSpec::MovePath {
                from: from@,
                to: to@,
                failure: failure@,
            },
            Effect::CopyPath { from, to, failure } => EffectSpec::CopyPath {
                from: from@,
                to: to@,
                failure: failure@,
            },
            Effect::ReadFile { path, failure } => EffectSpec::ReadFile {
                path: path@,
                failure: failure@,
            },
            Effect::RunScript { path, not_found } => EffectSpec::RunScript {
                path: path@,
                not_found: not_found@,
            },
            Effect::SourceEnv { path } => EffectSpec::SourceEnv { path: path@ },
            Effect::ClearScreen => EffectSpec::ClearScreen,
            Effect::Exit => EffectSpec::Exit,
        }
    }
}

/// What one dispatched operation hands back: the lines to print, in order,
/// and at most one request to the outer layer.
pub struct Reply {
    pub outputs: Vec<String>,
    pub effect: Option<Effect>,
}

impl Reply {
    pub open spec fn outs(self) -> Seq<Seq<char>> {
        views_of(self.outputs@)
    }

    pub open spec fn eff(self) -> Option<EffectSpec> {
        match self.effect {
            Some(e) => Some(e.model()),
            None => None,
        }
    }

    /// No output, no request.
    fn empty() -> (r: Reply)
        ensures
            r.outs() == Seq::<Seq<char>>::empty(),
            r.eff() is None,
    {
        let r = Reply { outputs: Vec::new(), effect: None };
        proof {
            assert(r.outs() =~= Seq::<Seq<char>>::empty());
        }
        r
    }

    /// One line of output, no request.
    fn note(line: String) -> (r: Reply)
        ensures
            r.outs() == seq![line@],
            r.eff() is None,
    {
        let mut outputs: Vec<String> = Vec::new();
        outputs.push(line);
        let r = Reply { outputs, effect: None };
        proof {
            assert(r.outs() =~= seq![r.outputs@[0]@]);
        }
        r
    }

    /// No output, one request.
    fn ask(e: Effect) -> (r: Reply)
        ensures
            r.outs() == Seq::<Seq<char>>::empty(),
            r.eff() == Some(e.model()),
    {
        let r = Reply { outputs: Vec::new(), effect: Some(e) };
        proof {
            assert(r.outs() =~= Seq::<Seq<char>>::empty());
        }
        r
    }
}

fn concat2(a: &str, b: &str) -> (r: String)
    ensures
        r@ == a@ + b@,
{
    let mut r = a.to_owned();
    r.append(b);
    r
}

fn concat3(a: &str, b: &str, c: &str) -> (r: String)
    ensures
        r@ == a@ + b@ + c@,
{
    let mut r = a.to_owned();
    r.append(b);
    r.append(c);
    r
}

fn concat4(a: &str, b: &str, c: &str, d: &str) -> (r: String)
    ensures
        r@ == a@ + b@ + c@ + d@,
{
    let mut r = a.to_owned();
    r.append(b);
    r.append(c);
    r.append(d);
    r
}

/// Whether a string equals a literal.
fn str_eq(a: &String, b: &str) -> (r: bool)
    ensures
        r == (a@ == b@),
{
    let t: String = b.to_owned();
    *a == t
}

/// The view of an optional argument.
pub open spec fn opt_view(a: Option<&str>) -> Option<Seq<char>> {
    match a {
        Some(s) => Some(s@),
        None => None,
    }
}

/// The token at position `i`, when there is one.
fn opt_arg<'a>(tokens: &'a Vec<String>, i: usize) -> (r: Option<&'a str>)
    ensures
        opt_view(r) == opt_tok(views_of(tokens@), i as int),
{
    if i < tokens.len() {
        Some(tokens[i].as_str())
    } else {
        None
    }
}

/// The session: the current location, the navigation history with its
/// cursor, the custom-command registry, and the environment overlay.
pub struct Shell {
    current_dir: String,
    history: Vec<String>,
    history_index: usize,
    custom_commands: Vec<CustomCommand>,
    env_vars: EnvOverlay,
}

impl Shell {
    /// The mathematical state of the session.
    pub closed spec fn model(self) -> ShellModel {
        ShellModel {
            location: self.current_dir@,
            history: views_of(self.history@),
            cursor: self.history_index as int,
            registry: reg_view(self.custom_commands@),
            env: self.env_vars@,
        }
    }

    /// The session invariant.
    pub closed spec fn wf(self) -> bool {
        self.model().wf() && self.env_vars.wf()
    }

    /// A fresh session at the given starting location, which becomes the
    /// sole history entry.
    pub fn new(start_dir: String) -> (s: Shell)
        ensures
            s.wf(),
            s.model() == init_model(start_dir@),
    {
        let mut history: Vec<String> = Vec::new();
        history.push(start_dir.clone());
        let s = Shell {
            current_dir: start_dir,
            history,
            history_index: 0,
            custom_commands: Vec::new(),
            env_vars: EnvOverlay::new(),
        };
        proof {
            assert(views_of(s.history@) =~= seq![s.current_dir@]);
            assert(reg_view(s.custom_commands@) =~= Seq::<CommandModel>::empty());
            assert(s.model() =~= init_model(s.current_dir@));
        }
        s
    }

    /// The current location.
    pub fn location(&self) -> (r: &String)
        ensures
            r@ == self.model().location,
    {
        &self.current_dir
    }

    /// The value bound to a variable in the environment overlay, if any.
    pub fn get_env(&self, key: &str) -> (r: Option<String>)
        requires
            self.wf(),
        ensures
            match r {
                Some(v) => self.model().env.contains_key(key@) && self.model().env[key@] == v@,
                None => !self.model().env.contains_key(key@),
            },
    {
        self.env_vars.get(key)
    }

    // -----------------------------------------------------------------------
    // Dispatch
    // -----------------------------------------------------------------------

    /// Dispatches one input line: tokenizes it, routes it by its first
    /// token, and returns the produced output and request. An empty line is
    /// a no-op.
    pub fn execute_command(&mut self, command: &str) -> (r: Reply)
        requires
            old(self).wf(),
        ensures
            final(self).wf(),
            final(self).model() == step_spec(old(self).model(), command@).state,
            r.outs() == step_spec(old(self).model(), command@).outputs,
            r.eff() == step_spec(old(self).model(), command@).effect,
    {
        let tokens = tokenize(command);
        let ghost t = tokens_of(command@);
        if tokens.len() == 0 {
            return Reply::empty();
        }
        proof {
            assert(t[0] == tokens@[0]@);
        }
        let r: Reply;
        if str_eq(&tokens[0], "dir") {
            r = self.list_dir();
        } else if str_eq(&tokens[0], "mkdir") {
            r = self.make_dir(opt_arg(&tokens, 1));
        } else if str_eq(&tokens[0], "rmdir") {
            r = self.remove_dir(opt_arg(&tokens, 1));
        } else if str_eq(&tokens[0], "help") {
            r = self.display_help();
        } else if str_eq(&tokens[0], "<-") {
            self.go_backward();
            r = Reply::empty();
        } else if str_eq(&tokens[0], "->") {
            self.go_forward();
            r = Reply::empty();
        } else if str_eq(&tokens[0], "clear") {
            r = self.clear_screen();
        } else if str_eq(&tokens[0], "rename") {
            r = self.rename_dir(opt_arg(&tokens, 1), opt_arg(&tokens, 2));
        } else if str_eq(&tokens[0], "move") {
            r = self.move_file(opt_arg(&tokens, 1), opt_arg(&tokens, 2));
        } else if str_eq(&tokens[0], "copy") {
            r = self.copy_file(opt_arg(&tokens, 1), opt_arg(&tokens, 2));
        } else if str_eq(&tokens[0], "type") {
            r = self.type_file(opt_arg(&tokens, 1));
        } else if str_eq(&tokens[0], "exit") {
            r = self.exit_shell();
        } else if str_eq(&tokens[0], "cc") {
            r = self.handle_custom_command(&tokens);
        } else if str_eq(&tokens[0], "run") {
            r = self.run_script(opt_arg(&tokens, 1));
        } else if str_eq(&tokens[0], "source") {
            r = self.source_env_file(opt_arg(&tokens, 1));
        } else if str_eq(&tokens[0], "setenv") {
            r = self.set_env_var(opt_arg(&tokens, 1), opt_arg(&tokens, 2));
        } else {
            r = self.handle_file_commands(tokens[0].as_str());
        }
        r
    }

    // -----------------------------------------------------------------------
    // Navigation history
    // -----------------------------------------------------------------------

    /// Steps backward through the history; at the oldest entry this is a
    /// no-op and nothing is reported.
    pub fn go_backward(&mut self)
        requires
            old(self).wf(),
        ensures
            final(self).wf(),
            final(self).model() == back_model(old(self).model()),
    {
        if self.history_index > 0 {
            self.history_index = self.history_index - 1;
            self.current_dir = self.history[self.history_index].clone();
        }
        proof {
            assert(self.model() =~= back_model(old(self).model()));
        }
    }

    /// Steps forward through the history; at the newest entry this is a
    /// no-op and nothing is reported.
    pub fn go_forward(&mut self)
        requires
            old(self).wf(),
        ensures
            final(self).wf(),
            final(self).model() == forward_model(old(self).model()),
    {
        if self.history_index < self.history.len() - 1 {
            self.history_index = self.history_index + 1;
            self.current_dir = self.history[self.history_index].clone();
        }
        proof {
            assert(self.model() =~= forward_model(old(self).model()));
        }
    }

    // -----------------------------------------------------------------------
    // Custom-command registry
    // -----------------------------------------------------------------------

    /// Routes a `cc` line by its action token (position 1 of the tokens).
    pub fn handle_custom_command(&mut self, tokens: &Vec<String>) -> (r: Reply)
        requires
            old(self).wf(),
        ensures
            final(self).wf(),
            final(self).model() == cc_step(old(self).model(), views_of(tokens@)).state,
            r.outs() == cc_step(old(self).model(), views_of(tokens@)).outputs,
            r.eff() == cc_step(old(self).model(), views_of(tokens@)).effect,
    {
        let ghost t = views_of(tokens@);
        if tokens.len() < 2 {
            return Reply::note("Usage: cc <create/list/delete/refactor>".to_owned());
        }
        proof {
            assert(t[1] == tokens@[1]@);
        }
        let r: Reply;
        if str_eq(&tokens[1], "create") {
            r = self.create_custom_command(
                opt_arg(tokens, 2),
                opt_arg(tokens, 3),
                opt_arg(tokens, 4),
            );
        } else if str_eq(&tokens[1], "list") {
            r = self.list_custom_commands();
        } else if str_eq(&tokens[1], "delete") {
            r = self.delete_custom_command(opt_arg(tokens, 2));
        } else if str_eq(&tokens[1], "refactor") {
            r = self.refactor_custom_command(
                opt_arg(tokens, 2),
                opt_arg(tokens, 3),
                opt_arg(tokens, 4),
            );
        } else {
            r = Reply::note(concat2("Unknown custom command action: ", tokens[1].as_str()));
        }
        r
    }

    /// Appends a new custom command; all three fields are required.
    pub fn create_custom_command(
        &mut self,
        cmd_name: Option<&str>,
        cmd_definition: Option<&str>,
        cmd_description: Option<&str>,
    ) -> (r: Reply)
        requires
            old(self).wf(),
        ensures
            final(self).wf(),
            final(self).model() == create_step(
                old(self).model(),
                opt_view(cmd_name),
                opt_view(cmd_definition),
                opt_view(cmd_description),
            ).state,
            r.outs() == create_step(
                old(self).model(),
                opt_view(cmd_name),
                opt_view(cmd_definition),
                opt_view(cmd_description),
            ).outputs,
            r.eff() == create_step(
                old(self).model(),
                opt_view(cmd_name),
                opt_view(cmd_definition),
                opt_view(cmd_description),
            ).effect,
    {
        match (cmd_name, cmd_definition, cmd_description) {
            (Some(name), Some(definition), Some(description)) => {
                let command = CustomCommand {
                    name: name.to_owned(),
                    definition: definition.to_owned(),
                    description: description.to_owned(),
                };
                self.custom_commands.push(command);
                proof {
                    assert(reg_view(self.custom_commands@) =~= reg_view(
                        old(self).custom_commands@,
                    ).push(CommandModel { name: name@, definition: definition@, description: description@ }));
                    assert(self.model() =~= create_step(
                        old(self).model(),
                        Some(name@),
                        Some(definition@),
                        Some(description@),
                    ).state);
                }
                Reply::note(concat3("Custom command '", name, "' created."))
            },
            _ => Reply::note(
                "Usage: cc create <command_name> <command_definition> <command_description>".to_owned(),
            ),
        }
    }

    /// Prints the registry, numbered contiguously from 1, or a distinct
    /// line when it is empty.
    pub fn list_custom_commands(&self) -> (r: Reply)
        ensures
            r.outs() == list_step(self.model()).outputs,
            r.eff() == list_step(self.model()).effect,
    {
        let ghost reg = reg_view(self.custom_commands@);
        let n = self.custom_commands.len();
        if n == 0 {
            return Reply::note("No custom commands defined.".to_owned());
        }
        let mut outputs: Vec<String> = Vec::new();
        proof {
            assert(views_of(outputs@) =~= list_lines(reg).take(0));
        }
        let mut i: usize = 0;
        while i < n
            invariant
                i <= n,
                n == self.custom_commands@.len(),
                reg == reg_view(self.custom_commands@),
                views_of(outputs@) == list_lines(reg).take(i as int),
            decreases n - i,
        {
            let c = &self.custom_commands[i];
            let mut line = usize_to_string(i + 1);
            line.append(": ");
            line.append(c.name.as_str());
            line.append(" - ");
            line.append(c.description.as_str());
            line.append(" (Definition: ");
            line.append(c.definition.as_str());
            line.append(")");
            proof {
                assert(line@ == list_line(i as int, reg[i as int]));
                lemma_views_of_push(outputs@, line);
                assert(list_lines(reg).take(i as int + 1) =~= list_lines(reg).take(i as int).push(
                    list_line(i as int, reg[i as int]),
                ));
            }
            outputs.push(line);
            i += 1;
        }
        proof {
            assert(list_lines(reg).take(n as int) =~= list_lines(reg));
        }
        let r = Reply { outputs, effect: None };
        r
    }

    /// Removes the entry at a 1-based position; a non-numeric position and
    /// an out-of-range one are rejected with distinct messages.
    pub fn delete_custom_command(&mut self, cmd_number: Option<&str>) -> (r: Reply)
        requires
            old(self).wf(),
        ensures
            final(self).wf(),
            final(self).model() == delete_step(old(self).model(), opt_view(cmd_number)).state,
            r.outs() == delete_step(old(self).model(), opt_view(cmd_number)).outputs,
            r.eff() == delete_step(old(self).model(), opt_view(cmd_number)).effect,
    {
        match cmd_number {
            None => Reply::note("Usage: cc delete <command_number>".to_owned()),
            Some(num_str) => match parse_index(num_str) {
                None => Reply::note("Invalid command number.".to_owned()),
                Some(index) => {
                    if index > 0 && index <= self.custom_commands.len() {
                        let removed = self.custom_commands.remove(index - 1);
                        proof {
                            assert(reg_view(self.custom_commands@) =~= reg_view(
                                old(self).custom_commands@,
                            ).remove(index - 1));
                            assert(self.model() =~= delete_step(
                                old(self).model(),
                                opt_view(cmd_number),
                            ).state);
                        }
                        Reply::note(concat3("Custom command '", removed.name.as_str(), "' deleted."))
                    } else {
                        Reply::note("Command number out of range.".to_owned())
                    }
                },
            },
        }
    }

    /// Overwrites the definition and/or description of the entry at a
    /// 1-based position; the name never changes, and with neither field
    /// given the entry is left as it was, while success is still reported.
    pub fn refactor_custom_command(
        &mut self,
        cmd_number: Option<&str>,
        new_definition: Option<&str>,
        new_description: Option<&str>,
    ) -> (r: Reply)
        requires
            old(self).wf(),
        ensures
            final(self).wf(),
            final(self).model() == refactor_step(
                old(self).model(),
                opt_view(cmd_number),
                opt_view(new_definition),
                opt_view(new_description),
            ).state,
            r.outs() == refactor_step(
                old(self).model(),
                opt_view(cmd_number),
                opt_view(new_definition),
                opt_view(new_description),
            ).outputs,
            r.eff() == refactor_step(
                old(self).model(),
                opt_view(cmd_number),
                opt_view(new_definition),
                opt_view(new_description),
            ).effect,
    {
        match cmd_number {
            None => Reply::note(
                "Usage: cc refactor <command_number> <new_definition> <new_description>".to_owned(),
            ),
            Some(num_str) => match parse_index(num_str) {
                None => Reply::note("Invalid command number.".to_owned()),
                Some(index) => {
                    if index > 0 && index <= self.custom_commands.len() {
                        let i = index - 1;
                        let c = self.custom_commands.remove(i);
                        let name = c.name;
                        let definition = match new_definition {
                            Some(d) => d.to_owned(),
                            None => c.definition,
                        };
                        let description = match new_description {
                            Some(d) => d.to_owned(),
                            None => c.description,
                        };
                        let msg = concat3("Custom command '", name.as_str(), "' updated.");
                        let c2 = CustomCommand { name, definition, description };
                        let ghost c2v = c2@;
                        self.custom_commands.insert(i, c2);
                        proof {
                            assert(self.custom_commands@ =~= old(self).custom_commands@.update(
                                i as int,
                                self.custom_commands@[i as int],
                            ));
                            assert(reg_view(self.custom_commands@) =~= reg_view(
                                old(self).custom_commands@,
                            ).update(i as int, c2v));
                            assert(self.model() =~= refactor_step(
                                old(self).model(),
                                opt_view(cmd_number),
                                opt_view(new_definition),
                                opt_view(new_description),
                            ).state);
                        }
                        Reply::note(msg)
                    } else {
                        Reply::note("Command number out of range.".to_owned())
                    }
                },
            },
        }
    }

    // -----------------------------------------------------------------------
    // Environment overlay
    // -----------------------------------------------------------------------

    /// Binds a variable in the overlay; both the key and the value are
    /// required.
    pub fn set_env_var(&mut self, key: Option<&str>, value: Option<&str>) -> (r: Reply)
        requires
            old(self).wf(),
        ensures
            final(self).wf(),
            final(self).model() == setenv_step(old(self).model(), opt_view(key), opt_view(value)).state,
            r.outs() == setenv_step(old(self).model(), opt_view(key), opt_view(value)).outputs,
            r.eff() == setenv_step(old(self).model(), opt_view(key), opt_view(value)).effect,
    {
        match (key, value) {
            (Some(k), Some(v)) => {
                self.env_vars.insert(k.to_owned(), v.to_owned());
                proof {
                    assert(self.model() =~= setenv_step(
                        old(self).model(),
                        Some(k@),
                        Some(v@),
                    ).state);
                }
                Reply::note(concat4("Environment variable set: ", k, "=", v))
            },
            _ => Reply::note("Usage: setenv <key> <value>".to_owned()),
        }
    }

    /// Asks the outer layer to read an environment file resolved against
    /// the current location; the answer comes back through
    /// [`Shell::apply_env_result`].
    pub fn source_env_file(&self, file_path: Option<&str>) -> (r: Reply)
        ensures
            r.outs() == source_step(self.model(), opt_view(file_path)).outputs,
            r.eff() == source_step(self.model(), opt_view(file_path)).effect,
    {
        match file_path {
            Some(path) => Reply::ask(
                Effect::SourceEnv { path: join_path(self.current_dir.as_str(), path) },
            ),
            None => Reply::note("Usage: source <env_file_path>".to_owned()),
        }
    }

    /// Applies the outcome of a `SourceEnv` request: the file's contents,
    /// line by line, or a failure report that leaves the overlay untouched.
    pub fn apply_env_result(&mut self, contents: Option<&str>) -> (r: Reply)
        requires
            old(self).wf(),
        ensures
            final(self).wf(),
            final(self).model() == source_result_step(old(self).model(), opt_view(contents)).state,
            r.outs() == source_result_step(old(self).model(), opt_view(contents)).outputs,
            r.eff() == source_result_step(old(self).model(), opt_view(contents)).effect,
    {
        match contents {
            Some(c) => {
                self.env_vars.apply_contents(c);
                proof {
                    assert(self.model() =~= source_result_step(
                        old(self).model(),
                        Some(c@),
                    ).state);
                }
                Reply::note("Environment variables sourced.".to_owned())
            },
            None => Reply::note("Failed to read env file.".to_owned()),
        }
    }

    // -----------------------------------------------------------------------
    // Filesystem and process requests
    // -----------------------------------------------------------------------

    /// Asks the outer layer to list the current location.
    pub fn list_dir(&self) -> (r: Reply)
        ensures
            r.outs() == dir_step(self.model()).outputs,
            r.eff() == dir_step(self.model()).effect,
    {
        Reply::ask(Effect::ListDir { path: self.current_dir.clone() })
    }

    /// Asks the outer layer to create a directory under the current
    /// location.
    pub fn make_dir(&self, dir_name: Option<&str>) -> (r: Reply)
        ensures
            r.outs() == mkdir_step(self.model(), opt_view(dir_name)).outputs,
            r.eff() == mkdir_step(self.model(), opt_view(dir_name)).effect,
    {
        match dir_name {
            Some(name) => Reply::ask(
                Effect::MakeDir {
                    path: join_path(self.current_dir.as_str(), name),
                    failure: concat2("Failed to create directory: ", name),
                },
            ),
            None => Reply::note("Usage: mkdir <directory_name>".to_owned()),
        }
    }

    /// Asks the outer layer to remove a directory under the current
    /// location.
    pub fn remove_dir(&self, dir_name: Option<&str>) -> (r: Reply)
        ensures
            r.outs() == rmdir_step(self.model(), opt_view(dir_name)).outputs,
            r.eff() == rmdir_step(self.model(), opt_view(dir_name)).effect,
    {
        match dir_name {
            Some(name) => Reply::ask(
                Effect::RemoveDir {
                    path: join_path(self.current_dir.as_str(), name),
                    failure: concat2("Failed to remove directory: ", name),
                },
            ),
            None => Reply::note("Usage: rmdir <directory_name>".to_owned()),
        }
    }

    /// Asks the outer layer to rename a directory; both names are required.
    pub fn rename_dir(&self, old_name: Option<&str>, new_name: Option<&str>) -> (r: Reply)
        ensures
            r.outs() == rename_step(self.model(), opt_view(old_name), opt_view(new_name)).outputs,
            r.eff() == rename_step(self.model(), opt_view(old_name), opt_view(new_name)).effect,
    {
        match (old_name, new_name) {
            (Some(a), Some(b)) => Reply::ask(
                Effect::RenamePath {
                    from: join_path(self.current_dir.as_str(), a),
                    to: join_path(self.current_dir.as_str(), b),
                    failure: "Failed to rename directory.".to_owned(),
                },
            ),
            _ => Reply::note("Usage: rename <old_name> <new_name>".to_owned()),
        }
    }

    /// Asks the outer layer to move a file; source and destination are
    /// required.
    pub fn move_file(&self, source: Option<&str>, destination: Option<&str>) -> (r: Reply)
        ensures
            r.outs() == move_step(self.model(), opt_view(source), opt_view(destination)).outputs,
            r.eff() == move_step(self.model(), opt_view(source), opt_view(destination)).effect,
    {
        match (source, destination) {
            (Some(a), Some(b)) => Reply::ask(
                Effect::MovePath {
                    from: join_path(self.current_dir.as_str(), a),
                    to: join_path(self.current_dir.as_str(), b),
                    failure: "Failed to move file.".to_owned(),
                },
            ),
            _ => Reply::note("Usage: move <source> <destination>".to_owned()),
        }
    }

    /// Asks the outer layer to copy a file; source and destination are
    /// required.
    pub fn copy_file(&self, source: Option<&str>, destination: Option<&str>) -> (r: Reply)
        ensures
            r.outs() == copy_step(self.model(), opt_view(source), opt_view(destination)).outputs,
            r.eff() == copy_step(self.model(), opt_view(source), opt_view(destination)).effect,
    {
        match (source, destination) {
            (Some(a), Some(b)) => Reply::ask(
                Effect::CopyPath {
                    from: join_path(self.current_dir.as_str(), a),
                    to: join_path(self.current_dir.as_str(), b),
                    failure: "Failed to copy file.".to_owned(),
                },
            ),
            _ => Reply::note("Usage: copy <source> <destination>".to_owned()),
        }
    }

    /// Asks the outer layer to print a file's contents.
    pub fn type_file(&self, file_name: Option<&str>) -> (r: Reply)
        ensures
            r.outs() == type_step(self.model(), opt_view(file_name)).outputs,
            r.eff() == type_step(self.model(), opt_view(file_name)).effect,
    {
        match file_name {
            Some(name) => Reply::ask(
                Effect::ReadFile {
                    path: join_path(self.current_dir.as_str(), name),
                    failure: "Failed to read file.".to_owned(),
                },
            ),
            None => Reply::note("Usage: type <file_name>".to_owned()),
        }
    }

    /// Asks the outer layer to run a script resolved against the current
    /// location, or to report that it does not exist.
    pub fn run_script(&self, script_path: Option<&str>) -> (r: Reply)
        ensures
            r.outs() == run_step(self.model(), opt_view(script_path)).outputs,
            r.eff() == run_step(self.model(), opt_view(script_path)).effect,
    {
        match script_path {
            Some(path) => Reply::ask(
                Effect::RunScript {
                    path: join_path(self.current_dir.as_str(), path),
                    not_found: concat2("Script not found: ", path),
                },
            ),
            None => Reply::note("Usage: run <script_path>".to_owned()),
        }
    }

    /// Asks the outer layer to clear the console.
    pub fn clear_screen(&self) -> (r: Reply)
        ensures
            r.outs() == clear_step(self.model()).outputs,
            r.eff() == clear_step(self.model()).effect,
    {
        Reply::ask(Effect::ClearScreen)
    }

    /// Asks the outer layer to end the session with a success status.
    pub fn exit_shell(&self) -> (r: Reply)
        ensures
            r.outs() == exit_step(self.model()).outputs,
            r.eff() == exit_step(self.model()).effect,
    {
        Reply::ask(Effect::Exit)
    }

    /// Prints the fixed help text.
    pub fn display_help(&self) -> (r: Reply)
        ensures
            r.outs() == help_step(self.model()).outputs,
            r.eff() == help_step(self.model()).effect,
    {
        let mut outputs: Vec<String> = Vec::new();
        outputs.push("Available commands:".to_owned());
        outputs.push("  dir  mkdir <name>  rmdir <name>  rename <old> <new>".to_owned());
        outputs.push("  move <src> <dest>  copy <src> <dest>  type <file>".to_owned());
        outputs.push("  <-  ->  clear  run <script>  source <file>  setenv <key> <value>".to_owned());
        outputs.push("  cc <create/list/delete/refactor>  help  exit".to_owned());
        let r = Reply { outputs, effect: None };
        proof {
            assert(r.outs() =~= help_lines());
        }
        r
    }

    /// Reports an unrecognized first token back, verbatim, and does
    /// nothing else.
    pub fn handle_file_commands(&self, file_name: &str) -> (r: Reply)
        ensures
            r.outs() == unknown_step(self.model(), file_name@).outputs,
            r.eff() == unknown_step(self.model(), file_name@).effect,
    {
        Reply::note(concat2("Unknown command: ", file_name))
    }
}

} // verus!
