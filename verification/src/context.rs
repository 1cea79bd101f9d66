//! The resolved request: who invokes, who is the target, what command is
//! to run and under what working directory and terminal arrangements, plus
//! the environment the command will receive.
//!
//! All values here are plain data. The embedding program performs the
//! system lookups (user records, command resolution, the inherited PATH
//! and the current working directory) and hands their results over in a
//! [`SudoOptions`]; everything that combines or refines them is verified.

use vstd::prelude::*;

verus! {

/// The view of an `Option<String>` as an optional character sequence.
pub open spec fn opt_view(o: Option<String>) -> Option<Seq<char>> {
    match o {
        Some(s) => Some(s@),
        None => None,
    }
}

/// A user taking part in the request.
pub struct User {
    /// The account name.
    pub name: String,
}

/// The command to run, with its resolution status.
pub struct CommandAndArguments {
    /// The path of the command, as resolved against the secure PATH.
    pub command: String,
    /// The arguments handed to the command.
    pub arguments: Vec<String>,
    /// Whether resolution found the command; execution is attempted only
    /// when it did.
    pub resolved: bool,
}

/// Identifiers of the invoking process.
pub struct Process {
    /// The process id of the invocation, used to redeliver a fatal signal.
    pub pid: i32,
}

/// The request as handed over by the embedding program: command-line input
/// plus the system lookups already performed, as plain values.
pub struct SudoOptions {
    /// The invoking user.
    pub current_user: User,
    /// The user to run the command as.
    pub target_user: User,
    /// The command to run, with its resolution status.
    pub command: CommandAndArguments,
    /// The requested working-directory change, if any.
    pub chdir: Option<String>,
    /// Whether a pseudo terminal is requested.
    pub use_pty: bool,
    /// The process id of the invocation.
    pub pid: i32,
    /// The current working directory, when it could be read.
    pub current_dir: Option<String>,
    /// The PATH inherited from the process environment; empty when unset.
    pub inherited_path: String,
}

/// The mathematical value of a [`Context`]: every field the plugins can
/// observe, as plain sequences.
#[verifier::ext_equal]
pub ghost struct ContextView {
    pub current_user: Seq<char>,
    pub target_user: Seq<char>,
    pub command: Seq<char>,
    pub arguments: Seq<Seq<char>>,
    pub resolved: bool,
    pub chdir: Option<Seq<char>>,
    pub use_pty: bool,
    pub pid: i32,
    pub current_dir: Option<Seq<char>>,
    pub path: Seq<char>,
}

/// The resolved request: built once per invocation from the options plus
/// the pre-judgement secure PATH, then refined by the authorization
/// decision.
pub struct Context {
    /// The invoking user.
    pub current_user: User,
    /// The user to run the command as.
    pub target_user: User,
    /// The command to run, with its resolution status.
    pub command: CommandAndArguments,
    /// The working-directory change request, as refined by the decision.
    pub chdir: Option<String>,
    /// Whether a pseudo terminal is used, as refined by the decision.
    pub use_pty: bool,
    /// Identifiers of the invoking process.
    pub process: Process,
    /// The current working directory, when it could be read.
    pub current_dir: Option<String>,
    /// The PATH under which the command was resolved.
    pub path: String,
}

impl View for Context {
    type V = ContextView;

    open spec fn view(&self) -> ContextView {
        ContextView {
            current_user: self.current_user.name@,
            target_user: self.target_user.name@,
            command: self.command.command@,
            arguments: self.command.arguments@.map_values(|s: String| s@),
            resolved: self.command.resolved,
            chdir: opt_view(self.chdir),
            use_pty: self.use_pty,
            pid: self.process.pid,
            current_dir: opt_view(self.current_dir),
            path: self.path@,
        }
    }
}

/// The context that building from these options under this secure PATH
/// yields: every field taken from the options, the path with the
/// override's precedence.
pub open spec fn build_view(options: SudoOptions, secure_path: Option<Seq<char>>) -> ContextView {
    ContextView {
        current_user: options.current_user.name@,
        target_user: options.target_user.name@,
        command: options.command.command@,
        arguments: options.command.arguments@.map_values(|s: String| s@),
        resolved: options.command.resolved,
        chdir: opt_view(options.chdir),
        use_pty: options.use_pty,
        pid: options.pid,
        current_dir: opt_view(options.current_dir),
        path: match secure_path {
            Some(p) => p,
            None => options.inherited_path@,
        },
    }
}

impl Context {
    /// Builds the context from the options. The policy's secure PATH takes
    /// precedence; the inherited PATH is the fallback when the policy
    /// gives no opinion.
    pub fn build_from_options(options: SudoOptions, secure_path: Option<String>) -> (r: Context)
        ensures
            r.current_user == options.current_user,
            r.target_user == options.target_user,
            r.command == options.command,
            r.chdir == options.chdir,
            r.use_pty == options.use_pty,
            r.process.pid == options.pid,
            r.current_dir == options.current_dir,
            r.path == (match secure_path {
                Some(p) => p,
                None => options.inherited_path,
            }),
            r@ == build_view(options, opt_view(secure_path)),
    {
        let path = match secure_path {
            Some(p) => p,
            None => options.inherited_path,
        };
        Context {
            current_user: options.current_user,
            target_user: options.target_user,
            command: options.command,
            chdir: options.chdir,
            use_pty: options.use_pty,
            process: Process { pid: options.pid },
            current_dir: options.current_dir,
            path,
        }
    }
}

/// The environment a command runs under: name and value pairs, later
/// entries taking precedence when the embedding program applies them.
pub struct Environment {
    /// The variables, in order of application.
    pub vars: Vec<(String, String)>,
}

impl View for Environment {
    type V = Seq<(Seq<char>, Seq<char>)>;

    open spec fn view(&self) -> Seq<(Seq<char>, Seq<char>)> {
        self.vars@.map_values(|v: (String, String)| (v.0@, v.1@))
    }
}

/// Assembles the environment of the target command: the invocation's
/// environment followed by the variables the authentication mechanism
/// injects, which thereby take precedence.
pub fn get_target_environment(current_env: Environment, additional_env: Environment) -> (r:
    Environment)
    ensures
        r.vars@ == current_env.vars@ + additional_env.vars@,
        r@ == current_env@ + additional_env@,
{
    let ghost cv = current_env@;
    let ghost av = additional_env@;
    let mut vars = current_env.vars;
    let mut extra = additional_env.vars;
    vars.append(&mut extra);
    let combined = Environment { vars };
    proof {
        assert(combined@ =~= cv + av);
    }
    combined
}

} // verus!
