//! How the analyzer is started. Discovery order: the user's
//! `lsp.greycat.binary.path`, then `greycat-analyzer` on `PATH`, then the
//! managed download. The first that yields a binary wins.

use vstd::prelude::*;
use crate::text::opt_text;

verus! {

/// The command that starts the language server.
#[derive(Clone, Debug, PartialEq, Eq)]
pub struct Command {
    pub command: String,
    pub args: Vec<String>,
    pub env: Vec<(String, String)>,
}

/// A command, as the contracts speak of it.
pub struct CommandModel {
    pub command: Seq<char>,
    pub args: Seq<Seq<char>>,
    pub env: Seq<(Seq<char>, Seq<char>)>,
}

impl View for Command {
    type V = CommandModel;

    open spec fn view(&self) -> CommandModel {
        CommandModel { command: self.command@, args: self.args.deep_view(), env: self.env.deep_view() }
    }
}

/// The user's `lsp.greycat.binary` settings.
#[derive(Clone, Debug, PartialEq, Eq)]
pub struct BinarySettings {
    pub path: Option<String>,
    pub arguments: Option<Vec<String>>,
}

/// What to do next to find the command: it is decided, or the `PATH` must be
/// searched, or the managed binary must be installed.
#[derive(Debug, PartialEq, Eq)]
pub enum CommandStep {
    Decided(Result<Command, String>),
    LookupPath,
    InstallManaged,
}

/// A step, as the contracts speak of it.
pub enum CommandStepModel {
    Decided(Result<CommandModel, Seq<char>>),
    LookupPath,
    InstallManaged,
}

impl View for CommandStep {
    type V = CommandStepModel;

    open spec fn view(&self) -> CommandStepModel {
        match self {
            CommandStep::Decided(Ok(c)) => CommandStepModel::Decided(Ok(c@)),
            CommandStep::Decided(Err(e)) => CommandStepModel::Decided(Err(e@)),
            CommandStep::LookupPath => CommandStepModel::LookupPath,
            CommandStep::InstallManaged => CommandStepModel::InstallManaged,
        }
    }
}

/// The arguments the analyzer gets unless the user gives others.
pub open spec fn default_args() -> Seq<Seq<char>> {
    seq!["server"@]
}

/// The path the user set, if it is set and not empty.
pub open spec fn user_path(binary: Option<BinarySettings>) -> Option<Seq<char>> {
    match binary {
        Some(b) => match b.path {
            Some(p) => if p@.len() > 0 { Some(p@) } else { None },
            None => None,
        },
        None => None,
    }
}

/// The arguments for the user's binary: theirs, or `server`.
pub open spec fn user_args(binary: Option<BinarySettings>) -> Seq<Seq<char>> {
    match binary {
        Some(b) => match b.arguments {
            Some(a) => a.deep_view(),
            None => default_args(),
        },
        None => default_args(),
    }
}

/// The next step, given the user's settings, the outcome of the `PATH`
/// search once made (`None` while not made), and the outcome of the managed
/// install once made. The user's path is trusted as it is: it is not probed.
pub open spec fn spec_command_step(
    binary: Option<BinarySettings>,
    on_path: Option<Option<Seq<char>>>,
    managed: Option<Result<Seq<char>, Seq<char>>>,
    env: Seq<(Seq<char>, Seq<char>)>,
) -> CommandStepModel {
    match user_path(binary) {
        Some(p) => CommandStepModel::Decided(Ok(CommandModel { command: p, args: user_args(binary), env })),
        None => match on_path {
            None => CommandStepModel::LookupPath,
            Some(Some(found)) => CommandStepModel::Decided(
                Ok(CommandModel { command: found, args: default_args(), env }),
            ),
            Some(None) => match managed {
                None => CommandStepModel::InstallManaged,
                Some(Ok(bin)) => CommandStepModel::Decided(
                    Ok(CommandModel { command: bin, args: default_args(), env }),
                ),
                Some(Err(e)) => CommandStepModel::Decided(Err(e)),
            },
        },
    }
}

/// The text of an optional outcome.
pub open spec fn outcome_text(r: Option<Result<String, String>>) -> Option<Result<Seq<char>, Seq<char>>> {
    match r {
        Some(Ok(s)) => Some(Ok(s@)),
        Some(Err(e)) => Some(Err(e@)),
        None => None,
    }
}

fn server_args() -> (res: Vec<String>)
    ensures
        res.deep_view() == default_args(),
{
    let mut args: Vec<String> = Vec::new();
    args.push(String::from_str("server"));
    assert(args.deep_view() =~= default_args());
    args
}

/// Decides the next step towards the server command (see `spec_command_step`).
pub fn command_step(
    binary: Option<BinarySettings>,
    on_path: Option<Option<String>>,
    managed: Option<Result<String, String>>,
    env: Vec<(String, String)>,
) -> (res: CommandStep)
    ensures
        res@ == spec_command_step(
            binary,
            match on_path { Some(p) => Some(opt_text(p)), None => None },
            outcome_text(managed),
            env.deep_view(),
        ),
{
    let ghost binary_model = binary;
    let ghost env_model = env.deep_view();
    if let Some(b) = binary {
        if let Some(path) = b.path {
            if path.as_str().unicode_len() != 0 {
                let args = match b.arguments {
                    Some(a) => a,
                    None => server_args(),
                };
                return CommandStep::Decided(Ok(Command { command: path, args, env }));
            }
        }
    }
    assert(user_path(binary_model) is None);
    match on_path {
        None => CommandStep::LookupPath,
        Some(Some(found)) => CommandStep::Decided(Ok(Command { command: found, args: server_args(), env })),
        Some(None) => match managed {
            None => CommandStep::InstallManaged,
            Some(Ok(bin)) => CommandStep::Decided(Ok(Command { command: bin, args: server_args(), env })),
            Some(Err(e)) => CommandStep::Decided(Err(e)),
        },
    }
}

/// Every user path that is set and not empty is the command, taken as it is
/// (relative, Windows-style, or anything else), with the user's arguments or
/// else `server`, whatever `PATH` and the managed install would give. A path
/// that is unset or empty is not used: the `PATH` search comes next.
pub proof fn law_user_path_taken_verbatim(
    binary: Option<BinarySettings>,
    on_path: Option<Option<Seq<char>>>,
    managed: Option<Result<Seq<char>, Seq<char>>>,
    env: Seq<(Seq<char>, Seq<char>)>,
)
    ensures
        binary is Some && binary.unwrap().path is Some && binary.unwrap().path.unwrap()@.len() > 0
            ==> spec_command_step(binary, on_path, managed, env) == CommandStepModel::Decided(Ok(CommandModel {
                command: binary.unwrap().path.unwrap()@,
                args: match binary.unwrap().arguments {
                    Some(a) => a.deep_view(),
                    None => seq!["server"@],
                },
                env,
            })),
        (binary is None || binary.unwrap().path is None || binary.unwrap().path.unwrap()@.len() == 0) && on_path is None
            ==> spec_command_step(binary, on_path, managed, env) == CommandStepModel::LookupPath,
{
}

/// Discovery order: a user path that is set and not empty wins whatever
/// `PATH` and the managed install would give; otherwise a binary found on
/// `PATH` wins whatever the managed install would give; the managed install
/// is asked for only when neither gave a binary, and its outcome is final.
pub proof fn law_discovery_order(
    binary: Option<BinarySettings>,
    on_path: Option<Option<Seq<char>>>,
    managed: Option<Result<Seq<char>, Seq<char>>>,
    env: Seq<(Seq<char>, Seq<char>)>,
)
    ensures
        user_path(binary) matches Some(p) ==> forall|other_path: Option<Option<Seq<char>>>, other_managed: Option<Result<Seq<char>, Seq<char>>>|
            #[trigger] spec_command_step(binary, other_path, other_managed, env)
                == CommandStepModel::Decided(Ok(CommandModel { command: p, args: user_args(binary), env })),
        user_path(binary) is None && on_path is Some && on_path.unwrap() is Some ==> forall|other_managed: Option<Result<Seq<char>, Seq<char>>>|
            #[trigger] spec_command_step(binary, on_path, other_managed, env)
                == CommandStepModel::Decided(Ok(CommandModel { command: on_path.unwrap().unwrap(), args: default_args(), env })),
        spec_command_step(binary, on_path, managed, env) is InstallManaged
            ==> user_path(binary) is None && on_path == Some(None::<Seq<char>>) && managed is None,
{
}

} // verus!
