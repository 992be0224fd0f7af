//! The client-side representation of one user-requested operation.

use vstd::prelude::*;

verus! {

/// An instant at which the daemon may enqueue a task, as seconds since the
/// Unix epoch. The surrounding program resolves user-supplied delay
/// expressions into this plain form before translation and converts it back
/// into its calendar type at the transport boundary.
#[derive(Clone, Copy, PartialEq, Eq, Structural, Debug)]
pub struct Timestamp {
    pub unix_seconds: i64,
}

/// One fully parsed user operation, ready to be translated into a protocol
/// message. Upstream argument parsing has already validated the syntax of
/// every field; translation only decides which message is sent and what it
/// carries.
#[derive(Debug)]
pub enum Command {
    Add {
        command: Vec<String>,
        start_immediately: bool,
        stashed: bool,
        delay_until: Option<Timestamp>,
    },
    Remove { task_ids: Vec<usize> },
    Stash { task_ids: Vec<usize> },
    Switch { task_id_1: usize, task_id_2: usize },
    Enqueue { task_ids: Vec<usize>, delay_until: Option<Timestamp> },
    Start { task_ids: Vec<usize> },
    Restart { task_ids: Vec<usize>, start_immediately: bool, stashed: bool },
    Pause { wait: bool, task_ids: Vec<usize> },
    Kill { all: bool, task_ids: Vec<usize> },
    Send { task_id: usize, input: String },
    /// `path` is the client-local file the edit happens in; it never crosses
    /// the wire.
    Edit { task_id: usize, path: String },
    /// `json` only selects the client-local display format.
    Status { json: bool },
    /// `json` only selects the client-local display format.
    Log { task_ids: Vec<usize>, json: bool },
    Show { task_id: usize, follow: bool, err: bool },
    Clean,
    Reset,
    Shutdown,
    Parallel { parallel_tasks: usize },
    /// Shell-completion generation: a purely client-local action that must be
    /// intercepted before translation is ever invoked.
    Completions { shell: String, output_directory: String },
}

/// The mathematical value of a `Command`: the same variants over sequences
/// and plain values. Contracts and lemmas speak of this type.
pub enum CommandModel {
    Add {
        command: Seq<Seq<char>>,
        start_immediately: bool,
        stashed: bool,
        delay_until: Option<Timestamp>,
    },
    Remove { task_ids: Seq<usize> },
    Stash { task_ids: Seq<usize> },
    Switch { task_id_1: usize, task_id_2: usize },
    Enqueue { task_ids: Seq<usize>, delay_until: Option<Timestamp> },
    Start { task_ids: Seq<usize> },
    Restart { task_ids: Seq<usize>, start_immediately: bool, stashed: bool },
    Pause { wait: bool, task_ids: Seq<usize> },
    Kill { all: bool, task_ids: Seq<usize> },
    Send { task_id: usize, input: Seq<char> },
    Edit { task_id: usize, path: Seq<char> },
    Status { json: bool },
    Log { task_ids: Seq<usize>, json: bool },
    Show { task_id: usize, follow: bool, err: bool },
    Clean,
    Reset,
    Shutdown,
    Parallel { parallel_tasks: usize },
    Completions { shell: Seq<char>, output_directory: Seq<char> },
}

impl View for Command {
    type V = CommandModel;

    open spec fn view(&self) -> CommandModel {
        match *self {
            Command::Add { command, start_immediately, stashed, delay_until } =>
                CommandModel::Add {
                    command: command.deep_view(),
                    start_immediately,
                    stashed,
                    delay_until,
                },
            Command::Remove { task_ids } => CommandModel::Remove { task_ids: task_ids@ },
            Command::Stash { task_ids } => CommandModel::Stash { task_ids: task_ids@ },
            Command::Switch { task_id_1, task_id_2 } =>
                CommandModel::Switch { task_id_1, task_id_2 },
            Command::Enqueue { task_ids, delay_until } =>
                CommandModel::Enqueue { task_ids: task_ids@, delay_until },
            Command::Start { task_ids } => CommandModel::Start { task_ids: task_ids@ },
            Command::Restart { task_ids, start_immediately, stashed } =>
                CommandModel::Restart { task_ids: task_ids@, start_immediately, stashed },
            Command::Pause { wait, task_ids } =>
                CommandModel::Pause { wait, task_ids: task_ids@ },
            Command::Kill { all, task_ids } =>
                CommandModel::Kill { all, task_ids: task_ids@ },
            Command::Send { task_id, input } =>
                CommandModel::Send { task_id, input: input@ },
            Command::Edit { task_id, path } =>
                CommandModel::Edit { task_id, path: path@ },
            Command::Status { json } => CommandModel::Status { json },
            Command::Log { task_ids, json } =>
                CommandModel::Log { task_ids: task_ids@, json },
            Command::Show { task_id, follow, err } =>
                CommandModel::Show { task_id, follow, err },
            Command::Clean => CommandModel::Clean,
            Command::Reset => CommandModel::Reset,
            Command::Shutdown => CommandModel::Shutdown,
            Command::Parallel { parallel_tasks } =>
                CommandModel::Parallel { parallel_tasks },
            Command::Completions { shell, output_directory } =>
                CommandModel::Completions {
                    shell: shell@,
                    output_directory: output_directory@,
                },
        }
    }
}

} // verus!
