//! The translator: from one parsed command to exactly one protocol message.

use vstd::prelude::*;
use crate::command::Command;
use crate::command::CommandModel;
use crate::environment::Environment;
use crate::environment::EnvironmentModel;
use crate::environment::CwdQuery;
use crate::environment::CwdQueryModel;
use crate::message::Message;
use crate::message::MessageModel;
use crate::message::AddMessage;
use crate::message::SwitchMessage;
use crate::message::EnqueueMessage;
use crate::message::RestartMessage;
use crate::message::PauseMessage;
use crate::message::KillMessage;
use crate::message::SendMessage;
use crate::message::StreamRequestMessage;

verus! {

/// Why a translation failed. All failures are local: either the environment
/// could not supply a usable working directory, or a client-local command
/// reached the translator by mistake.
#[derive(Clone, Copy, PartialEq, Eq, Structural, Debug)]
pub enum TranslationError {
    /// The working-directory query failed (directory missing, permission
    /// denied, or similar).
    EnvironmentUnavailable,
    /// The working directory exists but valid UTF-8 text cannot represent it.
    NonUtf8Path,
    /// The shell-completion command reached the translator; it must be
    /// handled entirely on the client before translation.
    MisroutedLocalCommand,
}

/// The single string the daemon receives for an added task: the command-line
/// tokens joined by single spaces, in order, with nothing added around them.
pub open spec fn space_joined(parts: Seq<Seq<char>>) -> Seq<char>
    decreases parts.len(),
{
    if parts.len() == 0 {
        Seq::empty()
    } else if parts.len() == 1 {
        parts[0]
    } else {
        parts[0] + seq![' '] + space_joined(parts.skip(1))
    }
}

proof fn lemma_space_joined_push(parts: Seq<Seq<char>>, last: Seq<char>)
    ensures
        space_joined(parts.push(last)) == if parts.len() == 0 {
            last
        } else {
            (space_joined(parts) + seq![' '] + last)
        },
    decreases parts.len(),
{
    let whole = parts.push(last);
    if parts.len() == 0 {
        assert(whole.len() == 1);
        assert(whole[0] == last);
    } else {
        assert(whole.len() >= 2);
        assert(whole[0] == parts[0]);
        assert(whole.skip(1) =~= parts.skip(1).push(last));
        lemma_space_joined_push(parts.skip(1), last);
        if parts.len() == 1 {
            assert(space_joined(parts) == parts[0]);
        }
    }
}

/// Joins the command-line tokens with single spaces.
fn join_with_spaces(parts: &Vec<String>) -> (r: String)
    ensures
        r@ == space_joined(parts.deep_view()),
{
    let mut r = String::new();
    let mut i: usize = 0;
    while i < parts.len()
        invariant
            i <= parts.len(),
            r@ == space_joined(parts.deep_view().take(i as int)),
        decreases parts.len() - i,
    {
        if i > 0 {
            r.append(" ");
        }
        r.append(parts[i].as_str());
        proof {
            reveal_strlit(" ");
            let ghost model = parts.deep_view();
            assert(" "@ =~= seq![' ']);
            assert(model[i as int] == parts@[i as int]@);
            assert(model.take(i as int).push(model[i as int]) =~= model.take(i as int + 1));
            lemma_space_joined_push(model.take(i as int), model[i as int]);
        }
        i += 1;
    }
    proof {
        assert(parts.deep_view().take(parts@.len() as int) =~= parts.deep_view());
    }
    r
}

impl TranslationError {
    /// The diagnostic text for this error, character for character.
    pub open spec fn text(&self) -> Seq<char> {
        match *self {
            TranslationError::EnvironmentUnavailable => "Cannot read current working directory"@,
            TranslationError::NonUtf8Path => "Cannot parse current working directory (Invalid utf8?)"@,
            TranslationError::MisroutedLocalCommand => "Completions have to be handled earlier"@,
        }
    }

    /// The diagnostic text for this error, for the surrounding program to
    /// report to the user.
    pub fn describe(&self) -> (r: String)
        ensures
            r@ == self.text(),
    {
        match self {
            TranslationError::EnvironmentUnavailable => String::from_str(
                "Cannot read current working directory",
            ),
            TranslationError::NonUtf8Path => String::from_str(
                "Cannot parse current working directory (Invalid utf8?)",
            ),
            TranslationError::MisroutedLocalCommand => String::from_str(
                "Completions have to be handled earlier",
            ),
        }
    }
}

fn copy_ids(v: &Vec<usize>) -> (r: Vec<usize>)
    ensures
        r@ == v@,
{
    let mut r: Vec<usize> = Vec::new();
    let mut i: usize = 0;
    while i < v.len()
        invariant
            i <= v.len(),
            r@ == v@.take(i as int),
        decreases v.len() - i,
    {
        r.push(v[i]);
        proof {
            assert(v@.take(i as int).push(v@[i as int]) =~= v@.take(i as int + 1));
        }
        i += 1;
    }
    proof {
        assert(v@.take(v@.len() as int) =~= v@);
    }
    r
}

/// The full translation table: the one message (or error) that each command
/// maps to under a given environment. `translate` is proved to return
/// exactly this.
pub open spec fn translation(cmd: CommandModel, env: EnvironmentModel) -> Result<
    MessageModel,
    TranslationError,
> {
    match cmd {
        CommandModel::Add { command, start_immediately, stashed, delay_until } => match env.cwd {
            CwdQueryModel::Unavailable => Err(TranslationError::EnvironmentUnavailable),
            CwdQueryModel::NonUtf8 => Err(TranslationError::NonUtf8Path),
            CwdQueryModel::Utf8(path) => Ok(MessageModel::Add {
                command: space_joined(command),
                path,
                start_immediately,
                stashed,
                enqueue_at: delay_until,
            }),
        },
        CommandModel::Remove { task_ids } => Ok(MessageModel::Remove(task_ids)),
        CommandModel::Stash { task_ids } => Ok(MessageModel::Stash(task_ids)),
        CommandModel::Switch { task_id_1, task_id_2 } => Ok(MessageModel::Switch {
            task_id_1,
            task_id_2,
        }),
        CommandModel::Enqueue { task_ids, delay_until } => Ok(MessageModel::Enqueue {
            task_ids,
            enqueue_at: delay_until,
        }),
        CommandModel::Start { task_ids } => Ok(MessageModel::Start(task_ids)),
        CommandModel::Restart { task_ids, start_immediately, stashed } => Ok(
            MessageModel::Restart { task_ids, start_immediately, stashed },
        ),
        CommandModel::Pause { wait, task_ids } => Ok(MessageModel::Pause { wait, task_ids }),
        CommandModel::Kill { all, task_ids } => Ok(MessageModel::Kill { all, task_ids }),
        CommandModel::Send { task_id, input } => Ok(MessageModel::Send { task_id, input }),
        CommandModel::Edit { task_id, path: _ } => Ok(MessageModel::EditRequest(task_id)),
        CommandModel::Status { json: _ } => Ok(MessageModel::Status),
        CommandModel::Log { task_ids, json: _ } => Ok(MessageModel::Log(task_ids)),
        CommandModel::Show { task_id, follow, err } => Ok(MessageModel::StreamRequest {
            task_id,
            follow,
            err,
        }),
        CommandModel::Clean => Ok(MessageModel::Clean),
        CommandModel::Reset => Ok(MessageModel::Reset),
        CommandModel::Shutdown => Ok(MessageModel::DaemonShutdown),
        CommandModel::Parallel { parallel_tasks } => Ok(MessageModel::Parallel(parallel_tasks)),
        CommandModel::Completions { shell: _, output_directory: _ } => Err(
            TranslationError::MisroutedLocalCommand,
        ),
    }
}

/// Translates one parsed command into the one protocol message the daemon
/// understands for it, or fails with a typed, local error. The command is
/// read-only input; the produced message shares nothing with it. The only
/// environmental dependence is the working directory, consulted for `Add`
/// alone and embedded into the message as UTF-8 text.
pub fn translate(cmd: &Command, env: &Environment) -> (r: Result<Message, TranslationError>)
    ensures
        match r {
            Ok(m) => translation(cmd@, env@) == Ok::<MessageModel, TranslationError>(m@),
            Err(e) => translation(cmd@, env@) == Err::<MessageModel, TranslationError>(e),
        },
{
    match cmd {
        Command::Add { command, start_immediately, stashed, delay_until } => match &env.cwd {
            CwdQuery::Unavailable => Err(TranslationError::EnvironmentUnavailable),
            CwdQuery::NonUtf8 => Err(TranslationError::NonUtf8Path),
            CwdQuery::Utf8(path) => Ok(Message::Add(AddMessage {
                command: join_with_spaces(command),
                path: path.clone(),
                start_immediately: *start_immediately,
                stashed: *stashed,
                enqueue_at: *delay_until,
            })),
        },
        Command::Remove { task_ids } => Ok(Message::Remove(copy_ids(task_ids))),
        Command::Stash { task_ids } => Ok(Message::Stash(copy_ids(task_ids))),
        Command::Switch { task_id_1, task_id_2 } => Ok(Message::Switch(SwitchMessage {
            task_id_1: *task_id_1,
            task_id_2: *task_id_2,
        })),
        Command::Enqueue { task_ids, delay_until } => Ok(Message::Enqueue(EnqueueMessage {
            task_ids: copy_ids(task_ids),
            enqueue_at: *delay_until,
        })),
        Command::Start { task_ids } => Ok(Message::Start(copy_ids(task_ids))),
        Command::Restart { task_ids, start_immediately, stashed } => Ok(Message::Restart(
            RestartMessage {
                task_ids: copy_ids(task_ids),
                start_immediately: *start_immediately,
                stashed: *stashed,
            },
        )),
        Command::Pause { wait, task_ids } => Ok(Message::Pause(PauseMessage {
            wait: *wait,
            task_ids: copy_ids(task_ids),
        })),
        Command::Kill { all, task_ids } => Ok(Message::Kill(KillMessage {
            all: *all,
            task_ids: copy_ids(task_ids),
        })),
        Command::Send { task_id, input } => Ok(Message::Send(SendMessage {
            task_id: *task_id,
            input: input.clone(),
        })),
        Command::Edit { task_id, path: _ } => Ok(Message::EditRequest(*task_id)),
        Command::Status { json: _ } => Ok(Message::Status),
        Command::Log { task_ids, json: _ } => Ok(Message::Log(copy_ids(task_ids))),
        Command::Show { task_id, follow, err } => Ok(Message::StreamRequest(
            StreamRequestMessage { task_id: *task_id, follow: *follow, err: *err },
        )),
        Command::Clean => Ok(Message::Clean),
        Command::Reset => Ok(Message::Reset),
        Command::Shutdown => Ok(Message::DaemonShutdown),
        Command::Parallel { parallel_tasks } => Ok(Message::Parallel(*parallel_tasks)),
        Command::Completions { shell: _, output_directory: _ } => Err(
            TranslationError::MisroutedLocalCommand,
        ),
    }
}

/// Every command other than shell-completion generation translates to a
/// message, provided that — for `Add` alone — the environment supplies the
/// working directory as UTF-8 text. No other command consults the
/// environment at all.
pub proof fn lemma_translation_total(cmd: CommandModel, env: EnvironmentModel)
    requires
        !(cmd is Completions),
        cmd is Add ==> env.cwd is Utf8,
    ensures
        translation(cmd, env) is Ok,
{
}

/// The shell-completion command never translates: whatever its fields and
/// whatever the environment, the result is the misrouting error.
pub proof fn lemma_completions_misrouted(cmd: CommandModel, env: EnvironmentModel)
    requires
        cmd is Completions,
    ensures
        translation(cmd, env) == Err::<MessageModel, TranslationError>(
            TranslationError::MisroutedLocalCommand,
        ),
{
}

/// When the working-directory query failed, `Add` translates to the
/// environment error — no message is constructed — whatever the command's
/// fields hold.
pub proof fn lemma_add_environment_unavailable(cmd: CommandModel, env: EnvironmentModel)
    requires
        cmd is Add,
        env.cwd is Unavailable,
    ensures
        translation(cmd, env) == Err::<MessageModel, TranslationError>(
            TranslationError::EnvironmentUnavailable,
        ),
{
}

/// When the working directory cannot be represented as UTF-8 text, `Add`
/// translates to the encoding error, whatever the command's fields hold.
pub proof fn lemma_add_non_utf8(cmd: CommandModel, env: EnvironmentModel)
    requires
        cmd is Add,
        env.cwd is NonUtf8,
    ensures
        translation(cmd, env) == Err::<MessageModel, TranslationError>(TranslationError::NonUtf8Path),
{
}

/// Translation is deterministic: the same command under the same environment
/// state always yields the same result, so two calls of `translate` on equal
/// inputs produce structurally identical messages.
pub proof fn lemma_translation_deterministic(
    cmd1: CommandModel,
    env1: EnvironmentModel,
    cmd2: CommandModel,
    env2: EnvironmentModel,
)
    requires
        cmd1 == cmd2,
        env1 == env2,
    ensures
        translation(cmd1, env1) == translation(cmd2, env2),
{
}

/// Remove, stash and start carry their task-id set through unchanged: the
/// message holds exactly the ids of the command, in the same order.
pub proof fn lemma_task_ids_preserved(cmd: CommandModel, env: EnvironmentModel)
    ensures
        cmd matches CommandModel::Remove { task_ids } ==> translation(cmd, env) == Ok::<
            MessageModel,
            TranslationError,
        >(MessageModel::Remove(task_ids)),
        cmd matches CommandModel::Stash { task_ids } ==> translation(cmd, env) == Ok::<
            MessageModel,
            TranslationError,
        >(MessageModel::Stash(task_ids)),
        cmd matches CommandModel::Start { task_ids } ==> translation(cmd, env) == Ok::<
            MessageModel,
            TranslationError,
        >(MessageModel::Start(task_ids)),
{
}

/// The edit command's local path never reaches the wire: two edit commands
/// for the same task translate identically whatever their paths, and the
/// message carries the task id alone.
pub proof fn lemma_edit_drops_path(
    task_id: usize,
    path1: Seq<char>,
    path2: Seq<char>,
    env: EnvironmentModel,
)
    ensures
        translation(CommandModel::Edit { task_id, path: path1 }, env) == translation(
            CommandModel::Edit { task_id, path: path2 },
            env,
        ),
        translation(CommandModel::Edit { task_id, path: path1 }, env) == Ok::<
            MessageModel,
            TranslationError,
        >(MessageModel::EditRequest(task_id)),
{
}

} // verus!
