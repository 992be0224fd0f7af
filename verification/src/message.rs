//! The wire-level representation of one operation, as the daemon consumes it.

use vstd::prelude::*;
use crate::command::Timestamp;

verus! {

#[derive(Clone, PartialEq, Eq, Debug)]
pub struct AddMessage {
    pub command: String,
    pub path: String,
    pub start_immediately: bool,
    pub stashed: bool,
    pub enqueue_at: Option<Timestamp>,
}

#[derive(Clone, Copy, PartialEq, Eq, Structural, Debug)]
pub struct SwitchMessage {
    pub task_id_1: usize,
    pub task_id_2: usize,
}

#[derive(Clone, PartialEq, Eq, Debug)]
pub struct EnqueueMessage {
    pub task_ids: Vec<usize>,
    pub enqueue_at: Option<Timestamp>,
}

#[derive(Clone, PartialEq, Eq, Debug)]
pub struct RestartMessage {
    pub task_ids: Vec<usize>,
    pub start_immediately: bool,
    pub stashed: bool,
}

#[derive(Clone, PartialEq, Eq, Debug)]
pub struct PauseMessage {
    pub wait: bool,
    pub task_ids: Vec<usize>,
}

#[derive(Clone, PartialEq, Eq, Debug)]
pub struct KillMessage {
    pub all: bool,
    pub task_ids: Vec<usize>,
}

#[derive(Clone, PartialEq, Eq, Debug)]
pub struct SendMessage {
    pub task_id: usize,
    pub input: String,
}

#[derive(Clone, Copy, PartialEq, Eq, Structural, Debug)]
pub struct StreamRequestMessage {
    pub task_id: usize,
    pub follow: bool,
    pub err: bool,
}

/// One protocol message, self-contained and ready for the transport
/// boundary to serialize and deliver. Every variant's payload is a flat
/// record of plain values; no field borrows from the command it answers.
#[derive(Clone, PartialEq, Eq, Debug)]
pub enum Message {
    Add(AddMessage),
    Remove(Vec<usize>),
    Stash(Vec<usize>),
    Switch(SwitchMessage),
    Enqueue(EnqueueMessage),
    Start(Vec<usize>),
    Restart(RestartMessage),
    Pause(PauseMessage),
    Kill(KillMessage),
    Send(SendMessage),
    EditRequest(usize),
    Status,
    Log(Vec<usize>),
    StreamRequest(StreamRequestMessage),
    Clean,
    Reset,
    DaemonShutdown,
    Parallel(usize),
}

/// The mathematical value of a `Message`: the same variants, flattened into
/// records over sequences and plain values. Contracts and lemmas speak of
/// this type.
pub enum MessageModel {
    Add {
        command: Seq<char>,
        path: Seq<char>,
        start_immediately: bool,
        stashed: bool,
        enqueue_at: Option<Timestamp>,
    },
    Remove(Seq<usize>),
    Stash(Seq<usize>),
    Switch { task_id_1: usize, task_id_2: usize },
    Enqueue { task_ids: Seq<usize>, enqueue_at: Option<Timestamp> },
    Start(Seq<usize>),
    Restart { task_ids: Seq<usize>, start_immediately: bool, stashed: bool },
    Pause { wait: bool, task_ids: Seq<usize> },
    Kill { all: bool, task_ids: Seq<usize> },
    Send { task_id: usize, input: Seq<char> },
    EditRequest(usize),
    Status,
    Log(Seq<usize>),
    StreamRequest { task_id: usize, follow: bool, err: bool },
    Clean,
    Reset,
    DaemonShutdown,
    Parallel(usize),
}

impl View for Message {
    type V = MessageModel;

    open spec fn view(&self) -> MessageModel {
        match *self {
            Message::Add(m) => MessageModel::Add {
                command: m.command@,
                path: m.path@,
                start_immediately: m.start_immediately,
                stashed: m.stashed,
                enqueue_at: m.enqueue_at,
            },
            Message::Remove(task_ids) => MessageModel::Remove(task_ids@),
            Message::Stash(task_ids) => MessageModel::Stash(task_ids@),
            Message::Switch(m) => MessageModel::Switch {
                task_id_1: m.task_id_1,
                task_id_2: m.task_id_2,
            },
            Message::Enqueue(m) => MessageModel::Enqueue {
                task_ids: m.task_ids@,
                enqueue_at: m.enqueue_at,
            },
            Message::Start(task_ids) => MessageModel::Start(task_ids@),
            Message::Restart(m) => MessageModel::Restart {
                task_ids: m.task_ids@,
                start_immediately: m.start_immediately,
                stashed: m.stashed,
            },
            Message::Pause(m) => MessageModel::Pause { wait: m.wait, task_ids: m.task_ids@ },
            Message::Kill(m) => MessageModel::Kill { all: m.all, task_ids: m.task_ids@ },
            Message::Send(m) => MessageModel::Send { task_id: m.task_id, input: m.input@ },
            Message::EditRequest(task_id) => MessageModel::EditRequest(task_id),
            Message::Status => MessageModel::Status,
            Message::Log(task_ids) => MessageModel::Log(task_ids@),
            Message::StreamRequest(m) => MessageModel::StreamRequest {
                task_id: m.task_id,
                follow: m.follow,
                err: m.err,
            },
            Message::Clean => MessageModel::Clean,
            Message::Reset => MessageModel::Reset,
            Message::DaemonShutdown => MessageModel::DaemonShutdown,
            Message::Parallel(parallel_tasks) => MessageModel::Parallel(parallel_tasks),
        }
    }
}

} // verus!
