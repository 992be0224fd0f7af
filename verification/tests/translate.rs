use pueue_client::command::{Command, Timestamp};
use pueue_client::environment::{CwdQuery, Environment};
use pueue_client::message::{
    AddMessage, EnqueueMessage, KillMessage, Message, PauseMessage, RestartMessage, SendMessage,
    StreamRequestMessage, SwitchMessage,
};
use pueue_client::translate::{translate, TranslationError};

fn utf8_env(path: &str) -> Environment {
    Environment { cwd: CwdQuery::Utf8(path.to_string()) }
}

#[test]
fn add_joins_command_and_attaches_cwd() {
    let cmd = Command::Add {
        command: vec!["echo".to_string(), "hi".to_string()],
        start_immediately: true,
        stashed: false,
        delay_until: None,
    };
    let r = translate(&cmd, &utf8_env("/home/u/project"));
    assert_eq!(
        r,
        Ok(Message::Add(AddMessage {
            command: "echo hi".to_string(),
            path: "/home/u/project".to_string(),
            start_immediately: true,
            stashed: false,
            enqueue_at: None,
        }))
    );
}

#[test]
fn add_with_single_token_and_empty_tokens() {
    let one = Command::Add {
        command: vec!["ls".to_string()],
        start_immediately: false,
        stashed: false,
        delay_until: None,
    };
    let r = translate(&one, &utf8_env("/"));
    match r {
        Ok(Message::Add(m)) => assert_eq!(m.command, "ls"),
        other => panic!("unexpected result {:?}", other),
    }

    let none = Command::Add {
        command: vec![],
        start_immediately: false,
        stashed: false,
        delay_until: None,
    };
    let r = translate(&none, &utf8_env("/"));
    match r {
        Ok(Message::Add(m)) => assert_eq!(m.command, ""),
        other => panic!("unexpected result {:?}", other),
    }
}

#[test]
fn add_keeps_delay_and_flags() {
    let cmd = Command::Add {
        command: vec!["sleep".to_string(), "10".to_string()],
        start_immediately: false,
        stashed: true,
        delay_until: Some(Timestamp { unix_seconds: 1_700_000_000 }),
    };
    let r = translate(&cmd, &utf8_env("/work"));
    assert_eq!(
        r,
        Ok(Message::Add(AddMessage {
            command: "sleep 10".to_string(),
            path: "/work".to_string(),
            start_immediately: false,
            stashed: true,
            enqueue_at: Some(Timestamp { unix_seconds: 1_700_000_000 }),
        }))
    );
}

#[test]
fn add_fails_when_cwd_unavailable() {
    let cmd = Command::Add {
        command: vec!["echo".to_string()],
        start_immediately: false,
        stashed: false,
        delay_until: None,
    };
    let env = Environment { cwd: CwdQuery::Unavailable };
    assert_eq!(translate(&cmd, &env), Err(TranslationError::EnvironmentUnavailable));
}

#[test]
fn add_fails_when_cwd_not_utf8() {
    let cmd = Command::Add {
        command: vec!["echo".to_string()],
        start_immediately: false,
        stashed: false,
        delay_until: None,
    };
    let env = Environment { cwd: CwdQuery::NonUtf8 };
    assert_eq!(translate(&cmd, &env), Err(TranslationError::NonUtf8Path));
}

#[test]
fn switch_pairs_task_ids() {
    let cmd = Command::Switch { task_id_1: 2, task_id_2: 5 };
    let r = translate(&cmd, &Environment { cwd: CwdQuery::Unavailable });
    assert_eq!(r, Ok(Message::Switch(SwitchMessage { task_id_1: 2, task_id_2: 5 })));
}

#[test]
fn edit_carries_only_task_id() {
    let cmd = Command::Edit { task_id: 4, path: "/tmp/x".to_string() };
    let r = translate(&cmd, &utf8_env("/anywhere"));
    assert_eq!(r, Ok(Message::EditRequest(4)));
    let printed = format!("{:?}", r);
    assert!(!printed.contains("/tmp/x"));
}

#[test]
fn completions_always_misrouted() {
    let envs = [
        Environment { cwd: CwdQuery::Unavailable },
        Environment { cwd: CwdQuery::NonUtf8 },
        utf8_env("/home"),
    ];
    for env in envs.iter() {
        let cmd = Command::Completions {
            shell: "zsh".to_string(),
            output_directory: "/tmp/completions".to_string(),
        };
        assert_eq!(translate(&cmd, env), Err(TranslationError::MisroutedLocalCommand));
        let other = Command::Completions {
            shell: String::new(),
            output_directory: String::new(),
        };
        assert_eq!(translate(&other, env), Err(TranslationError::MisroutedLocalCommand));
    }
}

#[test]
fn remove_stash_start_preserve_ids_in_order() {
    let env = Environment { cwd: CwdQuery::Unavailable };
    let ids = vec![3usize, 7, 9];

    let r = translate(&Command::Remove { task_ids: ids.clone() }, &env);
    assert_eq!(r, Ok(Message::Remove(vec![3, 7, 9])));

    let r = translate(&Command::Stash { task_ids: ids.clone() }, &env);
    assert_eq!(r, Ok(Message::Stash(vec![3, 7, 9])));

    let r = translate(&Command::Start { task_ids: ids.clone() }, &env);
    assert_eq!(r, Ok(Message::Start(vec![3, 7, 9])));
}

#[test]
fn translate_twice_yields_identical_messages() {
    let cmd = Command::Add {
        command: vec!["cargo".to_string(), "build".to_string()],
        start_immediately: true,
        stashed: false,
        delay_until: Some(Timestamp { unix_seconds: 42 }),
    };
    let env = utf8_env("/repo");
    let first = translate(&cmd, &env);
    let second = translate(&cmd, &env);
    assert_eq!(first, second);

    let cmd = Command::Kill { all: true, task_ids: vec![1, 2] };
    let first = translate(&cmd, &env);
    let second = translate(&cmd, &env);
    assert_eq!(first, second);
}

#[test]
fn remaining_variants_map_per_table() {
    let env = Environment { cwd: CwdQuery::Unavailable };

    let r = translate(
        &Command::Enqueue {
            task_ids: vec![1, 4],
            delay_until: Some(Timestamp { unix_seconds: 99 }),
        },
        &env,
    );
    assert_eq!(
        r,
        Ok(Message::Enqueue(EnqueueMessage {
            task_ids: vec![1, 4],
            enqueue_at: Some(Timestamp { unix_seconds: 99 }),
        }))
    );

    let r = translate(
        &Command::Restart { task_ids: vec![8], start_immediately: true, stashed: false },
        &env,
    );
    assert_eq!(
        r,
        Ok(Message::Restart(RestartMessage {
            task_ids: vec![8],
            start_immediately: true,
            stashed: false,
        }))
    );

    let r = translate(&Command::Pause { wait: true, task_ids: vec![2] }, &env);
    assert_eq!(r, Ok(Message::Pause(PauseMessage { wait: true, task_ids: vec![2] })));

    let r = translate(&Command::Kill { all: false, task_ids: vec![5, 6] }, &env);
    assert_eq!(r, Ok(Message::Kill(KillMessage { all: false, task_ids: vec![5, 6] })));

    let r = translate(&Command::Send { task_id: 3, input: "y\n".to_string() }, &env);
    assert_eq!(r, Ok(Message::Send(SendMessage { task_id: 3, input: "y\n".to_string() })));

    let r = translate(&Command::Status { json: true }, &env);
    assert_eq!(r, Ok(Message::Status));

    let r = translate(&Command::Log { task_ids: vec![0, 2], json: true }, &env);
    assert_eq!(r, Ok(Message::Log(vec![0, 2])));

    let r = translate(&Command::Show { task_id: 7, follow: true, err: false }, &env);
    assert_eq!(
        r,
        Ok(Message::StreamRequest(StreamRequestMessage { task_id: 7, follow: true, err: false }))
    );

    let r = translate(&Command::Clean, &env);
    assert_eq!(r, Ok(Message::Clean));

    let r = translate(&Command::Reset, &env);
    assert_eq!(r, Ok(Message::Reset));

    let r = translate(&Command::Shutdown, &env);
    assert_eq!(r, Ok(Message::DaemonShutdown));

    let r = translate(&Command::Parallel { parallel_tasks: 12 }, &env);
    assert_eq!(r, Ok(Message::Parallel(12)));
}

#[test]
fn error_descriptions() {
    assert_eq!(
        TranslationError::EnvironmentUnavailable.describe(),
        "Cannot read current working directory"
    );
    assert_eq!(
        TranslationError::NonUtf8Path.describe(),
        "Cannot parse current working directory (Invalid utf8?)"
    );
    assert_eq!(
        TranslationError::MisroutedLocalCommand.describe(),
        "Completions have to be handled earlier"
    );
}
