use sidecar::activation::{run_handover, FdReport};
use sidecar::activation_env::{
    parse_activation_env, parse_required_u32, parse_required_usize, read_env_var, ActivationEnv,
    EnvValue, ProcessEnv, LISTEN_FDS_ENV_VAR, LISTEN_PID_ENV_VAR,
};
use sidecar::activation_name::ActivationName;
use sidecar::activation_sockets::ActivationSockets;
use sidecar::decimal::NumberFault;
use sidecar::error::{
    ActivationError, DescriptorProblem, EnvProblem, Errno, ListenerProblem, NamesProblem,
};
use sidecar::handover::{Action, Handover, Reply, Request, SocketType};

const PROCESS_ID: u32 = 4242;

const ALL_NAMES: [ActivationName; 5] = [
    ActivationName::RpcMain,
    ActivationName::RpcSpeculative,
    ActivationName::SsePublish,
    ActivationName::RestApi,
    ActivationName::AdminApi,
];

fn snapshot(
    listen_pid: Option<String>,
    listen_fds: Option<String>,
    listen_fdnames: Option<String>,
) -> ActivationEnv {
    ActivationEnv {
        listen_pid,
        listen_fds,
        listen_fdnames,
    }
}

fn announcing(count: &str, names: &str) -> ActivationEnv {
    snapshot(
        Some(PROCESS_ID.to_string()),
        Some(count.to_string()),
        Some(names.to_string()),
    )
}

fn listener(id: u32) -> FdReport<u32> {
    FdReport {
        open: Ok(()),
        socket_type: Ok(SocketType::Stream),
        listen_state: Ok(true),
        nonblocking: Ok(()),
        local_address: Ok(id),
    }
}

fn listener_fd() -> FdReport<u32> {
    listener(0)
}

fn listener_error(name: ActivationName, problem: ListenerProblem) -> ActivationError {
    ActivationError::Descriptors(DescriptorProblem::Listener { name, problem })
}

fn error_of(report: FdReport<u32>) -> ActivationError {
    ActivationSockets::from_fd_names_and_owned_fds(vec![Some(ActivationName::RestApi)], vec![report])
        .err()
        .unwrap()
}

#[test]
fn should_parse_multiple_named_fds() {
    let sockets = ActivationSockets::from_snapshot_and_owned_fds(
        snapshot(
            Some(PROCESS_ID.to_string()),
            Some("2".to_string()),
            Some("rpc-main:admin-api".to_string()),
        ),
        PROCESS_ID,
        vec![listener_fd(), listener_fd()],
    )
    .unwrap();

    assert!(sockets.contains_key(ActivationName::RpcMain));
    assert!(sockets.contains_key(ActivationName::AdminApi));
}

#[test]
fn should_support_multiple_recognized_named_fds() {
    let sockets = ActivationSockets::from_snapshot_and_owned_fds(
        snapshot(
            Some(PROCESS_ID.to_string()),
            Some("3".to_string()),
            Some("rpc-main:sse-publish:rpc-speculative".to_string()),
        ),
        PROCESS_ID,
        vec![listener_fd(), listener_fd(), listener_fd()],
    )
    .unwrap();

    assert!(sockets.contains_key(ActivationName::RpcMain));
    assert!(sockets.contains_key(ActivationName::SsePublish));
    assert!(sockets.contains_key(ActivationName::RpcSpeculative));
}

#[test]
fn should_ignore_unknown_fd_names() {
    let sockets = ActivationSockets::from_snapshot_and_owned_fds(
        snapshot(
            Some(PROCESS_ID.to_string()),
            Some("3".to_string()),
            Some("rpc-main:unknown-name:admin-api".to_string()),
        ),
        PROCESS_ID,
        vec![listener_fd(), listener_fd(), listener_fd()],
    )
    .unwrap();

    assert!(sockets.contains_key(ActivationName::RpcMain));
    assert!(sockets.contains_key(ActivationName::AdminApi));
    assert_eq!(sockets.len(), 2);
}

#[test]
fn should_fail_on_bad_listen_pid() {
    let result = ActivationSockets::<u32>::from_snapshot_and_owned_fds(
        snapshot(
            Some("abc".to_string()),
            Some("1".to_string()),
            Some("rpc-main".to_string()),
        ),
        PROCESS_ID,
        Vec::new(),
    );

    assert!(result.is_err());
}

#[test]
fn should_fail_on_bad_listen_fds() {
    let result = ActivationSockets::<u32>::from_snapshot_and_owned_fds(
        snapshot(
            Some(PROCESS_ID.to_string()),
            Some("abc".to_string()),
            Some("rpc-main".to_string()),
        ),
        PROCESS_ID,
        Vec::new(),
    );

    assert!(result.is_err());
}

#[test]
fn should_fail_when_listen_fdnames_is_missing() {
    let result = ActivationSockets::<u32>::from_snapshot_and_owned_fds(
        snapshot(Some(PROCESS_ID.to_string()), Some("1".to_string()), None),
        PROCESS_ID,
        Vec::new(),
    );

    assert!(result.is_err());
}

#[test]
fn should_fail_when_fdnames_count_mismatches_fds() {
    let result = ActivationSockets::<u32>::from_snapshot_and_owned_fds(
        snapshot(
            Some(PROCESS_ID.to_string()),
            Some("2".to_string()),
            Some("rpc-main".to_string()),
        ),
        PROCESS_ID,
        Vec::new(),
    );

    assert!(result.is_err());
}

#[test]
fn should_fail_on_duplicate_supported_fd_names() {
    let result = ActivationSockets::<u32>::from_snapshot_and_owned_fds(
        snapshot(
            Some(PROCESS_ID.to_string()),
            Some("2".to_string()),
            Some("rpc-main:rpc-main".to_string()),
        ),
        PROCESS_ID,
        Vec::new(),
    );

    assert!(result.is_err());
}

#[test]
fn should_return_empty_when_pid_does_not_match() {
    let sockets = ActivationSockets::<u32>::from_snapshot_and_owned_fds(
        snapshot(
            Some((PROCESS_ID + 1).to_string()),
            Some("1".to_string()),
            Some("rpc-main".to_string()),
        ),
        PROCESS_ID,
        Vec::new(),
    )
    .unwrap();

    assert!(sockets.is_empty());
}

#[test]
fn should_unset_activation_env_vars_after_snapshot() {
    let mut env = ProcessEnv {
        listen_pid: EnvValue::Text(PROCESS_ID.to_string()),
        listen_fds: EnvValue::Text("0".to_string()),
        listen_fdnames: EnvValue::Unset,
    };

    let handover = ActivationSockets::<u32>::parse_from_env(&mut env, PROCESS_ID).unwrap();
    assert_eq!(handover.request(), None);
    let sockets = handover.finish();

    assert!(sockets.is_empty());
    assert_eq!(env.listen_pid, EnvValue::Unset);
    assert_eq!(env.listen_fds, EnvValue::Unset);
    assert_eq!(env.listen_fdnames, EnvValue::Unset);
}

#[test]
fn failed_snapshot_leaves_the_environment_alone() {
    let mut env = ProcessEnv {
        listen_pid: EnvValue::Text("1".to_string()),
        listen_fds: EnvValue::NotUnicode,
        listen_fdnames: EnvValue::NotUnicode,
    };
    let error = ActivationEnv::snapshot_from_process_env(&mut env).err().unwrap();
    assert_eq!(
        error,
        ActivationError::Env {
            key: "LISTEN_FDS".to_string(),
            problem: EnvProblem::NotUnicode,
        }
    );
    assert_eq!(
        error.message(),
        "socket activation env var LISTEN_FDS is not valid UTF-8"
    );
    assert_eq!(env.listen_pid, EnvValue::Text("1".to_string()));
    assert_eq!(env.listen_fds, EnvValue::NotUnicode);
    assert!(ActivationSockets::<u32>::parse_from_env(&mut env, 1).is_err());
    assert_eq!(env.listen_pid, EnvValue::Text("1".to_string()));
}

#[test]
fn second_snapshot_finds_nothing() {
    let mut env = ProcessEnv {
        listen_pid: EnvValue::Text(PROCESS_ID.to_string()),
        listen_fds: EnvValue::Text("1".to_string()),
        listen_fdnames: EnvValue::Text("rest-api".to_string()),
    };
    let first = ActivationEnv::snapshot_from_process_env(&mut env).unwrap();
    let second = ActivationEnv::snapshot_from_process_env(&mut env).unwrap();
    assert_eq!(
        parse_activation_env(&first, PROCESS_ID),
        Ok(Some(vec![Some(ActivationName::RestApi)]))
    );
    assert_eq!(second, ActivationEnv::default());
    assert_eq!(parse_activation_env(&second, PROCESS_ID), Ok(None));
}

#[test]
fn reading_a_variable() {
    assert_eq!(read_env_var("K", &EnvValue::Unset), Ok(None));
    assert_eq!(
        read_env_var("K", &EnvValue::Text("v".to_string())),
        Ok(Some("v".to_string()))
    );
    assert!(read_env_var("K", &EnvValue::NotUnicode).is_err());
}

#[test]
fn names_and_lookup_undo_each_other() {
    let texts = [
        "rpc-main",
        "rpc-speculative",
        "sse-publish",
        "rest-api",
        "admin-api",
    ];
    for (name, text) in ALL_NAMES.into_iter().zip(texts) {
        assert_eq!(name.as_str(), text);
        assert_eq!(ActivationName::from_fd_name(text), Some(name));
    }
    for text in ["", "rpc", "rpc-main ", "RPC-MAIN", "rpc-maim", "admin-apis"] {
        assert_eq!(ActivationName::from_fd_name(text), None);
    }
}

#[test]
fn nothing_announced_is_nothing_to_do() {
    assert_eq!(parse_activation_env(&snapshot(None, None, None), 1), Ok(None));
    assert_eq!(
        parse_activation_env(&announcing("0", "::"), PROCESS_ID),
        Ok(None)
    );
    let elsewhere = snapshot(Some("7".to_string()), Some("x".to_string()), None);
    assert_eq!(parse_activation_env(&elsewhere, PROCESS_ID), Ok(None));
}

#[test]
fn announced_names_are_read_back() {
    let mut text = String::new();
    for name in ALL_NAMES {
        if !text.is_empty() {
            text.push(':');
        }
        text.push_str(name.as_str());
    }
    let expected = ALL_NAMES.into_iter().map(Some).collect::<Vec<_>>();
    assert_eq!(
        parse_activation_env(&announcing("5", &text), PROCESS_ID),
        Ok(Some(expected))
    );
    assert_eq!(
        parse_activation_env(&announcing("+03", "höhle:sse-publish:höhle"), PROCESS_ID),
        Ok(Some(vec![None, Some(ActivationName::SsePublish), None]))
    );
}

#[test]
fn faults_of_the_environment() {
    let missing_pid = snapshot(None, Some("1".to_string()), Some("rpc-main".to_string()));
    let error = parse_activation_env(&missing_pid, 1).unwrap_err();
    assert_eq!(error.message(), "socket activation env var LISTEN_PID is required");

    let missing_fds = snapshot(Some("1".to_string()), None, Some("rpc-main".to_string()));
    let error = parse_activation_env(&missing_fds, 1).unwrap_err();
    assert_eq!(error.message(), "socket activation env var LISTEN_FDS is required");

    let missing_names = snapshot(Some("1".to_string()), Some("1".to_string()), None);
    let error = parse_activation_env(&missing_names, 1).unwrap_err();
    assert_eq!(
        error.message(),
        "socket activation env var LISTEN_FDNAMES is required"
    );

    let error = parse_activation_env(&announcing("abc", "rpc-main"), PROCESS_ID).unwrap_err();
    assert_eq!(
        error,
        ActivationError::Env {
            key: "LISTEN_FDS".to_string(),
            problem: EnvProblem::BadNumber(NumberFault::InvalidDigit),
        }
    );
    assert_eq!(
        error.message(),
        "failed to parse socket activation env var LISTEN_FDS"
    );
}

#[test]
fn faults_of_the_names() {
    let error = parse_activation_env(&announcing("12", "rpc-main:x"), PROCESS_ID).unwrap_err();
    assert_eq!(
        error,
        ActivationError::Names(NamesProblem::CountMismatch {
            expected: 12,
            received: 2,
        })
    );
    assert_eq!(
        error.message(),
        "socket activation expected 12 entries in LISTEN_FDNAMES but received 2"
    );

    let error = parse_activation_env(&announcing("1", ""), PROCESS_ID).unwrap_err();
    assert_eq!(error, ActivationError::Names(NamesProblem::EmptyEntry));
    assert_eq!(
        error.message(),
        "socket activation does not allow empty entries in LISTEN_FDNAMES"
    );

    let error =
        parse_activation_env(&announcing("3", "rest-api:rest-api:"), PROCESS_ID).unwrap_err();
    assert_eq!(
        error,
        ActivationError::Names(NamesProblem::Duplicate(ActivationName::RestApi))
    );
    assert_eq!(
        error.message(),
        "socket activation received duplicate listener name rest-api"
    );

    let error =
        parse_activation_env(&announcing("3", ":rest-api:rest-api"), PROCESS_ID).unwrap_err();
    assert_eq!(error, ActivationError::Names(NamesProblem::EmptyEntry));
}

#[test]
fn required_numbers() {
    assert_eq!(parse_required_u32(Some("4294967295"), LISTEN_PID_ENV_VAR), Ok(u32::MAX));
    assert_eq!(parse_required_usize(Some("+7"), LISTEN_FDS_ENV_VAR), Ok(7));
    let fault = |text: &str| match parse_required_u32(Some(text), "K") {
        Err(ActivationError::Env {
            problem: EnvProblem::BadNumber(fault),
            ..
        }) => fault,
        other => panic!("{other:?}"),
    };
    assert_eq!(fault(""), NumberFault::Empty);
    assert_eq!(fault("4294967296"), NumberFault::TooLarge);
    assert_eq!(fault("-1"), NumberFault::InvalidDigit);
    let huge = format!("{}0", usize::MAX);
    assert!(parse_required_usize(Some(&huge), "K").is_err());
    assert_eq!(
        parse_required_usize(None, "K"),
        Err(ActivationError::Env {
            key: "K".to_string(),
            problem: EnvProblem::Missing,
        })
    );
}

#[test]
fn faults_of_the_descriptors() {
    let result = ActivationSockets::from_snapshot_and_owned_fds(
        announcing("2", "rpc-main:rest-api"),
        PROCESS_ID,
        vec![listener_fd()],
    );
    let error = result.err().unwrap();
    assert_eq!(
        error,
        ActivationError::Descriptors(DescriptorProblem::CountMismatch {
            expected: 2,
            received: 1,
        })
    );
    assert_eq!(
        error.message(),
        "socket activation expected 2 file descriptors but received 1"
    );

    let name = ActivationName::RestApi;
    let code = Errno::Code(9);

    let error = error_of(FdReport { socket_type: Err(code), ..listener_fd() });
    assert_eq!(error, listener_error(name, ListenerProblem::TypeUnreadable(code)));
    assert_eq!(
        error.message(),
        "failed to inspect socket type for inherited listener rest-api"
    );

    let error = error_of(FdReport {
        socket_type: Ok(SocketType::Datagram),
        listen_state: Err(code),
        ..listener_fd()
    });
    assert_eq!(error, listener_error(name, ListenerProblem::NotTcp));
    assert_eq!(error.message(), "inherited listener rest-api is not a TCP socket");

    let error = error_of(FdReport { listen_state: Err(code), ..listener_fd() });
    assert_eq!(error, listener_error(name, ListenerProblem::ListenStateUnreadable(code)));
    assert_eq!(
        error.message(),
        "failed to inspect listen state for inherited listener rest-api"
    );

    let error = error_of(FdReport { listen_state: Ok(false), ..listener_fd() });
    assert_eq!(error, listener_error(name, ListenerProblem::NotListening));
    assert_eq!(
        error.message(),
        "inherited listener rest-api is not in a listening state"
    );

    let error = error_of(FdReport { nonblocking: Err(code), ..listener_fd() });
    assert_eq!(error, listener_error(name, ListenerProblem::NonblockingFailed(code)));
    assert_eq!(
        error.message(),
        "failed to set rest-api listener to nonblocking"
    );

    let error = error_of(FdReport { local_address: Err(code), ..listener_fd() });
    assert_eq!(error, listener_error(name, ListenerProblem::AddressUnreadable(code)));
    assert_eq!(
        error.message(),
        "failed to inspect local address for inherited listener rest-api"
    );
}

#[test]
fn unknown_listen_state_is_trusted() {
    let report = FdReport {
        listen_state: Err(Errno::NoProtocolOption),
        ..listener(11)
    };
    let mut sockets = ActivationSockets::from_fd_names_and_owned_fds(
        vec![Some(ActivationName::AdminApi)],
        vec![report],
    )
    .unwrap();
    assert_eq!(sockets.take(ActivationName::AdminApi), Some(11));
}

#[test]
fn first_unfit_descriptor_is_reported() {
    let names = vec![
        Some(ActivationName::RpcMain),
        None,
        Some(ActivationName::SsePublish),
        Some(ActivationName::AdminApi),
    ];
    let unfit = || FdReport {
        socket_type: Ok(SocketType::Raw),
        ..listener(0)
    };
    let result = ActivationSockets::from_fd_names_and_owned_fds(
        names,
        vec![listener(1), unfit(), unfit(), unfit()],
    );
    assert_eq!(
        result.err(),
        Some(listener_error(
            ActivationName::SsePublish,
            ListenerProblem::NotTcp
        ))
    );
}

#[test]
fn listeners_are_taken_once() {
    let mut sockets = ActivationSockets::from_snapshot_and_owned_fds(
        announcing("3", "rest-api:other:rpc-main"),
        PROCESS_ID,
        vec![listener(10), listener(20), listener(30)],
    )
    .unwrap();
    assert_eq!(sockets.take(ActivationName::AdminApi), None);
    assert_eq!(sockets.take(ActivationName::RestApi), Some(10));
    assert_eq!(sockets.take(ActivationName::RestApi), None);
    assert_eq!(sockets.len(), 1);
    assert_eq!(sockets.take(ActivationName::RpcMain), Some(30));
    assert!(sockets.is_empty());
}

#[test]
fn later_descriptor_of_a_name_replaces_the_earlier() {
    let name = Some(ActivationName::RpcMain);
    let mut sockets = ActivationSockets::from_fd_names_and_owned_fds(
        vec![name, name],
        vec![listener(1), listener(2)],
    )
    .unwrap();
    assert_eq!(sockets.len(), 1);
    assert_eq!(sockets.take(ActivationName::RpcMain), Some(2));
}

#[test]
fn requests_come_in_order() {
    let begun = ActivationSockets::<u32>::from_snapshot(
        announcing("2", "other:admin-api"),
        PROCESS_ID,
    );
    let mut handover = begun.ok().unwrap();
    let expected = [
        (0, Action::CheckOpen { raw_fd: 3 }, Reply::Open(Ok(()))),
        (1, Action::CheckOpen { raw_fd: 4 }, Reply::Open(Ok(()))),
        (0, Action::Close, Reply::Closed),
        (
            1,
            Action::ReadSocketType,
            Reply::SocketType(Ok(SocketType::Stream)),
        ),
        (1, Action::ReadListenState, Reply::ListenState(Ok(true))),
        (1, Action::SetNonblocking, Reply::Nonblocking(Ok(()))),
        (1, Action::ReadLocalAddress, Reply::LocalAddress(Ok(77))),
    ];
    for (index, action, reply) in expected {
        assert_eq!(handover.request(), Some(Request { index, action }));
        handover = handover.step(reply).ok().unwrap();
    }
    assert_eq!(handover.request(), None);
    let mut sockets = handover.finish();
    assert_eq!(sockets.take(ActivationName::AdminApi), Some(77));
    assert!(sockets.is_empty());
}

#[test]
fn closed_descriptor_ends_the_handover() {
    let begun = ActivationSockets::<u32>::from_snapshot(
        announcing("3", "admin-api:rest-api:rpc-main"),
        PROCESS_ID,
    );
    let reports = vec![
        FdReport {
            socket_type: Ok(SocketType::Datagram),
            ..listener(1)
        },
        FdReport {
            open: Err(Errno::Code(9)),
            ..listener(2)
        },
        FdReport {
            open: Err(Errno::Code(9)),
            ..listener(3)
        },
    ];
    let error = run_handover(begun.ok().unwrap(), &reports).err().unwrap();
    assert_eq!(
        error,
        ActivationError::Descriptors(DescriptorProblem::NotOpen {
            raw_fd: 4,
            cause: Errno::Code(9),
        })
    );
    assert_eq!(
        error.message(),
        "socket activation file descriptor 4 is not open"
    );
}

#[test]
fn open_descriptors_are_as_supplied() {
    let names = "sse-publish:x:rest-api";
    let reports = vec![listener(5), listener(6), listener(7)];
    let begun = ActivationSockets::<u32>::from_snapshot(announcing("3", names), PROCESS_ID);
    let mut found = run_handover(begun.ok().unwrap(), &reports).ok().unwrap();
    let mut supplied = ActivationSockets::from_snapshot_and_owned_fds(
        announcing("3", names),
        PROCESS_ID,
        reports,
    )
    .unwrap();
    for name in ALL_NAMES {
        assert_eq!(found.take(name), supplied.take(name));
    }
}

#[test]
fn handover_of_nothing_is_done_at_once() {
    let handover = Handover::<u32>::start(Vec::new());
    assert_eq!(handover.request(), None);
    assert!(handover.finish().is_empty());
}
