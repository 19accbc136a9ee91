use code_runner::paths::check_path_safe;
use code_runner::paths::check_within_root;
use code_runner::paths::join_path;
use code_runner::profile::default_profile;
use code_runner::profile::NamespaceKind;
use code_runner::profile::SeccompArch;
use code_runner::sandbox::build_run_output;
use code_runner::sandbox::limit_of_request;
use code_runner::sandbox::CpuTimes;
use code_runner::sandbox::RunLimits;
use code_runner::session::get_outcome;
use code_runner::session::put_outcome;
use code_runner::session::run_outcome;
use code_runner::session::status_code;
use code_runner::session::Command;
use code_runner::session::Directive;
use code_runner::session::ErrorKind;
use code_runner::session::Event;
use code_runner::session::Outgoing;
use code_runner::session::Response;
use code_runner::session::Session;
use code_runner::session::SessionState;
use code_runner::session_id::new_session_id;
use code_runner::types::RunOutput;
use code_runner::types::RunStatus;

const BASE: &str = "/var/tmp/code-runner";

fn open_session(id: &str) -> Session {
    Session::new(BASE, id)
}

#[test]
fn path_safety_accepts_plain_relative_names() {
    assert!(check_path_safe("hello.txt"));
    assert!(check_path_safe("dir/file.py"));
    assert!(check_path_safe("a"));
    assert!(check_path_safe("weird name.txt"));
}

#[test]
fn path_safety_rejects_escapes() {
    assert!(!check_path_safe(""));
    assert!(!check_path_safe("/etc/passwd"));
    assert!(!check_path_safe("../secret"));
    assert!(!check_path_safe("a/../b"));
    assert!(!check_path_safe("a.."));
    assert!(!check_path_safe(".."));
}

#[test]
fn join_path_inserts_one_slash() {
    assert_eq!(join_path(BASE, "abc"), format!("{}/abc", BASE));
    assert_eq!(join_path("/a", "b/c.txt"), "/a/b/c.txt");
}

#[test]
fn session_ids_are_twenty_alphanumerics() {
    let id = new_session_id();
    assert_eq!(id.chars().count(), 20);
    assert!(id.chars().all(|c| c.is_ascii_alphanumeric()));
    assert!(!id.contains('/'));
}

#[test]
fn distinct_sessions_use_distinct_paths() {
    let s1 = open_session("aaaaaaaaaaaaaaaaaaaa");
    let s2 = open_session("bbbbbbbbbbbbbbbbbbbb");
    assert_ne!(s1.root, s2.root);
    let p1 = join_path(&s1.root, "data.txt");
    let p2 = join_path(&s2.root, "data.txt");
    assert_ne!(p1, p2);
}

#[test]
fn put_then_get_resolve_to_the_same_path() {
    let mut s = open_session("cccccccccccccccccccc");
    let put = s.step(Event::Request {
        command: Some(Command::Put {
            filename: "hello.txt".to_string(),
            content: b"hi".to_vec(),
        }),
    });
    let written_path = match put {
        Directive::WriteFile { path, content } => {
            assert_eq!(content, b"hi".to_vec());
            path
        }
        other => panic!("expected WriteFile, got {:?}", other),
    };
    let get = s.step(Event::Request {
        command: Some(Command::Get {
            filename: "hello.txt".to_string(),
        }),
    });
    match get {
        Directive::ReadFile { path } => assert_eq!(path, written_path),
        other => panic!("expected ReadFile, got {:?}", other),
    }
    match get_outcome(Ok(b"hi".to_vec())) {
        Outgoing::Success(Response::Get { content }) => assert_eq!(content, b"hi".to_vec()),
        other => panic!("expected Get response, got {:?}", other),
    }
}

#[test]
fn unsafe_filenames_are_refused_without_touching_the_filesystem() {
    let mut s = open_session("dddddddddddddddddddd");
    let d = s.step(Event::Request {
        command: Some(Command::Put {
            filename: "../escape".to_string(),
            content: b"x".to_vec(),
        }),
    });
    match d {
        Directive::Refuse { error } => {
            assert_eq!(error.kind, ErrorKind::Internal);
            assert_eq!(error.message, "Failed to put file: invalid file path");
        }
        other => panic!("expected Refuse, got {:?}", other),
    }
    assert_eq!(s.state, SessionState::Open);
    let d = s.step(Event::Request {
        command: Some(Command::Get {
            filename: "/abs".to_string(),
        }),
    });
    match d {
        Directive::Refuse { error } => {
            assert_eq!(error.kind, ErrorKind::Internal);
            assert_eq!(error.message, "Failed to get file: invalid file path");
        }
        other => panic!("expected Refuse, got {:?}", other),
    }
    assert_eq!(s.state, SessionState::Open);
}

#[test]
fn get_missing_file_reports_error_and_session_continues() {
    let mut s = open_session("eeeeeeeeeeeeeeeeeeee");
    let d = s.step(Event::Request {
        command: Some(Command::Get {
            filename: "absent.txt".to_string(),
        }),
    });
    assert!(matches!(d, Directive::ReadFile { .. }));
    match get_outcome(Err("No such file or directory (os error 2)".to_string())) {
        Outgoing::Failure(e) => {
            assert_eq!(e.kind, ErrorKind::Internal);
            assert!(e.message.starts_with("Failed to get file"));
            assert_eq!(
                e.message,
                "Failed to get file: No such file or directory (os error 2)"
            );
        }
        other => panic!("expected Failure, got {:?}", other),
    }
    assert_eq!(s.state, SessionState::Open);
    let d = s.step(Event::Request {
        command: Some(Command::Put {
            filename: "other.txt".to_string(),
            content: b"ok".to_vec(),
        }),
    });
    assert!(matches!(d, Directive::WriteFile { .. }));
}

#[test]
fn missing_command_payload_is_invalid_argument() {
    let mut s = open_session("ffffffffffffffffffff");
    let d = s.step(Event::Request { command: None });
    match d {
        Directive::Refuse { error } => {
            assert_eq!(error.kind, ErrorKind::InvalidArgument);
            assert_eq!(error.message, "CommandRequest must contain a command");
        }
        other => panic!("expected Refuse, got {:?}", other),
    }
    assert_eq!(s.state, SessionState::Open);
}

#[test]
fn disconnect_drains_then_cleans_up_exactly_once() {
    let mut s = open_session("gggggggggggggggggggg");
    let d = s.step(Event::Request {
        command: Some(Command::Put {
            filename: "f".to_string(),
            content: b"v".to_vec(),
        }),
    });
    assert!(matches!(d, Directive::WriteFile { .. }));
    let d = s.step(Event::InboundClosed);
    assert!(matches!(d, Directive::Idle));
    assert_eq!(s.state, SessionState::Draining);
    let d = s.step(Event::Drained);
    assert!(matches!(d, Directive::Cleanup));
    assert_eq!(s.state, SessionState::Closed);
    let d = s.step(Event::Drained);
    assert!(matches!(d, Directive::Idle));
    let d = s.step(Event::InboundClosed);
    assert!(matches!(d, Directive::Idle));
    assert_eq!(s.state, SessionState::Closed);
}

#[test]
fn broken_pipe_closes_immediately_with_cleanup() {
    let mut s = open_session("hhhhhhhhhhhhhhhhhhhh");
    let d = s.step(Event::InboundError { broken_pipe: true });
    assert!(matches!(d, Directive::Cleanup));
    assert_eq!(s.state, SessionState::Closed);
    let d = s.step(Event::InboundError { broken_pipe: true });
    assert!(matches!(d, Directive::Idle));
}

#[test]
fn inbound_error_is_forwarded_once_then_session_terminates() {
    let mut s = open_session("iiiiiiiiiiiiiiiiiiii");
    let d = s.step(Event::InboundError { broken_pipe: false });
    assert!(matches!(d, Directive::ForwardError));
    assert_eq!(s.state, SessionState::Draining);
    let d = s.step(Event::Drained);
    assert!(matches!(d, Directive::Cleanup));
    assert_eq!(s.state, SessionState::Closed);
}

#[test]
fn undeliverable_response_drains_and_cleans_up() {
    let mut s = open_session("kkkkkkkkkkkkkkkkkkkk");
    let d = s.step(Event::SendFailed);
    assert!(matches!(d, Directive::Idle));
    assert_eq!(s.state, SessionState::Draining);
    let d = s.step(Event::Drained);
    assert!(matches!(d, Directive::Cleanup));
    assert_eq!(s.state, SessionState::Closed);
}

#[test]
fn within_root_accepts_the_root_and_its_descendants() {
    assert!(check_within_root("/var/tmp/code-runner/s1", "/var/tmp/code-runner/s1"));
    assert!(check_within_root("/var/tmp/code-runner/s1", "/var/tmp/code-runner/s1/a.txt"));
    assert!(check_within_root("/var/tmp/code-runner/s1", "/var/tmp/code-runner/s1/d/e"));
}

#[test]
fn within_root_rejects_resolved_escapes() {
    assert!(!check_within_root("/var/tmp/code-runner/s1", "/var/tmp/code-runner/s2/a.txt"));
    assert!(!check_within_root("/var/tmp/code-runner/s1", "/var/tmp/code-runner"));
    assert!(!check_within_root("/var/tmp/code-runner/s1", "/etc/passwd"));
    assert!(!check_within_root("/var/tmp/code-runner/s1", "/var/tmp/code-runner/s10/x"));
    assert!(!check_within_root("/var/tmp/code-runner/s1", "/var/tmp/code-runner/s1/"));
    assert!(!check_within_root("/var/tmp/code-runner/s1", ""));
}

#[test]
fn run_command_is_planned_as_shell_invocation() {
    let mut s = open_session("jjjjjjjjjjjjjjjjjjjj");
    let d = s.step(Event::Request {
        command: Some(Command::Run {
            command: "cat hello.txt".to_string(),
            limits: None,
            input: Some(b"stdin bytes".to_vec()),
        }),
    });
    match d {
        Directive::Execute { request } => {
            assert_eq!(request.program, "/bin/sh");
            assert_eq!(request.args, vec!["-c".to_string(), "cat hello.txt".to_string()]);
            assert_eq!(request.workdir, "/box");
            assert_eq!(request.path_env, "/bin");
            assert!(request.limit.is_none());
            assert_eq!(request.stdin, Some(b"stdin bytes".to_vec()));
        }
        other => panic!("expected Execute, got {:?}", other),
    }
}

#[test]
fn limits_derive_wall_time_as_twice_the_cpu_budget() {
    let l = limit_of_request(&Some(RunLimits {
        max_memory: 134217728,
        max_runtime: 1,
    }))
    .expect("limits requested");
    assert_eq!(l.memory, Some(134217728));
    assert_eq!(l.time_limit, Some(1));
    assert_eq!(l.walltime_limit, Some(2));
    assert!(limit_of_request(&None).is_none());
}

#[test]
fn wall_time_derivation_saturates() {
    let l = limit_of_request(&Some(RunLimits {
        max_memory: 1,
        max_runtime: u64::MAX,
    }))
    .expect("limits requested");
    assert_eq!(l.walltime_limit, Some(u64::MAX));
    assert_eq!(l.time_limit, Some(u64::MAX));
}

fn cpu(user: u64, system: u64) -> Option<CpuTimes> {
    Some(CpuTimes {
        user_millis: user,
        system_millis: system,
    })
}

#[test]
fn echo_run_classifies_as_success() {
    let out = build_run_output(
        b"hi".to_vec(),
        Vec::new(),
        0,
        "exited".to_string(),
        cpu(3, 2),
        Some(100),
    );
    assert!(matches!(out.status, RunStatus::Success));
    assert_eq!(out.stdout, b"hi".to_vec());
    assert_eq!(out.stderr, Vec::<u8>::new());
    assert_eq!(out.runtime, 5);
    assert_eq!(out.memory_usage, 102400);
    assert_eq!(out.exit_code, Some(0));
    match run_outcome(out) {
        Outgoing::Success(Response::Run {
            stdout,
            stderr,
            status,
            runtime,
            memory,
            exit_code,
        }) => {
            assert_eq!(stdout, b"hi".to_vec());
            assert_eq!(stderr, Vec::<u8>::new());
            assert_eq!(status, 0);
            assert_eq!(runtime, 5);
            assert_eq!(memory, 102400);
            assert_eq!(exit_code, Some(0));
        }
        other => panic!("expected Run response, got {:?}", other),
    }
}

#[test]
fn kernel_kills_classify_as_time_limit_exceeded() {
    for code in [137, 152] {
        let out = build_run_output(
            Vec::new(),
            Vec::new(),
            code,
            "killed".to_string(),
            cpu(1000, 10),
            Some(50),
        );
        assert!(matches!(out.status, RunStatus::TimeLimitExceeded));
        assert_eq!(out.exit_code, Some(code));
        match run_outcome(out) {
            Outgoing::Success(Response::Run { status, .. }) => assert_eq!(status, 1),
            other => panic!("expected Run response, got {:?}", other),
        }
    }
}

#[test]
fn nonzero_exits_classify_as_runtime_error() {
    // a signal termination other than the kernel's limit kills, e.g. 128 + SIGSEGV
    let out = build_run_output(
        Vec::new(),
        b"curl: (7) Couldn't connect to server".to_vec(),
        139,
        "signaled".to_string(),
        cpu(1, 1),
        Some(10),
    );
    match &out.status {
        RunStatus::RuntimeError(reason) => assert_eq!(reason, "signaled"),
        other => panic!("expected RuntimeError, got {:?}", other),
    }
    assert_eq!(out.exit_code, Some(139));
    assert!(!out.stderr.is_empty());
    match run_outcome(out) {
        Outgoing::Success(Response::Run { status, exit_code, .. }) => {
            assert_eq!(status, 2);
            assert_ne!(exit_code, Some(0));
        }
        other => panic!("expected Run response, got {:?}", other),
    }
}

#[test]
fn missing_resource_snapshots_classify_as_system_error() {
    let out = build_run_output(
        b"partial".to_vec(),
        b"oops".to_vec(),
        1,
        "exited".to_string(),
        None,
        None,
    );
    match &out.status {
        RunStatus::SystemError(m) => assert_eq!(m, "Failed to get resource usage"),
        other => panic!("expected SystemError, got {:?}", other),
    }
    assert_eq!(out.exit_code, None);
    assert_eq!(out.runtime, 0);
    assert_eq!(out.memory_usage, 0);
    assert_eq!(out.stdout, b"partial".to_vec());
    assert_eq!(out.stderr, b"oopsFailed to get resource usage".to_vec());

    let out = build_run_output(
        Vec::new(),
        Vec::new(),
        1,
        "exited".to_string(),
        cpu(1, 1),
        None,
    );
    match &out.status {
        RunStatus::SystemError(m) => assert_eq!(m, "Failed to get process resource usage"),
        other => panic!("expected SystemError, got {:?}", other),
    }
    assert_eq!(out.stderr, b"Failed to get process resource usage".to_vec());
    assert_eq!(out.exit_code, None);
}

#[test]
fn exit_code_decides_before_missing_snapshots() {
    let out = build_run_output(
        Vec::new(),
        Vec::new(),
        0,
        "exited".to_string(),
        None,
        None,
    );
    assert!(matches!(out.status, RunStatus::Success));
    assert_eq!(out.runtime, 0);
    assert_eq!(out.memory_usage, 0);
    assert_eq!(out.exit_code, Some(0));
}

#[test]
fn rss_conversion_saturates_at_i64_max() {
    let out = build_run_output(
        Vec::new(),
        Vec::new(),
        0,
        String::new(),
        cpu(0, 0),
        Some(u64::MAX),
    );
    assert_eq!(out.memory_usage, i64::MAX);
}

#[test]
fn run_output_error_has_no_accounting() {
    let out = RunOutput::error(
        "Failed to spawn process".to_string(),
        None,
        Some(b"out".to_vec()),
    );
    match &out.status {
        RunStatus::SystemError(m) => assert_eq!(m, "Failed to spawn process"),
        other => panic!("expected SystemError, got {:?}", other),
    }
    assert_eq!(out.stdout, b"out".to_vec());
    assert_eq!(out.stderr, b"Failed to spawn process".to_vec());
    assert_eq!(out.runtime, 0);
    assert_eq!(out.memory_usage, 0);
    assert_eq!(out.exit_code, None);
    match run_outcome(out) {
        Outgoing::Success(Response::Run { status, .. }) => assert_eq!(status, 3),
        other => panic!("expected Run response, got {:?}", other),
    }
}

#[test]
fn status_codes_follow_the_wire_enum() {
    assert_eq!(status_code(&RunStatus::Success), 0);
    assert_eq!(status_code(&RunStatus::TimeLimitExceeded), 1);
    assert_eq!(status_code(&RunStatus::RuntimeError("r".to_string())), 2);
    assert_eq!(status_code(&RunStatus::SystemError("s".to_string())), 3);
}

#[test]
fn put_outcome_reports_length_or_cause() {
    match put_outcome(2, None) {
        Outgoing::Success(Response::Put { length }) => assert_eq!(length, 2),
        other => panic!("expected Put response, got {:?}", other),
    }
    match put_outcome(5, Some("disk full".to_string())) {
        Outgoing::Failure(e) => {
            assert_eq!(e.kind, ErrorKind::Internal);
            assert_eq!(e.message, "Failed to put file: disk full");
        }
        other => panic!("expected Failure, got {:?}", other),
    }
}

#[test]
fn wire_accounting_is_truncated_to_wire_widths() {
    let out = RunOutput {
        stdout: Vec::new(),
        stderr: Vec::new(),
        runtime: (u64::MAX as u128) + 7,
        memory_usage: -1,
        status: RunStatus::Success,
        exit_code: Some(0),
    };
    match run_outcome(out) {
        Outgoing::Success(Response::Run { runtime, memory, .. }) => {
            assert_eq!(runtime, 6);
            assert_eq!(memory, u64::MAX);
        }
        other => panic!("expected Run response, got {:?}", other),
    }
}

#[test]
fn profile_denies_the_ten_syscalls_with_sigsys() {
    let p = default_profile();
    let denied: Vec<&str> = p.denied_syscalls.iter().map(|s| s.as_str()).collect();
    assert_eq!(
        denied,
        vec![
            "mount", "umount", "poweroff", "reboot", "socket", "bind", "connect", "listen",
            "sendto", "recvfrom"
        ]
    );
    assert!(denied.contains(&"socket"));
    assert!(denied.contains(&"connect"));
    assert_eq!(p.denied_errno, libc::SIGSYS);
    assert_eq!(p.denied_errno, 31);
}

#[test]
fn profile_isolates_namespaces_and_mounts() {
    let p = default_profile();
    assert_eq!(
        p.unshared_namespaces,
        vec![
            NamespaceKind::Cgroup,
            NamespaceKind::Ipc,
            NamespaceKind::Uts,
            NamespaceKind::Network
        ]
    );
    assert_eq!(
        p.seccomp_archs,
        vec![SeccompArch::X8664, SeccompArch::X86, SeccompArch::X32]
    );
    assert_eq!(p.rootfs_source, "/");
    assert_eq!(p.default_path_env, "/bin");
    assert_eq!(p.workspace_mount, "/box");
}
