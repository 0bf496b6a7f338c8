use std::collections::HashSet;

use kairo_backend::agent::{input_line, AgentError, AgentEvent, AgentInfo, AgentStatus};
use kairo_backend::registry::AgentRegistry;

fn spawn(reg: &mut AgentRegistry<u32>, name: &str, pid: Option<u32>, stdin: Option<u32>) -> AgentInfo {
    let (info, _) = reg
        .record_spawn(name.to_string(), "cmd".to_string(), vec![], Ok((pid, stdin)))
        .expect("a started process is recorded");
    info
}

fn status_of(reg: &AgentRegistry<u32>, id: &str) -> AgentStatus {
    reg.list_agents().into_iter().find(|a| a.id == id).expect("agent listed").status
}

#[test]
fn spawn_records_running_agent() {
    let mut reg: AgentRegistry<u32> = AgentRegistry::new();
    let r = reg.record_spawn(
        "t".to_string(),
        "echo".to_string(),
        vec!["hello".to_string()],
        Ok((Some(42), Some(1))),
    );
    let (info, event) = r.expect("spawn succeeds");
    assert_eq!(info.name, "t");
    assert_eq!(info.command, "echo");
    assert_eq!(info.args, vec!["hello".to_string()]);
    assert_eq!(info.status, AgentStatus::Running);
    assert!(!info.id.is_empty());
    match event {
        AgentEvent::StatusChanged { agent_id, status } => {
            assert_eq!(agent_id, info.id);
            assert_eq!(status, AgentStatus::Running);
        }
        other => panic!("unexpected event {other:?}"),
    }
    let list = reg.list_agents();
    assert_eq!(list.len(), 1);
    assert_eq!(list[0].id, info.id);
    assert_eq!(list[0].status, AgentStatus::Running);
    assert!(reg.contains(&info.id));
}

#[test]
fn spawn_failure_creates_no_entry() {
    let mut reg: AgentRegistry<u32> = AgentRegistry::new();
    let r = reg.record_spawn(
        "bad".to_string(),
        "nonexistent_command_xyz".to_string(),
        vec![],
        Err("No such file or directory (os error 2)".to_string()),
    );
    match r {
        Err(e) => {
            assert!(matches!(e, AgentError::SpawnFailure(_)));
            assert_eq!(e.message(), "Failed to spawn process: No such file or directory (os error 2)");
        }
        Ok(_) => panic!("spawn failure must be reported"),
    }
    assert_eq!(reg.len(), 0);
    assert!(reg.list_agents().is_empty());
}

#[test]
fn spawned_ids_are_unique() {
    let mut reg: AgentRegistry<u32> = AgentRegistry::new();
    let mut seen = HashSet::new();
    for k in 0..50u32 {
        let info = spawn(&mut reg, "a", Some(k), None);
        assert!(seen.insert(info.id));
    }
    assert_eq!(reg.len(), 50);
}

#[test]
fn fresh_id_keeps_unused_candidate() {
    let mut reg: AgentRegistry<u32> = AgentRegistry::new();
    spawn(&mut reg, "a", Some(1), None);
    assert_eq!(reg.fresh_id_from("abc".to_string()), "abc");
}

#[test]
fn fresh_id_replaces_used_candidate() {
    let mut reg: AgentRegistry<u32> = AgentRegistry::new();
    let a = spawn(&mut reg, "a", Some(1), None);
    let b = spawn(&mut reg, "b", Some(2), None);
    let r = reg.fresh_id_from(a.id.clone());
    assert_ne!(r, a.id);
    assert_ne!(r, b.id);
    assert!(!reg.contains(&r));
    assert!(reg.contains(&a.id));
}

#[test]
fn clean_exit_settles_stopped() {
    let mut reg: AgentRegistry<u32> = AgentRegistry::new();
    let info = spawn(&mut reg, "echo-test", Some(5), Some(0));
    let event = reg.record_exit(&info.id, true).expect("first exit publishes");
    match event {
        AgentEvent::StatusChanged { agent_id, status } => {
            assert_eq!(agent_id, info.id);
            assert_eq!(status, AgentStatus::Stopped);
        }
        other => panic!("unexpected event {other:?}"),
    }
    assert_eq!(status_of(&reg, &info.id), AgentStatus::Stopped);
}

#[test]
fn unclean_exit_settles_failed() {
    let mut reg: AgentRegistry<u32> = AgentRegistry::new();
    let info = spawn(&mut reg, "bad-exit", Some(5), Some(0));
    assert!(reg.record_exit(&info.id, false).is_some());
    assert_eq!(status_of(&reg, &info.id), AgentStatus::Failed);
}

#[test]
fn exit_is_recorded_once() {
    let mut reg: AgentRegistry<u32> = AgentRegistry::new();
    let info = spawn(&mut reg, "x", Some(5), Some(0));
    assert!(reg.record_exit(&info.id, true).is_some());
    assert!(reg.record_exit(&info.id, false).is_none());
    assert_eq!(status_of(&reg, &info.id), AgentStatus::Stopped);
}

#[test]
fn exit_of_unknown_agent_changes_nothing() {
    let mut reg: AgentRegistry<u32> = AgentRegistry::new();
    let info = spawn(&mut reg, "x", Some(5), Some(0));
    assert!(reg.record_exit("missing", true).is_none());
    assert_eq!(status_of(&reg, &info.id), AgentStatus::Running);
}

#[test]
fn input_to_stopped_agent_is_not_running() {
    let mut reg: AgentRegistry<u32> = AgentRegistry::new();
    let info = spawn(&mut reg, "x", Some(5), Some(9));
    reg.record_exit(&info.id, true);
    match reg.take_input(&info.id) {
        Err(e) => {
            assert!(matches!(e, AgentError::NotRunning(_)));
            assert_eq!(e.message(), format!("Agent {} is not running", info.id));
        }
        Ok(_) => panic!("input to a stopped agent must be refused"),
    }
}

#[test]
fn input_to_unknown_agent_is_not_found() {
    let mut reg: AgentRegistry<u32> = AgentRegistry::new();
    match reg.take_input("nope") {
        Err(e) => {
            assert!(matches!(e, AgentError::NotFound(_)));
            assert_eq!(e.message(), "Agent nope not found");
        }
        Ok(_) => panic!("unknown agent must be refused"),
    }
}

#[test]
fn input_without_stream_is_io_error() {
    let mut reg: AgentRegistry<u32> = AgentRegistry::new();
    let info = spawn(&mut reg, "x", Some(5), None);
    match reg.take_input(&info.id) {
        Err(e) => {
            assert!(matches!(e, AgentError::IoError(_)));
            assert_eq!(e.message(), "Agent stdin not available");
        }
        Ok(_) => panic!("an agent without a stream must be refused"),
    }
}

#[test]
fn input_round_trip_gives_input_event() {
    let mut reg: AgentRegistry<u32> = AgentRegistry::new();
    let _other = spawn(&mut reg, "other", Some(4), Some(8));
    let info = spawn(&mut reg, "cat-test", Some(5), Some(9));
    let (index, stdin) = reg.take_input(&info.id).expect("running agent takes input");
    assert_eq!(stdin, 9);
    assert_eq!(index, 1);
    let event = reg
        .finish_input(index, stdin, "hello world".to_string(), Ok(()))
        .expect("written");
    match event {
        AgentEvent::Input { agent_id, input } => {
            assert_eq!(agent_id, info.id);
            assert_eq!(input, "hello world");
        }
        other => panic!("unexpected event {other:?}"),
    }
    // the stream is held again, so a second input is accepted
    let (_, again) = reg.take_input(&info.id).expect("stream handed back");
    assert_eq!(again, 9);
}

#[test]
fn failed_write_gives_io_error() {
    let mut reg: AgentRegistry<u32> = AgentRegistry::new();
    let info = spawn(&mut reg, "x", Some(5), Some(9));
    let (index, stdin) = reg.take_input(&info.id).expect("running agent takes input");
    match reg.finish_input(index, stdin, "hi".to_string(), Err("Broken pipe".to_string())) {
        Err(e) => {
            assert!(matches!(e, AgentError::IoError(_)));
            assert_eq!(e.message(), "Broken pipe");
        }
        Ok(_) => panic!("a failed write must be reported"),
    }
}

#[test]
fn input_line_appends_terminator() {
    assert_eq!(input_line("hello world"), "hello world\n");
    assert_eq!(input_line(""), "\n");
}

#[test]
fn stop_marks_running_agent_stopped() {
    let mut reg: AgentRegistry<u32> = AgentRegistry::new();
    let info = spawn(&mut reg, "sleeper", Some(77), Some(1));
    assert_eq!(reg.stop_target(&info.id).expect("pid recorded"), 77);
    let event = reg.mark_stopped(&info.id).expect("stop publishes");
    match event {
        AgentEvent::StatusChanged { agent_id, status } => {
            assert_eq!(agent_id, info.id);
            assert_eq!(status, AgentStatus::Stopped);
        }
        other => panic!("unexpected event {other:?}"),
    }
    assert!(status_of(&reg, &info.id).is_terminal());
    assert!(matches!(reg.take_input(&info.id), Err(AgentError::NotRunning(_))));
}

#[test]
fn exit_after_stop_settles_real_outcome() {
    let mut reg: AgentRegistry<u32> = AgentRegistry::new();
    let info = spawn(&mut reg, "sleeper", Some(77), Some(1));
    reg.mark_stopped(&info.id);
    assert_eq!(status_of(&reg, &info.id), AgentStatus::Stopped);
    let event = reg.record_exit(&info.id, false).expect("watcher publishes");
    assert!(matches!(event, AgentEvent::StatusChanged { status: AgentStatus::Failed, .. }));
    assert_eq!(status_of(&reg, &info.id), AgentStatus::Failed);
    // the watcher's status is final: a later stop publishes nothing
    assert!(reg.mark_stopped(&info.id).is_none());
    assert_eq!(status_of(&reg, &info.id), AgentStatus::Failed);
}

#[test]
fn stop_unknown_agent_is_not_found() {
    let reg: AgentRegistry<u32> = AgentRegistry::new();
    match reg.stop_target("ghost") {
        Err(e) => assert_eq!(e.message(), "Agent ghost not found"),
        Ok(_) => panic!("unknown agent must be refused"),
    }
}

#[test]
fn stop_without_pid_is_no_process_id() {
    let mut reg: AgentRegistry<u32> = AgentRegistry::new();
    let info = spawn(&mut reg, "x", None, Some(1));
    match reg.stop_target(&info.id) {
        Err(e) => {
            assert!(matches!(e, AgentError::NoProcessId(_)));
            assert_eq!(e.message(), "Agent has no PID");
        }
        Ok(_) => panic!("no pid must be reported"),
    }
}

#[test]
fn other_agents_are_untouched() {
    let mut reg: AgentRegistry<u32> = AgentRegistry::new();
    let a = spawn(&mut reg, "a", Some(1), Some(1));
    let b = spawn(&mut reg, "b", Some(2), Some(2));
    reg.mark_stopped(&a.id);
    reg.record_exit(&a.id, true);
    assert_eq!(status_of(&reg, &b.id), AgentStatus::Running);
    assert!(reg.take_input(&b.id).is_ok());
}
