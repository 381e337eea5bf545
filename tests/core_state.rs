use wav_dynamics::logger::{log_command, log_debug, log_error, log_info, LogEntry, LogLevel, Logger};
use wav_dynamics::slots::{Delivery, Slot, SlotPair};
use wav_dynamics::tasks::{apply_command, kill_step, PoolReply, TaskRegistry, TaskState, WorkerCommand};

fn state_of(reg: &TaskRegistry, id: usize) -> TaskState {
    let tasks = reg.tasks();
    let i = reg.position(id).expect("task registered");
    tasks[i].state.clone()
}

#[test]
fn new_logger_is_empty() {
    let logger = Logger::new();
    assert_eq!(logger.len(), 0);
    assert!(logger.entries().is_empty());
}

#[test]
fn log_helpers_append_with_level_and_time() {
    let mut logger = Logger::new();
    log_info(&mut logger, "started");
    log_error(&mut logger, "failed");
    log_debug(&mut logger, "details");
    log_command(&mut logger, "kill 2");
    let e = logger.entries();
    assert_eq!(e.len(), 4);
    let levels: Vec<LogLevel> = e.iter().map(|x| x.level).collect();
    assert_eq!(levels, vec![LogLevel::Info, LogLevel::Error, LogLevel::Debug, LogLevel::Command]);
    assert_eq!(e[0].message, "started");
    assert_eq!(e[3].message, "kill 2");
    for entry in e.iter() {
        assert_eq!(entry.time.len(), 8);
        assert_eq!(entry.time.as_bytes()[2], b':');
        assert_eq!(entry.time.as_bytes()[5], b':');
        for i in [0usize, 1, 3, 4, 6, 7] {
            assert!(entry.time.as_bytes()[i].is_ascii_digit());
        }
        let hours: u32 = entry.time[0..2].parse().unwrap();
        let minutes: u32 = entry.time[3..5].parse().unwrap();
        let seconds: u32 = entry.time[6..8].parse().unwrap();
        assert!(hours <= 23 && minutes <= 59 && seconds <= 60);
    }
}

#[test]
fn log_store_evicts_oldest_batch_past_soft_cap() {
    let mut logger = Logger::new();
    for i in 0..1000 {
        logger.push_entry(LogEntry { time: String::from("00:00:00"), message: format!("m{}", i), level: LogLevel::Info });
    }
    assert_eq!(logger.len(), 1000);
    logger.push_entry(LogEntry { time: String::from("00:00:00"), message: String::from("m1000"), level: LogLevel::Debug });
    assert_eq!(logger.len(), 501);
    assert_eq!(logger.entries()[0].message, "m500");
    assert_eq!(logger.entries()[500].message, "m1000");
    log_info(&mut logger, "next");
    assert_eq!(logger.len(), 502);
}

#[test]
fn log_clear_empties_store() {
    let mut logger = Logger::new();
    log_info(&mut logger, "a");
    logger.clear();
    assert_eq!(logger.len(), 0);
}

#[test]
fn submit_kill_lifecycle() {
    let mut reg = TaskRegistry::new();
    let ids: Vec<usize> = ["a.wav", "b.wav", "c.csv"].iter().map(|n| reg.submit(n.to_string()).unwrap()).collect();
    assert_eq!(ids, vec![1, 2, 3]);
    assert!(matches!(state_of(&reg, 2), TaskState::Running(0)));
    assert!(reg.kill(2));
    assert!(matches!(state_of(&reg, 2), TaskState::Killed));
    assert!(reg.set_state(1, TaskState::Completed));
    assert!(!reg.kill(1));
    assert!(matches!(state_of(&reg, 1), TaskState::Completed));
    assert!(matches!(state_of(&reg, 3), TaskState::Running(0)));
}

#[test]
fn terminal_states_are_sticky() {
    let mut reg = TaskRegistry::new();
    let id = reg.submit(String::from("x.wav")).unwrap();
    assert!(reg.set_state(id, TaskState::Error(String::from("bad header"))));
    assert!(!reg.set_state(id, TaskState::Completed));
    assert!(!reg.kill(id));
    assert!(matches!(state_of(&reg, id), TaskState::Error(ref m) if m == "bad header"));
}

#[test]
fn unknown_task_is_left_alone() {
    let mut reg = TaskRegistry::new();
    reg.submit(String::from("x.wav")).unwrap();
    assert!(!reg.kill(42));
    assert_eq!(reg.position(42), None);
    assert_eq!(reg.tasks().len(), 1);
}

#[test]
fn progress_updates_and_activity() {
    let mut reg = TaskRegistry::new();
    assert!(!reg.has_active());
    let a = reg.submit(String::from("a")).unwrap();
    let b = reg.submit(String::from("b")).unwrap();
    assert!(reg.has_active());
    assert!(reg.set_state(a, TaskState::Running(50)));
    assert!(matches!(state_of(&reg, a), TaskState::Running(50)));
    reg.set_state(a, TaskState::Completed);
    assert!(reg.has_active());
    reg.set_state(b, TaskState::Error(String::from("e")));
    assert!(!reg.has_active());
}

#[test]
fn pool_command_step() {
    let mut reg = TaskRegistry::new();
    reg.submit(String::from("first")).unwrap();
    reg.submit(String::from("second")).unwrap();
    match apply_command(&mut reg, WorkerCommand::Kill(2)) {
        PoolReply::Killed { id, name } => {
            assert_eq!(id, 2);
            assert_eq!(name, "second");
        }
        other => panic!("unexpected {:?}", other),
    }
    assert!(matches!(apply_command(&mut reg, WorkerCommand::Kill(2)), PoolReply::Ignored));
    assert!(matches!(apply_command(&mut reg, WorkerCommand::Kill(9)), PoolReply::Ignored));
    assert!(matches!(apply_command(&mut reg, WorkerCommand::Shutdown), PoolReply::Stop));
    assert!(matches!(state_of(&reg, 1), TaskState::Running(0)));
}

#[test]
fn slot_pair_fills_and_reports_ready() {
    let mut pair: SlotPair<u32> = SlotPair::new();
    assert!(!pair.fill(Slot::A, 1));
    assert!(!pair.fill(Slot::A, 2));
    assert!(pair.fill(Slot::B, 3));
    assert_eq!(pair.a, Some(2));
    assert_eq!(pair.b, Some(3));
    assert!(pair.fill(Slot::A, 4));
}

#[test]
fn slot_tags() {
    assert_eq!(Slot::from_tag('A'), Some(Slot::A));
    assert_eq!(Slot::from_tag('B'), Some(Slot::B));
    assert_eq!(Slot::from_tag('a'), None);
    assert_eq!(Slot::from_tag('C'), None);
    assert_eq!(Slot::B.tag(), 'B');
    assert_ne!(Delivery::Batch, Delivery::Compare(Slot::A));
}

#[test]
fn kill_step_marks_only_open_tasks() {
    let mut reg = TaskRegistry::new();
    reg.submit(String::from("one")).unwrap();
    reg.submit(String::from("two")).unwrap();
    reg.set_state(1, TaskState::Completed);
    assert!(matches!(kill_step(&mut reg, 1), PoolReply::Ignored));
    match kill_step(&mut reg, 2) {
        PoolReply::Killed { id, name } => assert_eq!((id, name.as_str()), (2, "two")),
        other => panic!("unexpected {:?}", other),
    }
    assert!(matches!(state_of(&reg, 1), TaskState::Completed));
    assert!(matches!(state_of(&reg, 2), TaskState::Killed));
    assert!(matches!(kill_step(&mut reg, 7), PoolReply::Ignored));
}
