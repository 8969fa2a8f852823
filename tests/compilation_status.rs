use task_maker_format::{
    CompilationStatus, CompilationTracker, ExecutionResourcesUsage, ExecutionResult,
    ExecutionStatus, UIExecutionStatus, UIMessage, WorkerUuid,
};

fn result(status: ExecutionStatus) -> ExecutionResult {
    ExecutionResult {
        status,
        was_killed: false,
        was_cached: false,
        resources: ExecutionResourcesUsage {
            cpu_time_us: 1500,
            sys_time_us: 200,
            wall_time_us: 2000,
            memory_kib: 4096,
        },
        stdout: None,
        stderr: None,
    }
}

fn done(status: ExecutionStatus) -> UIExecutionStatus {
    UIExecutionStatus::Done { result: result(status) }
}

fn started(id: u128) -> UIExecutionStatus {
    UIExecutionStatus::Started { worker: WorkerUuid { id } }
}

fn all_statuses() -> Vec<CompilationStatus> {
    vec![
        CompilationStatus::Pending,
        CompilationStatus::Running,
        CompilationStatus::Done {
            result: result(ExecutionStatus::Success),
            stdout: Some("out".to_string()),
            stderr: Some("err".to_string()),
        },
        CompilationStatus::Failed {
            result: result(ExecutionStatus::ReturnCode(1)),
            stdout: None,
            stderr: Some("err".to_string()),
        },
        CompilationStatus::Skipped,
    ]
}

fn rank(s: &CompilationStatus) -> u32 {
    match s {
        CompilationStatus::Pending => 0,
        CompilationStatus::Running => 1,
        _ => 2,
    }
}

#[test]
fn apply_status_maps_each_lifecycle_value() {
    for before in all_statuses() {
        let mut s = before.clone();
        s.apply_status(UIExecutionStatus::Pending);
        assert_eq!(s, CompilationStatus::Pending);

        let mut s = before.clone();
        s.apply_status(started(7));
        assert_eq!(s, CompilationStatus::Running);

        let mut s = before.clone();
        s.apply_status(done(ExecutionStatus::Success));
        assert_eq!(
            s,
            CompilationStatus::Done { result: result(ExecutionStatus::Success), stdout: None, stderr: None }
        );

        let mut s = before.clone();
        s.apply_status(UIExecutionStatus::Skipped);
        assert_eq!(s, CompilationStatus::Skipped);
    }
}

#[test]
fn apply_status_failures_give_failed() {
    let failures = vec![
        ExecutionStatus::ReturnCode(1),
        ExecutionStatus::Signal(11, "SIGSEGV".to_string()),
        ExecutionStatus::TimeLimitExceeded,
        ExecutionStatus::SysTimeLimitExceeded,
        ExecutionStatus::WallTimeLimitExceeded,
        ExecutionStatus::MemoryLimitExceeded,
        ExecutionStatus::InternalError("sandbox".to_string()),
    ];
    for f in failures {
        let mut s = CompilationStatus::Running;
        s.apply_status(done(f.clone()));
        assert_eq!(s, CompilationStatus::Failed { result: result(f), stdout: None, stderr: None });
    }
}

#[test]
fn output_before_the_end_is_dropped() {
    for before in vec![CompilationStatus::Pending, CompilationStatus::Running, CompilationStatus::Skipped] {
        let mut s = before.clone();
        s.apply_stdout("hello".to_string());
        assert_eq!(s, before);
        s.apply_stderr("oops".to_string());
        assert_eq!(s, before);
    }
}

#[test]
fn output_after_the_end_overwrites_its_buffer() {
    let mut s = CompilationStatus::Running;
    s.apply_status(done(ExecutionStatus::Success));
    s.apply_stdout("first".to_string());
    s.apply_stdout("first second".to_string());
    assert_eq!(
        s,
        CompilationStatus::Done {
            result: result(ExecutionStatus::Success),
            stdout: Some("first second".to_string()),
            stderr: None,
        }
    );

    let mut f = CompilationStatus::Pending;
    f.apply_status(done(ExecutionStatus::ReturnCode(2)));
    f.apply_stderr("error: x".to_string());
    assert_eq!(
        f,
        CompilationStatus::Failed {
            result: result(ExecutionStatus::ReturnCode(2)),
            stdout: None,
            stderr: Some("error: x".to_string()),
        }
    );
}

#[test]
fn ordered_lifecycle_gives_ordered_phases() {
    let sequences = vec![
        vec![UIExecutionStatus::Pending, started(1), done(ExecutionStatus::Success)],
        vec![started(2), done(ExecutionStatus::MemoryLimitExceeded)],
        vec![UIExecutionStatus::Pending, UIExecutionStatus::Skipped],
        vec![UIExecutionStatus::Pending, started(3)],
    ];
    for events in sequences {
        let mut s = CompilationStatus::Pending;
        let mut last: Option<u32> = None;
        for e in events {
            s.apply_status(e);
            let r = rank(&s);
            if let Some(l) = last {
                assert!(l < r);
            }
            last = Some(r);
        }
    }
}

#[test]
fn compilation_scenario_then_empty_stderr() {
    let file = "sol.cpp".to_string();
    let mut t = CompilationTracker::new();
    t.apply_message(UIMessage::Compilation { file: file.clone(), status: UIExecutionStatus::Pending });
    assert_eq!(t.get(&file), Some(&CompilationStatus::Pending));
    t.apply_message(UIMessage::Compilation { file: file.clone(), status: started(7) });
    assert_eq!(t.get(&file), Some(&CompilationStatus::Running));
    t.apply_message(UIMessage::Compilation { file: file.clone(), status: done(ExecutionStatus::Success) });
    assert_eq!(
        t.get(&file),
        Some(&CompilationStatus::Done { result: result(ExecutionStatus::Success), stdout: None, stderr: None })
    );
    t.apply_message(UIMessage::CompilationStderr { file: file.clone(), content: "".to_string() });
    assert_eq!(
        t.get(&file),
        Some(&CompilationStatus::Done {
            result: result(ExecutionStatus::Success),
            stdout: None,
            stderr: Some("".to_string()),
        })
    );
}

#[test]
fn stdout_before_any_lifecycle_is_dropped() {
    let file = "x.cpp".to_string();
    let mut t = CompilationTracker::new();
    assert_eq!(t.get(&file), None);
    t.apply_message(UIMessage::CompilationStdout { file: file.clone(), content: "hello".to_string() });
    assert_eq!(t.get(&file), Some(&CompilationStatus::Pending));
}

#[test]
fn tracker_keeps_files_apart() {
    let a = "a.cpp".to_string();
    let b = "b.cpp".to_string();
    let mut t = CompilationTracker::new();
    t.apply_message(UIMessage::Compilation { file: a.clone(), status: done(ExecutionStatus::ReturnCode(1)) });
    t.apply_message(UIMessage::Compilation { file: b.clone(), status: started(3) });
    t.apply_message(UIMessage::CompilationStdout { file: a.clone(), content: "warn".to_string() });
    t.apply_message(UIMessage::CompilationStdout { file: b.clone(), content: "lost".to_string() });
    t.apply_message(UIMessage::Warning { message: "careful".to_string() });
    t.apply_message(UIMessage::StopUI);
    assert_eq!(
        t.get(&a),
        Some(&CompilationStatus::Failed {
            result: result(ExecutionStatus::ReturnCode(1)),
            stdout: Some("warn".to_string()),
            stderr: None,
        })
    );
    assert_eq!(t.get(&b), Some(&CompilationStatus::Running));
    assert_eq!(t.get(&"c.cpp".to_string()), None);
}

#[test]
fn late_pending_resets_a_finished_compilation() {
    let file = "late.cpp".to_string();
    let mut t = CompilationTracker::new();
    t.apply_message(UIMessage::Compilation { file: file.clone(), status: done(ExecutionStatus::Success) });
    t.apply_message(UIMessage::Compilation { file: file.clone(), status: UIExecutionStatus::Pending });
    assert_eq!(t.get(&file), Some(&CompilationStatus::Pending));
}
