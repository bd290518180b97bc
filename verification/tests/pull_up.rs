use gke_pullup::{Command, Event, Operation, OperationStatus, PullUp, PullUpPlan, Step};

fn plan(track_operations: bool) -> PullUpPlan {
    PullUpPlan {
        version: "1.31.0".to_string(),
        steps: vec![Step::Master, Step::NodePool("pool-1".to_string())],
        track_operations,
    }
}

fn op(name: &str, status: OperationStatus) -> Event {
    Event::Succeeded(Operation { name: name.to_string(), status })
}

fn describe(command: &Command) -> String {
    match command {
        Command::UpgradeMaster { version } => format!("master {version}"),
        Command::UpgradeNodePool { pool, version } => format!("pool {pool} {version}"),
        Command::PollOperation { operation } => format!("poll {operation}"),
        Command::Finish => "finish".to_string(),
        Command::Abort => "abort".to_string(),
    }
}

#[test]
fn untracked_pull_up_runs_each_step_once() {
    let mut run = PullUp::new(plan(false));
    let mut seen = Vec::new();
    seen.push(describe(&run.command()));
    run.on_event(op("op-1", OperationStatus::Running));
    seen.push(describe(&run.command()));
    run.on_event(op("op-2", OperationStatus::Pending));
    seen.push(describe(&run.command()));
    assert_eq!(seen, vec!["master 1.31.0", "pool pool-1 1.31.0", "finish"]);
}

#[test]
fn tracked_pull_up_polls_until_done() {
    let mut run = PullUp::new(plan(true));
    let mut seen = vec![describe(&run.command())];
    run.on_event(op("op-1", OperationStatus::Running));
    seen.push(describe(&run.command()));
    run.on_event(op("op-1b", OperationStatus::Running));
    seen.push(describe(&run.command()));
    run.on_event(op("op-1b", OperationStatus::Done));
    seen.push(describe(&run.command()));
    run.on_event(op("op-2", OperationStatus::Done));
    seen.push(describe(&run.command()));
    assert_eq!(
        seen,
        vec!["master 1.31.0", "poll op-1", "poll op-1b", "pool pool-1 1.31.0", "finish"]
    );
}

#[test]
fn failure_ends_the_pull_up() {
    let mut run = PullUp::new(plan(true));
    run.on_event(op("op-1", OperationStatus::Running));
    run.on_event(Event::Failed);
    assert!(matches!(run.command(), Command::Abort));
    run.on_event(op("op-1", OperationStatus::Done));
    assert!(matches!(run.command(), Command::Abort));
}

#[test]
fn finished_pull_up_stays_finished() {
    let mut run = PullUp::new(PullUpPlan { version: "1.0".to_string(), steps: vec![], track_operations: false });
    assert!(matches!(run.command(), Command::Finish));
    run.on_event(Event::Failed);
    assert!(matches!(run.command(), Command::Finish));
    assert_eq!(run.plan().version, "1.0");
}
