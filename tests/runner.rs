use taskrun::actions::copy::CopyActionArgs;
use taskrun::actions::mkdir::MkdirActionArgs;
use taskrun::actions::mv::MoveActionArgs;
use taskrun::actions::remove::RemoveActionArgs;
use taskrun::actions::shell::ShellActionArgs;
use taskrun::actions::{create_action, Action, Outcome, Step, TaskAction};
use taskrun::arg::Args;
use taskrun::effect::Effect;
use taskrun::runner::TaskRunner;
use taskrun::strategy::{create_strategy, Strategy};
use taskrun::yaml::{parse_task, parse_tasks, ActionDefinition, ParseError, TaskDefinition, Yaml};

fn s(v: &str) -> String {
    v.to_string()
}

fn entry(pairs: &[(&str, &str)]) -> Vec<(String, String)> {
    pairs.iter().map(|(k, v)| (s(k), s(v))).collect()
}

fn args(dry_run: bool) -> Args {
    Args { file: s("tasks.yaml"), dry_run }
}

fn task(name: &str, action: ActionDefinition) -> TaskDefinition {
    TaskDefinition { name: s(name), action }
}

fn mkdir_task(name: &str, path: &str) -> TaskDefinition {
    task(name, ActionDefinition::Mkdir { args: MkdirActionArgs { path: s(path) } })
}

fn note_of(step: &Step) -> String {
    match step {
        Step::Skip { note } | Step::DryRun { note } | Step::Execute { note, .. } => note.clone(),
    }
}

#[test]
fn mkdir_runs_then_skips() {
    let t = mkdir_task("make", "/tmp/x/y");
    let action = create_action(&t.action);
    assert_eq!(action.watched(), vec![s("/tmp/x/y")]);
    match action.run(&t, &args(false), &vec![false]) {
        Step::Execute { note, effect: Effect::CreateDirAll { path } } => {
            assert_eq!(path, "/tmp/x/y");
            assert_eq!(note, "Executing task 'make'");
        }
        _ => panic!("expected the directory to be created"),
    }
    let again = action.run(&t, &args(false), &vec![true]);
    assert!(matches!(again, Step::Skip { .. }));
    assert_eq!(note_of(&again), "Condition not met for task 'make', skipping.");
}

#[test]
fn copy_onto_existing_destination_skips() {
    let def = ActionDefinition::Copy { args: CopyActionArgs { src: s("a.txt"), dest: s("b.txt") } };
    let t = task("copy", def);
    let action = create_action(&t.action);
    assert_eq!(action.watched(), vec![s("b.txt")]);
    assert!(!action.condition(&vec![true]));
    assert!(matches!(action.run(&t, &args(false), &vec![true]), Step::Skip { .. }));
    match action.run(&t, &args(false), &vec![false]) {
        Step::Execute { effect: Effect::CopyFile { src, dest }, .. } => {
            assert_eq!(src, "a.txt");
            assert_eq!(dest, "b.txt");
        }
        _ => panic!("expected a copy"),
    }
}

#[test]
fn move_then_rerun_skips() {
    let def = ActionDefinition::Move { args: MoveActionArgs { src: s("old"), dest: s("new") } };
    let t = task("mv", def);
    let action = create_action(&t.action);
    assert_eq!(action.watched(), vec![s("old"), s("new")]);
    match action.run(&t, &args(false), &vec![true, false]) {
        Step::Execute { effect: Effect::Rename { src, dest }, .. } => {
            assert_eq!(src, "old");
            assert_eq!(dest, "new");
        }
        _ => panic!("expected a rename"),
    }
    // After the move the source is gone and the destination exists.
    assert!(!action.condition(&vec![false, true]));
    assert!(!action.condition(&vec![true, true]));
    assert!(!action.condition(&vec![false, false]));
    assert!(matches!(action.run(&t, &args(false), &vec![false, true]), Step::Skip { .. }));
}

#[test]
fn remove_is_idempotent() {
    let def = ActionDefinition::Remove { args: RemoveActionArgs { path: s("junk") } };
    let t = task("rm", def);
    let action = create_action(&t.action);
    match action.process() {
        Effect::RemoveFile { path } => assert_eq!(path, "junk"),
        _ => panic!("expected a removal"),
    }
    assert!(action.condition(&vec![true]));
    assert!(!action.condition(&vec![false]));
}

#[test]
fn shell_command_always_runs() {
    let def = ActionDefinition::Shell { args: ShellActionArgs { command: s("echo hi") } };
    let t = task("hello", def);
    let action = create_action(&t.action);
    assert!(action.watched().is_empty());
    for _ in 0..2 {
        match action.run(&t, &args(false), &vec![]) {
            Step::Execute { effect: Effect::RunShell { command }, .. } => assert_eq!(command, "echo hi"),
            _ => panic!("expected the command to run"),
        }
    }
    assert!(matches!(action, TaskAction::Shell(_)));
}

#[test]
fn dry_run_never_executes() {
    let t = mkdir_task("make", "/tmp/dry");
    let action = create_action(&t.action);
    let step = action.run(&t, &args(true), &vec![false]);
    assert!(matches!(step, Step::DryRun { .. }));
    assert_eq!(
        note_of(&step),
        "[DRY-RUN] Condition met for task 'make', action would be executed."
    );
    assert!(matches!(action.run(&t, &args(true), &vec![true]), Step::Skip { .. }));

    let tasks = vec![
        mkdir_task("a", "/a"),
        task("sh", ActionDefinition::Shell { args: ShellActionArgs { command: s("true") } }),
    ];
    let mut runner = TaskRunner::new(Yaml { tasks }, args(true));
    while !runner.is_done() {
        let present = vec![false; runner.watched().len()];
        let step = runner.check(&present);
        assert!(!matches!(step, Step::Execute { .. }));
    }
    assert_eq!(runner.outcome_list(), &vec![Outcome::DryRunReported, Outcome::DryRunReported]);
}

#[test]
fn tasks_run_in_order_past_a_failure() {
    let tasks = vec![mkdir_task("first", "/one"), mkdir_task("second", "/two"), mkdir_task("third", "/three")];
    let mut runner = TaskRunner::new(Yaml { tasks }, args(false));
    let mut seen = Vec::new();
    let mut round = 0;
    while !runner.is_done() {
        seen.push(runner.current_name().clone());
        assert_eq!(runner.watched().len(), 1);
        match runner.check(&vec![false]) {
            Step::Execute { effect: Effect::CreateDirAll { path }, .. } => {
                seen.push(path);
                let result = if round == 1 { Err(s("permission denied")) } else { Ok(()) };
                let line = runner.finish(result);
                if round == 1 {
                    assert_eq!(line, "Task 'second' failed: permission denied");
                } else {
                    assert!(line.ends_with("' executed"));
                }
            }
            _ => panic!("expected execution"),
        }
        round += 1;
    }
    assert_eq!(seen, vec![s("first"), s("/one"), s("second"), s("/two"), s("third"), s("/three")]);
    assert_eq!(runner.outcome_list(), &vec![Outcome::Executed, Outcome::Failed, Outcome::Executed]);
}

#[test]
fn skipped_task_is_settled_at_once() {
    let mut runner = TaskRunner::new(Yaml { tasks: vec![mkdir_task("a", "/a")] }, args(false));
    let step = runner.check(&vec![true]);
    assert!(matches!(step, Step::Skip { .. }));
    assert!(runner.is_done());
    assert_eq!(runner.outcome_list(), &vec![Outcome::Skipped]);
}

#[test]
fn empty_task_list_is_done() {
    let runner = TaskRunner::new(Yaml { tasks: vec![] }, args(false));
    assert!(runner.is_done());
    assert!(runner.outcome_list().is_empty());
}

#[test]
fn parse_failure_on_missing_field() {
    let entries = vec![
        entry(&[("name", "ok"), ("action", "mkdir"), ("path", "/tmp/p")]),
        entry(&[("name", "broken"), ("action", "copy"), ("src", "a")]),
    ];
    match parse_tasks(&entries, true) {
        Err(ParseError::MissingField { task, field }) => {
            assert_eq!(task, 1);
            assert_eq!(field, "dest");
        }
        _ => panic!("expected a missing field"),
    }
}

#[test]
fn parse_all_kinds() {
    let entries = vec![
        entry(&[("name", "c"), ("action", "copy"), ("src", "a"), ("dest", "b")]),
        entry(&[("name", "f"), ("action", "file"), ("path", "/f")]),
        entry(&[("name", "d"), ("action", "mkdir"), ("path", "/d")]),
        entry(&[("action", "move"), ("dest", "y"), ("src", "x"), ("name", "m")]),
        entry(&[("name", "r"), ("action", "remove"), ("path", "/r"), ("extra", "ignored")]),
        entry(&[("name", "s"), ("action", "shell"), ("command", "echo hi")]),
    ];
    let (yaml, skipped) = match parse_tasks(&entries, true) {
        Ok(r) => r,
        Err(_) => panic!("expected the entries to parse"),
    };
    assert!(skipped.is_empty());
    let names: Vec<String> = yaml.tasks.iter().map(|t| t.name.clone()).collect();
    assert_eq!(names, vec![s("c"), s("f"), s("d"), s("m"), s("r"), s("s")]);
    assert!(matches!(&yaml.tasks[0].action, ActionDefinition::Copy { args } if args.src == "a" && args.dest == "b"));
    assert!(matches!(&yaml.tasks[1].action, ActionDefinition::File { args } if args.path == "/f"));
    assert!(matches!(&yaml.tasks[2].action, ActionDefinition::Mkdir { args } if args.path == "/d"));
    assert!(matches!(&yaml.tasks[3].action, ActionDefinition::Move { args } if args.src == "x" && args.dest == "y"));
    assert!(matches!(&yaml.tasks[4].action, ActionDefinition::Remove { args } if args.path == "/r"));
    assert!(matches!(&yaml.tasks[5].action, ActionDefinition::Shell { args } if args.command == "echo hi"));
}

#[test]
fn parse_missing_name_and_action() {
    match parse_task(&entry(&[("action", "mkdir"), ("path", "/p")]), 3) {
        Err(ParseError::MissingField { task, field }) => {
            assert_eq!(task, 3);
            assert_eq!(field, "name");
        }
        _ => panic!("expected a missing name"),
    }
    match parse_task(&entry(&[("name", "n"), ("path", "/p")]), 0) {
        Err(ParseError::MissingField { field, .. }) => assert_eq!(field, "action"),
        _ => panic!("expected a missing action"),
    }
    match parse_task(&entry(&[("name", "n"), ("action", "shell")]), 0) {
        Err(ParseError::MissingField { field, .. }) => assert_eq!(field, "command"),
        _ => panic!("expected a missing command"),
    }
}

#[test]
fn unknown_action_strict_and_lenient() {
    let entries = vec![
        entry(&[("name", "weird"), ("action", "teleport"), ("path", "/p")]),
        entry(&[("name", "ok"), ("action", "remove"), ("path", "/r")]),
    ];
    match parse_tasks(&entries, true) {
        Err(ParseError::UnknownAction { task, action }) => {
            assert_eq!(task, 0);
            assert_eq!(action, "teleport");
        }
        _ => panic!("expected an unknown action"),
    }
    match parse_tasks(&entries, false) {
        Ok((yaml, skipped)) => {
            assert_eq!(skipped, vec![0]);
            assert_eq!(yaml.tasks.len(), 1);
            assert_eq!(yaml.tasks[0].name, "ok");
        }
        Err(_) => panic!("expected the unknown entry to be skipped"),
    }
    // A missing field is refused even when unknown kinds are skipped.
    let broken = vec![entry(&[("name", "r"), ("action", "remove")])];
    assert!(matches!(parse_tasks(&broken, false), Err(ParseError::MissingField { .. })));
}

#[test]
fn duplicate_key_takes_first() {
    let e = entry(&[("name", "first"), ("name", "second"), ("action", "mkdir"), ("path", "/p")]);
    match parse_task(&e, 0) {
        Ok(t) => assert_eq!(t.name, "first"),
        Err(_) => panic!("expected a task"),
    }
}

#[test]
fn strategies_for_directory_and_copy() {
    let t = mkdir_task("dir", "/s");
    let strategy = match create_strategy(&t) {
        Some(st) => st,
        None => panic!("expected a strategy"),
    };
    assert_eq!(strategy.target(), "/s");
    assert!(strategy.condition(false));
    let skip = strategy.run(&t, &args(false), true);
    assert_eq!(note_of(&skip), "Condition not met for task 'dir', skipping action.");
    assert!(matches!(strategy.run(&t, &args(true), false), Step::DryRun { .. }));

    let c = task("cp", ActionDefinition::Copy { args: CopyActionArgs { src: s("a"), dest: s("b") } });
    let copy = match create_strategy(&c) {
        Some(st) => st,
        None => panic!("expected a strategy"),
    };
    assert_eq!(copy.target(), "b");
    match copy.run(&c, &args(false), false) {
        Step::Execute { effect: Effect::CopyFile { src, dest }, .. } => {
            assert_eq!(src, "a");
            assert_eq!(dest, "b");
        }
        _ => panic!("expected a copy"),
    }
    let sh = task("sh", ActionDefinition::Shell { args: ShellActionArgs { command: s("ls") } });
    assert!(create_strategy(&sh).is_none());
}
