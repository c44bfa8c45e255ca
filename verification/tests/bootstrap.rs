use cargo_travis::bootstrap::{build_kcov, Bootstrap, BootstrapAction, BootstrapEvent, Stage};
use cargo_travis::error::{internal, CliError, ProcessFailure};
use cargo_travis::process::{ExitStatus, Process};

fn texts(items: &[&str]) -> Vec<String> {
    items.iter().map(|item| item.to_string()).collect()
}

fn exited(code: i32) -> BootstrapEvent {
    BootstrapEvent::Exited(Ok(ExitStatus { code: Some(code) }))
}

fn probe(path: &str) -> BootstrapAction {
    BootstrapAction::Probe { path: path.to_string() }
}

fn found(path: &str) -> BootstrapAction {
    BootstrapAction::Finish { result: Ok(path.to_string()) }
}

fn run(notice: &str, program: &str, args: &[&str], dir: &str) -> BootstrapAction {
    BootstrapAction::Run {
        notice: notice.to_string(),
        process: Process { name: program.to_string(), args: texts(args) },
        dir: dir.to_string(),
    }
}

fn drive(search: Bootstrap, events: Vec<BootstrapEvent>) -> (Bootstrap, Vec<BootstrapAction>) {
    let mut search = search;
    let mut actions = Vec::new();
    for event in events {
        let (next, action) = build_kcov(search, event);
        search = next;
        actions.push(action);
    }
    (search, actions)
}

fn search() -> Bootstrap {
    Bootstrap::new("target".to_string(), texts(&["/usr/local/bin", "/usr/bin", "/bin"]))
}

#[test]
fn the_first_directory_that_holds_the_tool_wins() {
    let (end, actions) = drive(
        search(),
        vec![BootstrapEvent::Begin, BootstrapEvent::Exists(false), BootstrapEvent::Exists(true)],
    );
    assert_eq!(
        actions,
        vec![probe("/usr/local/bin/kcov"), probe("/usr/bin/kcov"), found("/usr/bin/kcov")]
    );
    assert_eq!(end.stage, Stage::Done);
}

#[test]
fn the_tool_in_the_first_directory_is_taken_at_once() {
    let (_, actions) = drive(search(), vec![BootstrapEvent::Begin, BootstrapEvent::Exists(true)]);
    assert_eq!(actions, vec![probe("/usr/local/bin/kcov"), found("/usr/local/bin/kcov")]);
}

#[test]
fn an_earlier_build_is_taken_when_the_search_path_holds_nothing() {
    let (end, actions) = drive(
        search(),
        vec![
            BootstrapEvent::Begin,
            BootstrapEvent::Exists(false),
            BootstrapEvent::Exists(false),
            BootstrapEvent::Exists(false),
            BootstrapEvent::Exists(true),
        ],
    );
    assert_eq!(
        actions,
        vec![
            probe("/usr/local/bin/kcov"),
            probe("/usr/bin/kcov"),
            probe("/bin/kcov"),
            probe("target/kcov-master/build/src/kcov"),
            found("target/kcov-master/build/src/kcov"),
        ]
    );
    assert_eq!(end.stage, Stage::Done);
}

#[test]
fn without_a_search_path_the_earlier_build_is_looked_at_first() {
    let (_, actions) = drive(
        Bootstrap::new("/tmp/k".to_string(), Vec::new()),
        vec![BootstrapEvent::Begin, BootstrapEvent::Exists(true)],
    );
    assert_eq!(
        actions,
        vec![probe("/tmp/k/kcov-master/build/src/kcov"), found("/tmp/k/kcov-master/build/src/kcov")]
    );
}

#[test]
fn the_tool_is_downloaded_and_built_when_it_is_nowhere() {
    let (end, actions) = drive(
        Bootstrap::new("target".to_string(), texts(&["/bin"])),
        vec![
            BootstrapEvent::Begin,
            BootstrapEvent::Exists(false),
            BootstrapEvent::Exists(false),
            exited(0),
            exited(0),
            BootstrapEvent::DirCreated(Ok(())),
            exited(0),
            exited(0),
            BootstrapEvent::Exists(true),
        ],
    );
    assert_eq!(
        actions,
        vec![
            probe("/bin/kcov"),
            probe("target/kcov-master/build/src/kcov"),
            run(
                "Downloading kcov",
                "wget",
                &["https://github.com/SimonKagstrom/kcov/archive/master.zip"],
                "target"
            ),
            run("Extracting kcov", "unzip", &["-o", "master.zip"], "target"),
            BootstrapAction::CreateDir { path: "target/kcov-master/build".to_string() },
            run("CMaking kcov", "cmake", &[".."], "target/kcov-master/build"),
            run("Making kcov", "make", &[], "target/kcov-master/build"),
            probe("target/kcov-master/build/src/kcov"),
            found("target/kcov-master/build/src/kcov"),
        ]
    );
    assert_eq!(end.stage, Stage::Done);
}

#[test]
fn a_build_that_leaves_no_tool_behind_ends_the_search_in_failure() {
    let (end, actions) = drive(
        Bootstrap::new("target".to_string(), Vec::new()),
        vec![
            BootstrapEvent::Begin,
            BootstrapEvent::Exists(false),
            exited(0),
            exited(0),
            BootstrapEvent::DirCreated(Ok(())),
            exited(0),
            exited(0),
            BootstrapEvent::Exists(false),
        ],
    );
    assert_eq!(end.stage, Stage::Failed);
    assert_eq!(actions[6], probe("target/kcov-master/build/src/kcov"));
    let error = CliError::Internal { cause: "the build left no kcov behind".to_string() };
    assert_eq!(error.code(), 101);
    assert_eq!(actions[7], BootstrapAction::Finish { result: Err(error) });
}

#[test]
fn a_path_is_handed_out_only_after_it_was_seen() {
    let (_, actions) = drive(
        Bootstrap::new("target".to_string(), vec!["/bin".to_string()]),
        vec![
            BootstrapEvent::Begin,
            BootstrapEvent::Exists(false),
            BootstrapEvent::Exists(false),
            exited(0),
            exited(0),
            BootstrapEvent::DirCreated(Ok(())),
            exited(0),
            exited(0),
            BootstrapEvent::Exists(true),
        ],
    );
    for (i, action) in actions.iter().enumerate() {
        if let BootstrapAction::Finish { result: Ok(path) } = action {
            assert_eq!(actions[i - 1], BootstrapAction::Probe { path: path.clone() });
            assert!(path.ends_with("/kcov"));
        }
    }
    assert!(matches!(actions.last(), Some(BootstrapAction::Finish { result: Ok(_) })));
}

#[test]
fn a_step_that_fails_ends_the_search_with_its_exit_code() {
    let (end, actions) = drive(
        Bootstrap::new("target".to_string(), Vec::new()),
        vec![BootstrapEvent::Begin, BootstrapEvent::Exists(false), exited(0), exited(9)],
    );
    assert_eq!(end.stage, Stage::Failed);
    let error = CliError::Process(ProcessFailure {
        description: "process didn't exit successfully: \"unzip\" \"-o\" \"master.zip\"".to_string(),
        status: ExitStatus { code: Some(9) },
        output: None,
    });
    assert_eq!(error.code(), 9);
    assert_eq!(actions[3], BootstrapAction::Finish { result: Err(error) });
}

#[test]
fn every_command_of_the_build_must_succeed() {
    for failing in 0..4 {
        let mut events = vec![BootstrapEvent::Begin, BootstrapEvent::Exists(false)];
        for step in 0..4 {
            if step == 2 {
                events.push(BootstrapEvent::DirCreated(Ok(())));
            }
            if step == failing {
                events.push(exited(4));
                break;
            }
            events.push(exited(0));
        }
        let (end, actions) = drive(Bootstrap::new("t".to_string(), Vec::new()), events);
        assert_eq!(end.stage, Stage::Failed);
        match actions.last().unwrap() {
            BootstrapAction::Finish { result: Err(error) } => assert_eq!(error.code(), 4),
            other => panic!("not a failure: {:?}", other),
        }
    }
}

#[test]
fn a_command_that_does_not_start_ends_the_search() {
    let (end, actions) = drive(
        Bootstrap::new("target".to_string(), Vec::new()),
        vec![
            BootstrapEvent::Begin,
            BootstrapEvent::Exists(false),
            BootstrapEvent::Exited(Err("No such file or directory".to_string())),
        ],
    );
    assert_eq!(end.stage, Stage::Failed);
    assert_eq!(
        actions[2],
        BootstrapAction::Finish {
            result: Err(CliError::Spawn {
                name: "wget".to_string(),
                args: texts(&["https://github.com/SimonKagstrom/kcov/archive/master.zip"]),
                cause: "No such file or directory".to_string(),
            })
        }
    );
}

#[test]
fn a_build_directory_that_cannot_be_made_ends_the_search() {
    let (end, actions) = drive(
        Bootstrap::new("target".to_string(), Vec::new()),
        vec![
            BootstrapEvent::Begin,
            BootstrapEvent::Exists(false),
            exited(0),
            exited(0),
            BootstrapEvent::DirCreated(Err("File exists".to_string())),
        ],
    );
    assert_eq!(end.stage, Stage::Failed);
    let error = CliError::Internal { cause: "File exists".to_string() };
    assert_eq!(error.code(), 101);
    assert_eq!(actions[4], BootstrapAction::Finish { result: Err(error) });
}

#[test]
fn an_event_out_of_turn_ends_the_search() {
    let (end, actions) = drive(search(), vec![BootstrapEvent::Exists(true)]);
    assert_eq!(end.stage, Stage::Failed);
    assert_eq!(actions[0], BootstrapAction::Finish { result: Err(internal()) });
    let (end, actions) = drive(search(), vec![BootstrapEvent::Begin, exited(0)]);
    assert_eq!(end.stage, Stage::Failed);
    assert_eq!(actions[1], BootstrapAction::Finish { result: Err(internal()) });
}
