use cargo_travis::error::{internal, CliError, ProcessFailure, ValidationError};
use cargo_travis::process::{ExitStatus, Process};
use cargo_travis::publish::{
    doc_upload, stale, DirOutcome, PublishAction, PublishEvent, PublishRequest, Publisher, Step,
};

fn texts(items: &[&str]) -> Vec<String> {
    items.iter().map(|item| item.to_string()).collect()
}

fn request(clobber_index: bool) -> PublishRequest {
    PublishRequest {
        message: "Automatic Travis documentation build".to_string(),
        origin: "git@github.com:owner/repo.git".to_string(),
        gh_pages: "gh-pages".to_string(),
        doc_path: "master".to_string(),
        local_doc_path: "target/doc".to_string(),
        clobber_index,
    }
}

fn exited(code: i32) -> PublishEvent {
    PublishEvent::Exited(Ok(ExitStatus { code: Some(code) }))
}

fn git(args: &[&str], inside: bool) -> PublishAction {
    PublishAction::Run {
        process: Process { name: "git".to_string(), args: texts(args) },
        dir: if inside { Some("target/doc-upload".to_string()) } else { None },
    }
}

fn resolved() -> PublishEvent {
    PublishEvent::Resolved {
        path: "/work/target/doc-upload/master".to_string(),
        root: "/work/target/doc-upload".to_string(),
    }
}

fn listed(entries: &[&str], fresh_index: bool) -> PublishEvent {
    PublishEvent::Listed { entries: texts(entries), fresh_index }
}

fn drive(publisher: Publisher, events: Vec<PublishEvent>) -> (Publisher, Vec<PublishAction>) {
    let mut publisher = publisher;
    let mut actions = Vec::new();
    for event in events {
        let (next, action) = doc_upload(publisher, event);
        publisher = next;
        actions.push(action);
    }
    (publisher, actions)
}

/// A publication that has cleared its directory and asks for the version.
fn cleared(clobber_index: bool) -> Publisher {
    let (publisher, actions) = drive(
        Publisher::new(request(clobber_index)),
        vec![
            PublishEvent::Begin,
            PublishEvent::Exists(true),
            PublishEvent::DirCreated(DirOutcome::AlreadyExists),
            resolved(),
            listed(&["index.html", "old"], false),
            PublishEvent::Cleared,
        ],
    );
    assert_eq!(actions[5], PublishAction::ReadMetadata);
    publisher
}

/// A publication that has written its badge and staged its changes.
fn committing(copied: bool) -> Publisher {
    let (publisher, actions) = drive(
        cleared(false),
        vec![
            PublishEvent::Metadata(Ok("1.2.3".to_string())),
            PublishEvent::Copied(copied),
            PublishEvent::Written,
            PublishEvent::Written,
            exited(0),
        ],
    );
    assert_eq!(actions[3], git(&["add", "--verbose", "--all"], true));
    assert_eq!(
        actions[4],
        git(&["commit", "--verbose", "-m", "Automatic Travis documentation build"], true)
    );
    assert_eq!(publisher.step, Step::Committing);
    publisher
}

fn touching(actions: &[PublishAction]) -> usize {
    actions
        .iter()
        .filter(|a| {
            matches!(
                a,
                PublishAction::Clear { .. } | PublishAction::Write { .. } | PublishAction::Copy { .. }
            )
        })
        .count()
}

#[test]
fn a_publication_begins_by_looking_for_the_working_copy() {
    let (publisher, action) = doc_upload(Publisher::new(request(false)), PublishEvent::Begin);
    assert_eq!(publisher.step, Step::Probing);
    assert_eq!(action, PublishAction::Probe { path: "target/doc-upload".to_string() });
}

#[test]
fn an_absent_working_copy_is_cloned() {
    let (publisher, actions) = drive(
        Publisher::new(request(false)),
        vec![PublishEvent::Begin, PublishEvent::Exists(false), exited(0)],
    );
    assert_eq!(
        actions[1],
        git(
            &[
                "clone",
                "--verbose",
                "--branch",
                "gh-pages",
                "--depth",
                "1",
                "git@github.com:owner/repo.git",
                "target/doc-upload",
            ],
            false
        )
    );
    assert_eq!(
        actions[2],
        PublishAction::CreateDir { path: "target/doc-upload/master".to_string() }
    );
    assert_eq!(publisher.step, Step::CreatingDir);
}

#[test]
fn a_failed_clone_falls_back_to_a_new_repository() {
    let (publisher, actions) = drive(
        Publisher::new(request(false)),
        vec![PublishEvent::Begin, PublishEvent::Exists(false), exited(128), exited(0), exited(0)],
    );
    assert_eq!(actions[2], git(&["init", "target/doc-upload"], false));
    assert_eq!(actions[3], git(&["checkout", "-b", "gh-pages"], true));
    assert_eq!(
        actions[4],
        PublishAction::CreateDir { path: "target/doc-upload/master".to_string() }
    );
    assert_eq!(publisher.step, Step::CreatingDir);
}

#[test]
fn a_failed_init_ends_the_publication_with_its_exit_code() {
    let (publisher, actions) = drive(
        Publisher::new(request(false)),
        vec![PublishEvent::Begin, PublishEvent::Exists(false), exited(128), exited(3)],
    );
    assert_eq!(publisher.step, Step::Failed);
    let error = CliError::Process(ProcessFailure {
        description: "process didn't exit successfully: \"git\" \"init\" \"target/doc-upload\""
            .to_string(),
        status: ExitStatus { code: Some(3) },
        output: None,
    });
    assert_eq!(error.code(), 3);
    assert_eq!(actions[3], PublishAction::Finish { notice: None, result: Err(error) });
}

#[test]
fn a_clone_that_does_not_start_ends_the_publication() {
    let (publisher, actions) = drive(
        Publisher::new(request(false)),
        vec![
            PublishEvent::Begin,
            PublishEvent::Exists(false),
            PublishEvent::Exited(Err("No such file or directory".to_string())),
        ],
    );
    assert_eq!(publisher.step, Step::Failed);
    assert!(matches!(
        &actions[2],
        PublishAction::Finish { notice: None, result: Err(CliError::Spawn { name, .. }) } if name == "git"
    ));
}

#[test]
fn an_existing_directory_is_tolerated() {
    for outcome in [DirOutcome::Created, DirOutcome::AlreadyExists] {
        let (publisher, actions) = drive(
            Publisher::new(request(false)),
            vec![PublishEvent::Begin, PublishEvent::Exists(true), PublishEvent::DirCreated(outcome)],
        );
        assert_eq!(
            actions[2],
            PublishAction::Resolve {
                path: "target/doc-upload/master".to_string(),
                root: "target/doc-upload".to_string(),
            }
        );
        assert_eq!(publisher.step, Step::Resolving);
    }
}

#[test]
fn a_directory_that_cannot_be_made_ends_the_publication() {
    let (publisher, actions) = drive(
        Publisher::new(request(false)),
        vec![
            PublishEvent::Begin,
            PublishEvent::Exists(true),
            PublishEvent::DirCreated(DirOutcome::Failed { cause: "Permission denied".to_string() }),
        ],
    );
    assert_eq!(publisher.step, Step::Failed);
    assert_eq!(
        actions[2],
        PublishAction::Finish {
            notice: None,
            result: Err(CliError::Internal { cause: "Permission denied".to_string() }),
        }
    );
}

#[test]
fn a_path_that_leads_out_is_refused_before_anything_is_created() {
    for path in ["../../etc", "..", "a/../../b", "/etc", "/"] {
        let mut escaping = request(false);
        escaping.doc_path = path.to_string();
        let (publisher, actions) = drive(
            Publisher::new(escaping),
            vec![
                PublishEvent::Begin,
                PublishEvent::Exists(true),
                PublishEvent::DirCreated(DirOutcome::AlreadyExists),
                resolved(),
                listed(&["passwd"], false),
                PublishEvent::Cleared,
                PublishEvent::Copied(true),
                PublishEvent::Written,
            ],
        );
        assert_eq!(publisher.step, Step::Failed);
        let error = CliError::Validation(ValidationError::PathEscape);
        assert_eq!(error.code(), 1);
        assert_eq!(
            error.message(),
            "Path passed in `--path` is outside the intended `target/doc-upload` folder"
        );
        assert_eq!(actions[1], PublishAction::Finish { notice: None, result: Err(error) });
        assert_eq!(touching(&actions), 0);
        assert!(!actions.iter().any(|a| matches!(a, PublishAction::CreateDir { .. })));
    }
}

#[test]
fn a_path_that_leads_out_is_refused_after_a_clone_too() {
    let mut escaping = request(false);
    escaping.doc_path = "../x".to_string();
    let (publisher, actions) = drive(
        Publisher::new(escaping),
        vec![PublishEvent::Begin, PublishEvent::Exists(false), exited(0)],
    );
    assert_eq!(publisher.step, Step::Failed);
    assert_eq!(
        actions[2],
        PublishAction::Finish {
            notice: None,
            result: Err(CliError::Validation(ValidationError::PathEscape)),
        }
    );
}

#[test]
fn a_path_that_stays_inside_is_created() {
    for (path, created) in [
        ("master", "target/doc-upload/master"),
        ("a/../b", "target/doc-upload/a/../b"),
        ("./v1", "target/doc-upload/./v1"),
        ("a/b/../..", "target/doc-upload/a/b/../.."),
        ("", "target/doc-upload/"),
    ] {
        let mut inside = request(false);
        inside.doc_path = path.to_string();
        let (publisher, actions) =
            drive(Publisher::new(inside), vec![PublishEvent::Begin, PublishEvent::Exists(true)]);
        assert_eq!(publisher.step, Step::CreatingDir);
        assert_eq!(actions[1], PublishAction::CreateDir { path: created.to_string() });
    }
}

#[test]
fn a_path_that_is_canonical_outside_is_refused_before_anything_is_removed() {
    let (publisher, actions) = drive(
        Publisher::new(request(false)),
        vec![
            PublishEvent::Begin,
            PublishEvent::Exists(true),
            PublishEvent::DirCreated(DirOutcome::AlreadyExists),
            PublishEvent::Resolved {
                path: "/work/etc".to_string(),
                root: "/work/target/doc-upload".to_string(),
            },
            listed(&["passwd"], false),
            PublishEvent::Cleared,
            PublishEvent::Copied(true),
            PublishEvent::Written,
        ],
    );
    assert_eq!(publisher.step, Step::Failed);
    let error = CliError::Validation(ValidationError::PathEscape);
    assert_eq!(actions[3], PublishAction::Finish { notice: None, result: Err(error) });
    assert_eq!(touching(&actions), 0);
}

#[test]
fn a_sibling_of_the_working_copy_is_outside() {
    let (publisher, _) = drive(
        Publisher::new(request(false)),
        vec![
            PublishEvent::Begin,
            PublishEvent::Exists(true),
            PublishEvent::DirCreated(DirOutcome::Created),
            PublishEvent::Resolved {
                path: "/work/target/doc-upload-other".to_string(),
                root: "/work/target/doc-upload".to_string(),
            },
        ],
    );
    assert_eq!(publisher.step, Step::Failed);
}

#[test]
fn the_root_of_the_working_copy_is_inside() {
    let (publisher, actions) = drive(
        Publisher::new(request(false)),
        vec![
            PublishEvent::Begin,
            PublishEvent::Exists(true),
            PublishEvent::DirCreated(DirOutcome::AlreadyExists),
            PublishEvent::Resolved {
                path: "/work/target/doc-upload".to_string(),
                root: "/work/target/doc-upload".to_string(),
            },
        ],
    );
    assert_eq!(publisher.step, Step::Listing);
    assert_eq!(
        actions[3],
        PublishAction::List {
            path: "/work/target/doc-upload".to_string(),
            index: "target/doc/index.html".to_string(),
        }
    );
}

#[test]
fn the_redirect_page_is_kept() {
    let (_, actions) = drive(
        Publisher::new(request(false)),
        vec![
            PublishEvent::Begin,
            PublishEvent::Exists(true),
            PublishEvent::DirCreated(DirOutcome::AlreadyExists),
            resolved(),
            listed(&["index.html", "old", "search.js", ".lock"], false),
        ],
    );
    assert_eq!(
        actions[4],
        PublishAction::Clear {
            paths: texts(&[
                "/work/target/doc-upload/master/old",
                "/work/target/doc-upload/master/search.js",
                "/work/target/doc-upload/master/.lock",
            ])
        }
    );
}

#[test]
fn the_redirect_page_goes_when_it_is_clobbered() {
    let (_, actions) = drive(
        Publisher::new(request(true)),
        vec![
            PublishEvent::Begin,
            PublishEvent::Exists(true),
            PublishEvent::DirCreated(DirOutcome::AlreadyExists),
            resolved(),
            listed(&["index.html", "old"], false),
        ],
    );
    assert_eq!(
        actions[4],
        PublishAction::Clear {
            paths: texts(&[
                "/work/target/doc-upload/master/index.html",
                "/work/target/doc-upload/master/old",
            ])
        }
    );
}

#[test]
fn the_redirect_page_goes_when_the_documentation_brings_its_own() {
    let (_, actions) = drive(
        Publisher::new(request(false)),
        vec![
            PublishEvent::Begin,
            PublishEvent::Exists(true),
            PublishEvent::DirCreated(DirOutcome::AlreadyExists),
            resolved(),
            listed(&["old", "index.html"], true),
        ],
    );
    assert_eq!(
        actions[4],
        PublishAction::Clear {
            paths: texts(&[
                "/work/target/doc-upload/master/old",
                "/work/target/doc-upload/master/index.html",
            ])
        }
    );
}

#[test]
fn an_entry_that_is_no_file_name_ends_the_publication() {
    let (publisher, actions) = drive(
        Publisher::new(request(true)),
        vec![
            PublishEvent::Begin,
            PublishEvent::Exists(true),
            PublishEvent::DirCreated(DirOutcome::AlreadyExists),
            resolved(),
            listed(&["old", "..", "a/b"], false),
        ],
    );
    assert_eq!(publisher.step, Step::Failed);
    assert_eq!(
        actions[4],
        PublishAction::Finish {
            notice: None,
            result: Err(CliError::Validation(ValidationError::EntryName { name: "..".to_string() })),
        }
    );
}

#[test]
fn stale_paths_are_the_entries_below_the_directory() {
    assert_eq!(
        stale("/r/sub", &texts(&["a", "index.html", "b"]), true),
        Ok(texts(&["/r/sub/a", "/r/sub/b"]))
    );
    assert_eq!(
        stale("/r/sub", &texts(&["a", "index.html", "b"]), false),
        Ok(texts(&["/r/sub/a", "/r/sub/index.html", "/r/sub/b"]))
    );
    assert_eq!(stale("/r/sub", &Vec::new(), true), Ok(Vec::new()));
    assert_eq!(stale("/r/sub", &texts(&["a", "", "."]), true), Err(String::new()));
    assert_eq!(stale("/r/sub", &texts(&[".", "x/y"]), false), Err(".".to_string()));
}

#[test]
fn the_documentation_is_copied_into_the_directory() {
    let (publisher, action) = doc_upload(cleared(false), PublishEvent::Metadata(Ok("1.2.3".to_string())));
    assert_eq!(publisher.version, Some("1.2.3".to_string()));
    assert_eq!(
        action,
        PublishAction::Copy {
            notice: None,
            from: "target/doc".to_string(),
            to: "/work/target/doc-upload/master".to_string(),
        }
    );
}

#[test]
fn a_version_that_cannot_be_read_is_told_and_is_no_failure() {
    let (publisher, action) =
        doc_upload(cleared(false), PublishEvent::Metadata(Err("failed to parse manifest".to_string())));
    assert_eq!(publisher.version, None);
    assert_eq!(publisher.step, Step::Copying);
    assert_eq!(
        action,
        PublishAction::Copy {
            notice: Some("couldn't read package metadata: failed to parse manifest".to_string()),
            from: "target/doc".to_string(),
            to: "/work/target/doc-upload/master".to_string(),
        }
    );
}

#[test]
fn a_version_and_a_copy_give_the_badge_of_the_version() {
    let (_, actions) = drive(
        cleared(false),
        vec![PublishEvent::Metadata(Ok("1.2.3".to_string())), PublishEvent::Copied(true)],
    );
    assert_eq!(
        actions[1],
        PublishAction::Write {
            path: "/work/target/doc-upload/master/badge.json".to_string(),
            content:
                "{\"color\":\"#4d76ae\",\"label\":\"docs\",\"message\":\"1.2.3\",\"schemaVersion\":1}"
                    .to_string(),
        }
    );
}

#[test]
fn without_a_version_the_badge_says_no_builds_whatever_was_copied() {
    for copied in [true, false] {
        let (publisher, actions) = drive(
            cleared(false),
            vec![
                PublishEvent::Metadata(Err("failed to parse manifest".to_string())),
                PublishEvent::Copied(copied),
                PublishEvent::Written,
            ],
        );
        assert_eq!(publisher.version, None);
        assert_eq!(
            actions[1],
            PublishAction::Write {
                path: "/work/target/doc-upload/master/badge.json".to_string(),
                content: "{\"color\":\"#e05d44\",\"label\":\"docs\",\"message\":\"no builds\",\"schemaVersion\":1}"
                    .to_string(),
            }
        );
        match &actions[2] {
            PublishAction::Write { path, content } => {
                assert_eq!(path, "/work/target/doc-upload/master/badge.svg");
                assert!(content.contains(">no builds</text>"));
                assert!(content.contains("fill=\"#e05d44\""));
            }
            other => panic!("not a write: {:?}", other),
        }
    }
}

#[test]
fn without_documentation_the_badge_says_no_builds_and_the_result_is_an_error() {
    let (_, actions) = drive(
        cleared(false),
        vec![PublishEvent::Metadata(Ok("1.2.3".to_string())), PublishEvent::Copied(false)],
    );
    match &actions[1] {
        PublishAction::Write { content, .. } => assert_eq!(
            content,
            "{\"color\":\"#e05d44\",\"label\":\"docs\",\"message\":\"no builds\",\"schemaVersion\":1}"
        ),
        other => panic!("not a write: {:?}", other),
    }
    let (publisher, actions) = drive(committing(false), vec![exited(0), exited(0)]);
    assert_eq!(publisher.step, Step::Done);
    let error = CliError::Validation(ValidationError::NoDocumentation);
    assert_eq!(error.code(), 1);
    assert_eq!(error.message(), "No documentation generated");
    assert_eq!(actions[1], PublishAction::Finish { notice: None, result: Err(error) });
}

#[test]
fn the_picture_of_the_badge_is_written_behind_the_record() {
    let (publisher, actions) = drive(
        cleared(false),
        vec![
            PublishEvent::Metadata(Ok("0.5.3".to_string())),
            PublishEvent::Copied(true),
            PublishEvent::Written,
        ],
    );
    let options = badge::BadgeOptions {
        subject: "docs".to_string(),
        status: "0.5.3".to_string(),
        color: "#4d76ae".to_string(),
    };
    assert_eq!(
        actions[2],
        PublishAction::Write {
            path: "/work/target/doc-upload/master/badge.svg".to_string(),
            content: badge::Badge::new(options).unwrap().to_svg(),
        }
    );
    assert_eq!(publisher.step, Step::WritingPicture);
}

#[test]
fn a_version_that_cannot_be_drawn_ends_the_publication() {
    let (publisher, actions) = drive(
        cleared(false),
        vec![
            PublishEvent::Metadata(Ok(String::new())),
            PublishEvent::Copied(true),
            PublishEvent::Written,
        ],
    );
    assert_eq!(publisher.step, Step::Failed);
    let error = CliError::Internal { cause: "the badge cannot be drawn".to_string() };
    assert_eq!(error.code(), 101);
    assert_eq!(actions[2], PublishAction::Finish { notice: None, result: Err(error) });
}

#[test]
fn the_changes_are_committed_and_pushed() {
    let (publisher, actions) = drive(committing(true), vec![exited(0), exited(0)]);
    assert_eq!(actions[0], git(&["push", "git@github.com:owner/repo.git", "gh-pages"], true));
    assert_eq!(actions[1], PublishAction::Finish { notice: None, result: Ok(()) });
    assert_eq!(publisher.step, Step::Done);
}

#[test]
fn a_commit_without_changes_is_no_error() {
    let (publisher, action) = doc_upload(committing(true), exited(1));
    assert_eq!(publisher.step, Step::Done);
    assert_eq!(
        action,
        PublishAction::Finish {
            notice: Some("No changes to the documentation.".to_string()),
            result: Ok(()),
        }
    );
}

#[test]
fn publishing_twice_ends_the_second_time_without_a_push() {
    let (_, first) = drive(committing(true), vec![exited(0), exited(0)]);
    assert!(matches!(first[0], PublishAction::Run { .. }));
    let (_, second) = drive(committing(true), vec![exited(1)]);
    assert_eq!(second.len(), 1);
    assert!(matches!(
        &second[0],
        PublishAction::Finish { notice: Some(_), result: Ok(()) }
    ));
}

#[test]
fn a_commit_that_does_not_start_ends_the_publication() {
    let (publisher, action) =
        doc_upload(committing(true), PublishEvent::Exited(Err("No such file or directory".to_string())));
    assert_eq!(publisher.step, Step::Failed);
    assert!(matches!(
        action,
        PublishAction::Finish { notice: None, result: Err(CliError::Spawn { .. }) }
    ));
}

#[test]
fn a_failed_push_ends_the_publication_with_its_exit_code() {
    let (publisher, actions) = drive(committing(true), vec![exited(0), exited(128)]);
    assert_eq!(publisher.step, Step::Failed);
    match &actions[1] {
        PublishAction::Finish { notice: None, result: Err(error) } => {
            assert_eq!(error.code(), 128);
            assert_eq!(
                error.message(),
                "process didn't exit successfully: \"git\" \"push\" \"git@github.com:owner/repo.git\" \"gh-pages\""
            );
        }
        other => panic!("not a failure: {:?}", other),
    }
}

#[test]
fn a_failed_add_ends_the_publication() {
    let (publisher, actions) = drive(
        cleared(false),
        vec![
            PublishEvent::Metadata(Ok("1.2.3".to_string())),
            PublishEvent::Copied(true),
            PublishEvent::Written,
            PublishEvent::Written,
            exited(2),
        ],
    );
    assert_eq!(publisher.step, Step::Failed);
    match &actions[4] {
        PublishAction::Finish { result: Err(error), .. } => assert_eq!(error.code(), 2),
        other => panic!("not a failure: {:?}", other),
    }
}

#[test]
fn whatever_is_touched_lies_inside_the_working_copy() {
    let (_, actions) = drive(
        Publisher::new(request(true)),
        vec![
            PublishEvent::Begin,
            PublishEvent::Exists(true),
            PublishEvent::DirCreated(DirOutcome::AlreadyExists),
            resolved(),
            listed(&["index.html", "a", "b"], false),
            PublishEvent::Cleared,
            PublishEvent::Metadata(Ok("1.2.3".to_string())),
            PublishEvent::Copied(true),
            PublishEvent::Written,
        ],
    );
    let mut touched = Vec::new();
    for action in &actions {
        match action {
            PublishAction::Clear { paths } => touched.extend(paths.iter().cloned()),
            PublishAction::Write { path, .. } => touched.push(path.clone()),
            PublishAction::Copy { to, .. } => touched.push(to.clone()),
            _ => {}
        }
    }
    assert_eq!(touched.len(), 6);
    for path in touched {
        assert!(std::path::Path::new(&path).starts_with("/work/target/doc-upload"));
    }
}

#[test]
fn an_event_out_of_turn_ends_the_publication() {
    let (publisher, action) = doc_upload(Publisher::new(request(false)), PublishEvent::Cleared);
    assert_eq!(publisher.step, Step::Failed);
    assert_eq!(action, PublishAction::Finish { notice: None, result: Err(internal()) });
}
