use cargo_travis::cli::doc_upload::{chosen, Environment, Options, Plan};
use cargo_travis::error::{CliError, ValidationError};
use cargo_travis::publish::PublishRequest;

fn texts(items: &[&str]) -> Vec<String> {
    items.iter().map(|item| item.to_string()).collect()
}

fn options() -> Options {
    Options {
        flag_version: false,
        flag_branch: Vec::new(),
        flag_token: None,
        flag_message: None,
        flag_deploy: None,
        flag_path: None,
        flag_clobber_index: false,
        flag_target: None,
    }
}

fn environment(branch: &str, pull_request: &str) -> Environment {
    Environment {
        branch: Some(branch.to_string()),
        pull_request: Some(pull_request.to_string()),
        token: None,
        repo_slug: Some("owner/repo".to_string()),
    }
}

fn missing(name: &str) -> CliError {
    CliError::Validation(ValidationError::MissingVariable { name: name.to_string() })
}

#[test]
fn the_version_goes_before_all_else() {
    let mut asked = options();
    asked.flag_version = true;
    let empty = Environment { branch: None, pull_request: None, token: None, repo_slug: None };
    assert_eq!(asked.plan(&empty), Ok(Plan::Version));
}

#[test]
fn the_defaults_publish_master_over_ssh() {
    assert_eq!(
        options().plan(&environment("master", "false")),
        Ok(Plan::Publish {
            request: PublishRequest {
                message: "Automatic Travis documentation build".to_string(),
                origin: "git@github.com:owner/repo.git".to_string(),
                gh_pages: "gh-pages".to_string(),
                doc_path: "master".to_string(),
                local_doc_path: "target/doc".to_string(),
                clobber_index: false,
            },
            token: false,
        })
    );
}

#[test]
fn the_options_override_the_defaults() {
    let asked = Options {
        flag_version: false,
        flag_branch: texts(&["main", "release"]),
        flag_token: Some("SECRET-REDACTED".to_string()),
        flag_message: Some("docs".to_string()),
        flag_deploy: Some("pages".to_string()),
        flag_path: Some("latest".to_string()),
        flag_clobber_index: true,
        flag_target: Some("wasm32-unknown-unknown".to_string()),
    };
    let mut env = environment("release", "false");
    env.token = Some("other".to_string());
    assert_eq!(
        asked.plan(&env),
        Ok(Plan::Publish {
            request: PublishRequest {
                message: "docs".to_string(),
                origin: "https://SECRET-REDACTED@github.com/owner/repo.git".to_string(),
                gh_pages: "pages".to_string(),
                doc_path: "latest".to_string(),
                local_doc_path: "target/wasm32-unknown-unknown/doc".to_string(),
                clobber_index: true,
            },
            token: true,
        })
    );
}

#[test]
fn the_token_of_the_environment_is_used_when_no_flag_gives_one() {
    let mut env = environment("master", "false");
    env.token = Some("abc".to_string());
    match options().plan(&env) {
        Ok(Plan::Publish { request, token }) => {
            assert_eq!(request.origin, "https://abc@github.com/owner/repo.git");
            assert!(token);
        }
        other => panic!("not published: {:?}", other),
    }
}

#[test]
fn other_branches_are_skipped() {
    assert_eq!(
        options().plan(&environment("feature", "false")),
        Ok(Plan::Skip { notice: "Skipping branch feature".to_string() })
    );
    let mut asked = options();
    asked.flag_branch = texts(&["main"]);
    assert_eq!(
        asked.plan(&environment("master", "false")),
        Ok(Plan::Skip { notice: "Skipping branch master".to_string() })
    );
}

#[test]
fn pull_requests_are_skipped() {
    assert_eq!(
        options().plan(&environment("master", "17")),
        Ok(Plan::Skip { notice: "Skipping PR".to_string() })
    );
    assert_eq!(
        options().plan(&environment("master", "true")),
        Ok(Plan::Skip { notice: "Skipping PR".to_string() })
    );
}

#[test]
fn the_branch_decides_before_the_pull_request() {
    let mut env = environment("feature", "17");
    env.pull_request = None;
    env.repo_slug = None;
    assert_eq!(
        options().plan(&env),
        Ok(Plan::Skip { notice: "Skipping branch feature".to_string() })
    );
}

#[test]
fn a_missing_variable_is_a_failed_validation() {
    let mut env = environment("master", "false");
    env.branch = None;
    assert_eq!(options().plan(&env), Err(missing("TRAVIS_BRANCH")));
    let mut env = environment("master", "false");
    env.pull_request = None;
    assert_eq!(options().plan(&env), Err(missing("TRAVIS_PULL_REQUEST")));
    let mut env = environment("master", "false");
    env.repo_slug = None;
    assert_eq!(options().plan(&env), Err(missing("TRAVIS_REPO_SLUG")));
    assert_eq!(missing("TRAVIS_BRANCH").code(), 1);
}

#[test]
fn the_path_is_the_branch_unless_it_is_given() {
    let mut asked = options();
    asked.flag_branch = texts(&["v1"]);
    match asked.plan(&environment("v1", "false")) {
        Ok(Plan::Publish { request, .. }) => assert_eq!(request.doc_path, "v1"),
        other => panic!("not published: {:?}", other),
    }
}

#[test]
fn chosen_branches() {
    assert!(chosen(&Vec::new(), &"master".to_string()));
    assert!(!chosen(&Vec::new(), &"main".to_string()));
    assert!(chosen(&texts(&["a", "b"]), &"b".to_string()));
    assert!(!chosen(&texts(&["a", "b"]), &"master".to_string()));
}
