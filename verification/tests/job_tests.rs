use bankbot::job::{
    failure_comment, Error, Issue, Job, Repository, RepositoryPayload, User,
};
use bankbot::u64_to_string;

fn payload() -> RepositoryPayload {
    RepositoryPayload {
        id: 42,
        name: "widget".to_string(),
        url: "https://example.com/widget".to_string(),
        owner: Some(User { login: "bob".to_string() }),
        clone_url: Some("https://example.com/widget.git".to_string()),
    }
}

#[test]
fn payload_with_all_fields_constructs() {
    let repo = Repository::try_from(payload()).unwrap();
    assert_eq!(repo.id, 42);
    assert_eq!(repo.name, "widget");
    assert_eq!(repo.url, "https://example.com/widget");
    assert_eq!(repo.owner.login, "bob");
    assert_eq!(repo.clone_url, "https://example.com/widget.git");
}

#[test]
fn payload_missing_owner_is_field_specific_error() {
    let mut p = payload();
    p.owner = None;
    match Repository::try_from(p) {
        Err(Error::MissingRepositoryField { field }) => assert_eq!(field, "owner"),
        other => panic!("unexpected result: {other:?}"),
    }
}

#[test]
fn payload_missing_clone_url_is_field_specific_error() {
    let mut p = payload();
    p.clone_url = None;
    match Repository::try_from(p) {
        Err(Error::MissingRepositoryField { field }) => assert_eq!(field, "clone_url"),
        other => panic!("unexpected result: {other:?}"),
    }
}

fn job() -> Job {
    Job {
        command: vec!["bench.rhai".to_string(), "fast".to_string()],
        repository: Repository::try_from(payload()).unwrap(),
        issue: Issue { number: 3, user: User { login: "alice".to_string() } },
    }
}

#[test]
fn decimal_rendering_is_exact() {
    assert_eq!(u64_to_string(0), "0");
    assert_eq!(u64_to_string(7), "7");
    assert_eq!(u64_to_string(1234), "1234");
    assert_eq!(u64_to_string(u64::MAX), "18446744073709551615");
}

#[test]
fn repo_dir_joins_the_composite_key_under_root() {
    assert_eq!(job().repo_dir("/srv/repos"), "/srv/repos/42_3_alice_bob_widget");
}

#[test]
fn same_job_key_resolves_to_the_same_directory() {
    // Checkout is keyed deterministically: the same composite key
    // always maps to the same working copy, so a second checkout
    // reuses the first one's directory.
    let a = job();
    let b = job();
    assert_eq!(a.repo_dir("/srv/repos"), b.repo_dir("/srv/repos"));
}

#[test]
fn pr_branch_names_the_pull_head() {
    assert_eq!(job().pr_branch(), "pull/3/head");
}

#[test]
fn checkout_failure_surfaces_as_clone_error() {
    // A clone from an unusable URL fails without touching anything.
    let mut p = payload();
    p.clone_url = Some("not a clone url".to_string());
    let j = Job { repository: Repository::try_from(p).unwrap(), ..job() };
    match j.checkout("/tmp/bankbot_test_missing_root") {
        Err(Error::Clone { message }) => assert!(!message.is_empty()),
        other => panic!("unexpected result: {other:?}"),
    }
}

#[test]
fn error_messages_are_exact() {
    assert_eq!(Error::NoCmd.message(), "Missing bot command");
    assert_eq!(
        Error::NoDirectory { path: "/tmp/x".to_string() }.message(),
        "Failed to checkout repository because path /tmp/x exists but is not a directory"
    );
    assert_eq!(
        Error::MissingRepositoryField { field: "owner".to_string() }.message(),
        "Failed to parse Repository: missing field \"owner\""
    );
    assert_eq!(
        Error::Clone { message: "no remote".to_string() }.message(),
        "Failed to clone repository: no remote"
    );
    assert_eq!(
        Error::NoCloneUrl.message(),
        "Failed to find a URL to clone the repository"
    );
    assert_eq!(
        Error::NoScriptFound { message: "gone".to_string() }.message(),
        "No benchmark job scripts found"
    );
    assert_eq!(Error::ScriptParse.message(), "Failed to parse script");
    assert_eq!(Error::CargoCmdParse.message(), "Failed to parse cargo command");
    assert_eq!(
        Error::ScriptExecution { message: "boom".to_string() }.message(),
        "Failed to execute script: boom"
    );
}

#[test]
fn failure_comment_wraps_the_message() {
    assert_eq!(
        failure_comment(&Error::NoCmd),
        "Error running job: Missing bot command"
    );
}
