use std::cell::RefCell;
use std::rc::Rc;

use bankbot::job::{CheckedoutJob, Error, Issue, Repository, RepositoryPayload, User};
use bankbot::sandbox::{split_cargo_args, Binding};

fn checked_out(command: Vec<String>, with_issue: bool) -> CheckedoutJob {
    let repo = Repository::try_from(RepositoryPayload {
        id: 1,
        name: "widget".to_string(),
        url: "https://example.com/widget".to_string(),
        owner: Some(User { login: "bob".to_string() }),
        clone_url: Some("https://example.com/widget.git".to_string()),
    })
    .unwrap();
    let issue = if with_issue {
        Some(Issue { number: 5, user: User { login: "alice".to_string() } })
    } else {
        None
    };
    CheckedoutJob {
        command,
        dir: "/tmp/bankbot_test_dir".to_string(),
        clone_dir: "/tmp".to_string(),
        gh_repo: repo,
        gh_issue: issue,
    }
}

#[test]
fn cargo_args_split_into_shell_words() {
    let words = split_cargo_args("build --release --features \"a b\"").unwrap();
    assert_eq!(
        words,
        vec![
            "build".to_string(),
            "--release".to_string(),
            "--features".to_string(),
            "a b".to_string(),
        ]
    );
}

#[test]
fn malformed_cargo_args_fail_to_parse() {
    assert!(matches!(
        split_cargo_args("build \"unclosed"),
        Err(Error::CargoCmdParse)
    ));
}

#[test]
fn scope_bindings_include_issue_only_when_present() {
    let with_issue = checked_out(vec!["s.rhai".to_string()], true);
    assert_eq!(
        with_issue.scope_bindings(),
        vec![Binding::Issue, Binding::Repo, Binding::Git]
    );
    let without_issue = checked_out(vec!["s.rhai".to_string()], false);
    assert_eq!(
        without_issue.scope_bindings(),
        vec![Binding::Repo, Binding::Git]
    );
}

#[test]
fn job_without_command_has_no_script() {
    let job = checked_out(Vec::new(), true);
    match job.prepare_script(rhai::Engine::new(), rhai::Scope::new()) {
        Err(Error::NoCmd) => {}
        _ => panic!("expected the missing-command error"),
    }
}

#[test]
fn first_command_token_names_the_script() {
    let job = checked_out(vec!["bench.rhai".to_string(), "arg".to_string()], true);
    let runnable = job.prepare_script(rhai::Engine::new(), rhai::Scope::new()).unwrap();
    assert_eq!(runnable.script_path, "bench.rhai");
}

#[test]
fn missing_script_file_fails_as_script_execution() {
    let job = checked_out(vec!["/tmp/bankbot_no_such_script.rhai".to_string()], true);
    let runnable = job.prepare_script(rhai::Engine::new(), rhai::Scope::new()).unwrap();
    match runnable.run() {
        Err(Error::ScriptExecution { message }) => {
            // The failure names the script, not any internal error value.
            assert!(!message.is_empty());
        }
        other => panic!("unexpected result: {other:?}"),
    }
}

/// Stands in for the issue handle: records every comment it is asked
/// to post.
#[derive(Clone)]
struct IssueProbe {
    comments: Rc<RefCell<Vec<String>>>,
}

#[test]
fn script_comment_posts_exactly_once() {
    let comments = Rc::new(RefCell::new(Vec::new()));
    let probe = IssueProbe { comments: comments.clone() };

    // The same wiring the process edge uses: the capability object is
    // a pushed constant, and `comment` its only registered operation.
    let mut engine = rhai::Engine::new();
    engine.register_type::<IssueProbe>();
    engine.register_fn("comment", |issue: &mut IssueProbe, text: String| {
        issue.comments.borrow_mut().push(text);
    });
    let mut scope = rhai::Scope::new();
    scope.push_constant("ISSUE", probe);

    engine
        .run_with_scope(&mut scope, "ISSUE.comment(\"hello\")")
        .unwrap();

    assert_eq!(*comments.borrow(), vec!["hello".to_string()]);
}

#[test]
fn unregistered_capability_fails_instead_of_succeeding() {
    // A fresh sandbox exposes nothing: raw file access has no
    // registered function and the call fails.
    let engine = rhai::Engine::new();
    let mut scope = rhai::Scope::new();
    let result = engine.run_with_scope(&mut scope, "open_file(\"/etc/passwd\")");
    assert!(result.is_err());
}

#[test]
fn capability_missing_from_scope_fails() {
    // Without the ISSUE constant, a script that wants it cannot run.
    let engine = rhai::Engine::new();
    let mut scope = rhai::Scope::new();
    let result = engine.run_with_scope(&mut scope, "ISSUE.comment(\"hello\")");
    assert!(result.is_err());
}
