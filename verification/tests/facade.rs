use queue_facade::gateway::{
    enqueue_args, log_args, parse_enqueue_request, status_args, status_for_id, u32_to_decimal,
    EnqueueRequest, LookupError,
};
use queue_facade::root;
use queue_facade::shaper::{build_listing, project_status};
use queue_facade::task::{ExternalTask, PueueTaskLog, TaskResult, TaskStatus};
use queue_facade::validate::{
    validate_commit, validate_optimizer, validate_repo, ValidationError,
};

fn task(id: usize, command: &str) -> ExternalTask {
    ExternalTask {
        id,
        command: command.to_string(),
        status: TaskStatus::Queued,
        created_at: format!("2024-01-0{id}T00:00:00"),
        start: None,
        end: None,
    }
}

#[test]
fn repo_rejects_without_known_prefix() {
    assert_eq!(validate_repo(""), Err(ValidationError::RepoPrefix));
    assert_eq!(validate_repo("example.com/x.git"), Err(ValidationError::RepoPrefix));
    assert_eq!(validate_repo("ssh://example.com/x.git"), Err(ValidationError::RepoPrefix));
    assert_eq!(validate_repo("http://example.com/x.git"), Err(ValidationError::RepoPrefix));
    assert_eq!(
        validate_repo("git").unwrap_err().message(),
        "Repository must start with git@ or https://"
    );
}

#[test]
fn repo_https_requires_dotgit_suffix() {
    assert_eq!(validate_repo("https://example.com/x"), Err(ValidationError::RepoSuffix));
    assert_eq!(validate_repo("https://example.com/x.gi"), Err(ValidationError::RepoSuffix));
    assert_eq!(validate_repo("https://example.com/x.git"), Ok(()));
    assert_eq!(
        validate_repo("https://example.com/x").unwrap_err().message(),
        "Repository must end with .git"
    );
}

#[test]
fn repo_rejects_forbidden_characters() {
    assert_eq!(
        validate_repo("https://exa mple.com/x.git"),
        Err(ValidationError::RepoChars)
    );
    assert_eq!(
        validate_repo("https://example.com/x?.git"),
        Err(ValidationError::RepoChars)
    );
}

#[test]
fn repo_rejects_dotdot() {
    assert_eq!(
        validate_repo("https://example.com/../x.git"),
        Err(ValidationError::RepoDotDot)
    );
    assert_eq!(validate_repo("git@host:a..b"), Err(ValidationError::RepoDotDot));
}

#[test]
fn repo_https_must_parse_as_url() {
    // An empty host is within the allowed characters but no valid URL;
    // neither is an oversized port.
    assert_eq!(validate_repo("https://:8080/x.git"), Err(ValidationError::RepoUrl));
    assert_eq!(
        validate_repo("https://example.com:99999999999999/x.git"),
        Err(ValidationError::RepoUrl)
    );
    assert_eq!(
        validate_repo("https://:8080/x.git").unwrap_err().message(),
        "Repository must be a valid URL"
    );
}

#[test]
fn repo_accepts_git_at_form_without_url_parse() {
    // The git@host:path form is not a conventional URL and is accepted
    // on the strength of the other rules alone.
    assert_eq!(validate_repo("git@github.com:user/repo.git"), Ok(()));
    assert_eq!(validate_repo("git@host:path"), Ok(()));
}

#[test]
fn commit_special_cases_skip_length_rule() {
    assert_eq!(validate_commit("HEAD"), Ok(()));
    assert_eq!(validate_commit("main"), Ok(()));
    assert_eq!(validate_commit("MASTER"), Ok(()));
    assert_eq!(validate_commit("Main"), Ok(()));
    assert_eq!(validate_commit("mAsTeR"), Ok(()));
}

#[test]
fn commit_length_rule_applies_otherwise() {
    assert_eq!(validate_commit("abc"), Err(ValidationError::CommitTooShort));
    assert_eq!(
        validate_commit("abc").unwrap_err().message(),
        "Commit must be at least 4 characters long"
    );
    assert_eq!(validate_commit("abcd"), Ok(()));
    assert_eq!(validate_commit(&"a".repeat(40)), Ok(()));
    assert_eq!(
        validate_commit(&"a".repeat(41)),
        Err(ValidationError::CommitTooLong)
    );
    assert_eq!(
        validate_commit(&"a".repeat(41)).unwrap_err().message(),
        "Commit must be at most 40 characters long"
    );
    // HEAD is matched exactly, not case-insensitively.
    assert_eq!(validate_commit("head"), Ok(())); // 4 characters, length rule
    assert_eq!(validate_commit("hea"), Err(ValidationError::CommitTooShort));
}

#[test]
fn optimizer_versions() {
    assert_eq!(validate_optimizer("1.0.10"), Ok(()));
    assert_eq!(validate_optimizer("0.0.0"), Ok(()));
    assert_eq!(validate_optimizer("1.0"), Err(ValidationError::OptimizerParts));
    assert_eq!(validate_optimizer("1.0.0.0"), Err(ValidationError::OptimizerParts));
    assert_eq!(validate_optimizer(""), Err(ValidationError::OptimizerParts));
    assert_eq!(validate_optimizer("1.a.0"), Err(ValidationError::OptimizerDigits));
    assert_eq!(validate_optimizer("v1.0.0"), Err(ValidationError::OptimizerDigits));
    assert_eq!(validate_optimizer("1..0"), Err(ValidationError::OptimizerEmptyPart));
    assert_eq!(validate_optimizer(".0."), Err(ValidationError::OptimizerEmptyPart));
    assert_eq!(
        validate_optimizer("1.0").unwrap_err().message(),
        "Optimizer version must be in format x.y.z"
    );
    assert_eq!(
        validate_optimizer("1.x.0").unwrap_err().message(),
        "Optimizer version must only contain numbers and dots"
    );
}

#[test]
fn listing_is_sorted_by_id_regardless_of_input_order() {
    let one = vec![task(3, "c3"), task(1, "c1"), task(2, "c2")];
    let other = vec![task(2, "c2"), task(3, "c3"), task(1, "c1")];
    let a = build_listing(one);
    let b = build_listing(other);
    let ids_a: Vec<usize> = a.tasks.iter().map(|t| t.id).collect();
    let ids_b: Vec<usize> = b.tasks.iter().map(|t| t.id).collect();
    assert_eq!(ids_a, vec![1, 2, 3]);
    assert_eq!(ids_b, vec![1, 2, 3]);
    assert_eq!(a.tasks[0].command, "c1");
    assert_eq!(a.tasks[1].command, "c2");
    assert_eq!(a.tasks[2].command, "c3");
    for (x, y) in a.tasks.iter().zip(b.tasks.iter()) {
        assert_eq!(x.id, y.id);
        assert_eq!(x.command, y.command);
        assert_eq!(x.created_at, y.created_at);
    }
}

#[test]
fn listing_of_empty_snapshot_is_empty() {
    let r = build_listing(Vec::new());
    assert!(r.tasks.is_empty());
}

#[test]
fn projection_output_is_none_for_listing_and_some_for_single_task() {
    let listing = build_listing(vec![task(1, "c1"), task(2, "c2")]);
    assert!(listing.tasks.iter().all(|t| t.output.is_none()));
    let p = project_status(task(7, "c7"), Some("the log".to_string()));
    assert_eq!(p.id, 7);
    assert_eq!(p.command, "c7");
    assert_eq!(p.output.as_deref(), Some("the log"));
    let q = project_status(task(7, "c7"), None);
    assert!(q.output.is_none());
}

#[test]
fn projection_copies_fields_verbatim() {
    let mut t = task(9, "run");
    t.status = TaskStatus::Done(TaskResult::Failed(3));
    t.start = Some("s".to_string());
    t.end = Some("e".to_string());
    let p = project_status(t, None);
    assert_eq!(p.id, 9);
    assert_eq!(p.created_at, "2024-01-09T00:00:00");
    assert_eq!(p.start.as_deref(), Some("s"));
    assert_eq!(p.end.as_deref(), Some("e"));
    match p.status {
        TaskStatus::Done(TaskResult::Failed(code)) => assert_eq!(code, 3),
        _ => panic!("status changed by projection"),
    }
}

#[test]
fn enqueue_builds_exact_argument_vector() {
    let req = parse_enqueue_request(
        "https://example.com/x.git".to_string(),
        None,
        None,
    )
    .unwrap();
    assert_eq!(req.commit, "HEAD");
    let args = enqueue_args(&req).unwrap();
    assert_eq!(
        args,
        vec![
            "add",
            "--print-task-id",
            "--",
            "secret-contract-verifier",
            "--repo",
            "https://example.com/x.git",
            "--commit",
            "HEAD",
        ]
    );
}

#[test]
fn enqueue_appends_validated_optimizer() {
    let req = parse_enqueue_request(
        "git@host:repo.git".to_string(),
        Some("main".to_string()),
        Some("1.0.10".to_string()),
    )
    .unwrap();
    let args = enqueue_args(&req).unwrap();
    assert_eq!(args[8], "--optimizer");
    assert_eq!(args[9], "1.0.10");
    assert_eq!(args.len(), 10);
}

#[test]
fn enqueue_rejects_bad_optimizer_before_any_invocation() {
    let req = EnqueueRequest {
        repo: "https://example.com/x.git".to_string(),
        commit: "HEAD".to_string(),
        optimizer: Some("1.x.0".to_string()),
    };
    // No argument vector exists, so the external program cannot be invoked.
    assert_eq!(enqueue_args(&req), Err(ValidationError::OptimizerDigits));
}

#[test]
fn enqueue_request_validation_order() {
    assert_eq!(
        parse_enqueue_request("nope".to_string(), Some("abc".to_string()), None).unwrap_err(),
        ValidationError::RepoPrefix
    );
    assert_eq!(
        parse_enqueue_request(
            "https://example.com/x.git".to_string(),
            Some("abc".to_string()),
            None
        )
        .unwrap_err(),
        ValidationError::CommitTooShort
    );
}

#[test]
fn decimal_rendering_of_ids() {
    assert_eq!(u32_to_decimal(0), "0");
    assert_eq!(u32_to_decimal(42), "42");
    assert_eq!(u32_to_decimal(10), "10");
    assert_eq!(u32_to_decimal(4294967295), "4294967295");
}

#[test]
fn command_vectors_for_status_and_log() {
    assert_eq!(status_args(), vec!["status", "--json"]);
    assert_eq!(log_args(42), vec!["log", "42", "--json"]);
}

fn log_entry(id: usize, output: &str) -> (String, PueueTaskLog) {
    (
        id.to_string(),
        PueueTaskLog { output: output.to_string(), task: task(id, "cmd") },
    )
}

#[test]
fn single_task_lookup_attaches_log_output() {
    let logs = vec![log_entry(1, "one"), log_entry(2, "two")];
    let t = status_for_id(&logs, 2).unwrap();
    assert_eq!(t.id, 2);
    assert_eq!(t.output.as_deref(), Some("two"));
}

#[test]
fn lookup_of_absent_id_is_not_found() {
    let logs = vec![log_entry(1, "one")];
    let r = status_for_id(&logs, 7);
    assert_eq!(r.unwrap_err(), LookupError::NotFound);
    assert_eq!(LookupError::NotFound.message(), "Task not found");
    let empty: Vec<(String, PueueTaskLog)> = Vec::new();
    assert!(status_for_id(&empty, 0).is_err());
}

#[test]
fn lookup_takes_first_entry_under_a_key() {
    let logs = vec![log_entry(5, "first"), log_entry(5, "second")];
    let t = status_for_id(&logs, 5).unwrap();
    assert_eq!(t.output.as_deref(), Some("first"));
}

#[test]
fn root_usage_hint() {
    let text = root();
    assert!(text.contains("/status - Get status of all tasks"));
    assert!(text.contains("/status/<id> - Get status of a task"));
    assert!(text.contains("/enqueue/<id> - Enqueue a task"));
}


#[test]
fn snapshot_listing_ignores_groups_and_sorts_tasks() {
    let snapshot = queue_facade::task::PueueStatus {
        groups: vec![(
            "default".to_string(),
            queue_facade::task::PueueGroup { parallel_tasks: 1, status: "Running".to_string() },
        )],
        tasks: vec![task(3, "c3"), task(1, "c1"), task(2, "c2")],
    };
    let listing = snapshot.into_listing();
    let ids: Vec<usize> = listing.tasks.iter().map(|t| t.id).collect();
    assert_eq!(ids, vec![1, 2, 3]);
    assert!(listing.tasks.iter().all(|t| t.output.is_none()));
}
