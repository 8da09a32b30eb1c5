//! Construction of the external queue daemon's command-line invocations and
//! the pure halves of the three request handlers: assembling the validated
//! enqueue request, building each argument vector, and looking one task up
//! in the daemon's log output. Spawning the daemon's program and capturing
//! its streams is I/O and stays outside the library.

use vstd::prelude::*;
use vstd::string::StringExecFns;

use crate::shaper::{project_spec, project_status};
use crate::task::{PueueTaskLog, TaskDisplayable};
use crate::validate::{
    commit_error_spec, commit_valid, optimizer_error_spec, optimizer_valid, repo_error_spec,
    repo_valid, validate_commit, validate_optimizer, validate_repo, ValidationError,
};

verus! {

/// An enqueue request whose `repo` and `commit` have passed the validator.
/// `optimizer` is carried as supplied and checked only when the argument
/// vector is built, mirroring where the gateway applies that rule.
#[derive(Debug)]
pub struct EnqueueRequest {
    pub repo: String,
    pub commit: String,
    pub optimizer: Option<String>,
}

pub open spec fn enqueue_request_wf(q: EnqueueRequest) -> bool {
    repo_valid(q.repo@) && commit_valid(q.commit@)
}

/// The commit actually used: the supplied one, or `HEAD` when the field was
/// left out.
pub open spec fn commit_or_default(commit: Option<String>) -> Seq<char> {
    match commit {
        Some(c) => c@,
        None => "HEAD"@,
    }
}

/// Assembles an enqueue request from the form fields: `repo` must pass the
/// repository rules and `commit` (defaulted to `HEAD`) the commit rules,
/// checked in that order; `optimizer` is carried through unchecked.
pub fn parse_enqueue_request(repo: String, commit: Option<String>, optimizer: Option<String>) -> (r:
    Result<EnqueueRequest, ValidationError>)
    ensures
        r is Ok <==> repo_valid(repo@) && commit_valid(commit_or_default(commit)),
        r matches Ok(q) ==> q.repo == repo && q.commit@ == commit_or_default(commit)
            && q.optimizer == optimizer && enqueue_request_wf(q),
        !repo_valid(repo@) ==> r == Err::<EnqueueRequest, ValidationError>(repo_error_spec(repo@)),
        repo_valid(repo@) && !commit_valid(commit_or_default(commit)) ==> r == Err::<
            EnqueueRequest,
            ValidationError,
        >(commit_error_spec(commit_or_default(commit))),
{
    if let Err(e) = validate_repo(repo.as_str()) {
        return Err(e);
    }
    let commit_used = match commit {
        Some(c) => c,
        None => "HEAD".to_owned(),
    };
    if let Err(e) = validate_commit(commit_used.as_str()) {
        return Err(e);
    }
    Ok(EnqueueRequest { repo, commit: commit_used, optimizer })
}

/// The argument vector handed to the daemon's `add` command: the task id is
/// asked for, the fixed job template is named, and the validated fields
/// follow as explicit arguments — never a shell-interpreted string.
pub open spec fn enqueue_arg_views(q: EnqueueRequest) -> Seq<Seq<char>> {
    let base = seq![
        "add"@,
        "--print-task-id"@,
        "--"@,
        "secret-contract-verifier"@,
        "--repo"@,
        q.repo@,
        "--commit"@,
        q.commit@,
    ];
    match q.optimizer {
        Some(o) => base + seq!["--optimizer"@, o@],
        None => base,
    }
}

/// Builds the daemon's `add` invocation for a validated request. When an
/// optimizer version is present it must pass its validator here; on failure
/// no argument vector is produced, so the daemon is never invoked.
pub fn enqueue_args(req: &EnqueueRequest) -> (r: Result<Vec<String>, ValidationError>)
    ensures
        r is Ok <==> (req.optimizer matches Some(o) ==> optimizer_valid(o@)),
        r matches Ok(v) ==> v@.map_values(|a: String| a@) == enqueue_arg_views(*req),
        r matches Err(e) ==> req.optimizer matches Some(o) && !optimizer_valid(o@) && e
            == optimizer_error_spec(o@),
{
    let mut v: Vec<String> = Vec::new();
    v.push("add".to_owned());
    v.push("--print-task-id".to_owned());
    v.push("--".to_owned());
    v.push("secret-contract-verifier".to_owned());
    v.push("--repo".to_owned());
    v.push(req.repo.clone());
    v.push("--commit".to_owned());
    v.push(req.commit.clone());
    if let Some(o) = &req.optimizer {
        if let Err(e) = validate_optimizer(o.as_str()) {
            return Err(e);
        }
        v.push("--optimizer".to_owned());
        v.push(o.clone());
    }
    proof {
        assert(v@.map_values(|a: String| a@) =~= enqueue_arg_views(*req));
    }
    Ok(v)
}

/// The argument vector for the daemon's `status` command, asking for JSON.
pub fn status_args() -> (r: Vec<String>)
    ensures
        r@.map_values(|a: String| a@) == seq!["status"@, "--json"@],
{
    let mut v: Vec<String> = Vec::new();
    v.push("status".to_owned());
    v.push("--json".to_owned());
    proof {
        assert(v@.map_values(|a: String| a@) =~= seq!["status"@, "--json"@]);
    }
    v
}

// ---------------------------------------------------------------------------
// Decimal rendering of a task id, for the `log <id>` invocation and for the
// id-keyed lookup in the daemon's log output.
// ---------------------------------------------------------------------------

pub open spec fn digit_char(d: nat) -> char {
    if d == 0 {
        '0'
    } else if d == 1 {
        '1'
    } else if d == 2 {
        '2'
    } else if d == 3 {
        '3'
    } else if d == 4 {
        '4'
    } else if d == 5 {
        '5'
    } else if d == 6 {
        '6'
    } else if d == 7 {
        '7'
    } else if d == 8 {
        '8'
    } else {
        '9'
    }
}

/// The usual decimal rendering of a number: most significant digit first, no
/// sign, no leading zero except for the number zero itself.
pub open spec fn decimal_seq(n: nat) -> Seq<char>
    decreases n,
{
    if n < 10 {
        seq![digit_char(n)]
    } else {
        decimal_seq(n / 10).push(digit_char(n % 10))
    }
}

fn digit_str(d: u32) -> (r: &'static str)
    requires
        d < 10,
    ensures
        r@ == seq![digit_char(d as nat)],
{
    let r: &'static str = match d {
        0 => "0",
        1 => "1",
        2 => "2",
        3 => "3",
        4 => "4",
        5 => "5",
        6 => "6",
        7 => "7",
        8 => "8",
        _ => "9",
    };
    proof {
        reveal_strlit("0");
        reveal_strlit("1");
        reveal_strlit("2");
        reveal_strlit("3");
        reveal_strlit("4");
        reveal_strlit("5");
        reveal_strlit("6");
        reveal_strlit("7");
        reveal_strlit("8");
        reveal_strlit("9");
        assert(r@ =~= seq![digit_char(d as nat)]);
    }
    r
}

/// Renders a task id in decimal, exactly as the daemon keys its log output.
pub fn u32_to_decimal(n: u32) -> (r: String)
    ensures
        r@ == decimal_seq(n as nat),
    decreases n,
{
    if n < 10 {
        digit_str(n).to_owned()
    } else {
        let mut s = u32_to_decimal(n / 10);
        s.append(digit_str(n % 10));
        proof {
            assert(s@ =~= decimal_seq((n / 10) as nat).push(digit_char((n % 10) as nat)));
        }
        s
    }
}

/// The argument vector for the daemon's `log <id>` command, asking for JSON.
pub fn log_args(id: u32) -> (r: Vec<String>)
    ensures
        r@.map_values(|a: String| a@) == seq!["log"@, decimal_seq(id as nat), "--json"@],
{
    let mut v: Vec<String> = Vec::new();
    v.push("log".to_owned());
    v.push(u32_to_decimal(id));
    v.push("--json".to_owned());
    proof {
        assert(v@.map_values(|a: String| a@) =~= seq!["log"@, decimal_seq(id as nat), "--json"@]);
    }
    v
}

// ---------------------------------------------------------------------------
// The id lookup in the daemon's log output.
// ---------------------------------------------------------------------------

/// The requested task id is absent from the daemon's log output.
#[derive(Clone, Copy, Debug, PartialEq, Eq, Structural)]
pub enum LookupError {
    NotFound,
}

impl LookupError {
    /// The human-readable message surfaced as the not-found response.
    pub fn message(&self) -> (r: String)
        ensures
            r@ == "Task not found"@,
    {
        "Task not found".to_owned()
    }
}

pub open spec fn log_key_at(logs: Seq<(String, PueueTaskLog)>, key: Seq<char>, i: int) -> bool {
    0 <= i < logs.len() && logs[i].0@ == key
}

pub open spec fn has_log_key(logs: Seq<(String, PueueTaskLog)>, key: Seq<char>) -> bool {
    exists|i: int| #[trigger] log_key_at(logs, key, i)
}

/// The single-task response: the daemon's log output — a mapping from
/// stringified id to log entry, in whatever order it came — is searched for
/// the requested id, and the first entry under that key is projected with
/// its captured output text attached. An absent id is the not-found case.
pub fn status_for_id(logs: &Vec<(String, PueueTaskLog)>, id: u32) -> (r: Result<
    TaskDisplayable,
    LookupError,
>)
    ensures
        r is Ok <==> has_log_key(logs@, decimal_seq(id as nat)),
        r matches Ok(t) ==> exists|i: int|
            #[trigger] log_key_at(logs@, decimal_seq(id as nat), i) && (forall|m: int|
                0 <= m < i ==> !log_key_at(logs@, decimal_seq(id as nat), m)) && t == project_spec(
                logs@[i].1.task,
                Some(logs@[i].1.output),
            ),
        r is Err ==> r == Err::<TaskDisplayable, LookupError>(LookupError::NotFound),
{
    let key = u32_to_decimal(id);
    let mut idx: usize = 0;
    let n = logs.len();
    while idx < n
        invariant
            n == logs@.len(),
            idx <= n,
            key@ == decimal_seq(id as nat),
            forall|m: int| 0 <= m < idx ==> !log_key_at(logs@, key@, m),
        decreases n - idx,
    {
        if logs[idx].0.eq(&key) {
            proof {
                assert(log_key_at(logs@, key@, idx as int));
            }
            let log = logs[idx].1.duplicate();
            let t = project_status(log.task, Some(log.output));
            return Ok(t);
        }
        idx += 1;
    }
    proof {
        assert(forall|i: int| !log_key_at(logs@, key@, i));
    }
    Err(LookupError::NotFound)
}

} // verus!
