//! Validation of the user-supplied enqueue fields: a repository URL, a
//! commit/ref string, and an optional semantic-version string for the
//! optimizer. These checks run before anything is handed to the external
//! queue daemon; a failure is mapped to a client error and the daemon's
//! program is never invoked.

use vstd::prelude::*;

verus! {

/// One rule violation, carrying which rule failed. `message` gives the
/// human-readable text surfaced to the client.
#[derive(Clone, Copy, Debug, PartialEq, Eq, Structural)]
pub enum ValidationError {
    RepoPrefix,
    RepoSuffix,
    RepoChars,
    RepoDotDot,
    RepoUrl,
    CommitTooShort,
    CommitTooLong,
    OptimizerParts,
    OptimizerDigits,
    OptimizerEmptyPart,
}

pub open spec fn message_spec(e: ValidationError) -> Seq<char> {
    match e {
        ValidationError::RepoPrefix => "Repository must start with git@ or https://"@,
        ValidationError::RepoSuffix => "Repository must end with .git"@,
        ValidationError::RepoChars => (
            "Repository must only contain alphanumeric characters, ., -, _, @, : or /"@
        ),
        ValidationError::RepoDotDot => "Repository must not contain .."@,
        ValidationError::RepoUrl => "Repository must be a valid URL"@,
        ValidationError::CommitTooShort => "Commit must be at least 4 characters long"@,
        ValidationError::CommitTooLong => "Commit must be at most 40 characters long"@,
        ValidationError::OptimizerParts => "Optimizer version must be in format x.y.z"@,
        ValidationError::OptimizerDigits => (
            "Optimizer version must only contain numbers and dots"@
        ),
        ValidationError::OptimizerEmptyPart => "Optimizer version must not have empty parts"@,
    }
}

impl ValidationError {
    /// The human-readable message for the rule that failed.
    pub fn message(&self) -> (r: String)
        ensures
            r@ == message_spec(*self),
    {
        match self {
            ValidationError::RepoPrefix => "Repository must start with git@ or https://".to_owned(),
            ValidationError::RepoSuffix => "Repository must end with .git".to_owned(),
            ValidationError::RepoChars => {
                "Repository must only contain alphanumeric characters, ., -, _, @, : or /".to_owned()
            },
            ValidationError::RepoDotDot => "Repository must not contain ..".to_owned(),
            ValidationError::RepoUrl => "Repository must be a valid URL".to_owned(),
            ValidationError::CommitTooShort => "Commit must be at least 4 characters long".to_owned(),
            ValidationError::CommitTooLong => "Commit must be at most 40 characters long".to_owned(),
            ValidationError::OptimizerParts => "Optimizer version must be in format x.y.z".to_owned(),
            ValidationError::OptimizerDigits => {
                "Optimizer version must only contain numbers and dots".to_owned()
            },
            ValidationError::OptimizerEmptyPart => {
                "Optimizer version must not have empty parts".to_owned()
            },
        }
    }
}

// ---------------------------------------------------------------------------
// Character-level helpers shared by the validators.
// ---------------------------------------------------------------------------

pub open spec fn is_ascii_digit_char(c: char) -> bool {
    48 <= c as int && c as int <= 57
}

fn ascii_digit_char(c: char) -> (r: bool)
    ensures
        r == is_ascii_digit_char(c),
{
    let u = c as u32;
    48 <= u && u <= 57
}

/// The characters a repository string may contain: ASCII alphanumerics and
/// `.`, `-`, `_`, `@`, `:`, `/`.
pub open spec fn is_allowed_repo_char(c: char) -> bool {
    ||| is_ascii_digit_char(c)
    ||| 65 <= c as int && c as int <= 90
    ||| 97 <= c as int && c as int <= 122
    ||| c == '.'
    ||| c == '-'
    ||| c == '_'
    ||| c == '@'
    ||| c == ':'
    ||| c == '/'
}

fn allowed_repo_char(c: char) -> (r: bool)
    ensures
        r == is_allowed_repo_char(c),
{
    let u = c as u32;
    (48 <= u && u <= 57) || (65 <= u && u <= 90) || (97 <= u && u <= 122) || c == '.' || c == '-'
        || c == '_' || c == '@' || c == ':' || c == '/'
}

// ---------------------------------------------------------------------------
// String-level helpers.
// ---------------------------------------------------------------------------

pub open spec fn starts_with(s: Seq<char>, p: Seq<char>) -> bool {
    p.len() <= s.len() && s.subrange(0, p.len() as int) == p
}

pub open spec fn ends_with(s: Seq<char>, p: Seq<char>) -> bool {
    p.len() <= s.len() && s.subrange(s.len() - p.len(), s.len() as int) == p
}

fn str_starts_with(s: &str, p: &str) -> (r: bool)
    ensures
        r == starts_with(s@, p@),
{
    let sl = s.unicode_len();
    let pl = p.unicode_len();
    if pl > sl {
        return false;
    }
    let mut i: usize = 0;
    while i < pl
        invariant
            i <= pl,
            pl == p@.len(),
            sl == s@.len(),
            pl <= sl,
            forall|j: int| 0 <= j < i ==> s@[j] == p@[j],
        decreases pl - i,
    {
        if s.get_char(i) != p.get_char(i) {
            proof {
                assert(s@.subrange(0, p@.len() as int)[i as int] != p@[i as int]);
            }
            return false;
        }
        i += 1;
    }
    proof {
        assert(s@.subrange(0, p@.len() as int) =~= p@);
    }
    true
}

fn str_ends_with(s: &str, p: &str) -> (r: bool)
    ensures
        r == ends_with(s@, p@),
{
    let sl = s.unicode_len();
    let pl = p.unicode_len();
    if pl > sl {
        return false;
    }
    let off = sl - pl;
    let mut i: usize = 0;
    while i < pl
        invariant
            i <= pl,
            pl == p@.len(),
            sl == s@.len(),
            pl <= sl,
            off == sl - pl,
            forall|j: int| 0 <= j < i ==> s@[off + j] == p@[j],
        decreases pl - i,
    {
        if s.get_char(off + i) != p.get_char(i) {
            proof {
                assert(s@.subrange(s@.len() - p@.len(), s@.len() as int)[i as int] != p@[i as int]);
            }
            return false;
        }
        i += 1;
    }
    proof {
        assert(s@.subrange(s@.len() - p@.len(), s@.len() as int) =~= p@);
    }
    true
}

fn str_eq(s: &str, t: &str) -> (r: bool)
    ensures
        r == (s@ == t@),
{
    let sl = s.unicode_len();
    let tl = t.unicode_len();
    if sl != tl {
        return false;
    }
    let mut i: usize = 0;
    while i < sl
        invariant
            i <= sl,
            sl == s@.len(),
            sl == t@.len(),
            forall|j: int| 0 <= j < i ==> s@[j] == t@[j],
        decreases sl - i,
    {
        if s.get_char(i) != t.get_char(i) {
            return false;
        }
        i += 1;
    }
    proof {
        assert(s@ =~= t@);
    }
    true
}

/// Whether `a` is `b` up to ASCII case, where `b` is the expected character:
/// if `b` is an ASCII lowercase letter, its uppercase form is accepted too.
pub open spec fn matches_ignore_ascii_case(a: char, b: char) -> bool {
    a == b || (97 <= b as int && b as int <= 122 && a as int + 32 == b as int)
}

/// Whether `s` equals the ASCII-lowercase word `t` up to ASCII case.
pub open spec fn eq_ignore_ascii_case(s: Seq<char>, t: Seq<char>) -> bool {
    s.len() == t.len() && forall|i: int|
        0 <= i < s.len() ==> matches_ignore_ascii_case(s[i], t[i])
}

fn str_eq_ignore_ascii_case(s: &str, t: &str) -> (r: bool)
    ensures
        r == eq_ignore_ascii_case(s@, t@),
{
    let sl = s.unicode_len();
    let tl = t.unicode_len();
    if sl != tl {
        return false;
    }
    let mut i: usize = 0;
    while i < sl
        invariant
            i <= sl,
            sl == s@.len(),
            sl == t@.len(),
            forall|j: int| 0 <= j < i ==> matches_ignore_ascii_case(s@[j], t@[j]),
        decreases sl - i,
    {
        let a = s.get_char(i) as u32;
        let b = t.get_char(i) as u32;
        if !(a == b || (97 <= b && b <= 122 && b >= 32 && a == b - 32)) {
            return false;
        }
        i += 1;
    }
    true
}

// ---------------------------------------------------------------------------
// Repository validation.
// ---------------------------------------------------------------------------

/// Whether `url::Url::parse` accepts the text. The result depends on the
/// characters alone; nothing short states which texts it accepts.
pub uninterp spec fn url_parse_ok(s: Seq<char>) -> bool;

/// Relies on url::Url::parse: it returns a `Result` (it does not panic), and
/// whether it returns `Ok` is a function of the input text alone.
#[verifier::external_body]
fn parses_as_url(s: &str) -> (r: bool)
    ensures
        r == url_parse_ok(s@),
{
    url::Url::parse(s).is_ok()
}

pub open spec fn all_repo_chars_allowed(s: Seq<char>) -> bool {
    forall|i: int| 0 <= i < s.len() ==> is_allowed_repo_char(#[trigger] s[i])
}

pub open spec fn contains_dotdot(s: Seq<char>) -> bool {
    exists|i: int| 0 <= i && i + 1 < s.len() && s[i] == '.' && #[trigger] s[i + 1] == '.'
}

/// The full acceptance condition for a repository string: it names a git
/// remote, either in `git@` form or as an `https://` URL ending in `.git`,
/// out of the allowed characters, without `..`, and — for the `https://`
/// form — accepted by the URL parser. The `git@` form is not a conventional
/// URL, so the parser is not consulted for it.
pub open spec fn repo_valid(s: Seq<char>) -> bool {
    &&& starts_with(s, "git@"@) || starts_with(s, "https://"@)
    &&& starts_with(s, "https://"@) ==> ends_with(s, ".git"@)
    &&& all_repo_chars_allowed(s)
    &&& !contains_dotdot(s)
    &&& starts_with(s, "https://"@) ==> url_parse_ok(s)
}

/// Which rule a rejected repository string failed; the rules apply in order
/// and the first failure wins.
pub open spec fn repo_error_spec(s: Seq<char>) -> ValidationError {
    if !(starts_with(s, "git@"@) || starts_with(s, "https://"@)) {
        ValidationError::RepoPrefix
    } else if starts_with(s, "https://"@) && !ends_with(s, ".git"@) {
        ValidationError::RepoSuffix
    } else if !all_repo_chars_allowed(s) {
        ValidationError::RepoChars
    } else if contains_dotdot(s) {
        ValidationError::RepoDotDot
    } else {
        ValidationError::RepoUrl
    }
}

fn all_chars_allowed_exec(s: &str) -> (r: bool)
    ensures
        r == all_repo_chars_allowed(s@),
{
    let n = s.unicode_len();
    let mut i: usize = 0;
    while i < n
        invariant
            i <= n,
            n == s@.len(),
            forall|j: int| 0 <= j < i ==> is_allowed_repo_char(#[trigger] s@[j]),
        decreases n - i,
    {
        if !allowed_repo_char(s.get_char(i)) {
            return false;
        }
        i += 1;
    }
    true
}

fn contains_dotdot_exec(s: &str) -> (r: bool)
    ensures
        r == contains_dotdot(s@),
{
    let n = s.unicode_len();
    if n < 2 {
        return false;
    }
    let mut i: usize = 0;
    while i + 1 < n
        invariant
            n == s@.len(),
            i + 1 <= n,
            forall|j: int| 0 <= j && j + 1 < i + 1 ==> !(s@[j] == '.' && #[trigger] s@[j + 1] == '.'),
        decreases n - i,
    {
        if s.get_char(i) == '.' && s.get_char(i + 1) == '.' {
            return true;
        }
        i += 1;
    }
    false
}

/// Checks a repository string: it must start with `git@` or `https://`; an
/// `https://` string must end with `.git`; every character must be an ASCII
/// alphanumeric or one of `.`, `-`, `_`, `@`, `:`, `/`; the substring `..`
/// must not occur; and an `https://` string must parse as a URL.
pub fn validate_repo(repo: &str) -> (r: Result<(), ValidationError>)
    ensures
        r is Ok <==> repo_valid(repo@),
        r is Err ==> r == Err::<(), ValidationError>(repo_error_spec(repo@)),
{
    let g = str_starts_with(repo, "git@");
    let h = str_starts_with(repo, "https://");
    if !g && !h {
        return Err(ValidationError::RepoPrefix);
    }
    if h && !str_ends_with(repo, ".git") {
        return Err(ValidationError::RepoSuffix);
    }
    if !all_chars_allowed_exec(repo) {
        return Err(ValidationError::RepoChars);
    }
    if contains_dotdot_exec(repo) {
        return Err(ValidationError::RepoDotDot);
    }
    if h && !parses_as_url(repo) {
        return Err(ValidationError::RepoUrl);
    }
    Ok(())
}

/// Law: a string that starts with neither `git@` nor `https://` is never a
/// valid repository, whatever else holds of it.
pub proof fn lemma_repo_needs_prefix(s: Seq<char>)
    requires
        !starts_with(s, "git@"@),
        !starts_with(s, "https://"@),
    ensures
        !repo_valid(s),
{
}

/// Law: an `https://` string that does not end in `.git` is never a valid
/// repository.
pub proof fn lemma_https_needs_dotgit(s: Seq<char>)
    requires
        starts_with(s, "https://"@),
        !ends_with(s, ".git"@),
    ensures
        !repo_valid(s),
{
}

/// Law: appending `.git` to an `https://` string of allowed characters makes
/// it a valid repository, provided the result holds no `..` and the URL
/// parser accepts it. (Both provisos are needed: appending `.git` to
/// `https://a.` puts `..` at the seam, and the parser still rejects a text
/// such as `https:///x.git`, whose host is empty.)
pub proof fn lemma_append_dotgit_accepts(s: Seq<char>)
    requires
        starts_with(s, "https://"@),
        all_repo_chars_allowed(s),
        !contains_dotdot(s + ".git"@),
    ensures
        starts_with(s + ".git"@, "https://"@),
        ends_with(s + ".git"@, ".git"@),
        all_repo_chars_allowed(s + ".git"@),
        url_parse_ok(s + ".git"@) ==> repo_valid(s + ".git"@),
{
    reveal_strlit(".git");
    reveal_strlit("https://");
    let t = s + ".git"@;
    assert(t.subrange(0, 8) =~= s.subrange(0, 8));
    assert(t.subrange(t.len() - 4, t.len() as int) =~= ".git"@);
    assert forall|i: int| 0 <= i < t.len() implies is_allowed_repo_char(#[trigger] t[i]) by {
        if i < s.len() {
            assert(is_allowed_repo_char(s[i]));
        } else {
            assert(t[i] == ".git"@[i - s.len()]);
            assert(is_allowed_repo_char('.'));
            assert(is_allowed_repo_char('g'));
            assert(is_allowed_repo_char('i'));
            assert(is_allowed_repo_char('t'));
        }
    }
}

// ---------------------------------------------------------------------------
// Commit validation.
// ---------------------------------------------------------------------------

/// The refs accepted with no further checks: `HEAD` exactly, and `main` or
/// `master` up to ASCII case.
pub open spec fn commit_special(s: Seq<char>) -> bool {
    s == "HEAD"@ || eq_ignore_ascii_case(s, "main"@) || eq_ignore_ascii_case(s, "master"@)
}

pub open spec fn commit_valid(s: Seq<char>) -> bool {
    commit_special(s) || (4 <= s.len() && s.len() <= 40)
}

pub open spec fn commit_error_spec(s: Seq<char>) -> ValidationError {
    if s.len() < 4 {
        ValidationError::CommitTooShort
    } else {
        ValidationError::CommitTooLong
    }
}

/// Checks a commit/ref string: `HEAD`, `main` and `master` (the latter two
/// up to ASCII case) are accepted as they are; anything else must be 4 to 40
/// characters long.
pub fn validate_commit(commit: &str) -> (r: Result<(), ValidationError>)
    ensures
        r is Ok <==> commit_valid(commit@),
        r is Err ==> r == Err::<(), ValidationError>(commit_error_spec(commit@)),
{
    if str_eq(commit, "HEAD") || str_eq_ignore_ascii_case(commit, "main")
        || str_eq_ignore_ascii_case(commit, "master") {
        return Ok(());
    }
    let n = commit.unicode_len();
    if n < 4 {
        return Err(ValidationError::CommitTooShort);
    }
    if n > 40 {
        return Err(ValidationError::CommitTooLong);
    }
    Ok(())
}

/// Law: for a commit that is none of the special-cased refs, the length rule
/// decides alone — 4 to 40 characters are accepted, everything else is not.
pub proof fn lemma_commit_length_rule(s: Seq<char>)
    requires
        !commit_special(s),
    ensures
        commit_valid(s) <==> (4 <= s.len() && s.len() <= 40),
{
}

// ---------------------------------------------------------------------------
// Optimizer-version validation.
// ---------------------------------------------------------------------------

pub open spec fn dot_at(s: Seq<char>, i: int) -> bool {
    0 <= i < s.len() && s[i] == '.'
}

/// `i` and `j` are the positions of the only two dots in `s`.
pub open spec fn two_dots_at(s: Seq<char>, i: int, j: int) -> bool {
    &&& dot_at(s, i)
    &&& dot_at(s, j)
    &&& i < j
    &&& forall|k: int| #[trigger] dot_at(s, k) ==> k == i || k == j
}

pub open spec fn exactly_two_dots(s: Seq<char>) -> bool {
    exists|i: int, j: int| two_dots_at(s, i, j)
}

/// Every character off the two dot positions is an ASCII digit.
pub open spec fn others_digits(s: Seq<char>, i: int, j: int) -> bool {
    forall|k: int| 0 <= k < s.len() && k != i && k != j ==> is_ascii_digit_char(#[trigger] s[k])
}

/// The three parts around the dots at `i` and `j` are nonempty.
pub open spec fn parts_nonempty(s: Seq<char>, i: int, j: int) -> bool {
    0 < i && i + 1 < j && j + 1 < s.len()
}

/// The acceptance condition for an optimizer version: splitting on `.`
/// yields exactly three parts, each a nonempty run of ASCII digits.
pub open spec fn optimizer_valid(s: Seq<char>) -> bool {
    exists|i: int, j: int|
        #[trigger] two_dots_at(s, i, j) && others_digits(s, i, j) && parts_nonempty(s, i, j)
}

/// Which rule a rejected optimizer version failed, in order: the part count,
/// then the digits-only rule, then nonemptiness of the parts.
pub open spec fn optimizer_error_spec(s: Seq<char>) -> ValidationError {
    if !exactly_two_dots(s) {
        ValidationError::OptimizerParts
    } else if exists|i: int, j: int| #[trigger] two_dots_at(s, i, j) && !others_digits(s, i, j) {
        ValidationError::OptimizerDigits
    } else {
        ValidationError::OptimizerEmptyPart
    }
}

/// Two descriptions of "the only two dots" name the same positions.
proof fn lemma_two_dots_unique(s: Seq<char>, i: int, j: int, p: int, q: int)
    requires
        two_dots_at(s, i, j),
        two_dots_at(s, p, q),
    ensures
        i == p && j == q,
{
    assert(dot_at(s, p));
    assert(dot_at(s, q));
    assert(dot_at(s, i));
    assert(dot_at(s, j));
}

/// Checks an optimizer version string: splitting on `.` must yield exactly
/// three parts, and each part must be a nonempty run of ASCII digits.
pub fn validate_optimizer(optimizer: &str) -> (r: Result<(), ValidationError>)
    ensures
        r is Ok <==> optimizer_valid(optimizer@),
        r is Err ==> r == Err::<(), ValidationError>(optimizer_error_spec(optimizer@)),
{
    let n = optimizer.unicode_len();
    let ghost s = optimizer@;
    let mut count: usize = 0;
    let mut d1: usize = 0;
    let mut d2: usize = 0;
    let mut d3: usize = 0;
    let mut k: usize = 0;
    while k < n
        invariant
            k <= n,
            n == s.len(),
            s == optimizer@,
            count <= 3,
            count == 0 ==> forall|m: int| 0 <= m < k ==> !dot_at(s, m),
            count >= 1 ==> d1 < k && dot_at(s, d1 as int),
            count == 1 ==> forall|m: int| 0 <= m < k && m != d1 ==> !dot_at(s, m),
            count >= 2 ==> d1 < d2 && d2 < k && dot_at(s, d2 as int),
            count == 2 ==> forall|m: int| 0 <= m < k && m != d1 && m != d2 ==> !dot_at(s, m),
            count >= 3 ==> d2 < d3 && d3 < k && dot_at(s, d3 as int),
        decreases n - k,
    {
        let c = optimizer.get_char(k);
        if c == '.' {
            if count == 0 {
                d1 = k;
                count = 1;
            } else if count == 1 {
                d2 = k;
                count = 2;
            } else if count == 2 {
                d3 = k;
                count = 3;
            }
        }
        k += 1;
    }
    if count != 2 {
        proof {
            if count < 2 {
                assert forall|i: int, j: int| !two_dots_at(s, i, j) by {
                    if two_dots_at(s, i, j) {
                        assert(dot_at(s, i));
                        assert(dot_at(s, j));
                    }
                }
            } else {
                assert forall|i: int, j: int| !two_dots_at(s, i, j) by {
                    if two_dots_at(s, i, j) {
                        assert(dot_at(s, d1 as int));
                        assert(dot_at(s, d2 as int));
                        assert(dot_at(s, d3 as int));
                    }
                }
            }
            assert(!exactly_two_dots(s));
            assert(!optimizer_valid(s));
        }
        return Err(ValidationError::OptimizerParts);
    }
    let ghost gi = d1 as int;
    let ghost gj = d2 as int;
    proof {
        assert(two_dots_at(s, gi, gj));
    }
    let mut k2: usize = 0;
    while k2 < n
        invariant
            k2 <= n,
            n == s.len(),
            s == optimizer@,
            d1 < d2 && d2 < n,
            gi == d1 as int,
            gj == d2 as int,
            two_dots_at(s, gi, gj),
            forall|m: int|
                0 <= m < k2 && m != d1 && m != d2 ==> is_ascii_digit_char(#[trigger] s[m]),
        decreases n - k2,
    {
        if k2 != d1 && k2 != d2 {
            if !ascii_digit_char(optimizer.get_char(k2)) {
                proof {
                    assert(!others_digits(s, gi, gj));
                    assert(exactly_two_dots(s));
                    assert(optimizer_error_spec(s) == ValidationError::OptimizerDigits);
                    assert forall|i: int, j: int|
                        !(two_dots_at(s, i, j) && others_digits(s, i, j) && parts_nonempty(
                            s,
                            i,
                            j,
                        )) by {
                        if two_dots_at(s, i, j) {
                            lemma_two_dots_unique(s, i, j, gi, gj);
                        }
                    }
                    assert(!optimizer_valid(s));
                }
                return Err(ValidationError::OptimizerDigits);
            }
        }
        k2 += 1;
    }
    proof {
        assert(others_digits(s, gi, gj));
    }
    if !(0 < d1 && d1 + 1 < d2 && d2 + 1 < n) {
        proof {
            assert(!parts_nonempty(s, gi, gj));
            assert forall|i: int, j: int|
                !(two_dots_at(s, i, j) && others_digits(s, i, j) && parts_nonempty(s, i, j)) by {
                if two_dots_at(s, i, j) {
                    lemma_two_dots_unique(s, i, j, gi, gj);
                }
            }
            assert(!optimizer_valid(s));
            assert forall|i: int, j: int|
                !(#[trigger] two_dots_at(s, i, j) && !others_digits(s, i, j)) by {
                if two_dots_at(s, i, j) {
                    lemma_two_dots_unique(s, i, j, gi, gj);
                }
            }
            assert(optimizer_error_spec(s) == ValidationError::OptimizerEmptyPart);
        }
        return Err(ValidationError::OptimizerEmptyPart);
    }
    proof {
        assert(parts_nonempty(s, gi, gj));
        assert(optimizer_valid(s));
    }
    Ok(())
}

} // verus!
