//! Where the zcode configuration directory is.
//!
//! Resolution priority:
//!
//! 1. the `ZCODE_HOME` environment variable;
//! 2. the `CODEX_HOME` environment variable (back-compat with upstream Codex);
//! 3. `~/.zcode` if it exists, or if `~/.codex` does not exist (fresh setups
//!    default to `~/.zcode`); otherwise an existing `~/.codex` is respected.
//!
//! A directory named by an environment variable must exist and be a
//! directory; it is then canonicalized. The default is not checked. The file
//! system is asked around this module; here stand the decisions and the
//! errors, from what it answered.

use vstd::prelude::*;
use vstd::string::*;

verus! {

/// The environment variables that can name the configuration directory.
#[derive(Clone, Copy, Debug, PartialEq, Eq, Structural)]
pub enum HomeEnvVar {
    ZcodeHome,
    CodexHome,
}

pub open spec fn env_var_name(var: HomeEnvVar) -> Seq<char> {
    match var {
        HomeEnvVar::ZcodeHome => "ZCODE_HOME"@,
        HomeEnvVar::CodexHome => "CODEX_HOME"@,
    }
}

impl HomeEnvVar {
    /// The variable's name.
    pub fn name(&self) -> (r: &'static str)
        ensures
            r@ == env_var_name(*self),
    {
        match self {
            HomeEnvVar::ZcodeHome => "ZCODE_HOME",
            HomeEnvVar::CodexHome => "CODEX_HOME",
        }
    }
}

/// Where the configuration directory comes from.
#[derive(Debug)]
pub enum HomeSource {
    /// The directory that `var` names (its value is `value`).
    FromEnv { var: HomeEnvVar, value: String },
    /// Neither variable is set: the default under the home directory.
    Default,
}

/// An environment variable's value as the lookup uses it: an empty value
/// counts as unset.
pub fn non_empty_env_value(value: Option<String>) -> (r: Option<String>)
    ensures
        r == (match value {
            Some(v) => if v@.len() > 0 {
                Some(v)
            } else {
                None
            },
            None => None,
        }),
{
    match value {
        Some(v) => if v.as_str().is_empty() {
            None
        } else {
            Some(v)
        },
        None => None,
    }
}

/// Picks the source of the configuration directory: `ZCODE_HOME` when set,
/// else `CODEX_HOME` when set, else the default.
pub fn select_home_source(zcode_home_env: Option<&str>, codex_home_env: Option<&str>) -> (r: HomeSource)
    ensures
        match zcode_home_env {
            Some(z) => r matches HomeSource::FromEnv { var, value } && var == HomeEnvVar::ZcodeHome
                && value@ == z@,
            None => match codex_home_env {
                Some(c) => r matches HomeSource::FromEnv { var, value } && var
                    == HomeEnvVar::CodexHome && value@ == c@,
                None => r is Default,
            },
        },
{
    match (zcode_home_env, codex_home_env) {
        (Some(val), _) => HomeSource::FromEnv { var: HomeEnvVar::ZcodeHome, value: val.to_owned() },
        (None, Some(val)) => HomeSource::FromEnv { var: HomeEnvVar::CodexHome, value: val.to_owned() },
        (None, None) => HomeSource::Default,
    }
}

/// The kind of an I/O error, carried through unchanged.
#[verifier::external_type_specification]
#[verifier::external_body]
pub struct ExIoErrorKind(std::io::ErrorKind);

/// A file-system operation that failed: the kind of its error and the
/// error's message.
#[derive(Debug)]
pub struct IoFailure {
    pub kind: std::io::ErrorKind,
    pub detail: String,
}

/// What the file system said of the path that a variable names.
#[derive(Debug)]
pub enum PathProbe {
    /// It is a directory.
    Directory,
    /// It exists and is not a directory.
    NotDirectory,
    /// It does not exist.
    Missing,
    /// Reading its metadata failed otherwise.
    Unreadable(IoFailure),
}

/// The kind of a resolution error.
#[derive(Clone, Copy, Debug, PartialEq, Eq)]
pub enum HomeErrorKind {
    NotFound,
    InvalidInput,
    /// The kind of the file-system error that caused it.
    Io(std::io::ErrorKind),
}

/// An error in resolving the configuration directory.
#[derive(Debug)]
pub struct HomeDirError {
    pub kind: HomeErrorKind,
    pub message: String,
}

/// `{value:?}`: the value, quoted and escaped as Rust's `Debug` writes a string.
pub uninterp spec fn debug_quoted(s: Seq<char>) -> Seq<char>;

/// The `Debug` text of a string slice (`format!("{:?}", s)`).
#[verifier::external_body]
fn debug_str(s: &str) -> (r: String)
    ensures
        r@ == debug_quoted(s@),
{
    format!("{:?}", s)
}

pub open spec fn missing_message(var: HomeEnvVar, value: Seq<char>) -> Seq<char> {
    env_var_name(var) + " points to "@ + debug_quoted(value) + ", but that path does not exist"@
}

pub open spec fn not_directory_message(var: HomeEnvVar, value: Seq<char>) -> Seq<char> {
    env_var_name(var) + " points to "@ + debug_quoted(value) + ", but that path is not a directory"@
}

pub open spec fn unreadable_message(var: HomeEnvVar, value: Seq<char>, detail: Seq<char>) -> Seq<char> {
    "failed to read "@ + env_var_name(var) + " "@ + debug_quoted(value) + ": "@ + detail
}

pub open spec fn canonicalize_message(var: HomeEnvVar, value: Seq<char>, detail: Seq<char>) -> Seq<char> {
    "failed to canonicalize "@ + env_var_name(var) + " "@ + debug_quoted(value) + ": "@ + detail
}

/// `a` followed by `b` followed by `c` followed by `d`.
fn concat4(a: &str, b: &str, c: &str, d: &str) -> (r: String)
    ensures
        r@ == a@ + b@ + c@ + d@,
{
    let mut s = a.to_owned();
    s.append(b);
    s.append(c);
    s.append(d);
    s
}

/// Checks the path that `var` names (its value is `value`) from what the
/// file system said of it: it must exist and be a directory.
pub fn check_env_home(var: HomeEnvVar, value: &str, probe: &PathProbe) -> (r: Result<(), HomeDirError>)
    ensures
        match probe {
            PathProbe::Directory => r is Ok,
            PathProbe::Missing => r matches Err(e) && e.kind == HomeErrorKind::NotFound
                && e.message@ == missing_message(var, value@),
            PathProbe::NotDirectory => r matches Err(e) && e.kind == HomeErrorKind::InvalidInput
                && e.message@ == not_directory_message(var, value@),
            PathProbe::Unreadable(failure) => r matches Err(e) && e.kind == HomeErrorKind::Io(
                failure.kind,
            ) && e.message@ == unreadable_message(var, value@, failure.detail@),
        },
{
    let name = var.name();
    let quoted = debug_str(value);
    match probe {
        PathProbe::Directory => Ok(()),
        PathProbe::Missing => {
            let message = concat4(name, " points to ", quoted.as_str(), ", but that path does not exist");
            Err(HomeDirError { kind: HomeErrorKind::NotFound, message })
        },
        PathProbe::NotDirectory => {
            let message = concat4(name, " points to ", quoted.as_str(), ", but that path is not a directory");
            Err(HomeDirError { kind: HomeErrorKind::InvalidInput, message })
        },
        PathProbe::Unreadable(failure) => {
            let mut message = concat4("failed to read ", name, " ", quoted.as_str());
            message.append(": ");
            message.append(failure.detail.as_str());
            Err(HomeDirError { kind: HomeErrorKind::Io(failure.kind), message })
        },
    }
}

/// What resolving `value` gives when canonicalizing it gave `canonical`:
/// the canonical path, or the error that says which variable failed, with
/// the kind of the failure.
pub open spec fn canonical_outcome(
    var: HomeEnvVar,
    value: Seq<char>,
    canonical: Result<String, IoFailure>,
    r: Result<String, HomeDirError>,
) -> bool {
    match canonical {
        Ok(path) => r matches Ok(p) && p@ == path@,
        Err(failure) => r matches Err(e) && e.kind == HomeErrorKind::Io(failure.kind)
            && e.message@ == canonicalize_message(var, value, failure.detail@),
    }
}

/// The result of canonicalizing the directory that `var` names (its value is
/// `value`): the canonical path, or the error that says which variable failed.
pub fn canonical_env_home(var: HomeEnvVar, value: &str, canonical: Result<String, IoFailure>) -> (r: Result<String, HomeDirError>)
    ensures
        canonical_outcome(var, value@, canonical, r),
{
    match canonical {
        Ok(path) => Ok(path),
        Err(failure) => {
            let quoted = debug_str(value);
            let mut message = concat4("failed to canonicalize ", var.name(), " ", quoted.as_str());
            message.append(": ");
            message.append(failure.detail.as_str());
            Err(HomeDirError { kind: HomeErrorKind::Io(failure.kind), message })
        },
    }
}

/// Resolves the directory that `var` names (its value is `value`) from what
/// the file system said of it: it must exist and be a directory, and is then
/// canonicalized by `canonicalize`, which is called only in that case.
pub fn resolve_env_home<F: FnOnce() -> Result<String, IoFailure>>(
    var: HomeEnvVar,
    value: &str,
    probe: &PathProbe,
    canonicalize: F,
) -> (r: Result<String, HomeDirError>)
    requires
        canonicalize.requires(()),
    ensures
        match probe {
            PathProbe::Directory => exists|canonical: Result<String, IoFailure>|
                #[trigger] canonicalize.ensures((), canonical) && canonical_outcome(
                    var,
                    value@,
                    canonical,
                    r,
                ),
            PathProbe::Missing => r matches Err(e) && e.kind == HomeErrorKind::NotFound
                && e.message@ == missing_message(var, value@),
            PathProbe::NotDirectory => r matches Err(e) && e.kind == HomeErrorKind::InvalidInput
                && e.message@ == not_directory_message(var, value@),
            PathProbe::Unreadable(failure) => r matches Err(e) && e.kind == HomeErrorKind::Io(
                failure.kind,
            ) && e.message@ == unreadable_message(var, value@, failure.detail@),
        },
{
    match check_env_home(var, value, probe) {
        Err(e) => Err(e),
        Ok(()) => {
            let canonical = canonicalize();
            canonical_env_home(var, value, canonical)
        },
    }
}

pub open spec fn home_not_found_message() -> Seq<char> {
    "Could not find home directory"@
}

/// The error when there is no home directory to put the default under.
pub fn home_not_found_error() -> (r: HomeDirError)
    ensures
        r.kind == HomeErrorKind::NotFound,
        r.message@ == home_not_found_message(),
{
    HomeDirError { kind: HomeErrorKind::NotFound, message: "Could not find home directory".to_owned() }
}

/// `base` joined with the relative path component `name`, as `Path::join`
/// does on Unix: a separator goes between them unless `base` is empty or
/// already ends with one.
pub open spec fn join_path_seq(base: Seq<char>, name: Seq<char>) -> Seq<char> {
    if base.len() == 0 || base.last() == '/' {
        base + name
    } else {
        base + seq!['/'] + name
    }
}

/// A join starts with the base and ends with the component; a separator
/// stands between them exactly when the base is not empty and does not
/// already end with one.
pub proof fn lemma_join_path_shape(base: Seq<char>, name: Seq<char>)
    ensures
        join_path_seq(base, name).subrange(0, base.len() as int) == base,
        join_path_seq(base, name).subrange(
            join_path_seq(base, name).len() - name.len(),
            join_path_seq(base, name).len() as int,
        ) == name,
        (base.len() == 0 || base.last() == '/') ==> join_path_seq(base, name).len() == base.len()
            + name.len(),
        !(base.len() == 0 || base.last() == '/') ==> join_path_seq(base, name).len() == base.len()
            + 1 + name.len() && join_path_seq(base, name)[base.len() as int] == '/',
{
    let r = join_path_seq(base, name);
    assert(r.subrange(0, base.len() as int) =~= base);
    assert(r.subrange(r.len() - name.len(), r.len() as int) =~= name);
}

/// `base` joined with the relative path component `name`.
pub fn join_path(base: &str, name: &str) -> (r: String)
    requires
        name@.len() > 0,
        name@[0] != '/',
    ensures
        r@ == join_path_seq(base@, name@),
        r@.subrange(0, base@.len() as int) == base@,
        r@.subrange(r@.len() - name@.len(), r@.len() as int) == name@,
        (base@.len() == 0 || base@.last() == '/') ==> r@.len() == base@.len() + name@.len(),
        !(base@.len() == 0 || base@.last() == '/') ==> r@.len() == base@.len() + 1 + name@.len()
            && r@[base@.len() as int] == '/',
{
    proof {
        lemma_join_path_shape(base@, name@);
    }
    proof {
        reveal_strlit("/");
    }
    let n = base.unicode_len();
    let mut s = base.to_owned();
    if n > 0 && base.get_char(n - 1) != '/' {
        s.append("/");
    }
    s.append(name);
    s
}

pub open spec fn zcode_dir_name() -> Seq<char> {
    ".zcode"@
}

pub open spec fn codex_dir_name() -> Seq<char> {
    ".codex"@
}

/// `home/.zcode`.
pub fn zcode_config_dir(home: &str) -> (r: String)
    ensures
        r@ == join_path_seq(home@, zcode_dir_name()),
{
    proof {
        reveal_strlit(".zcode");
    }
    join_path(home, ".zcode")
}

/// `home/.codex`.
pub fn codex_config_dir(home: &str) -> (r: String)
    ensures
        r@ == join_path_seq(home@, codex_dir_name()),
{
    proof {
        reveal_strlit(".codex");
    }
    join_path(home, ".codex")
}

/// Picks the default config dir under `home`: prefer `~/.zcode` unless only
/// `~/.codex` exists (an existing upstream Codex install keeps working).
/// `zcode_dir_is_dir` and `codex_dir_is_dir` say whether `home/.zcode` and
/// `home/.codex` are directories.
pub fn default_config_home_dir(home: &str, zcode_dir_is_dir: bool, codex_dir_is_dir: bool) -> (r: String)
    ensures
        r@ == join_path_seq(
            home@,
            if zcode_dir_is_dir || !codex_dir_is_dir {
                zcode_dir_name()
            } else {
                codex_dir_name()
            },
        ),
        r@.subrange(0, home@.len() as int) == home@,
        zcode_dir_is_dir || !codex_dir_is_dir ==> r@.subrange(r@.len() - 6, r@.len() as int) == ".zcode"@,
        !zcode_dir_is_dir && codex_dir_is_dir ==> r@.subrange(r@.len() - 6, r@.len() as int) == ".codex"@,
{
    proof {
        reveal_strlit(".zcode");
        reveal_strlit(".codex");
        lemma_join_path_shape(home@, zcode_dir_name());
        lemma_join_path_shape(home@, codex_dir_name());
    }
    if zcode_dir_is_dir || !codex_dir_is_dir {
        zcode_config_dir(home)
    } else {
        codex_config_dir(home)
    }
}

/// `needle` occurs in `haystack`.
pub open spec fn contains_seq(haystack: Seq<char>, needle: Seq<char>) -> bool {
    exists|i: int|
        0 <= i && i + needle.len() <= haystack.len() && #[trigger] haystack.subrange(
            i,
            i + needle.len(),
        ) == needle
}

proof fn lemma_contains_at(haystack: Seq<char>, needle: Seq<char>, i: int)
    requires
        0 <= i,
        i + needle.len() <= haystack.len(),
        haystack.subrange(i, i + needle.len()) =~= needle,
    ensures
        contains_seq(haystack, needle),
{
}

/// Every error about a variable's directory names the variable.
pub proof fn lemma_errors_name_the_variable(var: HomeEnvVar, value: Seq<char>, detail: Seq<char>)
    ensures
        contains_seq(missing_message(var, value), env_var_name(var)),
        contains_seq(not_directory_message(var, value), env_var_name(var)),
        contains_seq(unreadable_message(var, value, detail), env_var_name(var)),
        contains_seq(canonicalize_message(var, value, detail), env_var_name(var)),
{
    let n = env_var_name(var);
    lemma_contains_at(missing_message(var, value), n, 0);
    lemma_contains_at(not_directory_message(var, value), n, 0);
    let k = "failed to read "@.len() as int;
    lemma_contains_at(unreadable_message(var, value, detail), n, k);
    let m = "failed to canonicalize "@.len() as int;
    lemma_contains_at(canonicalize_message(var, value, detail), n, m);
}

/// The error for a path that is not a directory says so.
pub proof fn lemma_not_directory_error_says_so(var: HomeEnvVar, value: Seq<char>)
    ensures
        contains_seq(not_directory_message(var, value), "not a directory"@),
{
    let msg = not_directory_message(var, value);
    reveal_strlit(", but that path is not a directory");
    reveal_strlit("not a directory");
    let start = msg.len() - "not a directory"@.len();
    lemma_contains_at(msg, "not a directory"@, start);
}

} // verus!
