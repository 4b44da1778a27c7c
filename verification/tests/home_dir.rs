use std::io::ErrorKind;
use std::path::Path;

use tempfile::TempDir;
use zcode_glm::default_config_home_dir;
use zcode_glm::home_dir::canonical_env_home;
use zcode_glm::home_dir::check_env_home;
use zcode_glm::home_dir::codex_config_dir;
use zcode_glm::home_dir::home_not_found_error;
use zcode_glm::home_dir::join_path;
use zcode_glm::home_dir::non_empty_env_value;
use zcode_glm::home_dir::select_home_source;
use zcode_glm::home_dir::zcode_config_dir;
use zcode_glm::home_dir::HomeDirError;
use zcode_glm::home_dir::HomeEnvVar;
use zcode_glm::home_dir::HomeErrorKind;
use zcode_glm::home_dir::HomeSource;
use zcode_glm::home_dir::IoFailure;
use zcode_glm::home_dir::PathProbe;
use zcode_glm::home_dir::resolve_env_home;

/// What the file system says of `path`.
fn probe(path: &str) -> PathProbe {
    match Path::new(path).metadata() {
        Ok(metadata) if metadata.is_dir() => PathProbe::Directory,
        Ok(_) => PathProbe::NotDirectory,
        Err(err) if err.kind() == std::io::ErrorKind::NotFound => PathProbe::Missing,
        Err(err) => PathProbe::Unreadable(IoFailure { kind: err.kind(), detail: err.to_string() }),
    }
}

/// Resolves the configuration directory from the two variables' values,
/// asking the file system where the library says to.
fn resolve_from_env(zcode_home_env: Option<&str>, codex_home_env: Option<&str>) -> Result<String, HomeDirError> {
    match select_home_source(zcode_home_env, codex_home_env) {
        HomeSource::FromEnv { var, value } => {
            let canonicalize = || {
                Path::new(&value)
                    .canonicalize()
                    .map(|p| p.to_string_lossy().into_owned())
                    .map_err(|err| IoFailure { kind: err.kind(), detail: err.to_string() })
            };
            resolve_env_home(var, &value, &probe(&value), canonicalize)
        }
        HomeSource::Default => Err(home_not_found_error()),
    }
}

fn canonical(path: &Path) -> String {
    path.canonicalize().expect("canonicalize").to_string_lossy().into_owned()
}

#[test]
fn find_codex_home_env_missing_path_is_fatal() {
    let temp_home = TempDir::new().expect("temp home");
    let missing = temp_home.path().join("missing-codex-home");
    let missing_str = missing
        .to_str()
        .expect("missing codex home path should be valid utf-8");

    let err = resolve_from_env(None, Some(missing_str)).expect_err("missing CODEX_HOME");
    assert_eq!(err.kind, HomeErrorKind::NotFound);
    assert!(err.message.contains("CODEX_HOME"), "unexpected error: {}", err.message);
    assert_eq!(
        err.message,
        format!("CODEX_HOME points to {missing_str:?}, but that path does not exist")
    );
}

#[test]
fn find_codex_home_env_file_path_is_fatal() {
    let temp_home = TempDir::new().expect("temp home");
    let file = tempfile::NamedTempFile::new_in(temp_home.path()).expect("write temp file");
    let file_str = file
        .path()
        .to_str()
        .expect("file codex home path should be valid utf-8");

    let err = resolve_from_env(None, Some(file_str)).expect_err("file CODEX_HOME");
    assert_eq!(err.kind, HomeErrorKind::InvalidInput);
    assert!(err.message.contains("not a directory"), "unexpected error: {}", err.message);
}

#[test]
fn find_codex_home_env_valid_directory_canonicalizes() {
    let temp_home = TempDir::new().expect("temp home");
    let temp_str = temp_home
        .path()
        .to_str()
        .expect("temp codex home path should be valid utf-8");

    let resolved = resolve_from_env(None, Some(temp_str)).expect("valid CODEX_HOME");
    assert_eq!(resolved, canonical(temp_home.path()));
}

#[test]
fn zcode_home_takes_priority_over_codex_home() {
    let zcode_home = TempDir::new().expect("temp zcode home");
    let codex_home = TempDir::new().expect("temp codex home");
    let zcode_str = zcode_home.path().to_str().expect("valid utf-8");
    let codex_str = codex_home.path().to_str().expect("valid utf-8");

    let resolved = resolve_from_env(Some(zcode_str), Some(codex_str)).expect("valid ZCODE_HOME");
    let expected = canonical(zcode_home.path());
    assert_eq!(resolved, expected);
    assert!(
        resolve_from_env(Some(zcode_str), Some("definitely/missing")).is_ok_and(|resolved| resolved == expected),
        "ZCODE_HOME should win even when CODEX_HOME is invalid"
    );
}

#[test]
fn zcode_home_missing_path_is_fatal() {
    let temp_home = TempDir::new().expect("temp home");
    let missing = temp_home.path().join("missing-zcode-home");
    let missing_str = missing.to_str().expect("valid utf-8");

    let err = resolve_from_env(Some(missing_str), None).expect_err("missing ZCODE_HOME");
    assert_eq!(err.kind, HomeErrorKind::NotFound);
    assert!(err.message.contains("ZCODE_HOME"), "unexpected error: {}", err.message);
}

/// The default directory under `home`, asking the file system which
/// candidates exist.
fn default_dir(home: &Path) -> String {
    let home_str = home.to_str().expect("valid utf-8");
    let zcode_is_dir = Path::new(&zcode_config_dir(home_str)).is_dir();
    let codex_is_dir = Path::new(&codex_config_dir(home_str)).is_dir();
    default_config_home_dir(home_str, zcode_is_dir, codex_is_dir)
}

fn make_dir(parent: &Path, name: &str) -> TempDir {
    tempfile::Builder::new()
        .prefix(name)
        .rand_bytes(0)
        .tempdir_in(parent)
        .expect("create dir")
}

#[test]
fn default_config_home_prefers_fresh_zcode_dir() {
    let temp_home = TempDir::new().expect("temp home");
    let path_of = |name: &str| temp_home.path().join(name).to_string_lossy().into_owned();
    assert_eq!(
        default_dir(temp_home.path()),
        path_of(".zcode"),
        "fresh setups (neither dir exists) should default to ~/.zcode"
    );

    let _codex = make_dir(temp_home.path(), ".codex");
    assert_eq!(
        default_dir(temp_home.path()),
        path_of(".codex"),
        "an existing ~/.codex should be respected"
    );

    let _zcode = make_dir(temp_home.path(), ".zcode");
    assert_eq!(
        default_dir(temp_home.path()),
        path_of(".zcode"),
        "~/.zcode wins when both exist"
    );
}

#[test]
fn default_config_home_dir_decision_table() {
    assert_eq!(default_config_home_dir("/home/u", false, false), "/home/u/.zcode");
    assert_eq!(default_config_home_dir("/home/u", false, true), "/home/u/.codex");
    assert_eq!(default_config_home_dir("/home/u", true, true), "/home/u/.zcode");
    assert_eq!(default_config_home_dir("/home/u/", true, false), "/home/u/.zcode");
}

#[test]
fn join_path_matches_std() {
    for base in ["", "/", "/home/u", "/home/u/", "rel", "a//"] {
        let expected = Path::new(base).join(".zcode").to_string_lossy().into_owned();
        assert_eq!(join_path(base, ".zcode"), expected, "base {base:?}");
    }
}

#[test]
fn empty_env_values_count_as_unset() {
    assert_eq!(non_empty_env_value(Some(String::new())), None);
    assert_eq!(non_empty_env_value(None), None);
    assert_eq!(non_empty_env_value(Some("/x".to_string())), Some("/x".to_string()));
}

#[test]
fn selection_order_of_variables() {
    assert!(matches!(
        select_home_source(Some("/z"), Some("/c")),
        HomeSource::FromEnv { var: HomeEnvVar::ZcodeHome, ref value } if value == "/z"
    ));
    assert!(matches!(
        select_home_source(None, Some("/c")),
        HomeSource::FromEnv { var: HomeEnvVar::CodexHome, ref value } if value == "/c"
    ));
    assert!(matches!(select_home_source(None, None), HomeSource::Default));
}

#[test]
fn unreadable_and_canonicalize_errors_name_the_variable() {
    let denied = IoFailure { kind: ErrorKind::PermissionDenied, detail: "denied".to_string() };
    let err = check_env_home(HomeEnvVar::ZcodeHome, "/x", &PathProbe::Unreadable(denied)).expect_err("unreadable");
    assert_eq!(err.kind, HomeErrorKind::Io(ErrorKind::PermissionDenied));
    assert_eq!(err.message, "failed to read ZCODE_HOME \"/x\": denied");
    let looped = IoFailure { kind: ErrorKind::Other, detail: "loop".to_string() };
    let err = canonical_env_home(HomeEnvVar::CodexHome, "/y", Err(looped)).expect_err("canonicalize");
    assert_eq!(err.kind, HomeErrorKind::Io(ErrorKind::Other));
    assert_eq!(err.message, "failed to canonicalize CODEX_HOME \"/y\": loop");
    let err = home_not_found_error();
    assert_eq!(err.kind, HomeErrorKind::NotFound);
    assert_eq!(err.message, "Could not find home directory");
}

#[test]
fn unreadable_metadata_keeps_its_error_kind() {
    let failure = IoFailure { kind: ErrorKind::PermissionDenied, detail: "Permission denied".to_string() };
    let err = resolve_env_home(HomeEnvVar::CodexHome, "/root/x", &PathProbe::Unreadable(failure), || {
        panic!("a path that cannot be read is not canonicalized")
    })
    .expect_err("unreadable CODEX_HOME");
    assert_eq!(err.kind, HomeErrorKind::Io(ErrorKind::PermissionDenied));
    assert_eq!(err.message, "failed to read CODEX_HOME \"/root/x\": Permission denied");
}

#[test]
fn only_directories_are_canonicalized() {
    let err = resolve_env_home(HomeEnvVar::ZcodeHome, "/f", &PathProbe::NotDirectory, || {
        panic!("a file is not canonicalized")
    })
    .expect_err("file ZCODE_HOME");
    assert_eq!(err.kind, HomeErrorKind::InvalidInput);
    let err = resolve_env_home(HomeEnvVar::ZcodeHome, "/m", &PathProbe::Missing, || {
        panic!("a missing path is not canonicalized")
    })
    .expect_err("missing ZCODE_HOME");
    assert_eq!(err.kind, HomeErrorKind::NotFound);
    let ok = resolve_env_home(HomeEnvVar::ZcodeHome, "/d/./x", &PathProbe::Directory, || Ok("/d/x".to_string()));
    assert_eq!(ok.expect("directory"), "/d/x");
    let failed = resolve_env_home(HomeEnvVar::ZcodeHome, "/d", &PathProbe::Directory, || {
        Err(IoFailure { kind: ErrorKind::TimedOut, detail: "slow".to_string() })
    })
    .expect_err("canonicalize failed");
    assert_eq!(failed.kind, HomeErrorKind::Io(ErrorKind::TimedOut));
    assert_eq!(failed.message, "failed to canonicalize ZCODE_HOME \"/d\": slow");
}
