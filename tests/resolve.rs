use lexicon_home::path::join;
use lexicon_home::resolve::{
    default_dir_from, find_codex_home, override_path, resolve_with, Resolution,
    HOME_NOT_FOUND_MESSAGE, OVERRIDE_VAR,
};

fn bytes(s: &str) -> Vec<u8> {
    s.as_bytes().to_vec()
}

fn canonicalize_target(r: &Resolution) -> Option<String> {
    match r {
        Resolution::Canonicalize(p) => Some(p.clone()),
        _ => None,
    }
}

fn directory(r: &Resolution) -> Option<Vec<u8>> {
    match r {
        Resolution::Directory(p) => Some(p.clone()),
        _ => None,
    }
}

#[test]
fn override_existing_dir_is_canonicalized() {
    let r = resolve_with(Some("/tmp/existing_dir".to_string()), Some(bytes("/home/alice")));
    assert_eq!(canonicalize_target(&r), Some("/tmp/existing_dir".to_string()));
    assert!(!r.is_not_found());
}

#[test]
fn override_missing_dir_goes_to_canonicalization() {
    let r = resolve_with(Some("/tmp/does_not_exist".to_string()), Some(bytes("/home/alice")));
    assert_eq!(canonicalize_target(&r), Some("/tmp/does_not_exist".to_string()));
}

#[test]
fn override_without_home_directory() {
    let r = resolve_with(Some("/srv/lexicon".to_string()), None);
    assert_eq!(canonicalize_target(&r), Some("/srv/lexicon".to_string()));
}

#[test]
fn relative_override_is_kept_for_canonicalization() {
    let r = resolve_with(Some("conf".to_string()), Some(bytes("/home/alice")));
    assert_eq!(canonicalize_target(&r), Some("conf".to_string()));
}

#[test]
fn unset_override_uses_home() {
    let r = resolve_with(None, Some(bytes("/home/alice")));
    assert_eq!(directory(&r), Some(bytes("/home/alice/.lexicon")));
}

#[test]
fn empty_override_behaves_as_unset() {
    let unset = resolve_with(None, Some(bytes("/home/alice")));
    let empty = resolve_with(Some(String::new()), Some(bytes("/home/alice")));
    assert_eq!(directory(&empty), Some(bytes("/home/alice/.lexicon")));
    assert_eq!(directory(&empty), directory(&unset));
    assert!(resolve_with(Some(String::new()), None).is_not_found());
}

#[test]
fn home_with_trailing_separator() {
    let r = resolve_with(None, Some(bytes("/home/alice/")));
    assert_eq!(directory(&r), Some(bytes("/home/alice/.lexicon")));
}

#[test]
fn root_home() {
    let r = resolve_with(None, Some(bytes("/")));
    assert_eq!(directory(&r), Some(bytes("/.lexicon")));
}

#[test]
fn no_home_directory_is_not_found() {
    let r = resolve_with(None, None);
    assert!(r.is_not_found());
    assert!(matches!(r, Resolution::HomeNotFound));
    assert_eq!(HOME_NOT_FOUND_MESSAGE, "Could not find home directory");
}

#[test]
fn default_dir_from_home() {
    let r = default_dir_from(Some(bytes("/Users/Alice")));
    assert_eq!(directory(&r), Some(bytes("/Users/Alice/.lexicon")));
    assert!(default_dir_from(None).is_not_found());
}

#[test]
fn override_path_drops_empty_value() {
    assert_eq!(override_path(None), None);
    assert_eq!(override_path(Some(String::new())), None);
    assert_eq!(override_path(Some("/x".to_string())), Some("/x".to_string()));
}

#[test]
fn join_inserts_one_separator() {
    assert_eq!(join(&bytes("/a"), &bytes("b")), bytes("/a/b"));
    assert_eq!(join(&bytes("/a/"), &bytes("b")), bytes("/a/b"));
    assert_eq!(join(&bytes(""), &bytes("b")), bytes("b"));
}

#[test]
fn find_codex_home_honors_override() {
    let r = find_codex_home(Some("/tmp/existing_dir".to_string()));
    assert_eq!(canonicalize_target(&r), Some("/tmp/existing_dir".to_string()));
}

#[test]
fn find_codex_home_default_ends_in_lexicon() {
    let r = find_codex_home(None);
    match r {
        Resolution::Directory(p) => assert!(p.ends_with(b".lexicon")),
        Resolution::HomeNotFound => {}
        Resolution::Canonicalize(_) => panic!("no override was given"),
    }
}

#[test]
fn override_variable_name() {
    assert_eq!(OVERRIDE_VAR, "LEXICON_HOME");
}
