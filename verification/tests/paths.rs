use backend::path::{DOT, SEPARATOR};
use std::path::{Path, PathBuf};

fn text(path: PathBuf) -> String {
    path.into_os_string().into_string().unwrap()
}

fn resolve(base: &str, path: &str) -> Option<String> {
    backend::path::resolve(base.as_bytes(), path.as_bytes())
        .map(|bytes| String::from_utf8(bytes).unwrap())
}

fn resolve_under(root: &str, path: &str) -> String {
    String::from_utf8(backend::path::resolve_under(root.as_bytes(), path.as_bytes())).unwrap()
}

fn starts_at_root(path: &str) -> bool {
    backend::path::starts_at_root(path.as_bytes())
}

#[test]
fn absolute_paths_stand_for_themselves() {
    assert_eq!(resolve("/work", "/srv/static"), Some("/srv/static".to_string()));
    assert_eq!(resolve("/work", "/"), Some("/".to_string()));
    assert_eq!(resolve("not/absolute", "/srv/static"), Some("/srv/static".to_string()));
    assert_eq!(resolve("", "/srv"), Some("/srv".to_string()));
}

#[test]
fn relative_paths_are_read_from_the_base() {
    assert_eq!(
        resolve("/work", "./log/application.log"),
        Some("/work/log/application.log".to_string())
    );
    assert_eq!(resolve("/work", "log"), Some("/work/log".to_string()));
    assert_eq!(resolve("/work/", "log"), Some("/work/log".to_string()));
    assert_eq!(resolve("/", "log"), Some("/log".to_string()));
    assert_eq!(resolve("/work", "."), Some("/work".to_string()));
    assert_eq!(resolve("/work", "./"), Some("/work/".to_string()));
    assert_eq!(resolve("/work", ".."), Some("/work/..".to_string()));
    assert_eq!(resolve("/work", ".hidden"), Some("/work/.hidden".to_string()));
}

#[test]
fn empty_and_dot_components_are_dropped() {
    assert_eq!(resolve("/w", "/a//b/./c"), Some("/a/b/c".to_string()));
    assert_eq!(resolve("/w", "a//b/./c"), Some("/w/a/b/c".to_string()));
    assert_eq!(resolve("/w", "/a/../b"), Some("/a/../b".to_string()));
    assert_eq!(resolve("/w", "/./."), Some("/".to_string()));
    assert_eq!(resolve("/w", "/a/..."), Some("/a/...".to_string()));
}

#[test]
fn trailing_separator_is_kept() {
    assert_eq!(resolve("/w", "/a/b/"), Some("/a/b/".to_string()));
    assert_eq!(resolve("/w", "/a/b//"), Some("/a/b/".to_string()));
    assert_eq!(resolve("/w", "a/"), Some("/w/a/".to_string()));
    assert_eq!(resolve("/w", "/a/./"), Some("/a/".to_string()));
}

#[test]
fn two_leading_separators_are_kept_and_more_are_one() {
    assert_eq!(resolve("/w", "//a/b"), Some("//a/b".to_string()));
    assert_eq!(resolve("/w", "//"), Some("//".to_string()));
    assert_eq!(resolve("/w", "///a/b"), Some("/a/b".to_string()));
    assert_eq!(resolve("/w", "////"), Some("/".to_string()));
}

#[test]
fn no_path_where_none_can_be_made() {
    assert_eq!(resolve("/work", ""), None);
    assert_eq!(resolve("", ""), None);
    assert_eq!(resolve("work", "log"), None);
    assert_eq!(resolve("", "log"), None);
}

#[test]
fn relative_paths_stay_under_the_root() {
    assert_eq!(resolve_under("/srv/static", "iqps/uploaded"), "/srv/static/iqps/uploaded");
    assert_eq!(resolve_under("/srv/static/", "iqps/uploaded"), "/srv/static/iqps/uploaded");
    assert_eq!(resolve_under("/srv/static", "./iqps//uploaded/"), "/srv/static/iqps/uploaded/");
    assert_eq!(resolve_under("/srv/static", ""), "/srv/static/");
    assert_eq!(resolve_under("/srv/static", "."), "/srv/static");
    assert_eq!(resolve_under("/srv/static/", "."), "/srv/static");
    assert_eq!(resolve_under("/srv/static/", "./"), "/srv/static/");
    assert_eq!(resolve_under("/", "."), "/");
    assert_eq!(resolve_under("//", "."), "//");
    assert_eq!(resolve_under("/", "a"), "/a");
    assert_eq!(resolve_under("/srv/static", "/var/uploads"), "/var/uploads");
    for path in ["iqps/uploaded", "a", "a/b/", "./x", "..", ""] {
        let resolved = resolve_under("/srv/static", path);
        assert!(resolved.starts_with("/srv/static"), "path {:?}", path);
        assert!(
            resolved.len() == "/srv/static".len() || resolved.as_bytes()["/srv/static".len()] == b'/',
            "path {:?}",
            path
        );
        assert!(starts_at_root(&resolved));
    }
}

#[test]
fn a_name_that_only_starts_like_the_root_is_not_under_it() {
    assert_eq!(resolve_under("/srv/static", "foo"), "/srv/static/foo");
    assert_ne!(resolve_under("/srv/static", "foo"), "/srv/staticfoo");
    assert_eq!(resolve_under("/srv/static/", "foo"), "/srv/static/foo");
    assert_eq!(resolve("/srv/static", "foo"), Some("/srv/static/foo".to_string()));
}

#[test]
fn paths_need_not_be_text() {
    let base: &[u8] = b"/srv/\xff\xfe";
    let path: &[u8] = b"./up\x80loads//in/";
    assert_eq!(
        backend::path::resolve(base, path),
        Some(b"/srv/\xff\xfe/up\x80loads/in/".to_vec())
    );
    assert_eq!(
        backend::path::resolve_under(base, b"\xc3\x28"),
        b"/srv/\xff\xfe/\xc3\x28".to_vec()
    );
    assert_eq!(backend::path::resolve(b"/w", b"/\xff/./\xfe"), Some(b"/\xff/\xfe".to_vec()));
}

#[test]
fn separator_and_dot_are_the_usual_bytes() {
    assert_eq!(SEPARATOR, b'/');
    assert_eq!(DOT, b'.');
}

#[test]
fn agrees_with_the_standard_library_on_absolute_paths() {
    for path in [
        "/", "/a", "/a/b", "/a//b", "/a/./b", "/a/../b", "/a/b/", "/a/b/.", "/a/b/./", "//", "//a",
        "//a//b/", "///", "///a", "/./a", "/.", "/..", "/a/b/..", "/srv/static", "/.hidden/x",
        "/a/.../b",
    ] {
        let expected = text(std::path::absolute(path).unwrap());
        assert_eq!(resolve("/unused", path), Some(expected), "path {:?}", path);
    }
}

#[test]
fn agrees_with_the_standard_library_on_joined_paths() {
    for root in ["/srv/static", "/srv/static/", "/", "/a/b", "//", "//host/share", "/a/../b/"] {
        for path in [
            "iqps/uploaded", "iqps/uploaded/", "x", "./x", "x/./y//z", "", ".", "./", "./.", "..",
            "../", "/abs/path", "/abs/", "//abs", ".x", "x.",
        ] {
            let expected = text(std::path::absolute(Path::new(root).join(path)).unwrap());
            assert_eq!(resolve_under(root, path), expected, "root {:?} path {:?}", root, path);
        }
    }
}

#[test]
fn starts_at_root_tells_absolute_from_relative() {
    assert!(starts_at_root("/"));
    assert!(starts_at_root("/srv"));
    assert!(!starts_at_root(""));
    assert!(!starts_at_root("srv/"));
    assert!(!starts_at_root("./srv"));
}
