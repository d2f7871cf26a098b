//! Path composition against the standard library's.

use sandbox::path::{contains_nul, join, join_under};
use sandbox::text::{bytes_equal, str_equal, strip_prefix};
use std::path::Path;

fn expected(root: &str, path: &str) -> Vec<u8> {
    let path = Path::new(path);
    let stripped = path.strip_prefix("/").unwrap_or(path);
    Path::new(root)
        .join(stripped)
        .as_os_str()
        .as_encoded_bytes()
        .to_vec()
}

#[test]
fn join_under_agrees_with_std() {
    let roots = ["/tmp/.sandbox-root", "/tmp/", "/", "", "relative", "a//"];
    let paths = [
        "/bin", "/", "//", "", "bin", "bin/", "/usr/lib", "/usr//lib/", "/usr/./lib/.", "/./",
        "/.", "/..", "/../etc", "/a/../b", ".", "./a", "/.hidden", "/a.", "/a/.b", "/...", "//a//",
        "/a/b/././", "/.//.//a", "é", "/é/ü/",
    ];
    for root in roots {
        for path in paths {
            assert_eq!(
                join_under(root.as_bytes(), path.as_bytes()),
                expected(root, path),
                "{root:?} {path:?}"
            );
        }
    }
}

#[test]
fn join_under_re_roots_a_grant() {
    assert_eq!(
        join_under(b"/tmp/.sandbox-root", b"/bin"),
        b"/tmp/.sandbox-root/bin"
    );
}

#[test]
fn join_under_names_the_same_components() {
    let names = |bytes: &[u8]| -> Vec<Vec<u8>> {
        bytes
            .split(|&b| b == b'/')
            .filter(|c| !c.is_empty() && *c != b".")
            .map(|c| c.to_vec())
            .collect()
    };
    let root = b"/tmp/.sandbox-root";
    for path in [&b"/usr//lib/./x/"[..], b"/..//./a", b"rel/a"] {
        let mut whole = names(root);
        whole.extend(names(path));
        assert_eq!(names(&join_under(root, path)), whole);
    }
}

#[test]
fn join_adds_one_separator() {
    assert_eq!(join(b"/a", b"b"), b"/a/b");
    assert_eq!(join(b"/a/", b"b"), b"/a/b");
    assert_eq!(join(b"", b"b"), b"b");
    assert_eq!(join(b"/a", b""), b"/a/");
}

#[test]
fn zero_bytes_are_found() {
    assert!(contains_nul(b"/a\0b"));
    assert!(contains_nul(b"\0"));
    assert!(!contains_nul(b"/ab"));
    assert!(!contains_nul(b""));
}

#[test]
fn strings_compare_by_their_characters() {
    assert!(str_equal("é", "é"));
    assert!(!str_equal("e", "é"));
    assert!(!str_equal("vm", "vmm"));
    assert!(bytes_equal(b"", b""));
    assert!(!bytes_equal(b"a", b"b"));
}

#[test]
fn prefixes_are_stripped_by_character() {
    assert_eq!(strip_prefix("--role=vm", "--role="), Some("vm"));
    assert_eq!(strip_prefix("--role=", "--role="), Some(""));
    assert_eq!(strip_prefix("--rol", "--role="), None);
    assert_eq!(strip_prefix("x--role=vm", "--role="), None);
    assert_eq!(strip_prefix("éa", "é"), Some("a"));
    assert_eq!(strip_prefix("ab", ""), Some("ab"));
}
