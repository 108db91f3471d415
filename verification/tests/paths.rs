use memfs::names::{is_valid_name, name_less, names_equal};
use memfs::Path;

fn units(s: &str) -> Vec<u16> {
    widestring::U16String::from_str(s).into_vec()
}

#[test]
fn root_is_the_empty_path() {
    let root = Path::root();
    assert!(root.is_root());
    assert_eq!(root.depth(), 0);
    assert!(root.parent().is_none());
    assert!(root.file_name().is_none());
    assert_eq!(Path::from_str("/"), Some(Path::root()));
}

#[test]
fn parse_splits_at_the_separator() {
    let p = Path::from_str("/docs/a.txt").unwrap();
    assert_eq!(p.depth(), 2);
    assert_eq!(p.component(0), units("docs").as_slice());
    assert_eq!(p.component(1), units("a.txt").as_slice());
    assert_eq!(p.file_name(), Some(units("a.txt").as_slice()));
    assert_eq!(p.parent(), Path::from_str("/docs"));
    assert_eq!(Path::parse(&units("/docs/a.txt")), Some(p));
}

#[test]
fn parse_rejects_what_is_not_an_absolute_path_of_valid_names() {
    assert_eq!(Path::from_str(""), None);
    assert_eq!(Path::from_str("docs"), None);
    assert_eq!(Path::from_str("docs/a"), None);
    assert_eq!(Path::from_str("//"), None);
    assert_eq!(Path::from_str("/a//b"), None);
    assert_eq!(Path::from_str("/a/"), None);
    assert_eq!(Path::from_str("/."), None);
    assert_eq!(Path::from_str("/a/../b"), None);
    assert_eq!(Path::from_str("/a/./b"), None);
    assert!(Path::from_str("/...").is_some());
    assert!(Path::from_str("/.a").is_some());
}

#[test]
fn parse_with_another_separator() {
    let p = Path::parse_with_separator(&units("\\docs\\a.txt"), 0x5C).unwrap();
    assert_eq!(Some(p), Path::from_str("/docs/a.txt"));
    assert_eq!(Path::parse_with_separator(&units("\\"), 0x5C), Some(Path::root()));
    assert_eq!(Path::parse_with_separator(&units("\\a/b"), 0x5C), None);
    assert_eq!(Path::parse_with_separator(&units("/a"), 0x5C), None);
}

#[test]
fn from_str_encodes_as_utf16() {
    let p = Path::from_str("/\u{e9}\u{1F600}").unwrap();
    assert_eq!(p.component(0), &[0x00E9, 0xD83D, 0xDE00]);
    assert_eq!(p.component(0), units("\u{e9}\u{1F600}").as_slice());
}

#[test]
fn paths_are_case_sensitive() {
    assert_ne!(Path::from_str("/Docs"), Path::from_str("/docs"));
    assert!(!Path::from_str("/Docs").unwrap().equals(&Path::from_str("/docs").unwrap()));
    assert!(Path::from_str("/docs").unwrap().equals(&Path::from_str("/docs").unwrap()));
}

#[test]
fn names_have_a_greatest_length() {
    let long: String = std::iter::repeat('a').take(255).collect();
    let too_long: String = std::iter::repeat('a').take(256).collect();
    assert!(is_valid_name(&units(&long)));
    assert!(!is_valid_name(&units(&too_long)));
    assert!(Path::root().join(&units(&long)).is_some());
    assert!(Path::root().join(&units(&too_long)).is_none());
}

#[test]
fn valid_names() {
    assert!(is_valid_name(&units("a")));
    assert!(is_valid_name(&units("a..")));
    assert!(is_valid_name(&units("a\\b")));
    assert!(!is_valid_name(&units("")));
    assert!(!is_valid_name(&units(".")));
    assert!(!is_valid_name(&units("..")));
    assert!(!is_valid_name(&units("a/b")));
    assert!(!is_valid_name(&units("/")));
}

#[test]
fn join_and_parent_are_inverse() {
    let docs = Path::from_str("/docs").unwrap();
    let child = docs.join(&units("x")).unwrap();
    assert_eq!(Some(child.clone()), Path::from_str("/docs/x"));
    assert_eq!(child.parent(), Some(docs.clone()));
    assert!(child.is_child_of(&docs));
    assert!(!docs.is_child_of(&docs));
    assert!(!child.is_child_of(&Path::root()));
    assert!(docs.is_child_of(&Path::root()));
    assert!(docs.join(&units("..")).is_none());
}

#[test]
fn starts_with_goes_by_components() {
    let foo = Path::from_str("/foo").unwrap();
    assert!(Path::from_str("/foo").unwrap().starts_with(&foo));
    assert!(Path::from_str("/foo/bar/baz").unwrap().starts_with(&foo));
    assert!(!Path::from_str("/foobar").unwrap().starts_with(&foo));
    assert!(!Path::from_str("/fo").unwrap().starts_with(&foo));
    assert!(!Path::root().starts_with(&foo));
    assert!(foo.starts_with(&Path::root()));
}

#[test]
fn rebase_replaces_the_prefix_once() {
    let a = Path::from_str("/a").unwrap();
    let b = Path::from_str("/b/c").unwrap();
    let p = Path::from_str("/a/x/a/y").unwrap();
    assert_eq!(Some(p.rebase(&a, &b)), Path::from_str("/b/c/x/a/y"));
    assert_eq!(a.rebase(&a, &b), b);
    assert_eq!(Some(p.rebase(&Path::root(), &b)), Path::from_str("/b/c/a/x/a/y"));
    assert_eq!(Some(p.rebase(&a, &Path::root())), Path::from_str("/x/a/y"));
}

#[test]
fn names_are_ordered_by_code_unit() {
    let lt = |a: &str, b: &str| name_less(&units(a), &units(b));
    assert!(lt("a", "b"));
    assert!(!lt("b", "a"));
    assert!(!lt("a", "a"));
    assert!(lt("a", "aa"));
    assert!(!lt("aa", "a"));
    assert!(lt("", "a"));
    assert!(!lt("", ""));
    assert!(lt("B", "a"));
    assert!(lt("-x", "."));
    assert!(lt(".", ".."));
    assert!(lt("..", "a"));
    assert!(lt("abc", "abd"));
    assert!(lt("ab", "abc"));
    // By code unit, a surrogate pair comes before a high code point of the
    // basic plane.
    assert!(lt("\u{1F600}", "\u{FFFD}"));
    assert!(names_equal(&units("abc"), &units("abc")));
    assert!(!names_equal(&units("abc"), &units("abd")));
    assert!(!names_equal(&units("abc"), &units("ab")));
}

#[test]
fn name_order_agrees_with_the_order_of_wide_strings() {
    let names = ["", "a", "A", "ab", "b", ".", "..", "-", "z\u{e9}", "\u{1F600}", "\u{FFFD}"];
    for a in names {
        for b in names {
            let wa = widestring::U16String::from_str(a);
            let wb = widestring::U16String::from_str(b);
            assert_eq!(name_less(wa.as_slice(), wb.as_slice()), wa < wb, "{a:?} {b:?}");
        }
    }
}

#[test]
fn utf16_encoding_agrees_with_the_standard_one() {
    let samples = [
        "",
        "abc",
        "\u{0}",
        "\u{7f}\u{80}\u{7ff}\u{800}",
        "\u{d7ff}\u{e000}\u{ffff}",
        "\u{10000}\u{10001}\u{103ff}\u{10400}\u{1F600}\u{10ffff}",
        "mixed \u{e9}\u{4e2d}\u{1F980} text",
    ];
    for s in samples {
        let expected: Vec<u16> = s.encode_utf16().collect();
        assert_eq!(memfs::path::encode_utf16(s), expected, "{s:?}");
        assert_eq!(memfs::path::encode_utf16(s), units(s));
    }
    assert_eq!(memfs::path::encode_utf16("\u{10000}"), [0xD800, 0xDC00]);
    assert_eq!(memfs::path::encode_utf16("\u{10ffff}"), [0xDBFF, 0xDFFF]);
}

#[test]
fn a_path_is_spelled_as_it_is_read() {
    assert_eq!(Path::root().to_units(), units("/"));
    for s in ["/a", "/docs/a.txt", "/a/b/c/d", "/\u{e9}/\u{1F600}", "/a\\b"] {
        let p = Path::from_str(s).unwrap();
        assert_eq!(p.to_units(), units(s));
        assert_eq!(Path::parse(&p.to_units()), Some(p));
    }
    let p = Path::parse_with_separator(&units("\\x\\y"), 0x5C).unwrap();
    assert_eq!(p.to_units(), units("/x/y"));
}
