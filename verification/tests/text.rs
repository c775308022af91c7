use microsandbox_core::path::FsPath;
use microsandbox_core::text::{contains_text, decimal_text, hex_text, lossy_text, same_text};

#[test]
fn numbers_are_written_in_decimal() {
    for n in [0, 7, 10, 99, 100, 1_000_007, u64::MAX] {
        assert_eq!(decimal_text(n), format!("{}", n));
    }
}

#[test]
fn bytes_are_written_in_hexadecimal() {
    assert_eq!(hex_text(&[]), "");
    assert_eq!(hex_text(&[0x0a, 0x14, 0x1e]), "0a141e");
    for byte in 0..=255u8 {
        assert_eq!(hex_text(&[byte]), format!("{:02x}", byte));
    }
}

#[test]
fn text_is_found_in_text() {
    for (text, part) in [
        ("", ""),
        ("a", ""),
        ("", "a"),
        ("aab", "ab"),
        ("abab", "abb"),
        ("f\u{fc}r", "\u{fc}"),
        ("xyz", "xyz"),
        ("xy", "xyz"),
    ] {
        assert_eq!(contains_text(text, part), text.contains(part));
        assert_eq!(same_text(text, part), text == part);
    }
}

#[test]
fn invalid_bytes_are_replaced() {
    for bytes in [&b"plain"[..], b"", b"\xc3\xa9", b"a\xff\xfeb", b"\xe2\x82", b"\xed\xa0\x80"] {
        assert_eq!(lossy_text(bytes), String::from_utf8_lossy(bytes));
    }
}

#[test]
fn paths_join_as_the_standard_library_joins_them() {
    for base in ["", "/", "a", "a/", "/a/b", "/a//"] {
        for part in ["", "x", "x/y", "/", "/abs", "."] {
            let joined = std::path::Path::new(base).join(part);
            assert_eq!(
                FsPath::from_text(base).join(part),
                FsPath::from_text(joined.to_str().unwrap())
            );
        }
    }
}

#[test]
fn parents_are_those_of_the_standard_library() {
    let alphabet = ['/', '.', 'a', 'b'];
    for length in 0..7u32 {
        for code in 0..4usize.pow(length) {
            let mut name = String::new();
            let mut rest = code;
            for _ in 0..length {
                name.push(alphabet[rest % 4]);
                rest /= 4;
            }
            let parent = std::path::Path::new(&name).parent().map(|parent| {
                match parent.to_str().unwrap() {
                    "" => FsPath::from_text("."),
                    text => FsPath::from_text(text),
                }
            });
            assert_eq!(FsPath::from_text(&name).parent(), parent, "{:?}", name);
        }
    }
}

#[test]
fn parents_drop_the_last_component() {
    let parent = |text: &str| {
        FsPath::from_text(text).parent().map(|directory| directory.to_string_lossy())
    };
    assert_eq!(parent("/a/b.img"), Some("/a".to_string()));
    assert_eq!(parent("/a//b/./"), Some("/a".to_string()));
    assert_eq!(parent("/b"), Some("/".to_string()));
    assert_eq!(parent("b"), Some(".".to_string()));
    assert_eq!(parent("/"), None);
    assert_eq!(parent(""), None);
}

#[test]
fn the_text_of_a_path_is_kept() {
    let made = FsPath::from_text("/h\u{e9}/\u{1f600}").join("x");
    assert_eq!(made.to_string_lossy(), "/h\u{e9}/\u{1f600}/x");
    assert_eq!(made.as_bytes(), &made.to_bytes());
    assert_eq!(made.clone(), made);
}
