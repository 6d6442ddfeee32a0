use recstrap::text::{
    char_is_whitespace, decimal_string, hex_string, join, join_strings, signed_decimal_string,
    str_contains, str_equal, to_chars, trim,
};

#[test]
fn chars_are_those_of_the_string() {
    assert_eq!(to_chars("a/ö"), vec!['a', '/', 'ö']);
    assert_eq!(to_chars(""), Vec::<char>::new());
}

#[test]
fn equal_strings_are_equal() {
    assert!(str_equal("lost+found", "lost+found"));
    assert!(str_equal("", ""));
    assert!(!str_equal("lost+found", "lost+foun"));
    assert!(!str_equal("a", "b"));
}

#[test]
fn join_puts_the_separator_between() {
    assert_eq!(join(&[], ", "), "");
    assert_eq!(join(&["bin"], ", "), "bin");
    assert_eq!(join(&["bin", "usr"], ", "), "bin, usr");
    assert_eq!(join(&["a", "", "c"], "-"), "a--c");
    assert_eq!(join(&["a", "b", "c"], ""), "abc");
    let owned = vec!["104".to_string(), "115".to_string()];
    assert_eq!(join_strings(&owned, ", "), "104, 115");
    assert_eq!(join_strings(&vec![], ", "), "");
}

#[test]
fn decimal_is_that_of_std() {
    for n in [0u64, 1, 9, 10, 11, 99, 100, 512, 2048, 65535, 4_294_967_295, u64::MAX] {
        assert_eq!(decimal_string(n), n.to_string());
    }
    assert_eq!(decimal_string(2048), "2048");
}

#[test]
fn signed_decimal_is_that_of_std() {
    for n in [0i32, 1, -1, 9, -9, 10, -10, 127, 255, -255, i32::MAX, i32::MIN] {
        assert_eq!(signed_decimal_string(n), n.to_string());
    }
    assert_eq!(signed_decimal_string(-1), "-1");
    assert_eq!(signed_decimal_string(32), "32");
}

#[test]
fn hex_is_zero_padded_lower_case() {
    for n in [0u32, 1, 0xf, 0x10, 0xabcdef, 0xe0f5e1e2, 0x45504f4e, u32::MAX] {
        assert_eq!(hex_string(n, 8), format!("{:08x}", n));
    }
    assert_eq!(hex_string(0xe0f5e1e2, 8), "e0f5e1e2");
    assert_eq!(hex_string(0xab, 2), "ab");
    assert_eq!(hex_string(0xabc, 2), "bc");
    assert_eq!(hex_string(7, 0), "");
}

#[test]
fn whitespace_is_that_of_std() {
    for n in 0..=0x10ffffu32 {
        if let Some(c) = char::from_u32(n) {
            assert_eq!(char_is_whitespace(c), c.is_whitespace(), "U+{:04X}", n);
        }
    }
}

#[test]
fn trim_is_that_of_std() {
    for s in [
        "",
        " ",
        "a",
        " a",
        "a ",
        "  a b  ",
        "\t\n exit code 1 \r\n",
        "\u{a0}x\u{2003}",
        "\u{3000}\u{1680}",
        "no-trim",
        " ünï cödé ",
    ] {
        assert_eq!(trim(s), s.trim(), "trim of {:?}", s);
    }
    assert_eq!(trim("  exit code 1 \n"), "exit code 1");
}

#[test]
fn contains_is_that_of_std() {
    let hays = ["", "erofs", "nodev\terofs\n", "erof", "xerofsx", "ererofs", "e r o f s", "erofö"];
    let needles = ["", "erofs", "e", "fs", "ro", "x", "ö"];
    for hay in hays {
        for needle in needles {
            assert_eq!(str_contains(hay, needle), hay.contains(needle), "{:?} in {:?}", needle, hay);
        }
    }
    assert!(str_contains("\text4\n\terofs\n", "erofs"));
    assert!(!str_contains("\text4\n", "erofs"));
}
