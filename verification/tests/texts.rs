use celeste::text::{
    ascii_lowercase, chars_of, contains, folder_prefix, is_blank, join3, replace_all, same, slice_of,
    split_parent, split_slashes, starts_with, to_decimal, to_two_digits, trim, trim_slashes,
};

#[test]
fn searches_agree_with_the_standard_library() {
    let words = ["", "a", "ab", "ba", "aba", "abab", "bb", "äb", "Äb/"];
    for hay in words {
        for needle in words {
            assert_eq!(contains(&chars_of(hay), needle), hay.contains(needle));
            assert_eq!(starts_with(hay, needle), hay.starts_with(needle));
            assert_eq!(same(hay, needle), hay == needle);
        }
        let low: String = ascii_lowercase(&chars_of(hay)).into_iter().collect();
        assert_eq!(low, hay.to_ascii_lowercase());
    }
}

#[test]
fn cuts_agree_with_the_standard_library() {
    for s in ["", "/", "//", "a", "/a", "a/", "/a/b/", "a//b", "ä/ö", "///a///"] {
        assert_eq!(trim_slashes(s), s.trim_matches('/'));
        let pieces: Vec<&str> = s.split('/').collect();
        assert_eq!(split_slashes(s), pieces);
        assert_eq!(split_slashes(s).join("/"), s);
        let (above, base) = s.rsplit_once('/').unwrap_or(("", s));
        assert_eq!(split_parent(s), (above.to_owned(), base.to_owned()));
    }
    for s in ["", " ", "\t\n", " a ", "a b", "\u{a0}x\u{2003}", "\u{200b}x"] {
        assert_eq!(trim(s), s.trim());
        assert_eq!(is_blank(s), s.trim().is_empty());
    }
    assert_eq!(slice_of(&chars_of("äbc"), 1, 3), "bc");
}

#[test]
fn replacements_agree_with_the_standard_library() {
    for s in ["", "a", "aa", "aaa", "xaay", "currentColor", "none"] {
        for from in ["a", "aa", "currentColor"] {
            assert_eq!(replace_all(s, from, "<>"), s.replace(from, "<>"));
        }
    }
}

#[test]
fn numbers_are_spelled_in_decimal() {
    for n in [0u128, 7, 10, 99, 100, 65_535, u128::MAX] {
        assert_eq!(to_decimal(n), n.to_string());
        assert_eq!(to_two_digits(n), format!("{n:02}"));
    }
    assert_eq!(join3("a", "b", "c"), "abc");
}

#[test]
fn trimming_again_changes_nothing() {
    for s in ["///a//b///", " x y\t", "", "/", "a"] {
        assert_eq!(trim_slashes(&trim_slashes(s)), trim_slashes(s));
        assert_eq!(trim(&trim(s)), trim(s));
    }
}

#[test]
fn a_path_is_its_parent_and_its_name() {
    for s in ["a/b/c", "/a", "a/", "a//b"] {
        let (above, base) = split_parent(s);
        assert_eq!(format!("{above}/{base}"), s);
        assert!(!base.contains('/'));
        assert_eq!(split_parent(&format!("top/{s}")).1, base);
    }
    assert_eq!(split_parent("plain"), (String::new(), "plain".to_owned()));
}

#[test]
fn white_space_is_what_unicode_says() {
    for c in '\0'..=char::MAX {
        let listed = matches!(
            c,
            '\u{9}'..='\u{d}' | ' ' | '\u{85}' | '\u{a0}' | '\u{1680}' | '\u{2000}'..='\u{200a}'
                | '\u{2028}' | '\u{2029}' | '\u{202f}' | '\u{205f}' | '\u{3000}'
        );
        assert_eq!(is_blank(&c.to_string()), listed, "{c:?}");
    }
    assert!(is_blank("  "));
}

#[test]
fn a_folder_has_one_slash_at_its_end() {
    assert_eq!(folder_prefix("a/b"), "a/b/");
    assert_eq!(folder_prefix("a/b/"), "a/b/");
    assert_eq!(folder_prefix("/"), "/");
    assert_eq!(folder_prefix(""), "/");
}
