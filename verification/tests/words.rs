use eightvoice::text::{decimal_text, is_blank, is_whitespace, same_text, trim};

#[test]
fn white_space_is_that_of_unicode() {
    for n in 0..=0x10ffffu32 {
        if let Some(c) = char::from_u32(n) {
            assert_eq!(is_whitespace(c), c.is_whitespace(), "{n:x}");
        }
    }
}

#[test]
fn trim_takes_white_space_from_both_ends() {
    for s in [
        "", " ", "\t\n", "a", " a", "a ", "  iki söz  ", "\u{3000}ç ğ\u{85}", "a\u{200b}", "\u{200b} a",
        "x \n y", "\u{a0}\u{2003}",
    ] {
        assert_eq!(trim(s), s.trim());
        assert_eq!(trim(trim(s).as_str()), trim(s));
        assert_eq!(is_blank(s), s.trim().is_empty());
        assert_eq!(is_blank(s), trim(s).is_empty());
    }
}

#[test]
fn same_text_compares_contents() {
    assert!(same_text("auto", "auto"));
    assert!(!same_text("auto", "Auto"));
    assert!(!same_text("auto", "auto "));
    assert!(same_text("", ""));
}

#[test]
fn decimal_text_has_no_leading_zeros() {
    for n in [0u64, 7, 9, 10, 11, 99, 100, 255, 1200, 4294967296, u64::MAX] {
        assert_eq!(decimal_text(n), n.to_string());
    }
}
