use app_blocker::text::TextPredicate;

fn leaves(literal: &str) -> Vec<TextPredicate> {
    vec![
        TextPredicate::starts_with(literal),
        TextPredicate::ends_with(literal),
        TextPredicate::contains(literal),
        TextPredicate::exact(literal),
    ]
}

#[test]
fn leaves_ignore_ascii_case_of_candidate() {
    let candidates = ["notepad.exe", "Notepad.EXE", "", "x", "Pad", "NOTEPAD.EXE", "other"];
    for literal in ["notepad.exe", "NotePad", "EXE", "pad", ""] {
        for p in leaves(literal) {
            for c in candidates {
                assert_eq!(p.test(c), p.test(&c.to_uppercase()), "{:?} on {:?}", p, c);
            }
        }
    }
}

#[test]
fn leaves_match_as_documented() {
    assert!(TextPredicate::starts_with("Note").test("NOTEPAD.exe"));
    assert!(!TextPredicate::starts_with("pad").test("notepad.exe"));
    assert!(TextPredicate::ends_with(".EXE").test("notepad.exe"));
    assert!(!TextPredicate::ends_with("note").test("notepad.exe"));
    assert!(TextPredicate::contains("TEPA").test("notepad.exe"));
    assert!(!TextPredicate::contains("xyz").test("notepad.exe"));
    assert!(TextPredicate::exact("Notepad.exe").test("NOTEPAD.EXE"));
    assert!(!TextPredicate::exact("notepad").test("notepad.exe"));
}

#[test]
fn unicode_lowercasing_reaches_the_literal() {
    // Full lowercasing applies to both sides of the substring leaves.
    assert!(TextPredicate::starts_with("ÄB").test("äbc"));
    assert!(TextPredicate::contains("ÖL").test("Kölsch"));
    // `Exact` only folds ASCII letters of its literal.
    assert!(!TextPredicate::exact("ÄBC").test("äbc"));
    assert!(TextPredicate::exact("äBC").test("ÄBC"));
}

#[test]
fn boolean_combinators_follow_their_operands() {
    let candidates = ["Chrome.exe", "firefox.exe", "", "chrome-helper", "CHROME"];
    for c in candidates {
        let a = TextPredicate::starts_with("chrome");
        let b = TextPredicate::ends_with(".exe");
        let expected = a.test(c) && b.test(c);
        assert_eq!((a & b).test(c), expected);

        let a = TextPredicate::starts_with("chrome");
        let b = TextPredicate::ends_with(".exe");
        let expected = a.test(c) || b.test(c);
        assert_eq!((a | b).test(c), expected);

        let a = TextPredicate::contains("fox");
        let expected = !a.test(c);
        assert_eq!((!a).test(c), expected);

        let a = TextPredicate::contains("fox");
        let expected = a.test(c);
        assert_eq!((!!a).test(c), expected);
    }
}

#[test]
fn named_combinators_agree_with_operators() {
    let p = TextPredicate::exact("a").or(TextPredicate::exact("b")).and(TextPredicate::contains("c").negate());
    assert!(p.test("A"));
    assert!(p.test("b"));
    assert!(!p.test("c"));
    assert!(!p.test("d"));
}

#[test]
fn empty_literals_match_everything() {
    for c in ["", "a", "Notepad.EXE", "ÄÖÜ"] {
        assert!(TextPredicate::starts_with("").test(c));
        assert!(TextPredicate::ends_with("").test(c));
        assert!(TextPredicate::contains("").test(c));
    }
    assert!(TextPredicate::exact("").test(""));
    assert!(!TextPredicate::exact("").test("a"));
}

#[test]
fn boolean_laws_hold_beyond_ascii() {
    for c in ["İstanbul", "ΣΟΦΙΑ", "Kölsch", "straße"] {
        let a = TextPredicate::contains("ö");
        let b = TextPredicate::starts_with("i̇");
        let expected = a.test(c) && b.test(c);
        assert_eq!((a & b).test(c), expected);

        let a = TextPredicate::contains("σ");
        let b = TextPredicate::ends_with("SSE");
        let expected = a.test(c) || b.test(c);
        assert_eq!((a | b).test(c), expected);

        let a = TextPredicate::exact("straße");
        let expected = a.test(c);
        assert_eq!((!!a).test(c), expected);
    }
}
