use notox::check_similar;

#[test]
fn test_check_similars_void() {
    let res = check_similar(None, &mut String::new(), false);
    assert!(!res);
}

#[test]
fn test_check_similar_keeps_letters() {
    let mut acc = String::new();
    let res = check_similar(Some('Ⓐ'), &mut acc, false);
    assert_eq!(acc, "A");
    assert!(!res);
}

#[test]
fn test_check_similar_ligature_pair() {
    let mut acc = String::new();
    let res = check_similar(Some('Ꜳ'), &mut acc, false);
    assert_eq!(acc, "AA");
    assert!(!res);
    let mut acc = String::new();
    let res = check_similar(Some('Æ'), &mut acc, false);
    assert_eq!(acc, "AE");
    assert!(!res);
    let mut acc = String::new();
    let res = check_similar(Some('æ'), &mut acc, true);
    assert_eq!(acc, "ae");
    assert!(!res);
}

#[test]
fn test_check_similar_collapse_respects_flag() {
    let mut acc = String::new();
    let res = check_similar(Some('✨'), &mut acc, false);
    assert_eq!(acc, "_");
    assert!(res);
    let mut acc = String::new();
    let res = check_similar(Some('✨'), &mut acc, true);
    assert_eq!(acc, "");
    assert!(res);
}

#[test]
fn test_check_similar_mark_ignored() {
    let mut acc = String::new();
    let res = check_similar(Some('\u{0301}'), &mut acc, true);
    assert_eq!(acc, "");
    assert!(!res);
}

#[test]
fn test_check_similar_en_dash() {
    let mut acc = String::new();
    check_similar(Some('–'), &mut acc, false);
    assert_eq!(acc, "-");
}
