use notox::clean_name;

fn clean(s: &str) -> Vec<u8> {
    clean_name(&s.as_bytes().to_vec())
}

fn clean_bytes(b: &[u8]) -> Vec<u8> {
    clean_name(&b.to_vec())
}

#[test]
fn idempotence_on_normalized_names() {
    for name in ["my_file.ext", "my-file.ext", "my.file.ext", "abc123", ""] {
        assert_eq!(clean(name), name.as_bytes().to_vec());
        let once = clean(name);
        assert_eq!(clean_bytes(&once), once);
    }
}

#[test]
fn separator_runs_collapse_to_one_underscore() {
    assert_eq!(clean("my file.ext"), b"my_file.ext".to_vec());
    assert_eq!(clean("my??file.ext"), b"my_file.ext".to_vec());
    assert_eq!(clean("my? ?file.ext"), b"my_file.ext".to_vec());
    assert_eq!(clean("a   b"), b"a_b".to_vec());
}

#[test]
fn no_leading_underscore() {
    assert_eq!(clean("  a"), b"a".to_vec());
    assert_eq!(clean("?x"), b"x".to_vec());
}

#[test]
fn dot_absorbs_preceding_separators() {
    assert_eq!(clean("my?..file"), b"my_..file".to_vec());
    assert_eq!(clean("a?.b"), b"a_.b".to_vec());
    assert_eq!(clean("a-?.b"), b"a-.b".to_vec());
}

#[test]
fn hyphen_needs_preceding_content() {
    assert_eq!(clean("a-b"), b"a-b".to_vec());
    assert_eq!(clean("a--b"), b"a-b".to_vec());
    assert_eq!(clean("-a"), b"a".to_vec());
    assert_eq!(clean("a?-b"), b"a_b".to_vec());
}

#[test]
fn letters_fold_to_their_base() {
    assert_eq!(clean("Ⓐx"), b"Ax".to_vec());
    assert_eq!(clean("Ａx"), b"Ax".to_vec());
    assert_eq!(clean("Àx"), b"Ax".to_vec());
    assert_eq!(clean("àx"), b"ax".to_vec());
    assert_eq!(clean("Æon"), b"AEon".to_vec());
    assert_eq!(clean("ǽx"), b"aex".to_vec());
    assert_eq!(clean("Œuf"), b"OEuf".to_vec());
    assert_eq!(clean("ǄÇß"), b"DZCs".to_vec());
    assert_eq!(clean("ꜳ"), b"aa".to_vec());
}

#[test]
fn en_dash_folds_to_literal_hyphen() {
    assert_eq!(clean("a–b"), b"a-b".to_vec());
    assert_eq!(clean("a–.b"), b"a-.b".to_vec());
}

#[test]
fn combining_marks_are_deleted() {
    // a base letter followed by a combining acute accent
    assert_eq!(clean("e\u{0301}x"), b"ex".to_vec());
    // the deleted mark does not force a separator before a following space
    assert_eq!(clean("e\u{0301} x"), b"e_x".to_vec());
    assert_eq!(clean("a\u{1AB0}b"), b"ab".to_vec());
    assert_eq!(clean("a\u{1DC0}b"), b"ab".to_vec());
}

#[test]
fn unmapped_scalars_collapse_like_separators() {
    assert_eq!(clean("a✨b"), b"a_b".to_vec());
    assert_eq!(clean("a✨✨b"), b"a_b".to_vec());
    assert_eq!(clean("✨a"), b"a".to_vec());
    assert_eq!(clean("a💣b"), b"a_b".to_vec());
    assert_eq!(clean("my\u{4E00}file.ext"), b"my_file.ext".to_vec());
    // a run mixing ASCII separators and unmapped scalars still collapses
    // into the one underscore
    assert_eq!(clean("a ✨ b"), b"a_b".to_vec());
    assert_eq!(clean("a✨ ✨b"), b"a_b".to_vec());
}

#[test]
fn nul_byte_is_a_separator_for_folding() {
    assert_eq!(clean_bytes(b"my\x00file"), b"my_file".to_vec());
}

#[test]
fn invalid_utf8_is_consumed_without_emission() {
    // a lone continuation byte pairs with the next byte; 0x80 0x41 packs to
    // U+0001, which is a valid scalar in the separator class of nothing --
    // it is unmapped, so it collapses
    assert_eq!(clean_bytes(&[b'a', 0x80, 0x41, b'b']), b"a_b".to_vec());
    // a three-byte surrogate encoding decodes to no scalar: nothing is
    // emitted and the content flag is untouched
    assert_eq!(clean_bytes(&[b'a', 0xED, 0xA0, 0x80, b'b']), b"ab".to_vec());
    // a truncated sequence at the end of input is dropped
    assert_eq!(clean_bytes(&[b'a', 0xC3]), b"a".to_vec());
    // a failed decode between two separators leaves the collapsing state
    // alone: the two separators still fold into the one underscore
    assert_eq!(
        clean_bytes(&[b'a', b' ', 0xED, 0xA0, 0x80, b' ', b'b']),
        b"a_b".to_vec()
    );
}

#[test]
fn empty_name_stays_empty() {
    assert_eq!(clean(""), b"".to_vec());
}

#[test]
fn circled_and_fullwidth_digits_are_unmapped() {
    // only letters have decorated families in the table; decorated digits
    // collapse like any other unmapped scalar
    assert_eq!(clean("a①b"), b"a_b".to_vec());
    assert_eq!(clean("a１b"), b"a_b".to_vec());
}

#[test]
fn all_two_byte_letters_fold_deterministically() {
    // folding is a pure function of the scalar: two runs agree
    for c in ['é', 'ø', 'ñ', 'ß', 'ö', 'ü'] {
        let name = format!("x{}y", c);
        let first = clean(&name);
        let second = clean(&name);
        assert_eq!(first, second);
    }
}
