use mdsite::template::{compose, replace_all};

#[test]
fn replace_all_replaces_every_occurrence() {
    let s = b"xabyabz".to_vec();
    let pat = b"ab".to_vec();
    let rep = b"Q".to_vec();
    assert_eq!(replace_all(&s, &pat, &rep), b"xQyQz".to_vec());
}

#[test]
fn replace_all_without_occurrence_is_identity() {
    let s = b"nothing to see".to_vec();
    let pat = b"zz".to_vec();
    let rep = b"!".to_vec();
    assert_eq!(replace_all(&s, &pat, &rep), s);
}

#[test]
fn replace_all_scans_left_to_right_without_overlap() {
    let s = b"aaa".to_vec();
    let pat = b"aa".to_vec();
    let rep = b"b".to_vec();
    assert_eq!(replace_all(&s, &pat, &rep), b"ba".to_vec());
}

#[test]
fn compose_fills_all_six_markers() {
    let skeleton = "<style><<<PUT THE STYLESHEET HERE>>></style><title><<<PUT THE TITLE HERE>>></title><meta desc=\"<<<PUT THE DESCRIPTION HERE>>>\"><link icon=\"<<<PUT THE FAVICON HERE>>>\"><<<PUT THE HEADER HERE>>><body><<<PUT THE MAIN CONTENT HERE>>></body>"
        .as_bytes()
        .to_vec();
    let out = compose(
        &skeleton,
        &b"css".to_vec(),
        &b"BODY".to_vec(),
        &b"HEAD".to_vec(),
        &b"ICO".to_vec(),
        &b"Hi".to_vec(),
        &b"Desc".to_vec(),
    );
    let expected = "<style>css</style><title>Hi</title><meta desc=\"Desc\"><link icon=\"ICO\">HEAD<body>BODY</body>";
    assert_eq!(String::from_utf8(out).unwrap(), expected);
}

#[test]
fn unmatched_marker_left_verbatim() {
    let skeleton = b"<<<PUT THE TITLE HERE>>> and <<<SOME UNKNOWN MARKER>>>".to_vec();
    let empty = Vec::new();
    let out = compose(
        &skeleton,
        &empty,
        &empty,
        &empty,
        &empty,
        &b"T".to_vec(),
        &empty,
    );
    assert_eq!(String::from_utf8(out).unwrap(), "T and <<<SOME UNKNOWN MARKER>>>");
}
