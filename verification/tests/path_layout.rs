use mdsite::errors::Error;
use mdsite::paths::{
    dir_part, file_name_part, is_markdown_path, join_path, missing_index_dirs, output_path_for,
    with_html_ext,
};

#[test]
fn join_path_glues_with_separator() {
    assert_eq!(
        join_path(&b"content".to_vec(), &b"a/b.md".to_vec()),
        b"content/a/b.md".to_vec()
    );
}

#[test]
fn join_path_keeps_trailing_separator() {
    assert_eq!(
        join_path(&b"content/".to_vec(), &b"x.md".to_vec()),
        b"content/x.md".to_vec()
    );
}

#[test]
fn join_path_absolute_right_side_wins() {
    assert_eq!(
        join_path(&b"content".to_vec(), &b"/etc/x".to_vec()),
        b"/etc/x".to_vec()
    );
}

#[test]
fn with_html_ext_replaces_extension() {
    assert_eq!(with_html_ext(&b"a/b.md".to_vec()), b"a/b.html".to_vec());
    assert_eq!(with_html_ext(&b"a.b/c".to_vec()), b"a.b/c.html".to_vec());
}

#[test]
fn output_path_mirrors_under_output_root() {
    let got = output_path_for(
        &b"content".to_vec(),
        &b"out".to_vec(),
        &b"content/blog/post.md".to_vec(),
    )
    .unwrap();
    assert_eq!(got, b"out/blog/post.html".to_vec());
}

#[test]
fn output_path_outside_content_root_is_rejected() {
    let got = output_path_for(
        &b"content".to_vec(),
        &b"out".to_vec(),
        &b"elsewhere/post.md".to_vec(),
    );
    assert!(matches!(got, Err(Error::StripPrefix(p)) if p == b"elsewhere/post.md".to_vec()));
}

#[test]
fn output_path_prefix_must_end_at_a_boundary() {
    let got = output_path_for(&b"c".to_vec(), &b"o".to_vec(), &b"cx.md".to_vec());
    assert!(matches!(got, Err(Error::StripPrefix(p)) if p == b"cx.md".to_vec()));
    let got = output_path_for(&b"c".to_vec(), &b"o".to_vec(), &b"c/x.md".to_vec());
    assert_eq!(got.unwrap(), b"o/x.html".to_vec());
    let got = output_path_for(&b"c/".to_vec(), &b"o".to_vec(), &b"c/x.md".to_vec());
    assert_eq!(got.unwrap(), b"o/x.html".to_vec());
}

#[test]
fn markdown_extension_detected_case_insensitively() {
    assert!(is_markdown_path(&b"a/b.md".to_vec()));
    assert!(is_markdown_path(&b"a/b.MD".to_vec()));
    assert!(is_markdown_path(&b"a/b.Md".to_vec()));
    assert!(!is_markdown_path(&b"a/b.txt".to_vec()));
    assert!(!is_markdown_path(&b"a/md".to_vec()));
    assert!(!is_markdown_path(&b".md".to_vec()));
}

#[test]
fn dir_and_file_name_parts() {
    assert_eq!(dir_part(&b"out/a/x.html".to_vec()), b"out/a/".to_vec());
    assert_eq!(file_name_part(&b"out/a/x.html".to_vec()), b"x.html".to_vec());
    assert_eq!(dir_part(&b"plain".to_vec()), b"".to_vec());
}

#[test]
fn directory_without_index_reported_once() {
    let paths = vec![
        b"out/a/x.html".to_vec(),
        b"out/a/index.html".to_vec(),
        b"out/b/one.html".to_vec(),
        b"out/b/two.html".to_vec(),
        b"out/b/three.html".to_vec(),
    ];
    let report = missing_index_dirs(&paths);
    assert_eq!(report, vec![b"out/b/".to_vec()]);
}
