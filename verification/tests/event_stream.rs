use mdsite::errors::Error;
use mdsite::events::{parse_events, MdEvent};
use mdsite::site::Website;

fn test_site() -> Website {
    let theme = syntect::highlighting::ThemeSet::load_defaults()
        .themes
        .remove("InspiredGitHub")
        .unwrap();
    let syntax_set = syntect::parsing::SyntaxSet::load_defaults_newlines();
    let config = mdsite::config::Config {
        syntax_theme: b"InspiredGitHub".to_vec(),
        content_path: b"content".to_vec(),
        output_path: b"out".to_vec(),
        base_file: b"base.md".to_vec(),
        header_file: b"header.md".to_vec(),
    };
    Website::new(theme, syntax_set, config)
}

#[test]
fn parser_reports_fences_and_text() {
    let text = b"# Title\n\n```rust\nfn main() {}\n```\n".to_vec();
    let evs = parse_events(&text);
    let mut saw_start = false;
    let mut saw_end = false;
    let mut saw_code_text = false;
    for ev in &evs {
        match ev {
            MdEvent::FenceStart(l) => {
                assert_eq!(l, &b"rust".to_vec());
                saw_start = true;
            }
            MdEvent::FenceEnd(l) => {
                assert_eq!(l, &b"rust".to_vec());
                saw_end = true;
            }
            MdEvent::Text(t) => {
                if t == &b"fn main() {}\n".to_vec() {
                    saw_code_text = true;
                }
            }
            MdEvent::Other => {}
        }
    }
    assert!(saw_start && saw_end && saw_code_text);
}

#[test]
fn metadata_block_is_buffered_and_suppressed() {
    let site = test_site();
    let text = "# Hi\n\n```templateinfo\ntitle = \"T\"\n```\n\nbody text\n"
        .as_bytes()
        .to_vec();
    let scanned = site.begin_document(&text, &b"doc.md".to_vec()).unwrap();
    assert_eq!(scanned.meta, Some(b"title = \"T\"\n".to_vec()));
    assert!(scanned.requests.is_empty());
    let html = mdsite::site::resolve_and_render(&text, &scanned, &Vec::new());
    let html = String::from_utf8(html).unwrap();
    assert!(!html.contains("templateinfo"));
    assert!(!html.contains("title = "));
    assert!(html.contains("body text"));
}

#[test]
fn document_without_metadata_buffers_none() {
    let site = test_site();
    let text = b"just a paragraph\n".to_vec();
    let scanned = site.begin_document(&text, &b"doc.md".to_vec()).unwrap();
    assert!(scanned.meta.is_none());
}

#[test]
fn handler_block_becomes_request() {
    let site = test_site();
    let text = "```cuddly_include\npath = \"b.md\"\n```\n".as_bytes().to_vec();
    let scanned = site.begin_document(&text, &b"doc.md".to_vec()).unwrap();
    assert_eq!(scanned.requests.len(), 1);
    assert_eq!(scanned.requests[0].0, b"include".to_vec());
    assert_eq!(scanned.requests[0].1, b"path = \"b.md\"\n".to_vec());
    let html = mdsite::site::resolve_and_render(&text, &scanned, &vec![b"<p>INLINED</p>".to_vec()]);
    let html = String::from_utf8(html).unwrap();
    assert!(html.contains("<p>INLINED</p>"));
    assert!(!html.contains("cuddly_include"));
}

#[test]
fn requests_kept_in_document_order() {
    let site = test_site();
    let text = "```cuddly_include\npath = \"one.md\"\n```\n\n```cuddly_include\npath = \"two.md\"\n```\n"
        .as_bytes()
        .to_vec();
    let scanned = site.begin_document(&text, &b"doc.md".to_vec()).unwrap();
    assert_eq!(scanned.requests.len(), 2);
    assert_eq!(scanned.requests[0].1, b"path = \"one.md\"\n".to_vec());
    assert_eq!(scanned.requests[1].1, b"path = \"two.md\"\n".to_vec());
}

#[test]
fn unknown_handler_fails_with_its_name() {
    let site = test_site();
    let text = "```cuddly_mystery\nx = 1\n```\n".as_bytes().to_vec();
    let got = site.begin_document(&text, &b"a/doc.md".to_vec());
    match got {
        Err(Error::MissingHandler(doc, name)) => {
            assert_eq!(doc, b"a/doc.md".to_vec());
            assert_eq!(name, b"mystery".to_vec());
        }
        other => panic!("expected a missing-handler error, got {other:?}"),
    }
}

#[test]
fn code_block_with_known_grammar_is_colorized() {
    let site = test_site();
    let text = "```rust\nlet x = 1;\n```\n".as_bytes().to_vec();
    let scanned = site.begin_document(&text, &b"doc.md".to_vec()).unwrap();
    let html = mdsite::site::resolve_and_render(&text, &scanned, &Vec::new());
    let html = String::from_utf8(html).unwrap();
    assert!(html.contains("<pre"), "colorized output missing: {html}");
}

#[test]
fn glyph_tokens_substituted_in_plain_text() {
    let site = test_site();
    let text = b"I :heart: this\n".to_vec();
    let scanned = site.begin_document(&text, &b"doc.md".to_vec()).unwrap();
    let html = mdsite::site::resolve_and_render(&text, &scanned, &Vec::new());
    let html = String::from_utf8(html).unwrap();
    assert!(html.contains(gh_emoji::get("heart").unwrap()));
    assert!(!html.contains(":heart:"));
}
