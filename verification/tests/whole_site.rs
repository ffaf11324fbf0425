use mdsite::assets::{asset_embed, to_base64};
use mdsite::config::Config;
use mdsite::errors::Error;
use mdsite::handlers::{
    format_date, header_fragment, index_fragment, parse_header_config, parse_path_config,
    HandlerKind,
};
use mdsite::meta::{template_info_from_meta, TemplateInfo};
use mdsite::paths::{dir_part, is_markdown_path, join_path, missing_index_dirs, output_path_for};
use mdsite::site::{resolve_and_render, Website};
use mdsite::template::compose;
use tokio::runtime::Runtime;

fn as_str(b: &[u8]) -> &str {
    core::str::from_utf8(b).unwrap()
}

fn read(rt: &Runtime, path: &[u8]) -> Result<Vec<u8>, ()> {
    rt.block_on(tokio::fs::read(as_str(path))).map_err(|_| ())
}

fn write(rt: &Runtime, path: &str, data: &[u8]) {
    rt.block_on(tokio::fs::write(path, data)).unwrap();
}

fn make_site(root: &str) -> Website {
    let theme = syntect::highlighting::ThemeSet::load_defaults()
        .themes
        .remove("InspiredGitHub")
        .unwrap();
    let syntax_set = syntect::parsing::SyntaxSet::load_defaults_newlines();
    let config = Config {
        syntax_theme: b"InspiredGitHub".to_vec(),
        content_path: format!("{root}/content").into_bytes(),
        output_path: format!("{root}/out").into_bytes(),
        base_file: b"base.md".to_vec(),
        header_file: b"header.md".to_vec(),
    };
    Website::new(theme, syntax_set, config)
}

fn setup_root(rt: &Runtime, root: &str) {
    let _ = rt.block_on(tokio::fs::remove_dir_all(root));
    rt.block_on(tokio::fs::create_dir_all(format!("{root}/content")))
        .unwrap();
    rt.block_on(tokio::fs::create_dir_all(format!("{root}/out")))
        .unwrap();
}

fn run_handler(
    rt: &Runtime,
    site: &Website,
    doc: &Vec<u8>,
    kind: HandlerKind,
    input: &Vec<u8>,
) -> Result<Vec<u8>, Error> {
    match kind {
        HandlerKind::Header => {
            let (left, right) =
                parse_header_config(input).map_err(|_| Error::ParseTemplateInfo(doc.clone()))?;
            let left_assets: Vec<Option<Vec<u8>>> = left
                .iter()
                .map(|(icon, _)| {
                    let p = join_path(&site.config.content_path, icon);
                    read(rt, &p).ok().and_then(|d| asset_embed(&p, &d))
                })
                .collect();
            let right_assets: Vec<Option<Vec<u8>>> = right
                .iter()
                .map(|(icon, _)| {
                    let p = join_path(&site.config.content_path, icon);
                    read(rt, &p).ok().and_then(|d| asset_embed(&p, &d))
                })
                .collect();
            Ok(header_fragment(&left, &left_assets, &right, &right_assets))
        }
        HandlerKind::Include => {
            let rel = parse_path_config(input).map_err(|_| Error::ParseTemplateInfo(doc.clone()))?;
            let full = join_path(&site.config.content_path, &rel);
            Ok(process_md(rt, site, full)?.0)
        }
        HandlerKind::Index => {
            let rel = parse_path_config(input).map_err(|_| Error::ParseTemplateInfo(doc.clone()))?;
            let full = join_path(&site.config.content_path, &rel);
            let mut dir = rt
                .block_on(tokio::fs::read_dir(as_str(&full)))
                .map_err(|_| Error::ReadDirectory(full.clone()))?;
            let mut entries = Vec::new();
            while let Some(ent) = rt
                .block_on(dir.next_entry())
                .map_err(|_| Error::ReadDirectory(full.clone()))?
            {
                let path = ent.path().to_string_lossy().into_owned().into_bytes();
                if !is_markdown_path(&path) {
                    continue;
                }
                let (_, ti) = process_md(rt, site, path)?;
                let date = format_date(&ti.time).unwrap_or_default();
                entries.push((ti.title, date));
            }
            Ok(index_fragment(&entries))
        }
    }
}

fn process_md(
    rt: &Runtime,
    site: &Website,
    path: Vec<u8>,
) -> Result<(Vec<u8>, TemplateInfo), Error> {
    let text = read(rt, &path).map_err(|_| Error::ReadMarkdownInput(path.clone()))?;
    let scanned = site.begin_document(&text, &path)?;
    let mut responses = Vec::new();
    for (name, input) in &scanned.requests {
        let kind = site.handlers.dispatch(&path, name)?;
        responses.push(run_handler(rt, site, &path, kind, input)?);
    }
    let html = resolve_and_render(&text, &scanned, &responses);
    let ti = template_info_from_meta(&path, &scanned.meta, &site.config.content_path)?;
    Ok((html, ti))
}

fn process_file(
    rt: &Runtime,
    site: &Website,
    path: Vec<u8>,
) -> Result<(Vec<u8>, TemplateInfo), Error> {
    let out_path = output_path_for(&site.config.content_path, &site.config.output_path, &path)?;
    let (body, ti) = process_md(rt, site, path.clone())?;
    let parent = dir_part(&out_path);
    rt.block_on(tokio::fs::create_dir_all(as_str(&parent)))
        .map_err(|_| Error::CreateOutputDir(parent.clone()))?;
    let css = read(rt, &ti.style).map_err(|_| Error::ReadStyle(path.clone(), ti.style.clone()))?;
    let skeleton = read(rt, &ti.template)
        .map_err(|_| Error::ReadTemplate(path.clone(), ti.template.clone()))?;
    let favicon_path = join_path(&site.config.content_path, &ti.favicon);
    let favicon = to_base64(
        &read(rt, &favicon_path).map_err(|_| Error::ReadBase64Asset(favicon_path.clone()))?,
    );
    let html = compose(
        &skeleton,
        &css,
        &body,
        &site.header,
        &favicon,
        &ti.title,
        &ti.description,
    );
    rt.block_on(tokio::fs::write(as_str(&out_path), &html))
        .map_err(|_| Error::WriteOutput(out_path.clone()))?;
    Ok((out_path, ti))
}

const META_OK: &str = "```templateinfo\nstyle = \"s.css\"\ntemplate = \"t.html\"\ntime = 2021-01-01\ntitle = \"Hi\"\ndescription = \"D\"\n```\n";

fn write_support_files(rt: &Runtime, root: &str) {
    write(rt, &format!("{root}/content/s.css"), b"body { color: red }");
    write(
        rt,
        &format!("{root}/content/t.html"),
        b"<html><style><<<PUT THE STYLESHEET HERE>>></style><title><<<PUT THE TITLE HERE>>></title><body><<<PUT THE MAIN CONTENT HERE>>></body></html>",
    );
    write(rt, &format!("{root}/content/favicon.ico"), b"\x00\x01icon");
}

#[test]
fn whole_document_renders_to_mirrored_path() {
    let rt = Runtime::new().unwrap();
    let root = "/tmp/mdsite_whole_doc";
    setup_root(&rt, root);
    write_support_files(&rt, root);
    let md = format!("# Page\n\n{META_OK}\n```rust\nlet x = 1;\n```\n");
    write(&rt, &format!("{root}/content/base.md"), md.as_bytes());

    let site = make_site(root);
    let doc = format!("{root}/content/base.md").into_bytes();
    let (out_path, ti) = process_file(&rt, &site, doc).unwrap();
    assert_eq!(out_path, format!("{root}/out/base.html").into_bytes());
    assert_eq!(ti.title, b"Hi".to_vec());

    let html = read(&rt, &out_path).unwrap();
    let html = String::from_utf8(html).unwrap();
    assert!(html.contains("<title>Hi</title>"));
    assert!(html.contains("<pre"), "colorized code missing: {html}");
    assert!(html.contains("body { color: red }"));
    assert!(!html.contains("templateinfo"));
    assert!(!html.contains("<<<"));
}

#[test]
fn missing_metadata_fails_and_writes_nothing() {
    let rt = Runtime::new().unwrap();
    let root = "/tmp/mdsite_missing_meta";
    setup_root(&rt, root);
    write_support_files(&rt, root);
    write(
        &rt,
        &format!("{root}/content/base.md"),
        b"# No metadata here\n",
    );

    let site = make_site(root);
    let doc = format!("{root}/content/base.md").into_bytes();
    let got = process_file(&rt, &site, doc.clone());
    assert!(matches!(got, Err(Error::TemplateInfoMissing(p)) if p == doc));
    assert!(read(&rt, &format!("{root}/out/base.html").into_bytes()).is_err());
}

#[test]
fn directory_index_report_after_bulk_render() {
    let rt = Runtime::new().unwrap();
    let root = "/tmp/mdsite_index_report";
    setup_root(&rt, root);
    write_support_files(&rt, root);
    rt.block_on(tokio::fs::create_dir_all(format!("{root}/content/posts")))
        .unwrap();
    rt.block_on(tokio::fs::create_dir_all(format!("{root}/content/other")))
        .unwrap();
    for name in ["posts/one.md", "posts/two.md", "posts/three.md", "other/index.md", "other/extra.md"] {
        let body = format!("# {name}\n\n{META_OK}");
        write(&rt, &format!("{root}/content/{name}"), body.as_bytes());
    }
    let site = make_site(root);
    let mut outputs = Vec::new();
    for name in ["posts/one.md", "posts/two.md", "posts/three.md", "other/index.md", "other/extra.md"] {
        let doc = format!("{root}/content/{name}").into_bytes();
        let (out_path, _) = process_file(&rt, &site, doc).unwrap();
        outputs.push(out_path);
    }
    let report = missing_index_dirs(&outputs);
    assert_eq!(report, vec![format!("{root}/out/posts/").into_bytes()]);
}

#[test]
fn inclusion_is_transitive() {
    let rt = Runtime::new().unwrap();
    let root = "/tmp/mdsite_transitive_include";
    setup_root(&rt, root);
    write_support_files(&rt, root);
    let a = format!("{META_OK}\nA-BODY\n\n```cuddly_include\npath = \"b.md\"\n```\n");
    let b = format!("{META_OK}\nB-BODY\n\n```cuddly_include\npath = \"c.md\"\n```\n");
    let c = format!("{META_OK}\nC-BODY\n");
    write(&rt, &format!("{root}/content/a.md"), a.as_bytes());
    write(&rt, &format!("{root}/content/b.md"), b.as_bytes());
    write(&rt, &format!("{root}/content/c.md"), c.as_bytes());

    let site = make_site(root);
    let doc = format!("{root}/content/a.md").into_bytes();
    let (html, _) = process_md(&rt, &site, doc).unwrap();
    let html = String::from_utf8(html).unwrap();
    assert!(html.contains("A-BODY"));
    assert!(html.contains("B-BODY"));
    assert!(html.contains("C-BODY"));
    assert!(!html.contains("cuddly_include"));
}

#[test]
fn unknown_handler_aborts_without_output() {
    let rt = Runtime::new().unwrap();
    let root = "/tmp/mdsite_unknown_handler";
    setup_root(&rt, root);
    write_support_files(&rt, root);
    let base = format!("{META_OK}\n```cuddly_nope\nx = 1\n```\n");
    write(&rt, &format!("{root}/content/base.md"), base.as_bytes());

    let site = make_site(root);
    let doc = format!("{root}/content/base.md").into_bytes();
    let got = process_file(&rt, &site, doc.clone());
    assert!(matches!(got, Err(Error::MissingHandler(d, n)) if d == doc && n == b"nope".to_vec()));
    assert!(read(&rt, &format!("{root}/out/base.html").into_bytes()).is_err());
}

#[test]
fn repeated_inclusion_renders_again() {
    let rt = Runtime::new().unwrap();
    let root = "/tmp/mdsite_repeat_include";
    setup_root(&rt, root);
    write_support_files(&rt, root);
    let a = format!(
        "{META_OK}\n```cuddly_include\npath = \"b.md\"\n```\n\n```cuddly_include\npath = \"b.md\"\n```\n"
    );
    let b = format!("{META_OK}\nB-BODY\n");
    write(&rt, &format!("{root}/content/a.md"), a.as_bytes());
    write(&rt, &format!("{root}/content/b.md"), b.as_bytes());

    let site = make_site(root);
    let doc = format!("{root}/content/a.md").into_bytes();
    let (html, _) = process_md(&rt, &site, doc).unwrap();
    let html = String::from_utf8(html).unwrap();
    assert_eq!(html.matches("B-BODY").count(), 2);
}

#[test]
fn index_handler_lists_directory_documents() {
    let rt = Runtime::new().unwrap();
    let root = "/tmp/mdsite_index_handler";
    setup_root(&rt, root);
    write_support_files(&rt, root);
    rt.block_on(tokio::fs::create_dir_all(format!("{root}/content/blogs")))
        .unwrap();
    let post = META_OK.replace("Hi", "PostTitle");
    write(&rt, &format!("{root}/content/blogs/p.md"), post.as_bytes());
    write(&rt, &format!("{root}/content/blogs/skip.txt"), b"not markdown");
    let base = format!("{META_OK}\n```cuddly_index\npath = \"blogs\"\n```\n");
    write(&rt, &format!("{root}/content/base.md"), base.as_bytes());

    let site = make_site(root);
    let doc = format!("{root}/content/base.md").into_bytes();
    let (html, _) = process_md(&rt, &site, doc).unwrap();
    let html = String::from_utf8(html).unwrap();
    assert!(html.contains("PostTitle"));
    assert!(html.contains("January 01, 2021"));
    assert!(html.contains("list-posts"));
}

#[test]
fn header_handler_soft_fails_to_label() {
    let rt = Runtime::new().unwrap();
    let root = "/tmp/mdsite_header_handler";
    setup_root(&rt, root);
    write_support_files(&rt, root);
    let base = format!(
        "{META_OK}\n```cuddly_header\nleft = [[\"NoSuchIcon\", \"/home\"]]\nright = [[\"About\", \"/about\"]]\n```\n"
    );
    write(&rt, &format!("{root}/content/base.md"), base.as_bytes());

    let site = make_site(root);
    let doc = format!("{root}/content/base.md").into_bytes();
    let (html, _) = process_md(&rt, &site, doc).unwrap();
    let html = String::from_utf8(html).unwrap();
    assert!(html.contains("<a href=\"/home\">NoSuchIcon</a>"));
    assert!(html.contains("float:right"));
}
