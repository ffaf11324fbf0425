use vstd::prelude::*;

use crate::bytes::{bytes_of, clone_bytes};
use crate::config::{default_favicon, got_str, str_value};
use crate::errors::{Error, ErrorSpec};
use crate::handlers::{format_date, formatted_date_of};
use crate::paths::{join_path, join_path_spec};
use crate::records::record_str_field;

verus! {

/// The per-page metadata a document embeds in its metadata block: the
/// stylesheet, skeleton and favicon paths, the timestamp text, the title
/// and the description.
#[derive(Debug)]
pub struct TemplateInfo {
    /// Stylesheet path, rebased onto the content root.
    pub style: Vec<u8>,
    /// Page-skeleton path, rebased onto the content root.
    pub template: Vec<u8>,
    /// Favicon path, relative to the content root.
    pub favicon: Vec<u8>,
    /// The page's timestamp, as the text the metadata gave.
    pub time: Vec<u8>,
    /// The page's title.
    pub title: Vec<u8>,
    /// The page's description.
    pub description: Vec<u8>,
}

/// The timestamp text parses as a date.
pub open spec fn date_ok(raw: Seq<u8>) -> bool {
    match formatted_date_of(raw) {
        Some(_) => true,
        None => false,
    }
}

/// The metadata source parses and holds every required field, with a
/// timestamp that reads as a date.
pub open spec fn meta_ok(src: Seq<u8>) -> bool {
    got_str(src, bytes_of("style"@)) && got_str(src, bytes_of("template"@)) && got_str(
        src,
        bytes_of("time"@),
    ) && got_str(src, bytes_of("title"@)) && got_str(src, bytes_of("description"@)) && date_ok(
        str_value(src, bytes_of("time"@)),
    )
}

/// The favicon path the metadata names, or the fixed default.
pub open spec fn favicon_value(src: Seq<u8>) -> Seq<u8> {
    if got_str(src, bytes_of("favicon"@)) {
        str_value(src, bytes_of("favicon"@))
    } else {
        bytes_of("favicon.ico"@)
    }
}

/// Parses a document's buffered metadata source into its page metadata.
/// The stylesheet and skeleton paths are rebased onto the content root;
/// the favicon defaults when absent. A source that does not parse, lacks
/// a required field, or carries an unreadable timestamp is rejected with
/// the metadata-parse error naming the document.
pub fn parse_template_info(doc: &Vec<u8>, src: &Vec<u8>, content_root: &Vec<u8>) -> (r: Result<
    TemplateInfo,
    Error,
>)
    ensures
        match r {
            Ok(ti) => meta_ok(src@) && ti.style@ == join_path_spec(
                content_root@,
                str_value(src@, bytes_of("style"@)),
            ) && ti.template@ == join_path_spec(
                content_root@,
                str_value(src@, bytes_of("template"@)),
            ) && ti.favicon@ == favicon_value(src@) && ti.time@ == str_value(
                src@,
                bytes_of("time"@),
            ) && ti.title@ == str_value(src@, bytes_of("title"@)) && ti.description@ == str_value(
                src@,
                bytes_of("description"@),
            ),
            Err(e) => !meta_ok(src@) && e@ == ErrorSpec::ParseTemplateInfo(doc@),
        },
{
    let style = match record_str_field(src, "style") {
        Ok(Some(v)) => v,
        _ => {
            return Err(Error::ParseTemplateInfo(clone_bytes(doc)));
        },
    };
    let template = match record_str_field(src, "template") {
        Ok(Some(v)) => v,
        _ => {
            return Err(Error::ParseTemplateInfo(clone_bytes(doc)));
        },
    };
    let time = match record_str_field(src, "time") {
        Ok(Some(v)) => v,
        _ => {
            return Err(Error::ParseTemplateInfo(clone_bytes(doc)));
        },
    };
    let title = match record_str_field(src, "title") {
        Ok(Some(v)) => v,
        _ => {
            return Err(Error::ParseTemplateInfo(clone_bytes(doc)));
        },
    };
    let description = match record_str_field(src, "description") {
        Ok(Some(v)) => v,
        _ => {
            return Err(Error::ParseTemplateInfo(clone_bytes(doc)));
        },
    };
    let favicon = match record_str_field(src, "favicon") {
        Ok(Some(v)) => v,
        _ => default_favicon(),
    };
    if format_date(&time).is_none() {
        return Err(Error::ParseTemplateInfo(clone_bytes(doc)));
    }
    let style = join_path(content_root, &style);
    let template = join_path(content_root, &template);
    Ok(TemplateInfo { style, template, favicon, time, title, description })
}

/// Turns what a document's scan buffered into its page metadata. A
/// document whose scan buffered no metadata text fails with the
/// missing-metadata error naming the document, so no page metadata — and
/// with it no output — can come of such a document.
pub fn template_info_from_meta(doc: &Vec<u8>, meta: &Option<Vec<u8>>, content_root: &Vec<u8>) -> (r:
    Result<TemplateInfo, Error>)
    ensures
        match meta {
            None => match r {
                Err(e) => e@ == ErrorSpec::TemplateInfoMissing(doc@),
                Ok(_) => false,
            },
            Some(m) => match r {
                Ok(ti) => meta_ok(m@) && ti.style@ == join_path_spec(
                    content_root@,
                    str_value(m@, bytes_of("style"@)),
                ) && ti.template@ == join_path_spec(
                    content_root@,
                    str_value(m@, bytes_of("template"@)),
                ) && ti.favicon@ == favicon_value(m@) && ti.time@ == str_value(
                    m@,
                    bytes_of("time"@),
                ) && ti.title@ == str_value(m@, bytes_of("title"@)) && ti.description@
                    == str_value(m@, bytes_of("description"@)),
                Err(e) => !meta_ok(m@) && e@ == ErrorSpec::ParseTemplateInfo(doc@),
            },
        },
{
    match meta {
        None => Err(Error::TemplateInfoMissing(clone_bytes(doc))),
        Some(m) => parse_template_info(doc, m, content_root),
    }
}

} // verus!
