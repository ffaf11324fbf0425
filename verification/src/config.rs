use vstd::prelude::*;

use crate::bytes::{bytes_of, lit_bytes};
use crate::records::record_str;
use crate::records::record_str_field;

verus! {

/// The configuration of one site: the syntax theme name, the content and
/// output roots, and the base and header documents, all as plain bytes.
pub struct Config {
    /// Name of the color theme used for code blocks.
    pub syntax_theme: Vec<u8>,
    /// Directory all content is read from.
    pub content_path: Vec<u8>,
    /// Directory generated pages are written to.
    pub output_path: Vec<u8>,
    /// Document, relative to the content root, where processing starts.
    pub base_file: Vec<u8>,
    /// Document, relative to the content root, rendered as the header.
    pub header_file: Vec<u8>,
}

/// The favicon path used when a page names none.
pub fn default_favicon() -> (r: Vec<u8>)
    ensures
        r@ == bytes_of("favicon.ico"@),
{
    proof {
        reveal_strlit("favicon.ico");
    }
    lit_bytes("favicon.ico")
}

/// The key/value text assigns the key a text value.
pub open spec fn got_str(src: Seq<u8>, key: Seq<u8>) -> bool {
    match record_str(src, key) {
        Ok(Some(_)) => true,
        _ => false,
    }
}

/// The text value the key/value text assigns to a key, where it does.
pub open spec fn str_value(src: Seq<u8>, key: Seq<u8>) -> Seq<u8>
    recommends
        got_str(src, key),
{
    match record_str(src, key) {
        Ok(Some(v)) => v,
        _ => Seq::empty(),
    }
}

impl Config {
    /// Parses a site configuration out of key/value text. Every field is
    /// required; a configuration that does not parse, or lacks one, is
    /// rejected.
    pub fn parse(src: &Vec<u8>) -> (r: Result<Config, ()>)
        ensures
            match r {
                Ok(c) => got_str(src@, bytes_of("syntax_theme"@)) && got_str(
                    src@,
                    bytes_of("content_path"@),
                ) && got_str(src@, bytes_of("output_path"@)) && got_str(
                    src@,
                    bytes_of("base_file"@),
                ) && got_str(src@, bytes_of("header_file"@)) && c.syntax_theme@ == str_value(
                    src@,
                    bytes_of("syntax_theme"@),
                ) && c.content_path@ == str_value(src@, bytes_of("content_path"@))
                    && c.output_path@ == str_value(src@, bytes_of("output_path"@)) && c.base_file@
                    == str_value(src@, bytes_of("base_file"@)) && c.header_file@ == str_value(
                    src@,
                    bytes_of("header_file"@),
                ),
                Err(_) => !(got_str(src@, bytes_of("syntax_theme"@)) && got_str(
                    src@,
                    bytes_of("content_path"@),
                ) && got_str(src@, bytes_of("output_path"@)) && got_str(
                    src@,
                    bytes_of("base_file"@),
                ) && got_str(src@, bytes_of("header_file"@))),
            },
    {
        let syntax_theme = match record_str_field(src, "syntax_theme") {
            Ok(Some(v)) => v,
            _ => {
                return Err(());
            },
        };
        let content_path = match record_str_field(src, "content_path") {
            Ok(Some(v)) => v,
            _ => {
                return Err(());
            },
        };
        let output_path = match record_str_field(src, "output_path") {
            Ok(Some(v)) => v,
            _ => {
                return Err(());
            },
        };
        let base_file = match record_str_field(src, "base_file") {
            Ok(Some(v)) => v,
            _ => {
                return Err(());
            },
        };
        let header_file = match record_str_field(src, "header_file") {
            Ok(Some(v)) => v,
            _ => {
                return Err(());
            },
        };
        Ok(Config { syntax_theme, content_path, output_path, base_file, header_file })
    }
}

} // verus!
