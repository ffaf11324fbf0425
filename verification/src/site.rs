use vstd::prelude::*;

use crate::bytes::{bytes_eq, clone_bytes, lit_bytes, opts_view, starts_with};
use crate::config::Config;
use crate::errors::{Error, ErrorSpec};
use crate::events::{events_of, events_view, items_view, parse_events, render_html, MdEvent};
use crate::glyphs::substitute;
use crate::handlers::{header_name, include_name, index_name, HandlerRegistry};
use crate::records::pairs_view;
use crate::scan::{is_bad_at, lang_at, no_missing_handler, request_name, resolve_items,
    scan_events, scan_items_spec, scan_meta_spec, scan_requests_spec, ScanOut};

verus! {

#[verifier::external_type_specification]
#[verifier::external_body]
pub struct ExTheme(syntect::highlighting::Theme);

#[verifier::external_type_specification]
#[verifier::external_body]
pub struct ExSyntaxSet(syntect::parsing::SyntaxSet);

/// Relies on syntect's find_syntax_by_token and
/// highlighted_html_for_string: colorizes a code block under the loaded
/// grammar set and theme; nothing when the language token matches no
/// grammar or the colorizer fails.
#[verifier::external_body]
fn highlight_code(
    ss: &syntect::parsing::SyntaxSet,
    theme: &syntect::highlighting::Theme,
    lang: &Vec<u8>,
    text: &Vec<u8>,
) -> Option<Vec<u8>> {
    let lang = core::str::from_utf8(lang).ok()?;
    let text = core::str::from_utf8(text).ok()?;
    let syntax = ss.find_syntax_by_token(lang)?;
    let html = syntect::html::highlighted_html_for_string(text, ss, syntax, theme).ok()?;
    Some(html.into_bytes())
}

/// A site being generated: the shared, read-only context every document
/// task works against.
pub struct Website {
    /// Color theme for code blocks.
    pub theme: syntect::highlighting::Theme,
    /// The loaded syntax grammar set.
    pub syntax_set: syntect::parsing::SyntaxSet,
    /// The site's parsed configuration.
    pub config: Config,
    /// The rendered header fragment, set once after the header document
    /// is processed.
    pub header: Vec<u8>,
    /// The handler registry, bound at startup.
    pub handlers: HandlerRegistry,
}

impl Website {
    /// A site context over a loaded theme, grammar set and configuration,
    /// with the built-in handlers registered and an empty header.
    pub fn new(
        theme: syntect::highlighting::Theme,
        syntax_set: syntect::parsing::SyntaxSet,
        config: Config,
    ) -> (r: Website)
        ensures
            r.theme == theme,
            r.syntax_set == syntax_set,
            r.config == config,
            r.header@.len() == 0,
            r.handlers.spec_names() == seq![header_name(), include_name(), index_name()],
    {
        Website {
            theme,
            syntax_set,
            config,
            header: Vec::new(),
            handlers: HandlerRegistry::with_builtins(),
        }
    }

    /// Replaces the header fragment, leaving the rest of the context as
    /// it was.
    pub fn set_header(&mut self, header: Vec<u8>)
        ensures
            final(self).header == header,
            final(self).theme == old(self).theme,
            final(self).syntax_set == old(self).syntax_set,
            final(self).config == old(self).config,
            final(self).handlers == old(self).handlers,
    {
        self.header = header;
    }

    /// Parses a document's text and scans its events once: directive
    /// fences dropped, metadata text buffered, handler blocks checked
    /// against the registry and left pending, code blocks colorized,
    /// every other text run glyph-substituted. A document naming an
    /// unregistered handler fails with a missing-handler error naming the
    /// document and the first such name.
    pub fn begin_document(&self, text: &Vec<u8>, doc: &Vec<u8>) -> (r: Result<ScanOut, Error>)
        ensures
            match r {
                Ok(s) => no_missing_handler(events_of(text@), self.handlers.spec_names()) && (
                exists|hl: Seq<Option<Seq<u8>>>|
                    hl.len() == events_of(text@).len() && items_view(s.items@) == scan_items_spec(
                        events_of(text@),
                        hl,
                    )) && (match s.meta {
                    Some(m) => scan_meta_spec(events_of(text@)) == Some(m@),
                    None => scan_meta_spec(events_of(text@)) == None::<Seq<u8>>,
                }) && pairs_view(s.requests@) == scan_requests_spec(events_of(text@)) && (forall|
                    k: int,
                |
                    0 <= k < s.items@.len() ==> crate::scan::keeps_no_reserved(
                        events_of(text@),
                        #[trigger] items_view(s.items@)[k],
                    )),
                Err(e) => exists|j: int|
                    #[trigger] is_bad_at(events_of(text@), self.handlers.spec_names(), j) && (
                    forall|k: int|
                        0 <= k < j ==> !is_bad_at(events_of(text@), self.handlers.spec_names(), k))
                        && e@ == ErrorSpec::MissingHandler(
                        doc@,
                        request_name(lang_at(events_of(text@), j)),
                    ),
            },
    {
        let evs = parse_events(text);
        let hl = compute_highlights(&evs, &self.syntax_set, &self.theme);
        let r = scan_events(&evs, &hl, &self.handlers, doc);
        proof {
            assert(events_view(evs@) == events_of(text@));
            if r is Ok {
                let s = r->Ok_0;
                assert(opts_view(hl@).len() == events_of(text@).len() && items_view(s.items@)
                    == scan_items_spec(events_of(text@), opts_view(hl@)));
                crate::scan::lemma_scan_keeps_no_reserved(
                    events_of(text@),
                    opts_view(hl@),
                    events_of(text@).len() as int,
                );
            }
        }
        r
    }
}

/// Colorizes each code block text of the event stream: for a text run
/// inside a fenced block whose language is no directive token, what the
/// colorizer makes of its glyph-substituted text; nothing for every other
/// event.
#[verifier::loop_isolation(false)]
fn compute_highlights(
    evs: &Vec<MdEvent>,
    ss: &syntect::parsing::SyntaxSet,
    theme: &syntect::highlighting::Theme,
) -> (r: Vec<Option<Vec<u8>>>)
    ensures
        r@.len() == evs@.len(),
{
    proof {
        reveal_strlit("templateinfo");
        reveal_strlit("cuddly_");
    }
    let meta_lit = lit_bytes("templateinfo");
    let cuddly_lit = lit_bytes("cuddly_");
    let mut out: Vec<Option<Vec<u8>>> = Vec::new();
    let mut lang: Option<Vec<u8>> = None;
    let mut i: usize = 0;
    while i < evs.len()
        invariant
            i <= evs@.len(),
            out@.len() == i,
        decreases evs@.len() - i,
    {
        match &evs[i] {
            MdEvent::FenceStart(l) => {
                lang = Some(clone_bytes(l));
                out.push(None);
            },
            MdEvent::FenceEnd(_) => {
                lang = None;
                out.push(None);
            },
            MdEvent::Text(t) => {
                match &lang {
                    Some(l) => {
                        if !(bytes_eq(l, &meta_lit) || starts_with(l, &cuddly_lit)) {
                            let sub = substitute(t);
                            out.push(highlight_code(ss, theme, l, &sub));
                        } else {
                            out.push(None);
                        }
                    },
                    None => {
                        out.push(None);
                    },
                }
            },
            MdEvent::Other => {
                out.push(None);
            },
        }
        i = i + 1;
    }
    out
}

/// Fills the pending handler slots of a scanned document with the
/// fragments its requests produced, and serializes the rewritten stream
/// to HTML: the serializer's output for exactly the resolved stream.
pub fn resolve_and_render(text: &Vec<u8>, scanned: &ScanOut, responses: &Vec<Vec<u8>>) -> (r: Vec<
    u8,
>)
    ensures
        r@ == crate::events::html_of(
            text@,
            crate::scan::resolve_spec(items_view(scanned.items@), responses.deep_view()),
        ),
{
    let resolved = resolve_items(&scanned.items, responses);
    render_html(text, &resolved)
}

} // verus!
