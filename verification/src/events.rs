use vstd::prelude::*;

use crate::bytes::{bytes_of, spec_starts_with};
use pulldown_cmark::{CodeBlockKind, Event, Parser, Tag};

verus! {

/// What the pipeline reads of one structural event of a parsed document:
/// the start or end of a fenced code block with its language token, a text
/// run with its text, or any other structural event.
#[derive(Debug)]
pub enum MdEvent {
    /// Start of a fenced code block, with its language token.
    FenceStart(Vec<u8>),
    /// End of a fenced code block, with its language token.
    FenceEnd(Vec<u8>),
    /// A text run.
    Text(Vec<u8>),
    /// Any other structural event; the pipeline passes it through.
    Other,
}

/// The mathematical shape of an [`MdEvent`].
pub enum MdEventSpec {
    FenceStart(Seq<u8>),
    FenceEnd(Seq<u8>),
    Text(Seq<u8>),
    Other,
}

impl View for MdEvent {
    type V = MdEventSpec;

    open spec fn view(&self) -> MdEventSpec {
        match self {
            MdEvent::FenceStart(l) => MdEventSpec::FenceStart(l@),
            MdEvent::FenceEnd(l) => MdEventSpec::FenceEnd(l@),
            MdEvent::Text(t) => MdEventSpec::Text(t@),
            MdEvent::Other => MdEventSpec::Other,
        }
    }
}

/// The views of a sequence of events.
pub open spec fn events_view(evs: Seq<MdEvent>) -> Seq<MdEventSpec> {
    Seq::new(evs.len(), |i: int| evs[i]@)
}

/// The structural events of a markup text, as the parser reports them.
pub uninterp spec fn events_of(text: Seq<u8>) -> Seq<MdEventSpec>;

/// Relies on pulldown_cmark::Parser: parses the markup text into its
/// event sequence, a function of the text alone. A fenced code block's
/// start and end keep their language token and a text run its text; every
/// other event is reported as `Other`.
#[verifier::external_body]
pub fn parse_events(text: &Vec<u8>) -> (r: Vec<MdEvent>)
    ensures
        events_view(r@) == events_of(text@),
{
    let s = String::from_utf8_lossy(text);
    Parser::new(&s).map(|ev| match ev {
        Event::Start(Tag::CodeBlock(CodeBlockKind::Fenced(l))) => MdEvent::FenceStart(l.as_bytes().to_vec()),
        Event::End(Tag::CodeBlock(CodeBlockKind::Fenced(l))) => MdEvent::FenceEnd(l.as_bytes().to_vec()),
        Event::Text(t) => MdEvent::Text(t.as_bytes().to_vec()),
        _ => MdEvent::Other,
    }).collect()
}

/// One slot of the rewritten event stream: an original event kept by its
/// position, rewritten raw markup, rewritten text, or a handler block
/// still waiting for its fragment.
#[derive(Debug)]
pub enum OutItem {
    /// The original event at this index of the parsed stream.
    Orig(usize),
    /// A raw-markup event carrying rewritten bytes.
    Html(Vec<u8>),
    /// A text event carrying rewritten bytes.
    Text(Vec<u8>),
    /// The fragment of the handler request with this index.
    Pending(usize),
}

/// The mathematical shape of an [`OutItem`].
pub enum OutItemSpec {
    Orig(int),
    Html(Seq<u8>),
    Text(Seq<u8>),
    Pending(int),
}

impl View for OutItem {
    type V = OutItemSpec;

    open spec fn view(&self) -> OutItemSpec {
        match self {
            OutItem::Orig(i) => OutItemSpec::Orig(*i as int),
            OutItem::Html(h) => OutItemSpec::Html(h@),
            OutItem::Text(t) => OutItemSpec::Text(t@),
            OutItem::Pending(j) => OutItemSpec::Pending(*j as int),
        }
    }
}

/// The views of a sequence of output items.
pub open spec fn items_view(items: Seq<OutItem>) -> Seq<OutItemSpec> {
    Seq::new(items.len(), |i: int| items[i]@)
}

/// The HTML the serializer produces for a markup text and an edited event
/// stream over it.
pub uninterp spec fn html_of(text: Seq<u8>, items: Seq<OutItemSpec>) -> Seq<u8>;

/// Relies on pulldown_cmark's Parser and html::push_html: re-parses the
/// markup text (parsing is deterministic) and serializes the edited event
/// stream to HTML, a function of the text and the stream alone. A
/// reference outside the parsed range and a handler slot still pending
/// are skipped.
#[verifier::external_body]
pub(crate) fn render_html(text: &Vec<u8>, items: &Vec<OutItem>) -> (r: Vec<u8>)
    ensures
        r@ == html_of(text@, items_view(items@)),
{
    let s = String::from_utf8_lossy(text);
    let evs: Vec<Event> = Parser::new(&s).collect();
    let mut out = Vec::new();
    for item in items {
        match item {
            OutItem::Orig(i) => out.extend(evs.get(*i).cloned()),
            OutItem::Html(h) => out.push(Event::Html(String::from_utf8_lossy(h).into_owned().into())),
            OutItem::Text(t) => out.push(Event::Text(String::from_utf8_lossy(t).into_owned().into())),
            OutItem::Pending(_) => {},
        }
    }
    let mut html = String::new();
    pulldown_cmark::html::push_html(&mut html, out.into_iter());
    html.into_bytes()
}

/// The language token that marks a metadata block.
pub open spec fn meta_token() -> Seq<u8> {
    bytes_of("templateinfo"@)
}

/// The prefix that marks a handler block; what follows names the handler.
pub open spec fn handler_prefix() -> Seq<u8> {
    bytes_of("cuddly_"@)
}

/// A language token reserved for a directive block: the metadata token, or
/// any token carrying the handler prefix.
pub open spec fn is_reserved_lang(l: Seq<u8>) -> bool {
    l == meta_token() || spec_starts_with(l, handler_prefix())
}

/// The active fence language after the first `i` events: set by a fence
/// start, cleared by a fence end.
pub open spec fn lang_state_after(evs: Seq<MdEventSpec>, i: int) -> Option<Seq<u8>>
    decreases i,
{
    if i <= 0 {
        None
    } else {
        match evs[i - 1] {
            MdEventSpec::FenceStart(l) => Some(l),
            MdEventSpec::FenceEnd(_) => None,
            _ => lang_state_after(evs, i - 1),
        }
    }
}

} // verus!
