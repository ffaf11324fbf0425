use vstd::prelude::*;

use crate::bytes::{bytes_eq, clone_bytes, copy_range, lit_bytes, opts_view, push_all,
    spec_starts_with, starts_with};
use crate::errors::{Error, ErrorSpec};
use crate::events::{events_view, handler_prefix, is_reserved_lang, items_view, lang_state_after,
    meta_token, MdEvent, MdEventSpec, OutItem, OutItemSpec};
use crate::glyphs::{substitute, substitute_spec};
use crate::handlers::{reg_contains, HandlerRegistry};
use crate::records::pairs_view;

verus! {

/// The text carried by a text event; empty for any other event.
pub open spec fn text_of(ev: MdEventSpec) -> Seq<u8> {
    match ev {
        MdEventSpec::Text(t) => t,
        _ => Seq::empty(),
    }
}

/// The active fence language at event `i`; empty when none is active.
pub open spec fn lang_at(evs: Seq<MdEventSpec>, i: int) -> Seq<u8> {
    match lang_state_after(evs, i) {
        Some(l) => l,
        None => Seq::empty(),
    }
}

/// Event `i` is a text run inside the metadata block.
pub open spec fn is_meta_at(evs: Seq<MdEventSpec>, i: int) -> bool {
    0 <= i < evs.len() && match evs[i] {
        MdEventSpec::Text(_) => lang_state_after(evs, i) == Some(meta_token()),
        _ => false,
    }
}

/// Event `i` is a text run inside a handler block.
pub open spec fn is_request_at(evs: Seq<MdEventSpec>, i: int) -> bool {
    0 <= i < evs.len() && match evs[i] {
        MdEventSpec::Text(_) => match lang_state_after(evs, i) {
            Some(l) => l != meta_token() && spec_starts_with(l, handler_prefix()),
            None => false,
        },
        _ => false,
    }
}

/// The handler name carried by a handler block's language token: what
/// follows the reserved prefix.
pub open spec fn request_name(l: Seq<u8>) -> Seq<u8> {
    l.subrange(handler_prefix().len() as int, l.len() as int)
}

/// Event `i` names a handler that is not registered.
pub open spec fn is_bad_at(evs: Seq<MdEventSpec>, names: Seq<Seq<u8>>, i: int) -> bool {
    is_request_at(evs, i) && !reg_contains(names, request_name(lang_at(evs, i)))
}

/// No event of the document names an unregistered handler.
pub open spec fn no_missing_handler(evs: Seq<MdEventSpec>, names: Seq<Seq<u8>>) -> bool {
    forall|i: int| 0 <= i < evs.len() ==> !is_bad_at(evs, names, i)
}

/// The metadata source buffered over the first `i` events: the
/// glyph-substituted text runs of the metadata block, concatenated in
/// document order; absent when the block held none.
pub open spec fn meta_upto(evs: Seq<MdEventSpec>, i: int) -> Option<Seq<u8>>
    decreases i,
{
    if i <= 0 {
        None
    } else if is_meta_at(evs, i - 1) {
        let t = substitute_spec(text_of(evs[i - 1]));
        match meta_upto(evs, i - 1) {
            Some(p) => Some(p + t),
            None => Some(t),
        }
    } else {
        meta_upto(evs, i - 1)
    }
}

proof fn lemma_meta_upto_none(evs: Seq<MdEventSpec>, n: int)
    ensures
        (meta_upto(evs, n) == None::<Seq<u8>>) <==> (forall|i: int|
            0 <= i < n ==> !is_meta_at(evs, i)),
    decreases n,
{
    if n > 0 {
        lemma_meta_upto_none(evs, n - 1);
        if meta_upto(evs, n) == None::<Seq<u8>> {
            assert forall|i: int| 0 <= i < n implies !is_meta_at(evs, i) by {}
        }
    }
}

/// A document buffers no metadata source exactly when no event of it is a
/// text run inside the metadata block. With the contracts of the scan and
/// of the metadata step, such a document always fails with the
/// missing-metadata error naming it, and no page metadata can come of it.
pub proof fn lemma_meta_none_iff(evs: Seq<MdEventSpec>)
    ensures
        (scan_meta_spec(evs) == None::<Seq<u8>>) <==> (forall|i: int|
            0 <= i < evs.len() ==> !is_meta_at(evs, i)),
{
    lemma_meta_upto_none(evs, evs.len() as int);
}

/// How many handler requests the first `i` events raise.
pub open spec fn req_count(evs: Seq<MdEventSpec>, i: int) -> int
    decreases i,
{
    if i <= 0 {
        0
    } else {
        req_count(evs, i - 1) + if is_request_at(evs, i - 1) {
            1int
        } else {
            0int
        }
    }
}

/// The handler requests raised by the first `i` events, in order: the
/// handler's name and the block's glyph-substituted text.
pub open spec fn requests_upto(evs: Seq<MdEventSpec>, i: int) -> Seq<(Seq<u8>, Seq<u8>)>
    decreases i,
{
    if i <= 0 {
        Seq::empty()
    } else if is_request_at(evs, i - 1) {
        requests_upto(evs, i - 1).push(
            (request_name(lang_at(evs, i - 1)), substitute_spec(text_of(evs[i - 1]))),
        )
    } else {
        requests_upto(evs, i - 1)
    }
}

/// What event `i` contributes to the rewritten stream, given the
/// colorizer's outcomes `hl`: a reserved fence or metadata text vanishes,
/// a handler block text becomes a pending slot, a code block text becomes
/// raw markup where the colorizer produced some, any other text run is
/// kept glyph-substituted, and any other event is kept as it is.
pub open spec fn step_items(
    evs: Seq<MdEventSpec>,
    hl: Seq<Option<Seq<u8>>>,
    i: int,
) -> Seq<OutItemSpec> {
    match evs[i] {
        MdEventSpec::FenceStart(l) => if is_reserved_lang(l) {
            Seq::empty()
        } else {
            seq![OutItemSpec::Orig(i)]
        },
        MdEventSpec::FenceEnd(l) => if is_reserved_lang(l) {
            Seq::empty()
        } else {
            seq![OutItemSpec::Orig(i)]
        },
        MdEventSpec::Text(t) => match lang_state_after(evs, i) {
            Some(l) => {
                if l == meta_token() {
                    Seq::empty()
                } else if spec_starts_with(l, handler_prefix()) {
                    seq![OutItemSpec::Pending(req_count(evs, i))]
                } else {
                    match hl[i] {
                        Some(h) => seq![OutItemSpec::Html(h)],
                        None => seq![OutItemSpec::Text(substitute_spec(t))],
                    }
                }
            },
            None => seq![OutItemSpec::Text(substitute_spec(t))],
        },
        MdEventSpec::Other => seq![OutItemSpec::Orig(i)],
    }
}

/// The rewritten stream produced by the first `i` events.
pub open spec fn items_upto(evs: Seq<MdEventSpec>, hl: Seq<Option<Seq<u8>>>, i: int) -> Seq<
    OutItemSpec,
>
    decreases i,
{
    if i <= 0 {
        Seq::empty()
    } else {
        items_upto(evs, hl, i - 1) + step_items(evs, hl, i - 1)
    }
}

/// The whole rewritten stream of a document.
pub open spec fn scan_items_spec(evs: Seq<MdEventSpec>, hl: Seq<Option<Seq<u8>>>) -> Seq<
    OutItemSpec,
> {
    items_upto(evs, hl, evs.len() as int)
}

/// The whole buffered metadata source of a document.
pub open spec fn scan_meta_spec(evs: Seq<MdEventSpec>) -> Option<Seq<u8>> {
    meta_upto(evs, evs.len() as int)
}

/// All handler requests of a document, in order.
pub open spec fn scan_requests_spec(evs: Seq<MdEventSpec>) -> Seq<(Seq<u8>, Seq<u8>)> {
    requests_upto(evs, evs.len() as int)
}

/// An output slot keeps no reserved markup: a kept original event is a
/// fence with an unreserved language or a plain structural event, never a
/// raw text run.
pub open spec fn keeps_no_reserved(evs: Seq<MdEventSpec>, it: OutItemSpec) -> bool {
    match it {
        OutItemSpec::Orig(j) => 0 <= j < evs.len() && match evs[j] {
            MdEventSpec::FenceStart(l) => !is_reserved_lang(l),
            MdEventSpec::FenceEnd(l) => !is_reserved_lang(l),
            MdEventSpec::Text(_) => false,
            MdEventSpec::Other => true,
        },
        _ => true,
    }
}

/// The rewritten stream of a document never keeps a reserved fence event
/// and never passes a raw text run through: the metadata block's fences
/// and text, and every handler block's fences, are gone from it.
pub proof fn lemma_scan_keeps_no_reserved(evs: Seq<MdEventSpec>, hl: Seq<Option<Seq<u8>>>, i: int)
    requires
        i <= evs.len(),
    ensures
        forall|k: int| 0 <= k < items_upto(evs, hl, i).len() ==> keeps_no_reserved(
            evs,
            #[trigger] items_upto(evs, hl, i)[k],
        ),
    decreases i,
{
    if i > 0 {
        lemma_scan_keeps_no_reserved(evs, hl, i - 1);
        assert forall|k: int| 0 <= k < items_upto(evs, hl, i).len() implies keeps_no_reserved(
            evs,
            #[trigger] items_upto(evs, hl, i)[k],
        ) by {
            if k < items_upto(evs, hl, i - 1).len() {
                assert(items_upto(evs, hl, i)[k] == items_upto(evs, hl, i - 1)[k]);
            } else {
                assert(items_upto(evs, hl, i)[k] == step_items(evs, hl, i - 1)[k - items_upto(
                    evs,
                    hl,
                    i - 1,
                ).len()]);
            }
        }
    }
}

/// Filling pending handler slots cannot bring reserved markup back: when
/// the scanned stream keeps no reserved event, neither does the resolved
/// one.
pub proof fn lemma_resolve_keeps_no_reserved(
    evs: Seq<MdEventSpec>,
    items: Seq<OutItemSpec>,
    resp: Seq<Seq<u8>>,
)
    requires
        forall|k: int| 0 <= k < items.len() ==> keeps_no_reserved(evs, #[trigger] items[k]),
    ensures
        forall|k: int| 0 <= k < resolve_spec(items, resp).len() ==> keeps_no_reserved(
            evs,
            #[trigger] resolve_spec(items, resp)[k],
        ),
{
}

/// What one pass over a document's events yields: the rewritten stream,
/// the buffered metadata source, and the handler requests still to be
/// served.
#[derive(Debug)]
pub struct ScanOut {
    /// The rewritten stream, with one pending slot per handler request.
    pub items: Vec<OutItem>,
    /// The metadata block's buffered text, if any text run was seen.
    pub meta: Option<Vec<u8>>,
    /// The handler requests, in document order: name and block text.
    pub requests: Vec<(Vec<u8>, Vec<u8>)>,
}

/// Scans a document's events once: drops directive fences, buffers the
/// metadata block's text, turns each handler block into a pending request
/// after checking its name against the registry, colorizes code block
/// text with the outcomes in `hl`, and glyph-substitutes every other text
/// run. A handler block naming an unregistered handler fails the scan
/// with a missing-handler error naming the document and the first such
/// name.
#[verifier::loop_isolation(false)]
pub fn scan_events(
    evs: &Vec<MdEvent>,
    hl: &Vec<Option<Vec<u8>>>,
    reg: &HandlerRegistry,
    doc: &Vec<u8>,
) -> (r: Result<ScanOut, Error>)
    requires
        hl@.len() == evs@.len(),
    ensures
        match r {
            Ok(s) => no_missing_handler(events_view(evs@), reg.spec_names()) && items_view(s.items@)
                == scan_items_spec(events_view(evs@), opts_view(hl@)) && (match s.meta {
                Some(m) => scan_meta_spec(events_view(evs@)) == Some(m@),
                None => scan_meta_spec(events_view(evs@)) == None::<Seq<u8>>,
            }) && pairs_view(s.requests@) == scan_requests_spec(events_view(evs@)),
            Err(e) => exists|j: int|
                #[trigger] is_bad_at(events_view(evs@), reg.spec_names(), j) && (forall|k: int|
                    0 <= k < j ==> !is_bad_at(events_view(evs@), reg.spec_names(), k)) && e@
                    == ErrorSpec::MissingHandler(
                    doc@,
                    request_name(lang_at(events_view(evs@), j)),
                ),
        },
{
    proof {
        reveal_strlit("templateinfo");
        reveal_strlit("cuddly_");
    }
    let ghost ev = events_view(evs@);
    let ghost hlv = opts_view(hl@);
    let ghost names = reg.spec_names();
    let meta_lit = lit_bytes("templateinfo");
    let cuddly_lit = lit_bytes("cuddly_");
    let mut items: Vec<OutItem> = Vec::new();
    let mut meta: Option<Vec<u8>> = None;
    let mut requests: Vec<(Vec<u8>, Vec<u8>)> = Vec::new();
    let mut lang: Option<Vec<u8>> = None;
    let mut i: usize = 0;
    while i < evs.len()
        invariant
            i <= evs@.len(),
            (match lang {
                Some(l) => lang_state_after(ev, i as int) == Some(l@),
                None => lang_state_after(ev, i as int) == None::<Seq<u8>>,
            }),
            items_view(items@) == items_upto(ev, hlv, i as int),
            (match meta {
                Some(m) => meta_upto(ev, i as int) == Some(m@),
                None => meta_upto(ev, i as int) == None::<Seq<u8>>,
            }),
            pairs_view(requests@) == requests_upto(ev, i as int),
            requests@.len() == req_count(ev, i as int),
            forall|k: int| 0 <= k < i ==> !is_bad_at(ev, names, k),
        decreases evs@.len() - i,
    {
        let ghost items0 = items@;
        let ghost requests0 = requests@;
        proof {
            assert(ev[i as int] == evs@[i as int]@);
        }
        match &evs[i] {
            MdEvent::FenceStart(l) => {
                if !(bytes_eq(l, &meta_lit) || starts_with(l, &cuddly_lit)) {
                    items.push(OutItem::Orig(i));
                }
                lang = Some(clone_bytes(l));
            },
            MdEvent::FenceEnd(l) => {
                if !(bytes_eq(l, &meta_lit) || starts_with(l, &cuddly_lit)) {
                    items.push(OutItem::Orig(i));
                }
                lang = None;
            },
            MdEvent::Text(t) => {
                let sub = substitute(t);
                match &lang {
                    Some(l) => {
                        if bytes_eq(l, &meta_lit) {
                            let new_meta = match meta {
                                Some(m) => {
                                    let mut m2 = m;
                                    push_all(&mut m2, &sub);
                                    m2
                                },
                                None => sub,
                            };
                            meta = Some(new_meta);
                        } else if starts_with(l, &cuddly_lit) {
                            let name = copy_range(l, 7, l.len());
                            proof {
                                assert(name@ == request_name(lang_at(ev, i as int)));
                            }
                            if !reg.contains_name(&name) {
                                proof {
                                    assert(is_bad_at(ev, names, i as int));
                                }
                                return Err(Error::MissingHandler(clone_bytes(doc), name));
                            }
                            items.push(OutItem::Pending(requests.len()));
                            requests.push((name, sub));
                        } else {
                            proof {
                                assert(!spec_starts_with(l@, handler_prefix()));
                            }
                            match &hl[i] {
                                Some(h) => items.push(OutItem::Html(clone_bytes(h))),
                                None => items.push(OutItem::Text(sub)),
                            }
                        }
                    },
                    None => {
                        items.push(OutItem::Text(sub));
                    },
                }
            },
            MdEvent::Other => {
                items.push(OutItem::Orig(i));
            },
        }
        proof {
            assert(items_upto(ev, hlv, i + 1) == items_upto(ev, hlv, i as int) + step_items(
                ev,
                hlv,
                i as int,
            ));
            assert(items_view(items@) =~= items_upto(ev, hlv, i + 1));
            assert(pairs_view(requests@) =~= requests_upto(ev, i + 1));
        }
        i = i + 1;
    }
    Ok(ScanOut { items, meta, requests })
}

/// The rewritten stream with each pending handler slot filled by the
/// matching fragment; a slot out of range is filled empty.
pub open spec fn resolve_spec(items: Seq<OutItemSpec>, resp: Seq<Seq<u8>>) -> Seq<OutItemSpec> {
    Seq::new(
        items.len(),
        |k: int|
            match items[k] {
                OutItemSpec::Pending(j) => if 0 <= j < resp.len() {
                    OutItemSpec::Html(resp[j])
                } else {
                    OutItemSpec::Html(Seq::empty())
                },
                it => it,
            },
    )
}

/// Fills each pending handler slot of the rewritten stream with the
/// fragment the matching request produced.
#[verifier::loop_isolation(false)]
pub fn resolve_items(items: &Vec<OutItem>, responses: &Vec<Vec<u8>>) -> (r: Vec<OutItem>)
    ensures
        items_view(r@) == resolve_spec(items_view(items@), responses.deep_view()),
{
    proof {
        crate::bytes::lemma_deep_view_vecs(responses);
    }
    let mut out: Vec<OutItem> = Vec::new();
    let mut k: usize = 0;
    while k < items.len()
        invariant
            k <= items@.len(),
            out@.len() == k,
            forall|j: int| 0 <= j < k ==> out@[j]@ == resolve_spec(
                items_view(items@),
                responses.deep_view(),
            )[j],
        decreases items@.len() - k,
    {
        match &items[k] {
            OutItem::Orig(i) => out.push(OutItem::Orig(*i)),
            OutItem::Html(h) => out.push(OutItem::Html(clone_bytes(h))),
            OutItem::Text(t) => out.push(OutItem::Text(clone_bytes(t))),
            OutItem::Pending(j) => {
                if *j < responses.len() {
                    out.push(OutItem::Html(clone_bytes(&responses[*j])));
                } else {
                    out.push(OutItem::Html(Vec::new()));
                }
            },
        }
        k = k + 1;
    }
    proof {
        assert(items_view(out@) =~= resolve_spec(items_view(items@), responses.deep_view()));
    }
    out
}

} // verus!
