use vstd::prelude::*;

use crate::bytes::{bytes_of, clone_bytes, lit_bytes, push_all};
use crate::errors::{Error, ErrorSpec};
use crate::records::{pairs_view, record_pairs, record_pairs_field, record_str, record_str_field};

verus! {

/// The name of the navigation-header handler.
pub open spec fn header_name() -> Seq<u8> {
    bytes_of("header"@)
}

/// The name of the document-inclusion handler.
pub open spec fn include_name() -> Seq<u8> {
    bytes_of("include"@)
}

/// The name of the directory-index handler.
pub open spec fn index_name() -> Seq<u8> {
    bytes_of("index"@)
}

/// One of the built-in fragment renderers.
#[derive(Debug)]
pub enum HandlerKind {
    /// Renders the navigation header.
    Header,
    /// Inlines another document's rendered body.
    Include,
    /// Lists the documents of a directory.
    Index,
}

/// A name is among the registered handler names.
pub open spec fn reg_contains(names: Seq<Seq<u8>>, name: Seq<u8>) -> bool {
    exists|k: int| 0 <= k < names.len() && names[k] == name
}

/// The handler registry: the set of handler names bound at startup,
/// read-only thereafter.
pub struct HandlerRegistry {
    /// The registered handler names.
    pub names: Vec<Vec<u8>>,
}

impl HandlerRegistry {
    /// The registered names, as byte sequences.
    pub open spec fn spec_names(&self) -> Seq<Seq<u8>> {
        self.names.deep_view()
    }

    /// The registry holding exactly the three built-in handlers.
    pub fn with_builtins() -> (r: HandlerRegistry)
        ensures
            r.spec_names() == seq![header_name(), include_name(), index_name()],
    {
        proof {
            reveal_strlit("header");
            reveal_strlit("include");
            reveal_strlit("index");
        }
        let mut names: Vec<Vec<u8>> = Vec::new();
        names.push(lit_bytes("header"));
        names.push(lit_bytes("include"));
        names.push(lit_bytes("index"));
        let r = HandlerRegistry { names };
        proof {
            crate::bytes::lemma_deep_view_vecs(&r.names);
            assert(r.spec_names() =~= seq![header_name(), include_name(), index_name()]);
        }
        r
    }

    /// Whether a handler of this name is registered.
    pub fn contains_name(&self, name: &Vec<u8>) -> (r: bool)
        ensures
            r == reg_contains(self.spec_names(), name@),
    {
        proof {
            crate::bytes::lemma_deep_view_vecs(&self.names);
        }
        let mut i: usize = 0;
        while i < self.names.len()
            invariant
                i <= self.names@.len(),
                self.spec_names().len() == self.names@.len(),
                forall|k: int| 0 <= k < self.names@.len() ==> self.spec_names()[k]
                    == self.names@[k]@,
                forall|k: int| 0 <= k < i ==> self.spec_names()[k] != name@,
            decreases self.names@.len() - i,
        {
            if crate::bytes::bytes_eq(&self.names[i], name) {
                proof {
                    assert(self.spec_names()[i as int] == name@);
                }
                return true;
            }
            i = i + 1;
        }
        false
    }

    /// Looks the named handler up. An unregistered name always fails with
    /// a missing-handler error naming the document and exactly that name;
    /// a registered built-in name yields its handler.
    pub fn dispatch(&self, doc: &Vec<u8>, name: &Vec<u8>) -> (r: Result<HandlerKind, Error>)
        ensures
            !reg_contains(self.spec_names(), name@) ==> (r matches Err(e) && e@
                == ErrorSpec::MissingHandler(doc@, name@)),
            reg_contains(self.spec_names(), name@) && name@ == header_name() ==> (r matches Ok(k)
                && k is Header),
            reg_contains(self.spec_names(), name@) && name@ == include_name() ==> (r matches Ok(k)
                && k is Include),
            reg_contains(self.spec_names(), name@) && name@ == index_name() ==> (r matches Ok(k)
                && k is Index),
            match r {
                Ok(k) => reg_contains(self.spec_names(), name@) && match k {
                    HandlerKind::Header => name@ == header_name(),
                    HandlerKind::Include => name@ == include_name(),
                    HandlerKind::Index => name@ == index_name(),
                },
                Err(e) => e@ == ErrorSpec::MissingHandler(doc@, name@),
            },
    {
        proof {
            reveal_strlit("header");
            reveal_strlit("include");
            reveal_strlit("index");
            assert(header_name().len() == 6);
            assert(include_name().len() == 7);
            assert(index_name().len() == 5);
        }
        if !self.contains_name(name) {
            return Err(Error::MissingHandler(clone_bytes(doc), clone_bytes(name)));
        }
        if crate::bytes::bytes_eq(name, &lit_bytes("header")) {
            Ok(HandlerKind::Header)
        } else if crate::bytes::bytes_eq(name, &lit_bytes("include")) {
            Ok(HandlerKind::Include)
        } else if crate::bytes::bytes_eq(name, &lit_bytes("index")) {
            Ok(HandlerKind::Index)
        } else {
            Err(Error::MissingHandler(clone_bytes(doc), clone_bytes(name)))
        }
    }
}

/// Parses a navigation-header configuration: the `left` and `right` lists
/// of (icon or label, target) pairs, each defaulting to empty when absent.
/// Text that does not parse at all is rejected.
pub fn parse_header_config(src: &Vec<u8>) -> (r: Result<
    (Vec<(Vec<u8>, Vec<u8>)>, Vec<(Vec<u8>, Vec<u8>)>),
    (),
>)
    ensures
        match r {
            Ok(lr) => (match record_pairs(src@, bytes_of("left"@)) {
                Ok(Some(v)) => pairs_view(lr.0@) == v,
                Ok(None) => lr.0@.len() == 0,
                Err(_) => false,
            }) && (match record_pairs(src@, bytes_of("right"@)) {
                Ok(Some(v)) => pairs_view(lr.1@) == v,
                Ok(None) => lr.1@.len() == 0,
                Err(_) => false,
            }),
            Err(_) => record_pairs(src@, bytes_of("left"@)) == Err::<
                Option<Seq<(Seq<u8>, Seq<u8>)>>,
                (),
            >(()) || record_pairs(src@, bytes_of("right"@)) == Err::<
                Option<Seq<(Seq<u8>, Seq<u8>)>>,
                (),
            >(()),
        },
{
    let left = match record_pairs_field(src, "left") {
        Ok(Some(v)) => v,
        Ok(None) => Vec::new(),
        Err(_) => {
            return Err(());
        },
    };
    let right = match record_pairs_field(src, "right") {
        Ok(Some(v)) => v,
        Ok(None) => Vec::new(),
        Err(_) => {
            return Err(());
        },
    };
    Ok((left, right))
}

/// Parses an inclusion or index configuration: the required `path` value.
pub fn parse_path_config(src: &Vec<u8>) -> (r: Result<Vec<u8>, ()>)
    ensures
        match r {
            Ok(p) => record_str(src@, bytes_of("path"@)) == Ok::<Option<Seq<u8>>, ()>(Some(p@)),
            Err(_) => !(record_str(src@, bytes_of("path"@)) matches Ok(Some(_))),
        },
{
    match record_str_field(src, "path") {
        Ok(Some(v)) => Ok(v),
        _ => Err(()),
    }
}

/// The long-form rendering (month name, day, year) of a date text, if the
/// text parses as a date.
pub uninterp spec fn formatted_date_of(raw: Seq<u8>) -> Option<Seq<u8>>;

/// Relies on chrono's parsing and formatting: renders a date text in its
/// long form, a function of the text alone.
#[verifier::external_body]
pub fn format_date(raw: &Vec<u8>) -> (r: Option<Vec<u8>>)
    ensures
        match r {
            Some(v) => formatted_date_of(raw@) == Some(v@),
            None => formatted_date_of(raw@) == None::<Seq<u8>>,
        },
{
    let s = core::str::from_utf8(raw).ok()?.trim();
    let d = chrono::DateTime::parse_from_rfc3339(s)
        .map(|t| t.date_naive())
        .or_else(|_| chrono::NaiveDate::parse_from_str(s, "%Y-%m-%d"))
        .ok()?;
    Some(d.format("%B %d, %Y").to_string().into_bytes())
}

/// One navigation entry: the opening of its list item, the target, the
/// icon embed or the raw label, and the closing of the item.
pub open spec fn nav_item_spec(
    label: Seq<u8>,
    href: Seq<u8>,
    asset: Option<Seq<u8>>,
    right: bool,
) -> Seq<u8> {
    let open = if right {
        bytes_of("<li style=\"float:right\"><a href=\""@)
    } else {
        bytes_of("<li><a href=\""@)
    };
    let content = match asset {
        Some(a) => a,
        None => label,
    };
    open + href + bytes_of("\">"@) + content + bytes_of("</a></li>\n"@)
}

/// The first `i` navigation entries, rendered in order.
pub open spec fn nav_items_upto(
    entries: Seq<(Seq<u8>, Seq<u8>)>,
    assets: Seq<Option<Seq<u8>>>,
    right: bool,
    i: int,
) -> Seq<u8>
    decreases i,
{
    if i <= 0 {
        Seq::empty()
    } else {
        nav_items_upto(entries, assets, right, i - 1) + nav_item_spec(
            entries[i - 1].0,
            entries[i - 1].1,
            assets[i - 1],
            right,
        )
    }
}

/// The navigation fragment: the left group, then the right group with its
/// items float-aligned, inside one navigation element.
pub open spec fn header_fragment_spec(
    left: Seq<(Seq<u8>, Seq<u8>)>,
    left_assets: Seq<Option<Seq<u8>>>,
    right: Seq<(Seq<u8>, Seq<u8>)>,
    right_assets: Seq<Option<Seq<u8>>>,
) -> Seq<u8> {
    bytes_of("<nav class=\"navbar\" role=\"navigation\"><ul>"@) + nav_items_upto(
        left,
        left_assets,
        false,
        left.len() as int,
    ) + nav_items_upto(right, right_assets, true, right.len() as int) + bytes_of("</nav>"@)
}

#[verifier::loop_isolation(false)]
fn append_nav_items(
    out: &mut Vec<u8>,
    entries: &Vec<(Vec<u8>, Vec<u8>)>,
    assets: &Vec<Option<Vec<u8>>>,
    right: bool,
)
    requires
        entries@.len() == assets@.len(),
    ensures
        final(out)@ == old(out)@ + nav_items_upto(
            pairs_view(entries@),
            crate::bytes::opts_view(assets@),
            right,
            entries@.len() as int,
        ),
{
    proof {
        reveal_strlit("<li style=\"float:right\"><a href=\"");
        reveal_strlit("<li><a href=\"");
        reveal_strlit("\">");
        reveal_strlit("</a></li>\n");
    }
    let ghost pe = pairs_view(entries@);
    let ghost pa = crate::bytes::opts_view(assets@);
    let mut i: usize = 0;
    while i < entries.len()
        invariant
            i <= entries@.len(),
            out@ == old(out)@ + nav_items_upto(pe, pa, right, i as int),
        decreases entries@.len() - i,
    {
        let ghost before = out@;
        let open = if right {
            lit_bytes("<li style=\"float:right\"><a href=\"")
        } else {
            lit_bytes("<li><a href=\"")
        };
        push_all(out, &open);
        push_all(out, &entries[i].1);
        let mid = lit_bytes("\">");
        push_all(out, &mid);
        match &assets[i] {
            Some(a) => push_all(out, a),
            None => push_all(out, &entries[i].0),
        }
        let close = lit_bytes("</a></li>\n");
        push_all(out, &close);
        proof {
            assert(out@ =~= before + nav_item_spec(pe[i as int].0, pe[i as int].1, pa[i as int], right));
            assert(out@ =~= old(out)@ + nav_items_upto(pe, pa, right, i + 1));
        }
        i = i + 1;
    }
}

/// Renders the navigation fragment from the two entry groups and the
/// icon embeds already resolved for them; an entry whose icon could not
/// be loaded falls back to its raw label.
pub fn header_fragment(
    left: &Vec<(Vec<u8>, Vec<u8>)>,
    left_assets: &Vec<Option<Vec<u8>>>,
    right: &Vec<(Vec<u8>, Vec<u8>)>,
    right_assets: &Vec<Option<Vec<u8>>>,
) -> (r: Vec<u8>)
    requires
        left@.len() == left_assets@.len(),
        right@.len() == right_assets@.len(),
    ensures
        r@ == header_fragment_spec(
            pairs_view(left@),
            crate::bytes::opts_view(left_assets@),
            pairs_view(right@),
            crate::bytes::opts_view(right_assets@),
        ),
{
    proof {
        reveal_strlit("<nav class=\"navbar\" role=\"navigation\"><ul>");
        reveal_strlit("</nav>");
    }
    let mut out = lit_bytes("<nav class=\"navbar\" role=\"navigation\"><ul>");
    append_nav_items(&mut out, left, left_assets, false);
    append_nav_items(&mut out, right, right_assets, true);
    let close = lit_bytes("</nav>");
    push_all(&mut out, &close);
    out
}

/// One directory-listing entry: the document's title linked, then its
/// formatted timestamp.
pub open spec fn index_entry_spec(title: Seq<u8>, time: Seq<u8>) -> Seq<u8> {
    bytes_of(
        "\n                <article class=\"post-title\">\n                    <a href=\"/\" class=\"post-link\">"@,
    ) + title + bytes_of(
        "</a>\n                    <div class=\"flex-break\"></div>\n                    <span class=\"post-date\">"@,
    ) + time + bytes_of("</span>\n                </article>\n            "@)
}

/// The first `i` directory-listing entries, rendered in order.
pub open spec fn index_entries_upto(entries: Seq<(Seq<u8>, Seq<u8>)>, i: int) -> Seq<u8>
    decreases i,
{
    if i <= 0 {
        Seq::empty()
    } else {
        index_entries_upto(entries, i - 1) + index_entry_spec(entries[i - 1].0, entries[i - 1].1)
    }
}

/// The directory-index fragment: its fixed heading, one entry per listed
/// document, and the closing of the container.
pub open spec fn index_fragment_spec(entries: Seq<(Seq<u8>, Seq<u8>)>) -> Seq<u8> {
    bytes_of("<div class=\"container list-posts\">"@) + bytes_of(
        "<h1 class=\"list-title\">Blogs</h1>"@,
    ) + bytes_of("<h2 class=\"posts-year\">2021</h2>"@) + index_entries_upto(
        entries,
        entries.len() as int,
    ) + bytes_of("</div>"@)
}

/// Renders the directory-index fragment from the listed documents'
/// titles and formatted timestamps, in listing order.
#[verifier::loop_isolation(false)]
pub fn index_fragment(entries: &Vec<(Vec<u8>, Vec<u8>)>) -> (r: Vec<u8>)
    ensures
        r@ == index_fragment_spec(pairs_view(entries@)),
{
    proof {
        reveal_strlit("<div class=\"container list-posts\">");
        reveal_strlit("<h1 class=\"list-title\">Blogs</h1>");
        reveal_strlit("<h2 class=\"posts-year\">2021</h2>");
        reveal_strlit(
            "\n                <article class=\"post-title\">\n                    <a href=\"/\" class=\"post-link\">",
        );
        reveal_strlit(
            "</a>\n                    <div class=\"flex-break\"></div>\n                    <span class=\"post-date\">",
        );
        reveal_strlit("</span>\n                </article>\n            ");
        reveal_strlit("</div>");
    }
    let ghost pe = pairs_view(entries@);
    let mut out = lit_bytes("<div class=\"container list-posts\">");
    let h1 = lit_bytes("<h1 class=\"list-title\">Blogs</h1>");
    push_all(&mut out, &h1);
    let h2 = lit_bytes("<h2 class=\"posts-year\">2021</h2>");
    push_all(&mut out, &h2);
    let ghost head = out@;
    let mut i: usize = 0;
    while i < entries.len()
        invariant
            i <= entries@.len(),
            out@ == head + index_entries_upto(pe, i as int),
        decreases entries@.len() - i,
    {
        let ghost before = out@;
        let open = lit_bytes(
            "\n                <article class=\"post-title\">\n                    <a href=\"/\" class=\"post-link\">",
        );
        push_all(&mut out, &open);
        push_all(&mut out, &entries[i].0);
        let mid = lit_bytes(
            "</a>\n                    <div class=\"flex-break\"></div>\n                    <span class=\"post-date\">",
        );
        push_all(&mut out, &mid);
        push_all(&mut out, &entries[i].1);
        let close = lit_bytes("</span>\n                </article>\n            ");
        push_all(&mut out, &close);
        proof {
            assert(out@ =~= before + index_entry_spec(pe[i as int].0, pe[i as int].1));
            assert(out@ =~= head + index_entries_upto(pe, i + 1));
        }
        i = i + 1;
    }
    let close = lit_bytes("</div>");
    push_all(&mut out, &close);
    proof {
        assert(out@ =~= index_fragment_spec(pe));
    }
    out
}

} // verus!
