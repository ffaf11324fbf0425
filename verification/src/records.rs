use vstd::prelude::*;

use crate::bytes::bytes_of;

verus! {

/// What the structured key/value text assigns to a key, read as text:
/// `Err` when the text does not parse at all, `Ok(None)` when the key is
/// absent or its value is not text-like, and otherwise the value's text
/// (a date value rendered as its literal form).
pub uninterp spec fn record_str(src: Seq<u8>, key: Seq<u8>) -> Result<Option<Seq<u8>>, ()>;

/// Relies on toml::from_str: reads one string or datetime value out of a
/// key/value document; the result is a function of the text alone.
#[verifier::external_body]
pub(crate) fn record_str_field(src: &Vec<u8>, key: &str) -> (r: Result<Option<Vec<u8>>, ()>)
    ensures
        match r {
            Ok(Some(v)) => record_str(src@, bytes_of(key@)) == Ok::<Option<Seq<u8>>, ()>(
                Some(v@),
            ),
            Ok(None) => record_str(src@, bytes_of(key@)) == Ok::<Option<Seq<u8>>, ()>(None),
            Err(_) => record_str(src@, bytes_of(key@)) == Err::<Option<Seq<u8>>, ()>(()),
        },
{
    let s = core::str::from_utf8(src).map_err(|_| ())?;
    let table: toml::Table = toml::from_str(s).map_err(|_| ())?;
    match table.get(key) {
        Some(toml::Value::String(v)) => Ok(Some(v.clone().into_bytes())),
        Some(toml::Value::Datetime(d)) => Ok(Some(d.to_string().into_bytes())),
        _ => Ok(None),
    }
}

/// The view of a list of byte-vector pairs.
pub open spec fn pairs_view(v: Seq<(Vec<u8>, Vec<u8>)>) -> Seq<(Seq<u8>, Seq<u8>)> {
    Seq::new(v.len(), |i: int| (v[i].0@, v[i].1@))
}

/// What the structured key/value text assigns to a key, read as a list of
/// string pairs: `Err` when the text does not parse at all, `Ok(None)`
/// when the key is absent or its value is not such a list.
pub uninterp spec fn record_pairs(src: Seq<u8>, key: Seq<u8>) -> Result<
    Option<Seq<(Seq<u8>, Seq<u8>)>>,
    (),
>;

/// Relies on toml::from_str and toml::Value::try_into: reads a list of
/// string pairs out of a key/value document; the result is a function of
/// the text alone.
#[verifier::external_body]
pub(crate) fn record_pairs_field(src: &Vec<u8>, key: &str) -> (r: Result<Option<Vec<(Vec<u8>, Vec<u8>)>>, ()>)
    ensures
        match r {
            Ok(Some(v)) => record_pairs(src@, bytes_of(key@)) == Ok::<
                Option<Seq<(Seq<u8>, Seq<u8>)>>,
                (),
            >(Some(pairs_view(v@))),
            Ok(None) => record_pairs(src@, bytes_of(key@)) == Ok::<
                Option<Seq<(Seq<u8>, Seq<u8>)>>,
                (),
            >(None),
            Err(_) => record_pairs(src@, bytes_of(key@)) == Err::<
                Option<Seq<(Seq<u8>, Seq<u8>)>>,
                (),
            >(()),
        },
{
    let s = core::str::from_utf8(src).map_err(|_| ())?;
    let table: toml::Table = toml::from_str(s).map_err(|_| ())?;
    let v = match table.get(key) { Some(v) => v.clone(), None => return Ok(None) };
    match v.try_into::<Vec<(String, String)>>() {
        Ok(p) => Ok(Some(p.into_iter().map(|(a, b)| (a.into_bytes(), b.into_bytes())).collect())),
        Err(_) => Ok(None),
    }
}

} // verus!
