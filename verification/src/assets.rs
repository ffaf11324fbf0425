use vstd::prelude::*;

use crate::bytes::{bytes_of, lit_bytes, push_all};

verus! {

/// The standard base64 rendering of a byte string.
pub uninterp spec fn base64_of(data: Seq<u8>) -> Seq<u8>;

/// Relies on base64::encode with the standard padded alphabet: four output
/// bytes for every started group of three input bytes, a function of the
/// input alone.
#[verifier::external_body]
pub fn to_base64(data: &Vec<u8>) -> (r: Vec<u8>)
    ensures
        r@ == base64_of(data@),
        r@.len() == 4 * ((data@.len() + 2) / 3),
{
    base64::encode(data).into_bytes()
}

/// The media type guessed from a path's extension, if any.
pub uninterp spec fn mime_of(path: Seq<u8>) -> Option<Seq<u8>>;

/// Relies on mime_guess::from_path: the first media type guessed from the
/// path's extension, a function of the path alone.
#[verifier::external_body]
pub fn guess_mime(path: &Vec<u8>) -> (r: Option<Vec<u8>>)
    ensures
        match r {
            Some(v) => mime_of(path@) == Some(v@),
            None => mime_of(path@) == None::<Seq<u8>>,
        },
{
    let s = String::from_utf8_lossy(path);
    let m = mime_guess::from_path(s.as_ref()).first_raw()?;
    Some(m.as_bytes().to_vec())
}

/// A self-contained inline-image element for an asset: its bytes rendered
/// in base64 under the media type guessed from its path. A path whose
/// media type cannot be guessed has none.
pub open spec fn asset_embed_spec(path: Seq<u8>, data: Seq<u8>) -> Option<Seq<u8>> {
    match mime_of(path) {
        Some(m) => Some(
            bytes_of("<img src=\"data:"@) + m + bytes_of(";base64,"@) + base64_of(data)
                + bytes_of("\" />"@),
        ),
        None => None,
    }
}

/// Wraps an asset's bytes as a self-contained inline-image element.
pub fn asset_embed(path: &Vec<u8>, data: &Vec<u8>) -> (r: Option<Vec<u8>>)
    ensures
        match r {
            Some(v) => asset_embed_spec(path@, data@) == Some(v@),
            None => asset_embed_spec(path@, data@) == None::<Seq<u8>>,
        },
{
    proof {
        reveal_strlit("<img src=\"data:");
        reveal_strlit(";base64,");
        reveal_strlit("\" />");
    }
    let m = match guess_mime(path) {
        Some(m) => m,
        None => {
            return None;
        },
    };
    let mut out = lit_bytes("<img src=\"data:");
    push_all(&mut out, &m);
    let sep = lit_bytes(";base64,");
    push_all(&mut out, &sep);
    let payload = to_base64(data);
    push_all(&mut out, &payload);
    let close = lit_bytes("\" />");
    push_all(&mut out, &close);
    Some(out)
}

} // verus!
