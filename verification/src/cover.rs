//! Cover images: the message the background fetcher sends and the URL it
//! fetches from.  The fetch itself, and the image decoding, happen
//! outside the library.

use vstd::prelude::*;
use vstd::string::*;

verus! {

/// What the cover fetcher reports back for an item.
#[derive(Debug)]
pub enum CoverMessage {
    Loaded { item_id: String, data: Vec<u8> },
    Error { item_id: String, error: String },
}

/// The URL a cover image is fetched from.
pub open spec fn spec_cover_url(base: Seq<char>, item_id: Seq<char>) -> Seq<char> {
    base + "/api/items/"@ + item_id + "/cover"@
}

/// Builds the URL of an item's cover on the media server.
pub fn cover_url(base_url: &String, item_id: &String) -> (r: String)
    ensures
        r@ == spec_cover_url(base_url@, item_id@),
{
    let mut r = base_url.clone();
    r.append("/api/items/");
    r.append(item_id.as_str());
    r.append("/cover");
    r
}

} // verus!
