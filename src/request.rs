use vstd::prelude::*;
use vstd::string::StringExecFns;

use crate::headers::Header;

verus! {

/// What is appended to a callback URL to give the request's destination.
pub const SAVE_SUFFIX: &'static str = "_save";

/// The fixed header name that carries the correlation ID beside the configured one.
pub const ID_HEADER: &'static str = "id";

/// A POST that forwards one record's payload to its callback endpoint.
pub struct OutboundRequest {
    pub url: String,
    pub headers: Vec<Header>,
    pub body: Vec<u8>,
}

/// A request as values: destination, headers in order, body.
pub type RequestModel = (Seq<char>, Seq<(Seq<char>, Seq<char>)>, Seq<u8>);

impl View for OutboundRequest {
    type V = RequestModel;

    open spec fn view(&self) -> RequestModel {
        (self.url@, self.headers@.map_values(|h: Header| h@), self.body@)
    }
}

/// The destination for a callback URL.
pub open spec fn destination(url: Seq<char>) -> Seq<char> {
    url + SAVE_SUFFIX@
}

/// The request owed for a record whose callback URL is `url` and whose
/// correlation ID is `cid`: the ID travels under `id_key` and under `id`.
pub open spec fn request_model(url: Seq<char>, id_key: Seq<char>, cid: Seq<char>, body: Seq<u8>) -> RequestModel {
    (destination(url), seq![(id_key, cid), (ID_HEADER@, cid)], body)
}

/// Builds the request that forwards `body` to `url` with the correlation ID.
pub fn build_request(url: &String, id_key: &String, cid: &String, body: Vec<u8>) -> (r: OutboundRequest)
    ensures
        r@ == request_model(url@, id_key@, cid@, body@),
{
    let dest = url.clone().concat(SAVE_SUFFIX);
    let mut headers: Vec<Header> = Vec::new();
    headers.push(Header::new(id_key.clone(), cid.clone()));
    headers.push(Header::new(String::from_str(ID_HEADER), cid.clone()));
    let r = OutboundRequest { url: dest, headers, body };
    assert(r@.1 =~= seq![(id_key@, cid@), (ID_HEADER@, cid@)]);
    r
}

} // verus!
