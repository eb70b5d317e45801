//! From an abstract request to the description of a host-native one.
use vstd::prelude::*;
use crate::error::Error;
use crate::text::{ascii_chars, header_value_text, is_text_value};

verus! {

/// An HTTP request as the caller states it: method, target, header
/// multimap as a list of (name, value) pairs, and body.
pub struct AbstractRequest {
    pub method: String,
    pub uri: String,
    pub headers: Vec<(String, Vec<u8>)>,
    pub body: Vec<u8>,
}

/// What the host's native request is built from: the header pairs as text,
/// and a body only where there is one.
pub struct HostRequest {
    pub method: String,
    pub uri: String,
    pub headers: Vec<(String, String)>,
    pub body: Option<Vec<u8>>,
}

/// Every header value of the request reads as text.
pub open spec fn headers_are_text(h: Seq<(String, Vec<u8>)>) -> bool {
    forall|i: int| 0 <= i < h.len() ==> is_text_value(#[trigger] h[i].1@)
}

/// The host's header pairs are the request's, one for one and in order.
pub open spec fn headers_carried(h: Seq<(String, Vec<u8>)>, t: Seq<(String, String)>) -> bool {
    &&& t.len() == h.len()
    &&& forall|i: int| 0 <= i < h.len() ==> {
        &&& (#[trigger] t[i]).0@ == h[i].0@
        &&& t[i].1@ == ascii_chars(h[i].1@)
    }
}

/// The host request that a request is translated into.
pub open spec fn translated(req: &AbstractRequest, host: &HostRequest) -> bool {
    &&& host.method@ == req.method@
    &&& host.uri@ == req.uri@
    &&& headers_carried(req.headers@, host.headers@)
    &&& (req.body@.len() == 0 ==> host.body is None)
    &&& (req.body@.len() != 0 ==> (host.body matches Some(b) && b@ == req.body@))
}

/// The (name, text) pairs that the request's headers stand for.
pub open spec fn request_pairs(h: Seq<(String, Vec<u8>)>) -> Seq<(Seq<char>, Seq<char>)> {
    h.map_values(|p: (String, Vec<u8>)| (p.0@, ascii_chars(p.1@)))
}

/// The (name, value) pairs of the host's headers.
pub open spec fn host_pairs(t: Seq<(String, String)>) -> Seq<(Seq<char>, Seq<char>)> {
    t.map_values(|p: (String, String)| (p.0@, p.1@))
}

/// Translating a request keeps every header pair, as often as it occurs,
/// several values under one name included.
pub proof fn lemma_request_pairs_kept(req: &AbstractRequest, host: &HostRequest)
    requires
        translated(req, host),
    ensures
        host_pairs(host.headers@) == request_pairs(req.headers@),
        host_pairs(host.headers@).to_multiset() == request_pairs(req.headers@).to_multiset(),
{
    assert(host_pairs(host.headers@) =~= request_pairs(req.headers@));
}

/// Translates a request into what the host's native request is built from.
/// It fails with `InvalidHeaderEncoding` exactly when a header value does not
/// read as text. An empty body is left out rather than sent empty.
pub fn convert_request(req: &AbstractRequest) -> (r: Result<HostRequest, Error>)
    ensures
        r is Ok <==> headers_are_text(req.headers@),
        r matches Ok(host) ==> translated(req, &host),
        r matches Err(e) ==> e == Error::InvalidHeaderEncoding,
{
    let mut headers: Vec<(String, String)> = Vec::new();
    let mut i: usize = 0;
    while i < req.headers.len()
        invariant
            i <= req.headers.len(),
            headers_are_text(req.headers@.take(i as int)),
            headers_carried(req.headers@.take(i as int), headers@),
        decreases req.headers.len() - i,
    {
        let pair = &req.headers[i];
        match header_value_text(pair.1.as_slice()) {
            Some(v) => {
                headers.push((pair.0.clone(), v));
            },
            None => {
                assert(!is_text_value(req.headers@[i as int].1@));
                return Err(Error::InvalidHeaderEncoding);
            },
        }
        i = i + 1;
        assert(req.headers@.take(i as int).drop_last() == req.headers@.take(i - 1));
    }
    assert(req.headers@.take(i as int) == req.headers@);
    let body = if req.body.len() == 0 {
        None
    } else {
        let b = req.body.clone();
        assert(b@ == req.body@);
        Some(b)
    };
    Ok(HostRequest { method: req.method.clone(), uri: req.uri.clone(), headers, body })
}

} // verus!
