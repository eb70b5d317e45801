//! From the host's native response to the abstract one.
use vstd::prelude::*;
use crate::body::{Body, BodyState};
use crate::error::Error;
use crate::text::{header_name_parse, header_value_accepts, is_value_string, parsed_header_name};

verus! {

/// What the host's native response shows: its status, its header entries
/// in the host's order (a key or value is `None` where the host's value is
/// not a string), and whether it has a body.
pub struct HostResponse {
    pub status: u16,
    pub headers: Vec<(Option<String>, Option<String>)>,
    pub has_body: bool,
}

/// An HTTP response: status, header pairs and a body read lazily.
pub struct AbstractResponse {
    pub status: u16,
    pub headers: Vec<(String, String)>,
    pub body: Body,
}

/// The status codes a response may have.
pub open spec fn status_valid(s: u16) -> bool {
    100 <= s <= 599
}

/// A host header entry whose key is a header name and whose value can be a
/// header value, both as text.
pub open spec fn entry_ok(e: (Option<String>, Option<String>)) -> bool {
    &&& e.0 matches Some(k) && parsed_header_name(k@) is Some
    &&& e.1 matches Some(v) && is_value_string(v@)
}

/// Every host header entry can be taken over.
pub open spec fn entries_ok(h: Seq<(Option<String>, Option<String>)>) -> bool {
    forall|i: int| 0 <= i < h.len() ==> entry_ok(#[trigger] h[i])
}

/// The response's header pairs are the host's entries, one for one and in
/// order, each name as `http` parses it.
pub open spec fn entries_carried(h: Seq<(Option<String>, Option<String>)>, t: Seq<(String, String)>) -> bool {
    &&& t.len() == h.len()
    &&& forall|i: int| 0 <= i < h.len() ==> {
        &&& h[i].0 matches Some(k) && parsed_header_name(k@) == Some((#[trigger] t[i]).0@)
        &&& h[i].1 matches Some(v) && t[i].1@ == v@
    }
}

/// The outcome that translating `res` must have.
pub open spec fn converted(res: &HostResponse, r: &Result<AbstractResponse, Error>) -> bool {
    &&& (r is Ok <==> status_valid(res.status) && entries_ok(res.headers@))
    &&& (!status_valid(res.status) ==> (r matches Err(e) && e == Error::InvalidStatus))
    &&& (status_valid(res.status) && !entries_ok(res.headers@) ==> (r matches Err(e) && e
        == Error::InvalidHeaderEncoding))
    &&& (r matches Ok(a) ==> {
        &&& a.status == res.status
        &&& entries_carried(res.headers@, a.headers@)
        &&& (a.body@ == BodyState::Active <==> res.has_body)
    })
}

/// The (name, value) pairs of host header entries that can be taken over.
pub open spec fn entry_pairs(h: Seq<(Option<String>, Option<String>)>) -> Seq<(Seq<char>, Seq<char>)> {
    h.map_values(|e: (Option<String>, Option<String>)| (parsed_header_name(e.0.unwrap()@).unwrap(), e.1.unwrap()@))
}

/// The (name, value) pairs of a header list.
pub open spec fn text_pairs(t: Seq<(String, String)>) -> Seq<(Seq<char>, Seq<char>)> {
    t.map_values(|p: (String, String)| (p.0@, p.1@))
}

/// Translating a response keeps every header pair of the host, as often as
/// it occurs, several values under one name included.
pub proof fn lemma_response_pairs_kept(res: &HostResponse, a: &AbstractResponse)
    requires
        converted(res, &Ok(*a)),
    ensures
        text_pairs(a.headers@) == entry_pairs(res.headers@),
        text_pairs(a.headers@).to_multiset() == entry_pairs(res.headers@).to_multiset(),
{
    assert(text_pairs(a.headers@) =~= entry_pairs(res.headers@));
}

/// Translates the host's response. It fails with `InvalidStatus` where the
/// status is out of range, else with `InvalidHeaderEncoding` where a header
/// entry cannot be taken over. The body is absent exactly where the host
/// reported none; otherwise its first read is taken to be in flight.
pub fn convert_response(res: &HostResponse) -> (r: Result<AbstractResponse, Error>)
    ensures
        converted(res, &r),
{
    if res.status < 100 || res.status > 599 {
        return Err(Error::InvalidStatus);
    }
    let mut headers: Vec<(String, String)> = Vec::new();
    let mut i: usize = 0;
    while i < res.headers.len()
        invariant
            i <= res.headers.len(),
            status_valid(res.status),
            entries_ok(res.headers@.take(i as int)),
            entries_carried(res.headers@.take(i as int), headers@),
        decreases res.headers.len() - i,
    {
        let entry = &res.headers[i];
        let name = match &entry.0 {
            Some(k) => header_name_parse(k.as_str()),
            None => None,
        };
        let value = match &entry.1 {
            Some(v) => if header_value_accepts(v.as_str()) {
                Some(v.clone())
            } else {
                None
            },
            None => None,
        };
        match (name, value) {
            (Some(k), Some(v)) => {
                headers.push((k, v));
            },
            _ => {
                assert(!entry_ok(res.headers@[i as int]));
                return Err(Error::InvalidHeaderEncoding);
            },
        }
        i = i + 1;
        assert(res.headers@.take(i as int).drop_last() == res.headers@.take(i - 1));
    }
    assert(res.headers@.take(i as int) == res.headers@);
    let body = if res.has_body {
        Body::streaming()
    } else {
        Body::empty()
    };
    Ok(AbstractResponse { status: res.status, headers, body })
}

} // verus!
