//! The entry point: a client that turns requests into pending responses.
use vstd::prelude::*;
use crate::error::Error;
use crate::request::{convert_request, headers_are_text, translated, AbstractRequest, HostRequest};
use crate::response::{convert_response, converted, AbstractResponse, HostResponse};

verus! {

/// A client over the host's fetch. It keeps no state: every request is on
/// its own, and it is always ready for the next one.
pub struct Client;

/// A response on its way: either a host request to fetch, or a failure
/// found before anything was sent, which resolves at once.
pub enum ResponseFuture {
    Fetch(HostRequest),
    Rejected(Error),
}

impl Client {
    pub fn new() -> (c: Client) {
        Client
    }

    /// The client takes a new request at any time.
    pub fn poll_ready(&self) -> (r: Result<(), Error>)
        ensures
            r is Ok,
    {
        Ok(())
    }

    /// Starts a request. Where it cannot be translated, the failure is not
    /// raised here but held by the pending response, which resolves to it.
    pub fn request(&self, req: &AbstractRequest) -> (r: ResponseFuture)
        ensures
            r is Fetch <==> headers_are_text(req.headers@),
            r matches ResponseFuture::Fetch(host) ==> translated(req, &host),
            r matches ResponseFuture::Rejected(e) ==> e == Error::InvalidHeaderEncoding,
    {
        match convert_request(req) {
            Ok(host) => ResponseFuture::Fetch(host),
            Err(e) => ResponseFuture::Rejected(e),
        }
    }
}

impl ResponseFuture {
    /// The host request to fetch, where there is one.
    pub fn host_request(&self) -> (r: Option<&HostRequest>)
        ensures
            self matches ResponseFuture::Fetch(h) ==> r == Some(h),
            self is Rejected ==> r is None,
    {
        match self {
            ResponseFuture::Fetch(h) => Some(h),
            ResponseFuture::Rejected(_) => None,
        }
    }

    /// Resolves the pending response, once, from what the host's fetch
    /// gave: its response, or `None` where the fetch failed or was never
    /// made. A failure held from the start comes out as it is; a failed
    /// fetch is a `TransportError`; a response is translated.
    pub fn poll(&self, fetched: Option<HostResponse>) -> (r: Result<AbstractResponse, Error>)
        ensures
            self matches ResponseFuture::Rejected(e) ==> (r matches Err(f) && f == e),
            self is Fetch && fetched is None ==> (r matches Err(f) && f == Error::TransportError),
            self is Fetch && fetched is Some ==> converted(&fetched.unwrap(), &r),
    {
        match self {
            ResponseFuture::Rejected(e) => Err(*e),
            ResponseFuture::Fetch(_) => match fetched {
                Some(res) => convert_response(&res),
                None => Err(Error::TransportError),
            },
        }
    }
}

} // verus!
