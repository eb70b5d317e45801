use fetch_client::body::{Body, HostRead, PollStep};
use fetch_client::client::{Client, ResponseFuture};
use fetch_client::error::Error;
use fetch_client::request::{convert_request, AbstractRequest};
use fetch_client::response::{convert_response, HostResponse};

fn request(method: &str, uri: &str, headers: &[(&str, &[u8])], body: &[u8]) -> AbstractRequest {
    AbstractRequest {
        method: method.to_string(),
        uri: uri.to_string(),
        headers: headers.iter().map(|(k, v)| (k.to_string(), v.to_vec())).collect(),
        body: body.to_vec(),
    }
}

fn host_response(status: u16, headers: &[(&str, &str)], has_body: bool) -> HostResponse {
    HostResponse {
        status,
        headers: headers
            .iter()
            .map(|(k, v)| (Some(k.to_string()), Some(v.to_string())))
            .collect(),
        has_body,
    }
}

fn pairs(h: &[(String, String)]) -> Vec<(&str, &str)> {
    h.iter().map(|(k, v)| (k.as_str(), v.as_str())).collect()
}

#[test]
fn get_without_body_sends_no_body() {
    let req = request("GET", "/items", &[("Accept", b"application/json")], b"");
    let host = convert_request(&req).unwrap();
    assert_eq!(host.method, "GET");
    assert_eq!(host.uri, "/items");
    assert!(host.body.is_none());
    assert_eq!(pairs(&host.headers), vec![("Accept", "application/json")]);
}

#[test]
fn non_empty_body_is_attached() {
    let req = request("POST", "/items", &[], b"payload");
    let host = convert_request(&req).unwrap();
    assert_eq!(host.body, Some(b"payload".to_vec()));
}

#[test]
fn request_keeps_repeated_header_values() {
    let req = request(
        "GET",
        "/",
        &[("Accept", b"text/html"), ("X-Tag", b"a"), ("Accept", b"text/plain"), ("X-Tag", b"a")],
        b"",
    );
    let host = convert_request(&req).unwrap();
    assert_eq!(
        pairs(&host.headers),
        vec![("Accept", "text/html"), ("X-Tag", "a"), ("Accept", "text/plain"), ("X-Tag", "a")]
    );
}

#[test]
fn request_header_value_that_is_not_text_fails() {
    let req = request("GET", "/", &[("X-Bin", b"caf\xc3\xa9")], b"");
    assert!(matches!(convert_request(&req), Err(Error::InvalidHeaderEncoding)));
    let req = request("GET", "/", &[("X-Ok", b"fine\tvalue"), ("X-Nl", b"a\nb")], b"");
    assert!(matches!(convert_request(&req), Err(Error::InvalidHeaderEncoding)));
}

#[test]
fn response_with_two_chunks() {
    let res = host_response(200, &[("Content-Type", "text/plain")], true);
    let mut resp = convert_response(&res).ok().unwrap();
    assert_eq!(resp.status, 200);
    assert_eq!(pairs(&resp.headers), vec![("content-type", "text/plain")]);
    let body = &mut resp.body;
    let mut script = vec![HostRead::Chunk(b"ab".to_vec()), HostRead::Chunk(b"cd".to_vec()), HostRead::Done]
        .into_iter();
    let mut items = Vec::new();
    let mut reads = 1;
    loop {
        match body.poll_data() {
            PollStep::End => break,
            PollStep::AwaitRead => {
                let step = body.on_read(script.next().unwrap());
                if step.read_next {
                    reads += 1;
                }
                match step.item {
                    Some(item) => items.push(item),
                    None => break,
                }
            }
        }
    }
    assert!(matches!(&items[..], [Ok(a), Ok(b)] if a == b"ab" && b == b"cd"));
    assert_eq!(reads, 3);
    assert_eq!(body.poll_data(), PollStep::End);
    assert!(!body.is_active());
}

#[test]
fn failed_read_after_one_chunk() {
    let mut body = Body::streaming();
    assert_eq!(body.poll_data(), PollStep::AwaitRead);
    let first = body.on_read(HostRead::Chunk(vec![1, 2, 3]));
    assert!(matches!(first.item, Some(Ok(ref c)) if c == &vec![1, 2, 3]));
    assert!(first.read_next);
    assert_eq!(body.poll_data(), PollStep::AwaitRead);
    let second = body.on_read(HostRead::Failed);
    assert!(matches!(second.item, Some(Err(Error::TransportError))));
    assert!(!second.read_next);
    assert_eq!(body.poll_data(), PollStep::End);
    assert_eq!(body.poll_data(), PollStep::End);
}

#[test]
fn absent_body_ends_every_time() {
    let res = host_response(204, &[], false);
    let resp = convert_response(&res).ok().unwrap();
    for _ in 0..5 {
        assert_eq!(resp.body.poll_data(), PollStep::End);
    }
    assert!(!resp.body.is_active());
    assert!(resp.body.poll_trailers().is_none());
    assert_eq!(Body::empty().poll_data(), PollStep::End);
}

#[test]
fn status_out_of_range_is_refused() {
    for status in [0u16, 99, 600, 999, 1000] {
        let res = host_response(status, &[("Content-Type", "text/plain")], true);
        assert!(matches!(convert_response(&res), Err(Error::InvalidStatus)));
    }
    for status in [100u16, 404, 599] {
        let res = host_response(status, &[], false);
        assert_eq!(convert_response(&res).ok().unwrap().status, status);
    }
}

#[test]
fn response_keeps_repeated_header_values() {
    let res = host_response(
        200,
        &[("Set-Cookie", "a=1"), ("Vary", "Accept"), ("Set-Cookie", "b=2"), ("Set-Cookie", "a=1")],
        false,
    );
    let resp = convert_response(&res).ok().unwrap();
    assert_eq!(
        pairs(&resp.headers),
        vec![("set-cookie", "a=1"), ("vary", "Accept"), ("set-cookie", "b=2"), ("set-cookie", "a=1")]
    );
}

#[test]
fn response_header_that_is_not_text_fails() {
    let mut res = host_response(200, &[("Content-Type", "text/plain")], false);
    res.headers.push((Some("X-Count".to_string()), None));
    assert!(matches!(convert_response(&res), Err(Error::InvalidHeaderEncoding)));
    let res = host_response(200, &[("bad name", "x")], false);
    assert!(matches!(convert_response(&res), Err(Error::InvalidHeaderEncoding)));
    let res = host_response(200, &[("", "x")], false);
    assert!(matches!(convert_response(&res), Err(Error::InvalidHeaderEncoding)));
    let res = host_response(200, &[("X-Line", "a\nb")], false);
    assert!(matches!(convert_response(&res), Err(Error::InvalidHeaderEncoding)));
    let res = host_response(200, &[("X-Word", "caf\u{e9}")], false);
    assert_eq!(pairs(&convert_response(&res).ok().unwrap().headers), vec![("x-word", "caf\u{e9}")]);
}

#[test]
fn client_rejects_untranslatable_request_when_polled() {
    let client = Client::new();
    assert!(client.poll_ready().is_ok());
    let fut = client.request(&request("GET", "/", &[("X-Bad", b"\x01")], b""));
    assert!(fut.host_request().is_none());
    let fetched = host_response(200, &[], false);
    assert!(matches!(fut.poll(Some(fetched)), Err(Error::InvalidHeaderEncoding)));
}

#[test]
fn client_resolves_fetched_response() {
    let client = Client::new();
    let fut = client.request(&request("DELETE", "/items/7", &[("Accept", b"*/*")], b""));
    let host = fut.host_request().unwrap();
    assert_eq!(host.method, "DELETE");
    assert_eq!(host.uri, "/items/7");
    assert!(matches!(fut, ResponseFuture::Fetch(_)));
    let resp = fut.poll(Some(host_response(201, &[("Location", "/items/8")], true))).ok().unwrap();
    assert_eq!(resp.status, 201);
    assert!(resp.body.is_active());
    assert!(matches!(fut.poll(Some(host_response(700, &[], false))), Err(Error::InvalidStatus)));
    assert!(matches!(fut.poll(None), Err(Error::TransportError)));
}
