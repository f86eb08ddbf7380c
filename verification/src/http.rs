//! Responses as plain values, and the bytes that go out for them.

use vstd::prelude::*;
use vstd::string::StringSliceAdditionalSpecFns;
use std::str::FromStr;
use crate::text::{
    chars_of,
    decimal,
    push_decimal,
    push_str,
    same_chars,
    string_of,
};

verus! {

/// The form in which a header's name is kept; none for a text that is no
/// name of a header.
pub uninterp spec fn header_name_of(name: Seq<char>) -> Option<Seq<char>>;

/// The form in which a header's value is kept; none for a text that is no
/// value of a header.
pub uninterp spec fn header_value_of(value: Seq<char>) -> Option<Seq<char>>;

/// The rendering of the media type that a text writes; none for a text
/// that writes no media type.
pub uninterp spec fn media_type_of(text: Seq<char>) -> Option<Seq<char>>;

/// The media type under which a text goes out as a body.
pub uninterp spec fn text_body_type(text: Seq<char>) -> Seq<char>;

/// The address `url` with `path` in place of its path; none where `url`
/// is no address.
pub uninterp spec fn address_with_path(url: Seq<char>, path: Seq<char>) -> Option<Seq<char>>;

/// The number of characters up to which an address and a path are put
/// together: what comes of them stays within what an address can hold.
pub const ADDRESS_LIMIT: usize = 0x00ff_ffff;

/// `Url::parse`, `Url::set_path` and the `Display` of `Url`: the address
/// with `path` in place of its path and the rest as it is, or nothing for
/// a text that is no address.
#[verifier::external_body]
fn with_path(url: &str, path: &str) -> (r: Option<String>)
    requires
        url@.len() <= ADDRESS_LIMIT,
        path@.len() <= ADDRESS_LIMIT,
    ensures
        match r {
            Some(a) => address_with_path(url@, path@) == Some(a@),
            None => address_with_path(url@, path@) is None,
        },
{
    let mut address = match http_types::Url::parse(url) {
        Ok(address) => address,
        Err(_) => return None,
    };
    address.set_path(path);
    Some(address.to_string())
}

/// `HeaderName::from_str` and `HeaderName::as_str`: the name of a header
/// in the form in which headers keep it, or nothing for a text that is
/// turned down as a name.
#[verifier::external_body]
fn header_name(name: &str) -> (r: Option<String>)
    ensures
        match r {
            Some(n) => header_name_of(name@) == Some(n@),
            None => header_name_of(name@) is None,
        },
{
    http_types::headers::HeaderName::from_str(name).ok().map(|n| n.as_str().to_owned())
}

/// `HeaderValue::from_str` and `HeaderValue::as_str`: the value of a
/// header in the form in which headers keep it, or nothing for a text that
/// is turned down as a value.
#[verifier::external_body]
fn header_value(value: &str) -> (r: Option<String>)
    ensures
        match r {
            Some(v) => header_value_of(value@) == Some(v@),
            None => header_value_of(value@) is None,
        },
{
    http_types::headers::HeaderValue::from_str(value).ok().map(|v| v.as_str().to_owned())
}

/// `Mime::from_str` and the `Display` of `Mime`: the media type that a
/// text writes, rendered, or nothing for a text that writes none.
#[verifier::external_body]
pub(crate) fn media_type(text: &str) -> (r: Option<String>)
    ensures
        match r {
            Some(m) => media_type_of(text@) == Some(m@),
            None => media_type_of(text@) is None,
        },
{
    http_types::Mime::from_str(text).ok().map(|m| m.to_string())
}

/// `Body::from_string` and `Body::mime`: the media type, rendered, that a
/// body made from a text carries.
#[verifier::external_body]
fn body_type_of_text(text: &str) -> (r: String)
    ensures
        r@ == text_body_type(text@),
{
    http_types::Body::from_string(text.to_owned()).mime().to_string()
}

/// One header of a response.
#[derive(Clone, Debug)]
pub struct Header {
    pub name: String,
    pub value: String,
}

/// A [`Header`] as a mathematical value.
pub struct HeaderView {
    pub name: Seq<char>,
    pub value: Seq<char>,
}

impl View for Header {
    type V = HeaderView;

    open spec fn view(&self) -> HeaderView {
        HeaderView { name: self.name@, value: self.value@ }
    }
}

impl DeepView for Header {
    type V = HeaderView;

    open spec fn deep_view(&self) -> HeaderView {
        self@
    }
}

/// A response while it is put together: its status, its headers in the
/// order in which they were set, and its body.
#[derive(Clone, Debug)]
pub struct ResponseDraft {
    pub status: u16,
    pub headers: Vec<Header>,
    pub body: Vec<u8>,
}

/// A [`ResponseDraft`] as a mathematical value.
pub struct ResponseView {
    pub status: u16,
    pub headers: Seq<HeaderView>,
    pub body: Seq<u8>,
}

impl View for ResponseDraft {
    type V = ResponseView;

    open spec fn view(&self) -> ResponseView {
        ResponseView {
            status: self.status,
            headers: self.headers.deep_view(),
            body: self.body@,
        }
    }
}

/// The headers of `headers` whose name is not `name`, in order.
pub open spec fn without_header(headers: Seq<HeaderView>, name: Seq<char>) -> Seq<HeaderView>
    decreases headers.len(),
{
    if headers.len() == 0 {
        headers
    } else if headers.last().name == name {
        without_header(headers.drop_last(), name)
    } else {
        without_header(headers.drop_last(), name).push(headers.last())
    }
}

/// Whether a header of the name `name` is among `headers`.
pub open spec fn has_header(headers: Seq<HeaderView>, name: Seq<char>) -> bool {
    exists|i: int| 0 <= i < headers.len() && (#[trigger] headers[i]).name == name
}

/// `headers` after the header `name` was set to `value`: the headers of
/// another name, and the new one last.
pub open spec fn header_set(headers: Seq<HeaderView>, name: Seq<char>, value: Seq<char>) -> Seq<
    HeaderView,
> {
    without_header(headers, name).push(HeaderView { name, value })
}

/// The headers after the header written `name` was set to the value
/// written `value`; as they were where one of the two is turned down.
pub open spec fn headers_after_set(
    headers: Seq<HeaderView>,
    name: Seq<char>,
    value: Seq<char>,
) -> Seq<HeaderView> {
    match (header_name_of(name), header_value_of(value)) {
        (Some(n), Some(v)) => header_set(headers, n, v),
        _ => headers,
    }
}

/// Whether a header can be set: both its name and its value are taken.
pub open spec fn header_taken(name: Seq<char>, value: Seq<char>) -> bool {
    header_name_of(name) is Some && header_value_of(value) is Some
}

/// The lines of the headers, each ended by a carriage return and a line
/// feed.
pub open spec fn header_lines(headers: Seq<HeaderView>) -> Seq<char>
    decreases headers.len(),
{
    if headers.len() == 0 {
        Seq::empty()
    } else {
        header_lines(headers.drop_last()) + headers.last().name + ": "@ + headers.last().value
            + "\r\n"@
    }
}

/// `headers` with the length of the body added, where no header gives it.
pub open spec fn with_content_length(headers: Seq<HeaderView>, body_len: nat) -> Seq<HeaderView> {
    if has_header(headers, "content-length"@) {
        headers
    } else {
        headers.push(HeaderView { name: "content-length"@, value: decimal(body_len) })
    }
}

/// The head of a response: the status line, the headers, and the empty
/// line that ends them.
pub open spec fn head_of(response: ResponseView, reason: Seq<char>) -> Seq<char> {
    "HTTP/1.1 "@ + decimal(response.status as nat) + " "@ + reason + "\r\n"@ + header_lines(
        with_content_length(response.headers, response.body.len()),
    ) + "\r\n"@
}

/// The reason phrase that goes with a status code; none for a code that is
/// not in use.
pub uninterp spec fn reason_of_status(status: u16) -> Option<Seq<char>>;

/// `http_types::StatusCode::try_from` and, on the status it gives,
/// `StatusCode::canonical_reason`: the reason phrase of a status code, or
/// nothing for a number that is no status code.
#[verifier::external_body]
fn canonical_reason(status: u16) -> (r: Option<String>)
    ensures
        match r {
            Some(s) => reason_of_status(status) == Some(s@),
            None => reason_of_status(status) is None,
        },
{
    http_types::StatusCode::try_from(status).ok().map(|s| s.canonical_reason().to_owned())
}

/// Whether a header of the name `name` is among `headers`.
pub fn find_header(headers: &Vec<Header>, name: &Vec<char>) -> (r: bool)
    ensures
        r == has_header(headers.deep_view(), name@),
{
    let mut i: usize = 0;
    while i < headers.len()
        invariant
            i <= headers.len(),
            forall|j: int| 0 <= j < i ==> (#[trigger] headers.deep_view()[j]).name != name@,
        decreases headers.len() - i,
    {
        let n = chars_of(headers[i].name.as_str());
        assert(headers.deep_view()[i as int].name == headers[i as int].name@);
        if same_chars(&n, name) {
            return true;
        }
        i += 1;
    }
    false
}

impl ResponseDraft {
    /// A response with the status `status`, no header and an empty body.
    pub fn new(status: u16) -> (r: Self)
        ensures
            r@.status == status,
            r@.headers.len() == 0,
            r@.body.len() == 0,
    {
        ResponseDraft { status, headers: Vec::new(), body: Vec::new() }
    }

    /// Whether the status is one that has a reason phrase.
    pub fn has_known_status(&self) -> (r: bool)
        ensures
            r == reason_of_status(self.status) is Some,
    {
        canonical_reason(self.status).is_some()
    }

    /// Sets the header `name` to `value`: headers of that name, in the
    /// form in which names are kept, are dropped, and the new one comes
    /// last. A name or a value that is turned down leaves the response as
    /// it is.
    pub fn set_header(&mut self, name: &str, value: &str) -> (done: bool)
        ensures
            done == header_taken(name@, value@),
            final(self)@ == (ResponseView {
                headers: headers_after_set(old(self)@.headers, name@, value@),
                ..old(self)@
            }),
    {
        let kept_name = match header_name(name) {
            Some(n) => n,
            None => {
                return false;
            },
        };
        let kept_value = match header_value(value) {
            Some(v) => v,
            None => {
                return false;
            },
        };
        let low = chars_of(kept_name.as_str());
        let ghost before = self.headers.deep_view();
        let mut kept: Vec<Header> = Vec::new();
        let mut i: usize = 0;
        proof {
            assert(before.take(0) =~= Seq::<HeaderView>::empty());
            assert(kept.deep_view() =~= Seq::<HeaderView>::empty());
        }
        while i < self.headers.len()
            invariant
                i <= self.headers.len(),
                *self == *old(self),
                before == self.headers.deep_view(),
                kept.deep_view() == without_header(before.take(i as int), low@),
            decreases self.headers.len() - i,
        {
            let n = chars_of(self.headers[i].name.as_str());
            proof {
                assert(before.take(i + 1).drop_last() =~= before.take(i as int));
                assert(before.take(i + 1).last() == self.headers[i as int]@);
            }
            if !same_chars(&n, &low) {
                let ghost kept_before = kept.deep_view();
                let h = Header {
                    name: self.headers[i].name.clone(),
                    value: self.headers[i].value.clone(),
                };
                kept.push(h);
                assert(kept.deep_view() =~= kept_before.push(h@));
            }
            i += 1;
        }
        proof {
            assert(before.take(self.headers.len() as int) =~= before);
        }
        let ghost kept_all = kept.deep_view();
        let h = Header { name: kept_name, value: kept_value };
        kept.push(h);
        assert(kept.deep_view() =~= kept_all.push(h@));
        self.headers = kept;
        true
    }

    /// Sets the status.
    pub fn set_status(&mut self, status: u16)
        ensures
            final(self)@ == (ResponseView { status, ..old(self)@ }),
    {
        self.status = status;
    }

    /// Sets the body.
    pub fn set_body(&mut self, body: Vec<u8>)
        ensures
            final(self)@ == (ResponseView { body: body@, ..old(self)@ }),
    {
        self.body = body;
    }

    /// The head of the response as it goes out: the status line with the
    /// reason phrase of the status, one line for each header, a line with
    /// the length of the body where no header gives it, and an empty line.
    /// A status without a reason phrase has no head.
    pub fn head(&self) -> (r: Option<String>)
        ensures
            match r {
                Some(text) => reason_of_status(self.status) is Some && text@ == head_of(
                    self@,
                    reason_of_status(self.status)->0,
                ),
                None => reason_of_status(self.status) is None,
            },
    {
        let reason = match canonical_reason(self.status) {
            Some(reason) => reason,
            None => {
                return None;
            },
        };
        let mut buf: Vec<char> = Vec::new();
        push_str(&mut buf, "HTTP/1.1 ");
        push_decimal(&mut buf, self.status as u64);
        push_str(&mut buf, " ");
        push_str(&mut buf, reason.as_str());
        push_str(&mut buf, "\r\n");
        let ghost start = buf@;
        let ghost all = self.headers.deep_view();
        let mut i: usize = 0;
        proof {
            assert(all.take(0) =~= Seq::<HeaderView>::empty());
            assert(buf@ =~= start + header_lines(all.take(0)));
        }
        while i < self.headers.len()
            invariant
                i <= self.headers.len(),
                all == self.headers.deep_view(),
                buf@ == start + header_lines(all.take(i as int)),
            decreases self.headers.len() - i,
        {
            proof {
                assert(all.take(i + 1).drop_last() =~= all.take(i as int));
                assert(all.take(i + 1).last() == self.headers[i as int]@);
            }
            push_str(&mut buf, self.headers[i].name.as_str());
            push_str(&mut buf, ": ");
            push_str(&mut buf, self.headers[i].value.as_str());
            push_str(&mut buf, "\r\n");
            assert(buf@ =~= start + header_lines(all.take(i + 1)));
            i += 1;
        }
        proof {
            assert(all.take(self.headers.len() as int) =~= all);
        }
        let length_name = chars_of("content-length");
        if !find_header(&self.headers, &length_name) {
            push_str(&mut buf, "content-length");
            push_str(&mut buf, ": ");
            push_decimal(&mut buf, self.body.len() as u64);
            push_str(&mut buf, "\r\n");
            proof {
                let extra = HeaderView {
                    name: "content-length"@,
                    value: decimal(self.body.len() as nat),
                };
                let longer = all.push(extra);
                assert(longer.drop_last() =~= all);
                assert(buf@ =~= start + header_lines(longer));
            }
        }
        push_str(&mut buf, "\r\n");
        proof {
            assert(buf@ =~= head_of(self@, reason@));
        }
        Some(string_of(&buf))
    }
}

/// The text that tells a client that nothing is under `url`.
pub open spec fn not_found_text(url: Seq<char>) -> Seq<char> {
    "url not found: "@ + url + " "@
}

/// The response that tells a client that nothing is under `url`: the
/// status 404 and a text that names the address, under the media type of
/// a text body.
pub fn response_404(url: &str) -> (r: ResponseDraft)
    ensures
        r@.status == 404,
        r@.headers == seq![
            HeaderView { name: "content-type"@, value: text_body_type(not_found_text(url@)) },
        ],
        r.body@ == vstd::utf8::encode_utf8(not_found_text(url@)),
{
    let mut buf: Vec<char> = Vec::new();
    push_str(&mut buf, "url not found: ");
    push_str(&mut buf, url);
    push_str(&mut buf, " ");
    let text = string_of(&buf);
    let body = bytes_of(text.as_str());
    let mut headers: Vec<Header> = Vec::new();
    let h = Header {
        name: "content-type".to_owned(),
        value: body_type_of_text(text.as_str()),
    };
    headers.push(h);
    let r = ResponseDraft { status: 404, headers, body };
    assert(r@.headers =~= seq![
        HeaderView { name: "content-type"@, value: text_body_type(not_found_text(url@)) },
    ]);
    r
}

/// The response that sends a client on to `location` for this one request:
/// the status 307 and the address in the header `location`.
pub fn response_307_redirect(location: &str) -> (r: ResponseDraft)
    ensures
        r@.status == 307,
        r@.headers == seq![HeaderView { name: "location"@, value: location@ }],
        r@.body.len() == 0,
{
    let mut headers: Vec<Header> = Vec::new();
    let h = Header { name: "location".to_owned(), value: location.to_owned() };
    headers.push(h);
    let r = ResponseDraft { status: 307, headers, body: Vec::new() };
    assert(r@.headers =~= seq![HeaderView { name: "location"@, value: location@ }]);
    r
}

/// The response that sends a client who has not proved who asks to the
/// login page: the address of the request with the path of the login page
/// in place of its own, under the status 307. A request whose address
/// does not parse gets none.
pub fn login_redirect(url: &str, login_path: &str) -> (r: Option<ResponseDraft>)
    requires
        url@.len() <= ADDRESS_LIMIT,
        login_path@.len() <= ADDRESS_LIMIT,
    ensures
        match address_with_path(url@, login_path@) {
            Some(location) => {
                &&& r matches Some(response)
                &&& response@.status == 307
                &&& response@.headers == seq![HeaderView { name: "location"@, value: location }]
                &&& response@.body.len() == 0
            },
            None => r is None,
        },
{
    match with_path(url, login_path) {
        Some(location) => Some(response_307_redirect(location.as_str())),
        None => None,
    }
}

/// The bytes of a text in UTF-8.
pub fn bytes_of(text: &str) -> (out: Vec<u8>)
    ensures
        out@ == vstd::utf8::encode_utf8(text@),
{
    let bytes = text.as_bytes();
    let mut out: Vec<u8> = Vec::new();
    let mut i: usize = 0;
    while i < bytes.len()
        invariant
            i <= bytes.len(),
            out@ == bytes@.take(i as int),
        decreases bytes.len() - i,
    {
        out.push(bytes[i]);
        assert(out@ =~= bytes@.take(i + 1));
        i += 1;
    }
    assert(bytes@.take(bytes.len() as int) =~= bytes@);
    out
}


/// The head of a response that is passed on from another server: the
/// status line and the headers as they came, and the empty line that ends
/// them.
pub open spec fn passed_head(status: Seq<char>, reason: Seq<char>, headers: Seq<HeaderView>) -> Seq<
    char,
> {
    "HTTP/1.1 "@ + status + " "@ + reason + "\r\n"@ + header_lines(headers) + "\r\n"@
}

/// The text that reports a status that has no reason phrase.
pub open spec fn no_reason(status: Seq<char>) -> Seq<char> {
    "cannot resolve status to canonical reason:"@ + status
}

/// The head of a response that is passed on from another server. `status`
/// is the status as that server's response shows it, `reason` the reason
/// phrase that goes with it; a status without one is reported.
pub fn send_request_to_stream(status: &str, reason: Option<&str>, headers: &Vec<Header>) -> (r:
    Result<String, String>)
    ensures
        match reason {
            Some(phrase) => r matches Ok(head) && head@ == passed_head(
                status@,
                phrase@,
                headers.deep_view(),
            ),
            None => r matches Err(e) && e@ == no_reason(status@),
        },
{
    let phrase = match reason {
        Some(phrase) => phrase,
        None => {
            let mut buf: Vec<char> = Vec::new();
            push_str(&mut buf, "cannot resolve status to canonical reason:");
            push_str(&mut buf, status);
            return Err(string_of(&buf));
        },
    };
    let mut buf: Vec<char> = Vec::new();
    push_str(&mut buf, "HTTP/1.1 ");
    push_str(&mut buf, status);
    push_str(&mut buf, " ");
    push_str(&mut buf, phrase);
    push_str(&mut buf, "\r\n");
    let ghost start = buf@;
    let ghost all = headers.deep_view();
    let mut i: usize = 0;
    proof {
        assert(all.take(0) =~= Seq::<HeaderView>::empty());
        assert(buf@ =~= start + header_lines(all.take(0)));
    }
    while i < headers.len()
        invariant
            i <= headers.len(),
            all == headers.deep_view(),
            buf@ == start + header_lines(all.take(i as int)),
        decreases headers.len() - i,
    {
        proof {
            assert(all.take(i + 1).drop_last() =~= all.take(i as int));
            assert(all.take(i + 1).last() == headers[i as int]@);
        }
        push_str(&mut buf, headers[i].name.as_str());
        push_str(&mut buf, ": ");
        push_str(&mut buf, headers[i].value.as_str());
        push_str(&mut buf, "\r\n");
        assert(buf@ =~= start + header_lines(all.take(i + 1)));
        i += 1;
    }
    proof {
        assert(all.take(headers.len() as int) =~= all);
    }
    push_str(&mut buf, "\r\n");
    proof {
        assert(buf@ =~= passed_head(status@, phrase@, all));
    }
    Ok(string_of(&buf))
}

/// The bytes that go out for a response: its head and then its body. A
/// status without a reason phrase has none.
pub fn send_response_to_stream(response: &ResponseDraft) -> (r: Option<Vec<u8>>)
    ensures
        match r {
            Some(bytes) => reason_of_status(response.status) is Some && bytes@
                == vstd::utf8::encode_utf8(
                head_of(response@, reason_of_status(response.status)->0),
            ) + response.body@,
            None => reason_of_status(response.status) is None,
        },
{
    match response.head() {
        Some(head) => {
            let mut bytes = bytes_of(head.as_str());
            let ghost before = bytes@;
            let mut i: usize = 0;
            while i < response.body.len()
                invariant
                    i <= response.body.len(),
                    bytes@ == before + response.body@.take(i as int),
                decreases response.body.len() - i,
            {
                bytes.push(response.body[i]);
                assert(bytes@ =~= before + response.body@.take(i + 1));
                i += 1;
            }
            assert(response.body@.take(response.body.len() as int) =~= response.body@);
            Some(bytes)
        },
        None => None,
    }
}

} // verus!
