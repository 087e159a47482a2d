//! HTTP responses as plain values, and the responses that the gateway
//! builds: one for a bare status code, one for the outcome of fetching an
//! object.

use vstd::prelude::*;
use vstd::string::StrSliceExecFns;
use vstd::utf8::encode_utf8;
use vstd::utf8::is_ascii_chars_encode_utf8;
use crate::header::header_value_valid;
use crate::header::is_valid_header_value;
use crate::header::lemma_printable_ascii_is_valid;
use crate::media_type::content_type_from_guess;
use crate::media_type::content_type_or_text_plain;
use crate::media_type::guess_media_type;
use crate::media_type::guessed_media_type;
use crate::media_type::text_plain;
use crate::media_type::text_plain_media_type;
use crate::outcome::FetchOutcome;
use crate::outcome::FetchOutcomeView;
use crate::status::FOUND;
use crate::status::INTERNAL_SERVER_ERROR;
use crate::status::NOT_FOUND;
use crate::status::OK;
use crate::status::lemma_reason_phrase_is_plain_text;
use crate::status::reason_phrase;
use crate::status::reason_text;

verus! {

/// The name of the header that carries a body's media type.
pub open spec fn content_type_name() -> Seq<char> {
    "Content-Type"@
}

/// The name of the header that carries the target of a redirect.
pub open spec fn location_name() -> Seq<char> {
    "Location"@
}

/// One header line: a name and its value.
#[derive(Debug, PartialEq, Eq)]
pub struct Header {
    pub name: String,
    pub value: String,
}

impl View for Header {
    type V = (Seq<char>, Seq<char>);

    open spec fn view(&self) -> (Seq<char>, Seq<char>) {
        (self.name@, self.value@)
    }
}

/// The headers of a response as pairs of name and value, in the order in
/// which they were set.
pub open spec fn headers_view(headers: Seq<Header>) -> Seq<(Seq<char>, Seq<char>)> {
    Seq::new(headers.len(), |i: int| headers[i]@)
}

/// What a response is: its status code, its headers in order, and the bytes
/// of its body.
pub struct ResponseView {
    pub status: u16,
    pub headers: Seq<(Seq<char>, Seq<char>)>,
    pub body: Seq<u8>,
}

impl ResponseView {
    /// Whether a header of this name is set.
    pub open spec fn has_header(self, name: Seq<char>) -> bool {
        exists|i: int| 0 <= i < self.headers.len() && (#[trigger] self.headers[i]).0 == name
    }

    /// The value of the header of this name, if it is set.
    pub open spec fn header(self, name: Seq<char>) -> Option<Seq<char>> {
        if self.has_header(name) {
            let i = choose|i: int|
                0 <= i < self.headers.len() && (#[trigger] self.headers[i]).0 == name;
            Some(self.headers[i].1)
        } else {
            None
        }
    }

    /// No two headers have the same name.
    pub open spec fn names_unique(self) -> bool {
        forall|i: int, j: int|
            0 <= i < j < self.headers.len() ==> (#[trigger] self.headers[i]).0 != (
            #[trigger] self.headers[j]).0
    }

    /// Every header value may be sent as one.
    pub open spec fn values_valid(self) -> bool {
        forall|i: int|
            0 <= i < self.headers.len() ==> header_value_valid((#[trigger] self.headers[i]).1)
    }

    /// A response is well formed when its header names are unique, its header
    /// values are valid, and it says what the media type of its body is.
    pub open spec fn well_formed(self) -> bool {
        &&& self.names_unique()
        &&& self.values_valid()
        &&& self.has_header(content_type_name())
    }
}

/// The response for a bare status code: the code itself, a plain-text
/// content type, and the code's reason phrase as the body.
pub open spec fn status_response_view(status_code: u16) -> ResponseView {
    ResponseView {
        status: status_code,
        headers: seq![(content_type_name(), text_plain())],
        body: encode_utf8(reason_phrase(status_code)),
    }
}

/// The response for an object that was found: status 200 with the object's
/// bytes as the body and the content type picked from the guess made for its
/// key. A content type that cannot be sent as a header value gives the bare
/// response for status 500 instead.
pub open spec fn found_response_view(bytes: Seq<u8>, guess: Option<Seq<char>>) -> ResponseView {
    let content_type = content_type_or_text_plain(guess);
    if header_value_valid(content_type) {
        ResponseView {
            status: OK,
            headers: seq![(content_type_name(), content_type)],
            body: bytes,
        }
    } else {
        status_response_view(INTERNAL_SERVER_ERROR)
    }
}

/// The response that sends the client to `path`: status 302 with the path in
/// the `Location` header and the plain-text body `Found`. A path that cannot
/// be sent as a header value gives the bare response for status 500 instead.
pub open spec fn redirect_response_view(path: Seq<char>) -> ResponseView {
    if header_value_valid(path) {
        ResponseView {
            status: FOUND,
            headers: seq![(content_type_name(), text_plain()), (location_name(), path)],
            body: encode_utf8("Found"@),
        }
    } else {
        status_response_view(INTERNAL_SERVER_ERROR)
    }
}

/// The response for a fetch that failed. A missing key gives the redirect
/// where a redirect path is configured and the bare response for status 404
/// where none is; any other failure gives the bare response for status 500.
pub open spec fn fetch_error_response_view(
    no_such_key: bool,
    redirect_path: Option<Seq<char>>,
) -> ResponseView {
    if no_such_key {
        match redirect_path {
            Some(path) => redirect_response_view(path),
            None => status_response_view(NOT_FOUND),
        }
    } else {
        status_response_view(INTERNAL_SERVER_ERROR)
    }
}

/// The response for the outcome of fetching an object, given the guess made
/// for the object's key and the redirect path configured for missing keys.
pub open spec fn object_response_view(
    outcome: FetchOutcomeView,
    guess: Option<Seq<char>>,
    redirect_path: Option<Seq<char>>,
) -> ResponseView {
    match outcome {
        FetchOutcomeView::Found { bytes, .. } => found_response_view(bytes, guess),
        FetchOutcomeView::NotFound => fetch_error_response_view(true, redirect_path),
        FetchOutcomeView::TransientError { .. } => fetch_error_response_view(false, redirect_path),
    }
}

/// An HTTP response: a status code, headers with unique names in the order
/// in which they were set, and a body.
#[derive(Debug, PartialEq, Eq)]
pub struct HttpResponse {
    status: u16,
    headers: Vec<Header>,
    body: Vec<u8>,
}

impl View for HttpResponse {
    type V = ResponseView;

    closed spec fn view(&self) -> ResponseView {
        ResponseView {
            status: self.status,
            headers: headers_view(self.headers@),
            body: self.body@,
        }
    }
}

impl HttpResponse {
    #[verifier::type_invariant]
    spec fn sound(&self) -> bool {
        self@.well_formed()
    }

    /// The status code.
    pub fn status(&self) -> (status: u16)
        ensures
            status == self@.status,
    {
        self.status
    }

    /// The bytes of the body.
    pub fn body(&self) -> (body: &Vec<u8>)
        ensures
            body@ == self@.body,
    {
        &self.body
    }

    /// The headers, in the order in which they were set.
    pub fn headers(&self) -> (headers: &Vec<Header>)
        ensures
            headers_view(headers@) == self@.headers,
    {
        &self.headers
    }

    /// The value of the header called `name`, if it is set. Names are
    /// compared letter for letter.
    pub fn header(&self, name: &str) -> (value: Option<&String>)
        ensures
            value.deep_view() == self@.header(name@),
    {
        proof {
            use_type_invariant(self);
        }
        let wanted = name.to_owned();
        let mut i: usize = 0;
        while i < self.headers.len()
            invariant
                i <= self.headers@.len(),
                wanted@ == name@,
                self@.names_unique(),
                forall|j: int| 0 <= j < i ==> (#[trigger] self@.headers[j]).0 != name@,
            decreases self.headers@.len() - i,
        {
            if self.headers[i].name == wanted {
                assert(self@.headers[i as int].0 == name@);
                return Some(&self.headers[i].value);
            }
            i = i + 1;
        }
        None
    }
}

/// `text/plain` may be sent as a header value.
pub proof fn lemma_text_plain_is_valid()
    ensures
        header_value_valid(text_plain()),
{
    reveal_strlit("text/plain");
    lemma_printable_ascii_is_valid(text_plain());
}

/// Turns a chunk of text into the bytes of a body.
pub fn full(chunk: &str) -> (body: Vec<u8>)
    ensures
        body@ == encode_utf8(chunk@),
{
    chunk.as_bytes_vec()
}

/// Builds the response for a bare status code. The five codes that the
/// gateway uses get their own reason phrase as the body, any other code the
/// body `Unknown`; the code is kept as it is.
pub fn easy_response(status_code: u16) -> (response: HttpResponse)
    ensures
        response@ == status_response_view(status_code),
        response@.status == status_code,
        response@.body.len() > 0,
        response@.well_formed(),
{
    let body = full(reason_text(status_code));
    let content_type = Header { name: "Content-Type".to_owned(), value: text_plain_media_type() };
    let headers = vec![content_type];
    proof {
        lemma_text_plain_is_valid();
        lemma_status_response_well_formed(status_code);
        assert(headers_view(headers@) =~= seq![(content_type_name(), text_plain())]);
    }
    HttpResponse { status: status_code, headers, body }
}

/// The response for a bare status code is well formed, and its body is not
/// empty.
pub proof fn lemma_status_response_well_formed(status_code: u16)
    ensures
        status_response_view(status_code).well_formed(),
        status_response_view(status_code).body.len() > 0,
        status_response_view(status_code).header(content_type_name()) == Some(text_plain()),
{
    let r = status_response_view(status_code);
    lemma_text_plain_is_valid();
    assert(r.headers[0].0 == content_type_name());
    lemma_reason_phrase_is_plain_text(status_code);
    is_ascii_chars_encode_utf8(reason_phrase(status_code));
}

/// Header names differ when their lengths do.
proof fn lemma_header_names_differ()
    ensures
        content_type_name() != location_name(),
{
    reveal_strlit("Content-Type");
    reveal_strlit("Location");
    assert(content_type_name().len() != location_name().len());
}

/// Builds the response for an object that was found, from its bytes and the
/// guess made for its key.
pub fn found_response(bytes: Vec<u8>, guess: Option<String>) -> (response: HttpResponse)
    ensures
        response@ == found_response_view(bytes@, guess.deep_view()),
        response@.well_formed(),
{
    let content_type = content_type_from_guess(guess);
    if is_valid_header_value(content_type.as_str()) {
        let headers = vec![Header { name: "Content-Type".to_owned(), value: content_type }];
        proof {
            let view = found_response_view(bytes@, guess.deep_view());
            assert(headers_view(headers@) =~= view.headers);
            assert(view.headers[0].0 == content_type_name());
        }
        HttpResponse { status: OK, headers, body: bytes }
    } else {
        easy_response(INTERNAL_SERVER_ERROR)
    }
}

/// Builds the response for a fetch that failed: for a missing key the
/// redirect to the configured path, or status 404 where none is configured;
/// for any other failure status 500.
pub fn get_s3_object_error(
    no_such_key: bool,
    no_such_key_redirect_path: Option<String>,
) -> (response: HttpResponse)
    ensures
        response@ == fetch_error_response_view(no_such_key, no_such_key_redirect_path.deep_view()),
        response@.well_formed(),
{
    if no_such_key {
        match no_such_key_redirect_path {
            Some(redirect_path) => {
                if is_valid_header_value(redirect_path.as_str()) {
                    let headers = vec![
                        Header { name: "Content-Type".to_owned(), value: text_plain_media_type() },
                        Header { name: "Location".to_owned(), value: redirect_path },
                    ];
                    let body = full("Found");
                    proof {
                        let view = redirect_response_view(redirect_path@);
                        lemma_text_plain_is_valid();
                        lemma_header_names_differ();
                        assert(headers_view(headers@) =~= view.headers);
                        assert(view.headers[0].0 == content_type_name());
                    }
                    HttpResponse { status: FOUND, headers, body }
                } else {
                    easy_response(INTERNAL_SERVER_ERROR)
                }
            },
            None => easy_response(NOT_FOUND),
        }
    } else {
        easy_response(INTERNAL_SERVER_ERROR)
    }
}

/// Builds the response for the outcome of fetching the object stored under
/// `key`. The content type of an object that was found is guessed from the
/// extension of its key; a key without a dot has none, and its object is sent
/// as `text/plain`.
pub fn s3_object_response(
    outcome: FetchOutcome,
    key: &str,
    no_such_key_redirect_path: Option<String>,
) -> (response: HttpResponse)
    ensures
        response@ == object_response_view(
            outcome@,
            guessed_media_type(key@),
            no_such_key_redirect_path.deep_view(),
        ),
        response@.well_formed(),
        outcome is Found && !key@.contains('.') ==> {
            &&& response@.status == OK
            &&& response@.body == outcome->bytes@
            &&& response@.header(content_type_name()) == Some(text_plain())
        },
{
    match outcome {
        FetchOutcome::Found { bytes, inferred_content_type: _ } => {
            let guess = guess_media_type(key);
            proof {
                lemma_text_plain_is_valid();
                assert(found_response_view(bytes@, None).headers[0].0 == content_type_name());
            }
            found_response(bytes, guess)
        },
        FetchOutcome::NotFound => get_s3_object_error(true, no_such_key_redirect_path),
        FetchOutcome::TransientError { detail: _ } => get_s3_object_error(
            false,
            no_such_key_redirect_path,
        ),
    }
}

} // verus!
