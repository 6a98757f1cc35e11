//! HTTP message types and the response builder.
//!
//! A response is modeled as a status, an ordered header list, and a body
//! that is either absent, short text, or raw file bytes. HEAD requests
//! get the same status and headers as GET but never a body.

use vstd::prelude::*;
use vstd::string::*;
use crate::strutil::dec_str_of;
use crate::strutil::u64_to_dec;

verus! {

/// The request methods the server tells apart: GET and HEAD are served,
/// everything else is refused uniformly.
#[derive(Clone, Copy, PartialEq, Eq, Structural, Debug)]
pub enum Method {
    Get,
    Head,
    Other,
}

/// One response header.
pub struct HeaderField {
    pub name: String,
    pub value: String,
}

impl View for HeaderField {
    type V = (Seq<char>, Seq<char>);

    open spec fn view(&self) -> (Seq<char>, Seq<char>) {
        (self.name@, self.value@)
    }
}

/// A response body: absent, a short text, or a file's bytes.
pub enum Body {
    Empty,
    Text(String),
    Bytes(Vec<u8>),
}

/// The mathematical shape of a body.
#[verifier::ext_equal]
pub enum BodyModel {
    Empty,
    Text(Seq<char>),
    Bytes(Seq<u8>),
}

impl View for Body {
    type V = BodyModel;

    open spec fn view(&self) -> BodyModel {
        match self {
            Body::Empty => BodyModel::Empty,
            Body::Text(s) => BodyModel::Text(s@),
            Body::Bytes(b) => BodyModel::Bytes(b@),
        }
    }
}

/// An outgoing response: status code, headers in the order they are
/// sent, and the body.
pub struct HttpResponse {
    pub status: u16,
    pub headers: Vec<HeaderField>,
    pub body: Body,
}

/// The mathematical shape of a response.
#[verifier::ext_equal]
pub struct ResponseModel {
    pub status: u16,
    pub headers: Seq<(Seq<char>, Seq<char>)>,
    pub body: BodyModel,
}

impl View for HttpResponse {
    type V = ResponseModel;

    open spec fn view(&self) -> ResponseModel {
        ResponseModel {
            status: self.status,
            headers: self.headers@.map_values(|h: HeaderField| h@),
            body: self.body@,
        }
    }
}

/// The standard reason phrase of each status the server produces on its
/// error paths.
pub open spec fn phrase_of(status: u16) -> Seq<char> {
    if status == 400 {
        "Bad Request"@
    } else if status == 404 {
        "Not Found"@
    } else if status == 405 {
        "Method Not Allowed"@
    } else if status == 500 {
        "Internal Server Error"@
    } else {
        Seq::empty()
    }
}

/// A bare status response: no headers, and for anything but HEAD a
/// short plain-text body.
pub open spec fn status_response_model(status: u16, method: Method, text: Seq<char>) -> ResponseModel {
    ResponseModel {
        status,
        headers: Seq::empty(),
        body: if method is Head {
            BodyModel::Empty
        } else {
            BodyModel::Text(text)
        },
    }
}

/// Builds one header field.
pub fn header(name: &str, value: &str) -> (h: HeaderField)
    ensures
        h@ == (name@, value@),
{
    HeaderField { name: String::from_str(name), value: String::from_str(value) }
}

/// Builds the minimal response for a status code: a plain-text body for
/// GET-like requests, and no body at all for HEAD.
pub fn response_with_status(status: u16, method: &Method, body: &str) -> (r: HttpResponse)
    ensures
        r@ == status_response_model(status, *method, body@),
{
    let r = match *method {
        Method::Head => HttpResponse { status, headers: Vec::new(), body: Body::Empty },
        _ => HttpResponse {
            status,
            headers: Vec::new(),
            body: Body::Text(String::from_str(body)),
        },
    };
    proof {
        assert(r@ =~~= status_response_model(status, *method, body@));
    }
    r
}

/// What `mime_guess` derives from a file path: the essence string of
/// the first MIME type guessed from the extension, or
/// `application/octet-stream` when none is registered. A fixed function
/// of the path text alone.
pub uninterp spec fn mime_essence(path: Seq<char>) -> Seq<char>;

/// Relies on `mime_guess::from_path` and `Mime::essence_str` of the
/// `mime` crate: the guess reads only the path's extension, so the
/// result is a function of the path text alone.
#[verifier::external_body]
fn content_type_for(path: &str) -> (r: String)
    ensures
        r@ == mime_essence(path@),
{
    String::from(mime_guess::from_path(path).first_or_octet_stream().essence_str())
}

/// The 200 response for a regular file: `Content-Type` guessed from the
/// path's name; for HEAD no body and an explicit `Content-Length`; for
/// anything else the file's bytes as the body, with the transport left
/// to frame its length.
pub open spec fn file_response_model(path: Seq<char>, method: Method, len: u64, content: Seq<
    u8,
>) -> ResponseModel {
    ResponseModel {
        status: 200,
        headers: if method is Head {
            seq![
                ("Content-Type"@, mime_essence(path)),
                ("Content-Length"@, dec_str_of(len as nat)),
            ]
        } else {
            seq![("Content-Type"@, mime_essence(path))]
        },
        body: if method is Head {
            BodyModel::Empty
        } else {
            BodyModel::Bytes(content)
        },
    }
}

/// Builds the success response for the file at `path`. `len` is the
/// file's byte size from its metadata; `content` is the file's bytes,
/// read only when the method calls for a body.
pub fn build_file_response(path: &str, method: &Method, len: u64, content: Option<Vec<u8>>) -> (r:
    HttpResponse)
    requires
        (content is Some) <==> !(*method is Head),
    ensures
        *method is Head ==> r@ == file_response_model(path@, *method, len, Seq::empty()),
        !(*method is Head) ==> (content matches Some(c) && r@ == file_response_model(
            path@,
            *method,
            len,
            c@,
        )),
{
    let ct = content_type_for(path);
    match method {
        Method::Head => {
            let mut headers: Vec<HeaderField> = Vec::new();
            headers.push(header("Content-Type", ct.as_str()));
            let lenstr = u64_to_dec(len);
            headers.push(header("Content-Length", lenstr.as_str()));
            let r = HttpResponse { status: 200, headers, body: Body::Empty };
            proof {
                assert(r@ =~~= file_response_model(path@, *method, len, Seq::empty()));
            }
            r
        },
        _ => {
            let body = content.unwrap();
            let ghost content_view = body@;
            let mut headers: Vec<HeaderField> = Vec::new();
            headers.push(header("Content-Type", ct.as_str()));
            let r = HttpResponse { status: 200, headers, body: Body::Bytes(body) };
            proof {
                assert(r@ =~~= file_response_model(path@, *method, len, content_view));
            }
            r
        },
    }
}

} // verus!
