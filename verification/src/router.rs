//! The request router: from an untrusted URL path and a method to the
//! response, or to the next filesystem question.
//!
//! Filesystem access stays outside the library. Routing therefore runs
//! in steps: `route_start` decides everything it can from the path text
//! alone and otherwise names the relative target to stat;
//! `route_on_stat` and `route_on_index` take the filesystem's answers
//! and carry on. The caller performs each lookup against the base
//! directory and feeds the answer back.

use vstd::prelude::*;
use vstd::string::*;
use crate::paths::dotdot_at;
use crate::paths::safe_rel_path;
use crate::paths::sanitized_relative_path;
use crate::response::Body;
use crate::response::BodyModel;
use crate::response::HeaderField;
use crate::response::HttpResponse;
use crate::response::Method;
use crate::response::ResponseModel;
use crate::response::header;
use crate::response::phrase_of;
use crate::response::response_with_status;
use crate::response::status_response_model;

verus! {

/// What `urlencoding::decode` yields for a path: the percent-decoded
/// text when every decoded byte sequence is valid UTF-8, and nothing
/// otherwise. A fixed function of the input text alone.
pub uninterp spec fn url_decoded(s: Seq<char>) -> Option<Seq<char>>;

/// Relies on `urlencoding::decode`: percent-decoding is a function of
/// the input text alone, it fails exactly when the decoded bytes are
/// not valid UTF-8, and a text without `%` decodes to itself.
#[verifier::external_body]
fn url_decode(s: &str) -> (r: Option<String>)
    ensures
        (r is Some) == (url_decoded(s@) is Some),
        r is Some ==> url_decoded(s@) == Some(r->0@),
        !s@.contains('%') ==> r is Some && r->0@ == s@,
{
    match urlencoding::decode(s) {
        Ok(decoded) => Some(decoded.into_owned()),
        Err(_) => None,
    }
}

/// The router's first answer: either a finished response, or the
/// relative path under the base directory whose filesystem kind must be
/// looked up next.
pub enum Resolution {
    Respond(HttpResponse),
    Stat(String),
}

/// The mathematical shape of a first answer.
#[verifier::ext_equal]
pub enum ResolutionModel {
    Respond(ResponseModel),
    Stat(Seq<char>),
}

impl View for Resolution {
    type V = ResolutionModel;

    open spec fn view(&self) -> ResolutionModel {
        match self {
            Resolution::Respond(resp) => ResolutionModel::Respond(resp@),
            Resolution::Stat(target) => ResolutionModel::Stat(target@),
        }
    }
}

/// What a stat of the target showed: nothing there (or the lookup
/// failed), a directory, or a regular file.
#[derive(Clone, Copy, PartialEq, Eq, Structural, Debug)]
pub enum FsKind {
    Missing,
    Directory,
    File,
}

/// A later routing answer: a finished response, a directory index file
/// whose existence must be checked, or a file to serve.
pub enum Next {
    Respond(HttpResponse),
    CheckIndex(String),
    Read(String),
}

/// The mathematical shape of a later answer.
#[verifier::ext_equal]
pub enum NextModel {
    Respond(ResponseModel),
    CheckIndex(Seq<char>),
    Read(Seq<char>),
}

impl View for Next {
    type V = NextModel;

    open spec fn view(&self) -> NextModel {
        match self {
            Next::Respond(resp) => NextModel::Respond(resp@),
            Next::CheckIndex(index) => NextModel::CheckIndex(index@),
            Next::Read(target) => NextModel::Read(target@),
        }
    }
}

/// The redirect that normalizes a trailing-slash URL: status 301, a
/// `Location` header, and no body.
pub open spec fn redirect_model(location: Seq<char>) -> ResponseModel {
    ResponseModel {
        status: 301,
        headers: seq![("Location"@, location)],
        body: BodyModel::Empty,
    }
}

/// The refusal of any method outside GET and HEAD: status 405 with an
/// `Allow` header naming the two served methods.
pub open spec fn method_not_allowed_model() -> ResponseModel {
    ResponseModel {
        status: 405,
        headers: seq![("Allow"@, "GET, HEAD"@)],
        body: BodyModel::Text(phrase_of(405)),
    }
}

/// Routing after percent-decoding: the root path maps straight to
/// `index.html`; any other path is stripped of its leading slash and
/// sanitized, an unsafe path answered 404 exactly like a missing file.
pub open spec fn spec_route_decoded(d: Seq<char>, m: Method) -> ResolutionModel {
    if d == "/"@ {
        ResolutionModel::Stat("index.html"@)
    } else if d.len() == 0 || d[0] != '/' {
        ResolutionModel::Respond(status_response_model(404, m, phrase_of(404)))
    } else if safe_rel_path(d.skip(1)) {
        ResolutionModel::Stat(d.skip(1))
    } else {
        ResolutionModel::Respond(status_response_model(404, m, phrase_of(404)))
    }
}

/// The router's first step: a path longer than one character ending in
/// `/` is redirected to the path minus that slash; otherwise the path
/// is percent-decoded (failure answered 400) and resolved.
pub open spec fn spec_route_start(p: Seq<char>, m: Method) -> ResolutionModel {
    if p.len() > 1 && p.last() == '/' {
        ResolutionModel::Respond(redirect_model(p.take(p.len() - 1)))
    } else {
        match url_decoded(p) {
            Some(d) => spec_route_decoded(d, m),
            None => ResolutionModel::Respond(status_response_model(400, m, phrase_of(400))),
        }
    }
}

/// Routing after the target was stated: a missing target is 404, a
/// directory is served through the `index.html` inside it, and a
/// regular file is served itself.
pub open spec fn spec_route_on_stat(target: Seq<char>, m: Method, kind: FsKind) -> NextModel {
    match kind {
        FsKind::Missing => NextModel::Respond(status_response_model(404, m, phrase_of(404))),
        FsKind::Directory => NextModel::CheckIndex(target + "/index.html"@),
        FsKind::File => NextModel::Read(target),
    }
}

/// Routing after the directory-index check: the index file is served
/// when it is a regular file, and the request answered 404 when not.
pub open spec fn spec_route_on_index(index: Seq<char>, m: Method, is_file: bool) -> NextModel {
    if is_file {
        NextModel::Read(index)
    } else {
        NextModel::Respond(status_response_model(404, m, phrase_of(404)))
    }
}

/// Method dispatch before any routing: only GET and HEAD reach the
/// router, every other method is answered 405.
pub open spec fn spec_dispatch(p: Seq<char>, m: Method) -> ResolutionModel {
    if m is Other {
        ResolutionModel::Respond(method_not_allowed_model())
    } else {
        spec_route_start(p, m)
    }
}

/// Which method a request line names: GET, HEAD, or anything else.
pub open spec fn spec_method_of(m: Seq<char>) -> Method {
    if m == "GET"@ {
        Method::Get
    } else if m == "HEAD"@ {
        Method::Head
    } else {
        Method::Other
    }
}

/// Parses the request method.
pub fn parse_method(m: &str) -> (r: Method)
    ensures
        r == spec_method_of(m@),
{
    if crate::strutil::str_eq(m, "GET") {
        Method::Get
    } else if crate::strutil::str_eq(m, "HEAD") {
        Method::Head
    } else {
        Method::Other
    }
}

/// The router's first step on the raw URL path (query already split
/// off): trailing-slash redirect, percent-decoding, root mapping, and
/// sanitizing, in that order; the answer is a finished response or the
/// relative target to stat.
pub fn route_start(path: &str, method: &Method) -> (r: Resolution)
    ensures
        r@ == spec_route_start(path@, *method),
{
    let n = path.unicode_len();
    if n > 1 && path.get_char(n - 1) == '/' {
        let location = path.substring_char(0, n - 1);
        let mut headers: Vec<HeaderField> = Vec::new();
        headers.push(header("Location", location));
        let resp = HttpResponse { status: 301, headers, body: Body::Empty };
        proof {
            assert(resp@ =~~= redirect_model(path@.take(path@.len() - 1)));
        }
        return Resolution::Respond(resp);
    }
    let decoded = match url_decode(path) {
        Some(d) => d,
        None => {
            return Resolution::Respond(response_with_status(400, method, "Bad Request"));
        },
    };
    if crate::strutil::str_eq(decoded.as_str(), "/") {
        let target = String::from_str("index.html");
        return Resolution::Stat(target);
    }
    let dn = decoded.as_str().unicode_len();
    if dn == 0 || decoded.as_str().get_char(0) != '/' {
        return Resolution::Respond(response_with_status(404, method, "Not Found"));
    }
    let rel = decoded.as_str().substring_char(1, dn);
    proof {
        assert(rel@ =~= decoded@.skip(1));
    }
    match sanitized_relative_path(rel) {
        Some(safe) => Resolution::Stat(safe),
        None => Resolution::Respond(response_with_status(404, method, "Not Found")),
    }
}

/// The routing step after the target was stated.
pub fn route_on_stat(target: String, method: &Method, kind: FsKind) -> (r: Next)
    ensures
        r@ == spec_route_on_stat(target@, *method, kind),
{
    match kind {
        FsKind::Missing => Next::Respond(response_with_status(404, method, "Not Found")),
        FsKind::Directory => Next::CheckIndex(target.concat("/index.html")),
        FsKind::File => Next::Read(target),
    }
}

/// The routing step after the directory-index check.
pub fn route_on_index(index: String, method: &Method, is_file: bool) -> (r: Next)
    ensures
        r@ == spec_route_on_index(index@, *method, is_file),
{
    if is_file {
        Next::Read(index)
    } else {
        Next::Respond(response_with_status(404, method, "Not Found"))
    }
}

/// Method dispatch followed by the router's first step.
pub fn dispatch(path: &str, method: &Method) -> (r: Resolution)
    ensures
        r@ == spec_dispatch(path@, *method),
{
    match *method {
        Method::Other => {
            let mut resp = response_with_status(405, method, "Method Not Allowed");
            resp.headers.push(header("Allow", "GET, HEAD"));
            proof {
                assert(resp@ =~~= method_not_allowed_model());
            }
            Resolution::Respond(resp)
        },
        _ => route_start(path, method),
    }
}

/// Splits any query component off a request URL: the result is the
/// prefix up to, and not including, the first `?`, and the whole URL
/// when it has none. The query itself is discarded.
pub fn path_without_query(url: &str) -> (r: String)
    ensures
        r@.len() <= url@.len(),
        r@ == url@.take(r@.len() as int),
        forall|j: int| 0 <= j < r@.len() ==> url@[j] != '?',
        r@.len() < url@.len() ==> url@[r@.len() as int] == '?',
{
    let n = url.unicode_len();
    let mut i: usize = 0;
    while i < n
        invariant
            i <= n,
            n == url@.len(),
            forall|j: int| 0 <= j < i ==> url@[j] != '?',
        decreases n - i,
    {
        if url.get_char(i) == '?' {
            let prefix = url.substring_char(0, i);
            let r = String::from_str(prefix);
            proof {
                assert(r@ =~= url@.take(i as int));
            }
            return r;
        }
        i += 1;
    }
    let r = String::from_str(url);
    proof {
        assert(r@ =~= url@.take(url@.len() as int));
    }
    r
}

/// A decoded path holding a parent-directory component anywhere after
/// its leading slash is answered 404, exactly like a missing file,
/// whatever else the path holds and whether or not such a file exists.
pub proof fn lemma_traversal_not_found(d: Seq<char>, m: Method, i: int)
    requires
        d.len() > 0,
        d[0] == '/',
        dotdot_at(d.skip(1), i),
    ensures
        spec_route_decoded(d, m) == ResolutionModel::Respond(
            status_response_model(404, m, phrase_of(404)),
        ),
{
    crate::paths::lemma_parent_component_unsafe(d.skip(1), i);
    assert(d != "/"@) by {
        reveal_strlit("/");
        assert(d.skip(1).len() >= 2);
    }
}

/// A path longer than one character that ends in `/` is answered with a
/// 301 redirect to the same path minus that trailing slash, carrying no
/// body, before any decoding or filesystem work.
pub proof fn lemma_trailing_slash_redirect(p: Seq<char>, m: Method)
    requires
        p.len() > 1,
        p.last() == '/',
    ensures
        spec_route_start(p, m) == ResolutionModel::Respond(redirect_model(p.take(p.len() - 1))),
{
}

/// The root path maps straight to `index.html` under the base
/// directory, with no sanitizer involvement.
pub proof fn lemma_root_maps_to_index(m: Method)
    ensures
        spec_route_decoded("/"@, m) == ResolutionModel::Stat("index.html"@),
{
}

/// A directory target is served through the `index.html` directly
/// inside it when that is a regular file, and answered 404 when it is
/// not; no directory listing is ever produced.
pub proof fn lemma_directory_index(target: Seq<char>, m: Method)
    ensures
        spec_route_on_stat(target, m, FsKind::Directory) == NextModel::CheckIndex(
            target + "/index.html"@,
        ),
        spec_route_on_index(target + "/index.html"@, m, true) == NextModel::Read(
            target + "/index.html"@,
        ),
        spec_route_on_index(target + "/index.html"@, m, false) matches NextModel::Respond(resp)
            && resp.status == 404,
{
}

/// Every relative target the router's first step hands back for a
/// filesystem lookup is a nonempty safe path: resolution never escapes
/// the base directory, whatever the request held.
pub proof fn lemma_resolved_target_is_safe(p: Seq<char>, m: Method)
    ensures
        spec_route_start(p, m) matches ResolutionModel::Stat(t) ==> safe_rel_path(t) && t.len()
            > 0,
{
    reveal_strlit("index.html");
    reveal_strlit("/");
    assert(safe_rel_path("index.html"@)) by {
        assert forall|i: int| !dotdot_at("index.html"@, i) by {
            if 0 <= i && i + 2 <= 10 {
                assert(!dotdot_at("index.html"@, i));
            }
        }
    }
    if !(p.len() > 1 && p.last() == '/') {
        match url_decoded(p) {
            Some(d) => {
                if d != "/"@ && d.len() > 0 && d[0] == '/' && safe_rel_path(d.skip(1)) {
                    if d.skip(1).len() == 0 {
                        assert(d =~= "/"@);
                    }
                }
            },
            None => {},
        }
    }
}

/// Appending the directory-index suffix to a nonempty safe relative
/// path keeps it safe: the step from a directory to the `index.html`
/// inside it cannot introduce an escape either.
pub proof fn lemma_index_target_is_safe(target: Seq<char>)
    requires
        safe_rel_path(target),
        target.len() > 0,
    ensures
        safe_rel_path(target + "/index.html"@),
{
    reveal_strlit("/index.html");
    let s = target + "/index.html"@;
    let tn = target.len() as int;
    assert forall|i: int| !dotdot_at(s, i) by {
        if 0 <= i && i + 2 <= s.len() {
            if i + 1 < tn {
                if i + 2 < tn || i + 2 == tn {
                    assert(!dotdot_at(target, i));
                }
            } else if i < tn {
                assert(s[i + 1] == "/index.html"@[0]);
            } else {
                assert(s[i] == "/index.html"@[i - tn]);
                assert(s[i + 1] == "/index.html"@[i + 1 - tn]);
            }
        }
    }
    assert(s[0] == target[0]);
}

/// No response produced for a HEAD request carries a body, whichever
/// routing step produced it and whatever its status.
pub proof fn lemma_head_never_has_body(
    p: Seq<char>,
    target: Seq<char>,
    kind: FsKind,
    is_file: bool,
)
    ensures
        spec_route_start(p, Method::Head) matches ResolutionModel::Respond(r1) ==> r1.body
            is Empty,
        spec_dispatch(p, Method::Head) matches ResolutionModel::Respond(r2) ==> r2.body is Empty,
        spec_route_on_stat(target, Method::Head, kind) matches NextModel::Respond(r3) ==> r3.body
            is Empty,
        spec_route_on_index(target, Method::Head, is_file) matches NextModel::Respond(r4)
            ==> r4.body is Empty,
{
}

/// A HEAD response for a file has no body yet carries `Content-Length`
/// equal to the file's byte size, while the GET response for the same
/// file carries exactly the file's bytes as its body, and both carry
/// the same guessed `Content-Type`.
pub proof fn lemma_head_vs_get_file(path: Seq<char>, len: u64, content: Seq<u8>)
    ensures
        crate::response::file_response_model(path, Method::Head, len, Seq::empty()).body is Empty,
        crate::response::file_response_model(path, Method::Head, len, Seq::empty()).headers
            .contains(("Content-Length"@, crate::strutil::dec_str_of(len as nat))),
        crate::response::file_response_model(path, Method::Get, len, content).body
            == BodyModel::Bytes(content),
        crate::response::file_response_model(path, Method::Head, len, Seq::empty()).headers[0]
            == crate::response::file_response_model(path, Method::Get, len, content).headers[0],
{
    let hs = crate::response::file_response_model(path, Method::Head, len, Seq::empty()).headers;
    assert(hs[1] == ("Content-Length"@, crate::strutil::dec_str_of(len as nat)));
}

/// Any method other than GET and HEAD is answered 405 with the header
/// `Allow: GET, HEAD`, before any routing or filesystem work.
pub proof fn lemma_other_method_refused(p: Seq<char>)
    ensures
        spec_dispatch(p, Method::Other) == ResolutionModel::Respond(method_not_allowed_model()),
        method_not_allowed_model().status == 405,
        method_not_allowed_model().headers == seq![("Allow"@, "GET, HEAD"@)],
{
}

} // verus!
