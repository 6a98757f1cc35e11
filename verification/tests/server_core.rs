use srvplz::binder::{is_addr_in_use, next_bind_step, BindStep, ChainEntry};
use srvplz::logline::{format_log_line, make_log_line};
use srvplz::paths::sanitized_relative_path;
use srvplz::response::{build_file_response, response_with_status, Body, HttpResponse, Method};
use srvplz::router::{
    dispatch, parse_method, path_without_query, route_on_index, route_on_stat, route_start, FsKind,
    Next, Resolution,
};
use srvplz::strutil::{str_eq, u64_to_dec};

fn header_value(resp: &HttpResponse, name: &str) -> Option<String> {
    for h in resp.headers.iter() {
        if h.name == name {
            return Some(h.value.clone());
        }
    }
    None
}

fn body_text(resp: &HttpResponse) -> Option<&str> {
    match &resp.body {
        Body::Text(t) => Some(t.as_str()),
        _ => None,
    }
}

#[test]
fn sanitizer_accepts_plain_names() {
    let r = sanitized_relative_path("docs/readme.txt");
    assert_eq!(r.as_deref(), Some("docs/readme.txt"));
}

#[test]
fn sanitizer_accepts_cur_dir_and_empty_components() {
    assert_eq!(sanitized_relative_path("a/./b").as_deref(), Some("a/./b"));
    assert_eq!(sanitized_relative_path("a//b").as_deref(), Some("a//b"));
    assert_eq!(sanitized_relative_path(".").as_deref(), Some("."));
    assert_eq!(sanitized_relative_path("").as_deref(), Some(""));
}

#[test]
fn sanitizer_accepts_names_made_of_dots() {
    assert_eq!(sanitized_relative_path("...").as_deref(), Some("..."));
    assert_eq!(sanitized_relative_path("..a/b").as_deref(), Some("..a/b"));
    assert_eq!(sanitized_relative_path("a.b..c").as_deref(), Some("a.b..c"));
}

#[test]
fn sanitizer_rejects_parent_components_anywhere() {
    assert!(sanitized_relative_path("..").is_none());
    assert!(sanitized_relative_path("../etc/passwd").is_none());
    assert!(sanitized_relative_path("a/../b").is_none());
    assert!(sanitized_relative_path("a/b/..").is_none());
    assert!(sanitized_relative_path("./..").is_none());
}

#[test]
fn sanitizer_rejects_root_components() {
    assert!(sanitized_relative_path("/etc/passwd").is_none());
    assert!(sanitized_relative_path("/").is_none());
}

#[test]
fn traversal_paths_get_not_found() {
    let r = route_start("/../../etc/passwd", &Method::Get);
    match r {
        Resolution::Respond(resp) => {
            assert_eq!(resp.status, 404);
            assert_eq!(body_text(&resp), Some("Not Found"));
        }
        _ => panic!("traversal path must not resolve"),
    }
}

#[test]
fn encoded_traversal_is_decoded_then_rejected() {
    // %2e%2e is `..` once decoded; validation happens after decoding.
    let r = route_start("/%2e%2e/secret", &Method::Get);
    match r {
        Resolution::Respond(resp) => assert_eq!(resp.status, 404),
        _ => panic!("encoded traversal must not resolve"),
    }
}

#[test]
fn trailing_slash_redirects_to_stripped_path() {
    let r = route_start("/docs/", &Method::Get);
    match r {
        Resolution::Respond(resp) => {
            assert_eq!(resp.status, 301);
            assert_eq!(header_value(&resp, "Location").as_deref(), Some("/docs"));
            assert!(matches!(resp.body, Body::Empty));
        }
        _ => panic!("trailing slash must redirect"),
    }
}

#[test]
fn redirect_strips_one_slash_at_a_time() {
    let r = route_start("/docs//", &Method::Get);
    match r {
        Resolution::Respond(resp) => {
            assert_eq!(resp.status, 301);
            assert_eq!(header_value(&resp, "Location").as_deref(), Some("/docs/"));
        }
        _ => panic!("trailing slash must redirect"),
    }
}

#[test]
fn root_path_is_exempt_from_redirect_and_maps_to_index() {
    let r = route_start("/", &Method::Get);
    match r {
        Resolution::Stat(target) => assert_eq!(target, "index.html"),
        _ => panic!("root must map to index.html"),
    }
}

#[test]
fn root_index_present_serves_it() {
    let content = b"<html>home</html>".to_vec();
    match route_on_stat("index.html".to_string(), &Method::Get, FsKind::File) {
        Next::Read(target) => {
            let resp = build_file_response(&target, &Method::Get, content.len() as u64, Some(content.clone()));
            assert_eq!(resp.status, 200);
            assert_eq!(header_value(&resp, "Content-Type").as_deref(), Some("text/html"));
            match resp.body {
                Body::Bytes(b) => assert_eq!(b, content),
                _ => panic!("GET must carry the file bytes"),
            }
        }
        _ => panic!("a regular file is served itself"),
    }
}

#[test]
fn root_index_absent_is_not_found() {
    match route_on_stat("index.html".to_string(), &Method::Get, FsKind::Missing) {
        Next::Respond(resp) => assert_eq!(resp.status, 404),
        _ => panic!("missing index.html must yield 404"),
    }
}

#[test]
fn percent_decoding_happens_before_resolution() {
    // If decoding handed the path back unchanged, the target would
    // still hold the percent escape.
    let r = route_start("/my%20file.txt", &Method::Get);
    match r {
        Resolution::Stat(target) => assert_eq!(target, "my file.txt"),
        _ => panic!("decodable path must resolve"),
    }
}

#[test]
fn undecodable_path_is_bad_request() {
    // %FF decodes to a byte that is not valid UTF-8.
    let r = route_start("/%FF", &Method::Get);
    match r {
        Resolution::Respond(resp) => {
            assert_eq!(resp.status, 400);
            assert_eq!(body_text(&resp), Some("Bad Request"));
        }
        _ => panic!("bad encoding must yield 400"),
    }
}

#[test]
fn directory_with_index_serves_it() {
    let r = route_start("/docs", &Method::Get);
    let target = match r {
        Resolution::Stat(t) => t,
        _ => panic!("plain path must resolve"),
    };
    assert_eq!(target, "docs");
    let index = match route_on_stat(target, &Method::Get, FsKind::Directory) {
        Next::CheckIndex(ix) => ix,
        _ => panic!("a directory is served through its index"),
    };
    assert_eq!(index, "docs/index.html");
    match route_on_index(index, &Method::Get, true) {
        Next::Read(t) => assert_eq!(t, "docs/index.html"),
        _ => panic!("an index file is served"),
    }
}

#[test]
fn directory_without_index_is_not_found() {
    let index = match route_on_stat("docs".to_string(), &Method::Get, FsKind::Directory) {
        Next::CheckIndex(ix) => ix,
        _ => panic!("a directory is served through its index"),
    };
    match route_on_index(index, &Method::Get, false) {
        Next::Respond(resp) => {
            assert_eq!(resp.status, 404);
            assert_eq!(body_text(&resp), Some("Not Found"));
        }
        _ => panic!("a directory without an index yields 404"),
    }
}

#[test]
fn head_gets_no_body_and_a_content_length() {
    let resp = build_file_response("data.json", &Method::Head, 13, None);
    assert_eq!(resp.status, 200);
    assert!(matches!(resp.body, Body::Empty));
    assert_eq!(header_value(&resp, "Content-Length").as_deref(), Some("13"));
    assert_eq!(header_value(&resp, "Content-Type").as_deref(), Some("application/json"));
}

#[test]
fn get_body_length_matches_head_content_length() {
    let content = b"{\"n\": 40000}!".to_vec();
    assert_eq!(content.len(), 13);
    let get = build_file_response("data.json", &Method::Get, 13, Some(content.clone()));
    let head = build_file_response("data.json", &Method::Head, 13, None);
    let body_len = match get.body {
        Body::Bytes(b) => b.len(),
        _ => panic!("GET must carry a body"),
    };
    assert_eq!(header_value(&head, "Content-Length"), Some(body_len.to_string()));
}

#[test]
fn head_error_responses_have_no_body() {
    for status in [400u16, 404, 405, 500] {
        let resp = response_with_status(status, &Method::Head, "whatever");
        assert_eq!(resp.status, status);
        assert!(matches!(resp.body, Body::Empty));
    }
    match route_start("/%FF", &Method::Head) {
        Resolution::Respond(resp) => assert!(matches!(resp.body, Body::Empty)),
        _ => panic!("bad encoding must yield a response"),
    }
    match route_start("/../x", &Method::Head) {
        Resolution::Respond(resp) => assert!(matches!(resp.body, Body::Empty)),
        _ => panic!("traversal must yield a response"),
    }
}

#[test]
fn io_failure_text_is_the_standard_phrase() {
    let resp = response_with_status(500, &Method::Get, "Internal Server Error");
    assert_eq!(resp.status, 500);
    assert!(resp.headers.is_empty());
    assert_eq!(body_text(&resp), Some("Internal Server Error"));
}

#[test]
fn other_methods_get_405_with_allow_header() {
    for m in ["POST", "PUT", "DELETE", "get"] {
        let method = parse_method(m);
        assert_eq!(method, Method::Other);
        match dispatch("/index.html", &method) {
            Resolution::Respond(resp) => {
                assert_eq!(resp.status, 405);
                assert_eq!(header_value(&resp, "Allow").as_deref(), Some("GET, HEAD"));
                assert_eq!(body_text(&resp), Some("Method Not Allowed"));
            }
            _ => panic!("other methods must not be routed"),
        }
    }
}

#[test]
fn get_and_head_are_dispatched_to_routing() {
    assert_eq!(parse_method("GET"), Method::Get);
    assert_eq!(parse_method("HEAD"), Method::Head);
    match dispatch("/", &Method::Get) {
        Resolution::Stat(t) => assert_eq!(t, "index.html"),
        _ => panic!("GET / must be routed"),
    }
}

#[test]
fn known_file_round_trip() {
    let content = b"{\"answer\": 42}".to_vec();
    let n = content.len() as u64;
    let target = match route_start("/data.json", &Method::Get) {
        Resolution::Stat(t) => t,
        _ => panic!("plain path must resolve"),
    };
    let target = match route_on_stat(target, &Method::Get, FsKind::File) {
        Next::Read(t) => t,
        _ => panic!("a regular file is served itself"),
    };
    let resp = build_file_response(&target, &Method::Get, n, Some(content.clone()));
    assert_eq!(resp.status, 200);
    assert_eq!(header_value(&resp, "Content-Type").as_deref(), Some("application/json"));
    match resp.body {
        Body::Bytes(b) => assert_eq!(b, content),
        _ => panic!("GET must carry the file bytes"),
    }
}

#[test]
fn unregistered_extension_falls_back_to_octet_stream() {
    let resp = build_file_response("blob.zqx9", &Method::Head, 5, None);
    assert_eq!(header_value(&resp, "Content-Type").as_deref(), Some("application/octet-stream"));
}

#[test]
fn binder_walks_the_range_and_finds_the_free_port() {
    // Ports 8000..=8005 occupied, 8006 free: six retries land on 8006.
    let base = 8000u16;
    let retries = 25u16;
    let mut port = base;
    for offset in 0..6u16 {
        assert_eq!(port, base + offset);
        match next_bind_step(base, retries, offset, true) {
            BindStep::Retry { port: next } => port = next,
            _ => panic!("budget left, must retry"),
        }
    }
    assert_eq!(port, 8006);
}

#[test]
fn binder_gives_up_at_the_range_boundary() {
    assert_eq!(next_bind_step(8000, 25, 25, true), BindStep::FailRange);
    assert_eq!(next_bind_step(8000, 25, 24, true), BindStep::Retry { port: 8025 });
}

#[test]
fn binder_gives_up_at_once_on_other_errors() {
    assert_eq!(next_bind_step(8000, 25, 0, false), BindStep::FailOther);
}

#[test]
fn addr_in_use_is_found_anywhere_in_the_chain() {
    assert!(is_addr_in_use(&vec![ChainEntry::AddrInUse]));
    assert!(is_addr_in_use(&vec![ChainEntry::NotIo, ChainEntry::OtherIo, ChainEntry::AddrInUse]));
    assert!(!is_addr_in_use(&vec![ChainEntry::NotIo, ChainEntry::OtherIo]));
    assert!(!is_addr_in_use(&vec![]));
}

#[test]
fn log_line_has_the_common_format() {
    let line = format_log_line("127.0.0.1", "GET", "/a.txt", "11/Oct/2026 12:00:05", 1, 1, 200);
    assert_eq!(line, "127.0.0.1 - - [11/Oct/2026 12:00:05] \"GET /a.txt HTTP/1.1\" 200 -");
}

#[test]
fn stamped_log_line_keeps_the_format_around_the_timestamp() {
    let line = make_log_line("-", "HEAD", "/x", 1, 0, 404);
    assert!(line.starts_with("- - - ["));
    assert!(line.ends_with("] \"HEAD /x HTTP/1.0\" 404 -"));
}

#[test]
fn decimal_rendering_is_exact() {
    assert_eq!(u64_to_dec(0), "0");
    assert_eq!(u64_to_dec(8000), "8000");
    assert_eq!(u64_to_dec(18446744073709551615), "18446744073709551615");
}

#[test]
fn query_component_is_split_off_and_discarded() {
    assert_eq!(path_without_query("/a.txt?q=1"), "/a.txt");
    assert_eq!(path_without_query("/a.txt"), "/a.txt");
    assert_eq!(path_without_query("/?x=1?y=2"), "/");
    assert_eq!(path_without_query("?q"), "");
}

#[test]
fn str_eq_compares_by_content() {
    assert!(str_eq("abc", "abc"));
    assert!(!str_eq("abc", "abd"));
    assert!(!str_eq("abc", "ab"));
    assert!(str_eq("", ""));
}
