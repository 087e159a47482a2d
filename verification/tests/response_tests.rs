use s3_gateway::outcome::FetchOutcome;
use s3_gateway::response::{
    easy_response, found_response, full, get_s3_object_error, s3_object_response, HttpResponse,
};
use s3_gateway::status::{
    BAD_REQUEST, FOUND, INTERNAL_SERVER_ERROR, METHOD_NOT_ALLOWED, NOT_FOUND, OK,
};

fn found(bytes: &[u8]) -> FetchOutcome {
    FetchOutcome::Found { bytes: bytes.to_vec(), inferred_content_type: None }
}

fn header_pairs(response: &HttpResponse) -> Vec<(String, String)> {
    let mut pairs = Vec::new();
    for header in response.headers() {
        pairs.push((header.name.clone(), header.value.clone()));
    }
    pairs
}

fn content_type(response: &HttpResponse) -> Option<String> {
    response.header("Content-Type").cloned()
}

#[test]
fn test_easy_response() {
    for status_code in [OK, BAD_REQUEST, NOT_FOUND, INTERNAL_SERVER_ERROR] {
        let res = easy_response(status_code);
        assert_eq!(res.status(), status_code);
    }
}

#[test]
fn status_constants_have_their_numbers() {
    assert_eq!(OK, 200);
    assert_eq!(FOUND, 302);
    assert_eq!(BAD_REQUEST, 400);
    assert_eq!(NOT_FOUND, 404);
    assert_eq!(METHOD_NOT_ALLOWED, 405);
    assert_eq!(INTERNAL_SERVER_ERROR, 500);
}

#[test]
fn easy_response_ok_body() {
    let res = easy_response(200);
    assert_eq!(res.status(), 200);
    assert_eq!(res.body().as_slice(), b"OK");
}

#[test]
fn easy_response_bad_request_body() {
    let res = easy_response(400);
    assert_eq!(res.status(), 400);
    assert_eq!(res.body().as_slice(), b"Bad Request");
}

#[test]
fn easy_response_not_found_body() {
    let res = easy_response(404);
    assert_eq!(res.status(), 404);
    assert_eq!(res.body().as_slice(), b"Not Found");
}

#[test]
fn easy_response_method_not_allowed_body() {
    let res = easy_response(405);
    assert_eq!(res.status(), 405);
    assert_eq!(res.body().as_slice(), b"Method Not Allowed");
}

#[test]
fn easy_response_internal_server_error_body() {
    let res = easy_response(500);
    assert_eq!(res.status(), 500);
    assert_eq!(res.body().as_slice(), b"Internal Server Error");
}

#[test]
fn easy_response_other_codes_are_unknown_and_keep_the_code() {
    for status_code in [0u16, 99, 100, 201, 302, 403, 418, 503, 999, 1000, 65535] {
        let res = easy_response(status_code);
        assert_eq!(res.status(), status_code);
        assert_eq!(res.body().as_slice(), b"Unknown");
    }
}

#[test]
fn easy_response_is_plain_text_with_one_header() {
    for status_code in [200u16, 400, 404, 405, 500, 418] {
        let res = easy_response(status_code);
        assert_eq!(
            header_pairs(&res),
            vec![("Content-Type".to_string(), "text/plain".to_string())]
        );
        assert!(!res.body().is_empty());
        assert!(res.body().iter().all(|b| (32..=126).contains(b)));
    }
}

#[test]
fn full_gives_the_bytes_of_the_text() {
    assert_eq!(full("OK"), b"OK".to_vec());
    assert_eq!(full(""), Vec::<u8>::new());
    assert_eq!(full("h\u{e9}"), vec![0x68, 0xc3, 0xa9]);
}

#[test]
fn header_lookup_is_exact() {
    let res = easy_response(200);
    assert_eq!(res.header("Content-Type"), Some(&"text/plain".to_string()));
    assert_eq!(res.header("content-type"), None);
    assert_eq!(res.header("Location"), None);
    assert_eq!(res.header(""), None);
}

#[test]
fn found_html_key_is_text_html() {
    let res = s3_object_response(found(b"<html></html>"), "index.html", None);
    assert_eq!(res.status(), 200);
    assert_eq!(content_type(&res), Some("text/html".to_string()));
    assert_eq!(res.body().as_slice(), b"<html></html>");
    assert_eq!(
        header_pairs(&res),
        vec![("Content-Type".to_string(), "text/html".to_string())]
    );
}

#[test]
fn found_keys_with_known_extensions() {
    let cases = [
        ("style.css", "text/css"),
        ("app.js", "text/javascript"),
        ("data.json", "application/json"),
        ("img/logo.png", "image/png"),
        ("photo.jpg", "image/jpeg"),
        ("a/b/c/icon.svg", "image/svg+xml"),
        ("notes.txt", "text/plain"),
        ("archive.tar.gz", "application/gzip"),
        ("doc.pdf", "application/pdf"),
    ];
    for (key, expected) in cases {
        let res = s3_object_response(found(b"x"), key, Some("/404.html".to_string()));
        assert_eq!(res.status(), 200);
        assert_eq!(content_type(&res), Some(expected.to_string()));
    }
}

#[test]
fn found_extension_is_matched_without_regard_to_case() {
    let res = s3_object_response(found(b"x"), "PHOTO.PNG", None);
    assert_eq!(content_type(&res), Some("image/png".to_string()));
}

#[test]
fn found_media_type_is_rendered_in_lower_case() {
    let res = s3_object_response(found(b"x"), "console.psc1", None);
    assert_eq!(res.status(), 200);
    assert_eq!(content_type(&res), Some("application/powershell".to_string()));
}

#[test]
fn found_key_without_extension_is_text_plain() {
    for key in ["data", "noext", "", "dir/file", "a/b/c"] {
        let res = s3_object_response(found(b"abc"), key, None);
        assert_eq!(res.status(), 200);
        assert_eq!(content_type(&res), Some("text/plain".to_string()));
        assert_eq!(res.body().as_slice(), b"abc");
    }
}

#[test]
fn found_key_with_unknown_extension_is_text_plain() {
    for key in ["file.qqqzzz", "file.", ".hidden", "dir.d/file", "x.html/y"] {
        let res = s3_object_response(found(b"abc"), key, None);
        assert_eq!(res.status(), 200);
        assert_eq!(content_type(&res), Some("text/plain".to_string()));
    }
}

#[test]
fn found_empty_body_still_has_content_type() {
    let res = s3_object_response(found(b""), "index.html", None);
    assert_eq!(res.status(), 200);
    assert!(res.body().is_empty());
    assert_eq!(content_type(&res), Some("text/html".to_string()));
    let plain = s3_object_response(found(b""), "noext", None);
    assert_eq!(plain.status(), 200);
    assert!(plain.body().is_empty());
    assert_eq!(content_type(&plain), Some("text/plain".to_string()));
}

#[test]
fn found_ignores_the_type_recorded_by_the_store() {
    let with = FetchOutcome::Found {
        bytes: b"x".to_vec(),
        inferred_content_type: Some("application/octet-stream".to_string()),
    };
    let res = s3_object_response(with, "index.html", None);
    assert_eq!(content_type(&res), Some("text/html".to_string()));
    assert_eq!(res, s3_object_response(found(b"x"), "index.html", None));
}

#[test]
fn found_response_takes_the_guess_as_given() {
    let res = found_response(b"abc".to_vec(), Some("image/png".to_string()));
    assert_eq!(res.status(), 200);
    assert_eq!(content_type(&res), Some("image/png".to_string()));
    assert_eq!(res.body().as_slice(), b"abc");
    let plain = found_response(b"abc".to_vec(), None);
    assert_eq!(plain.status(), 200);
    assert_eq!(content_type(&plain), Some("text/plain".to_string()));
}

#[test]
fn found_response_with_unsendable_type_is_500() {
    let res = found_response(b"abc".to_vec(), Some("text/html\r\nX-Evil: 1".to_string()));
    assert_eq!(res, easy_response(500));
    assert_eq!(res.status(), 500);
    assert_eq!(res.body().as_slice(), b"Internal Server Error");
}

#[test]
fn not_found_with_redirect_is_302() {
    let res = s3_object_response(FetchOutcome::NotFound, "missing.html", Some("/404.html".to_string()));
    assert_eq!(res.status(), 302);
    assert_eq!(res.header("Location"), Some(&"/404.html".to_string()));
    assert_eq!(content_type(&res), Some("text/plain".to_string()));
    assert_eq!(res.body().as_slice(), b"Found");
    assert_eq!(
        header_pairs(&res),
        vec![
            ("Content-Type".to_string(), "text/plain".to_string()),
            ("Location".to_string(), "/404.html".to_string()),
        ]
    );
}

#[test]
fn not_found_without_redirect_is_the_404_response() {
    let res = s3_object_response(FetchOutcome::NotFound, "missing.html", None);
    assert_eq!(res, easy_response(404));
    assert_eq!(res.status(), 404);
    assert_eq!(res.body().as_slice(), b"Not Found");
    assert_eq!(res.header("Location"), None);
}

#[test]
fn not_found_with_unsendable_redirect_is_500() {
    for path in ["/bad\npath", "/bad\r\nSet-Cookie: x", "\u{0}", "/del\u{7f}", "/bell\u{7}"] {
        let res = s3_object_response(FetchOutcome::NotFound, "missing", Some(path.to_string()));
        assert_eq!(res, easy_response(500));
        assert_eq!(res.header("Location"), None);
    }
}

#[test]
fn not_found_redirect_accepts_tab_space_and_non_ascii() {
    for path in ["/with\ttab", "/with space", "/caf\u{e9}", "", "~"] {
        let res = s3_object_response(FetchOutcome::NotFound, "missing", Some(path.to_string()));
        assert_eq!(res.status(), 302);
        assert_eq!(res.header("Location"), Some(&path.to_string()));
    }
}

#[test]
fn transient_error_is_500_whatever_the_redirect() {
    let with = s3_object_response(
        FetchOutcome::TransientError { detail: "timeout".to_string() },
        "index.html",
        Some("/404.html".to_string()),
    );
    let without = s3_object_response(
        FetchOutcome::TransientError { detail: "timeout".to_string() },
        "index.html",
        None,
    );
    assert_eq!(with.status(), 500);
    assert_eq!(without.status(), 500);
    assert_eq!(with, easy_response(500));
    assert_eq!(without, easy_response(500));
    assert_eq!(with.header("Location"), None);
}

#[test]
fn transient_error_detail_is_not_sent() {
    let res = s3_object_response(
        FetchOutcome::TransientError { detail: "secret backend host 10.0.0.7".to_string() },
        "index.html",
        None,
    );
    assert_eq!(res.body().as_slice(), b"Internal Server Error");
    let other = s3_object_response(
        FetchOutcome::TransientError { detail: "something else".to_string() },
        "index.html",
        None,
    );
    assert_eq!(res, other);
}

#[test]
fn get_s3_object_error_cases() {
    let redirect = get_s3_object_error(true, Some("/404.html".to_string()));
    assert_eq!(redirect.status(), 302);
    assert_eq!(redirect.header("Location"), Some(&"/404.html".to_string()));
    assert_eq!(redirect.body().as_slice(), b"Found");
    assert_eq!(get_s3_object_error(true, None), easy_response(404));
    assert_eq!(get_s3_object_error(false, None), easy_response(500));
    assert_eq!(get_s3_object_error(false, Some("/404.html".to_string())), easy_response(500));
    assert_eq!(get_s3_object_error(true, Some("/bad\n".to_string())), easy_response(500));
}

#[test]
fn same_fetch_gives_same_response() {
    let first = s3_object_response(found(b"<html></html>"), "index.html", Some("/404.html".to_string()));
    let second = s3_object_response(found(b"<html></html>"), "index.html", Some("/404.html".to_string()));
    assert_eq!(first, second);
    assert_eq!(first.status(), second.status());
    assert_eq!(header_pairs(&first), header_pairs(&second));
    assert_eq!(first.body(), second.body());

    let first = s3_object_response(FetchOutcome::NotFound, "k", Some("/404.html".to_string()));
    let second = s3_object_response(FetchOutcome::NotFound, "k", Some("/404.html".to_string()));
    assert_eq!(first, second);

    let first = s3_object_response(FetchOutcome::NotFound, "k", None);
    let second = s3_object_response(FetchOutcome::NotFound, "k", None);
    assert_eq!(first, second);
}

#[test]
fn every_response_has_unique_header_names_and_a_content_type() {
    let responses = vec![
        easy_response(200),
        s3_object_response(found(b"x"), "index.html", Some("/404.html".to_string())),
        s3_object_response(FetchOutcome::NotFound, "k", Some("/404.html".to_string())),
        s3_object_response(FetchOutcome::NotFound, "k", None),
        s3_object_response(FetchOutcome::TransientError { detail: "d".to_string() }, "k", None),
    ];
    for response in &responses {
        let names: Vec<String> = header_pairs(response).into_iter().map(|(n, _)| n).collect();
        for (i, name) in names.iter().enumerate() {
            assert!(!names[..i].contains(name));
        }
        assert!(names.contains(&"Content-Type".to_string()));
    }
}
