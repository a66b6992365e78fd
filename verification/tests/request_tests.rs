use crud_api::request::{
    body_from_request, get_id_from_request, parse_request, read_request, request_line_of,
    ParsedRequest, REQUEST_BUFFER_SIZE,
};

#[test]
fn reads_one_buffer_of_1024_bytes() {
    assert_eq!(REQUEST_BUFFER_SIZE, 1024);
}

#[test]
fn decodes_what_was_read() {
    assert_eq!(read_request(Some(b"GET /users\r\n\r\n")), "GET /users\r\n\r\n");
    assert_eq!(read_request(Some("naïve ✓".as_bytes())), "naïve ✓");
    assert_eq!(read_request(Some(b"")), "");
}

#[test]
fn replaces_what_is_not_utf8() {
    assert_eq!(read_request(Some(b"GET \xff/users")), "GET \u{fffd}/users");
    assert_eq!(read_request(Some(b"a\xe2\x82")), "a\u{fffd}");
    assert_eq!(read_request(Some(b"\xc0\x80")), "\u{fffd}\u{fffd}");
}

#[test]
fn a_failed_read_is_an_empty_request() {
    assert_eq!(read_request(None), "");
}

#[test]
fn request_line_ends_at_the_first_line_terminator() {
    assert_eq!(request_line_of("GET /users/1 HTTP/1.1\r\nHost: x\r\n\r\n"), "GET /users/1 HTTP/1.1");
    assert_eq!(request_line_of("\r\nGET /users"), "");
    assert_eq!(request_line_of("a\r\n\r\nb"), "a");
}

#[test]
fn request_line_is_everything_without_a_line_terminator() {
    assert_eq!(request_line_of("GET /users/1"), "GET /users/1");
    assert_eq!(request_line_of(""), "");
    assert_eq!(request_line_of("GET /users\nHost: x"), "GET /users\nHost: x");
    assert_eq!(request_line_of("GET /users\r"), "GET /users\r");
}

#[test]
fn path_id_is_the_third_piece() {
    assert_eq!(get_id_from_request("GET /users/42"), 42);
    assert_eq!(get_id_from_request("GET /users/42\r\nHost: x\r\n\r\n"), 42);
    assert_eq!(get_id_from_request("DELETE /users/7/extra"), 7);
    assert_eq!(get_id_from_request("PUT /users/-3\r\n\r\n{}"), -3);
    assert_eq!(get_id_from_request("PUT /users/+3"), 3);
    assert_eq!(get_id_from_request("GET /users/2147483647"), 2147483647);
    assert_eq!(get_id_from_request("GET /users/-2147483648"), -2147483648);
    assert_eq!(get_id_from_request("x/y/9"), 9);
}

#[test]
fn path_id_is_zero_without_a_third_piece() {
    assert_eq!(get_id_from_request(""), 0);
    assert_eq!(get_id_from_request("GET"), 0);
    assert_eq!(get_id_from_request("GET /users"), 0);
    assert_eq!(get_id_from_request("GET /users\r\nHost: a/5"), 0);
    assert_eq!(get_id_from_request("POST /users\r\n\r\n{\"name\":\"a/7\"}"), 0);
}

#[test]
fn path_id_is_zero_when_the_piece_is_not_a_number() {
    assert_eq!(get_id_from_request("GET /users/"), 0);
    assert_eq!(get_id_from_request("GET /users/abc"), 0);
    assert_eq!(get_id_from_request("GET /users/12abc"), 0);
    assert_eq!(get_id_from_request("GET /users//5"), 0);
    assert_eq!(get_id_from_request("GET /users/2147483648"), 0);
    assert_eq!(get_id_from_request("GET /users/-2147483649"), 0);
    assert_eq!(get_id_from_request("GET /users/-"), 0);
}

#[test]
fn path_id_is_zero_when_anything_follows_the_number() {
    assert_eq!(get_id_from_request("GET /users/42 HTTP/1.1\r\n\r\n"), 0);
    assert_eq!(get_id_from_request("GET /users/42 "), 0);
    assert_eq!(get_id_from_request("GET /users/ 42"), 0);
    assert_eq!(get_id_from_request("GET /users/42\n"), 0);
    assert_eq!(get_id_from_request("GET /users/42?x=1"), 0);
}

#[test]
fn body_follows_the_last_blank_line() {
    assert_eq!(body_from_request("POST /users\r\n\r\n{\"a\":1}"), "{\"a\":1}");
    assert_eq!(body_from_request("POST /users\r\nHost: x\r\n\r\nabc\r\n\r\ndef"), "def");
    assert_eq!(body_from_request("POST /users\r\n\r\n"), "");
    assert_eq!(body_from_request("\r\n\r\nx"), "x");
    assert_eq!(body_from_request("a\r\n\r\n\r\nb"), "b");
    assert_eq!(body_from_request("a\r\n\r\nb\r\nc"), "b\r\nc");
    assert_eq!(body_from_request("a\r\n\r\nnaïve ✓"), "naïve ✓");
}

#[test]
fn body_is_empty_without_a_blank_line() {
    assert_eq!(body_from_request(""), "");
    assert_eq!(body_from_request("GET /users"), "");
    assert_eq!(body_from_request("GET /users\r\nHost: x\r\n"), "");
    assert_eq!(body_from_request("GET /users\n\n{}"), "");
    assert_eq!(body_from_request("{\"name\":\"a\",\"email\":\"b\"}"), "");
}

#[test]
fn takes_a_request_apart() {
    let parsed = parse_request("PUT /users/12\r\nContent-Length: 2\r\n\r\n{}");
    assert_eq!(
        parsed,
        ParsedRequest {
            method_and_path: String::from("PUT /users/12"),
            path_id: 12,
            body: String::from("{}"),
        }
    );
    let empty = parse_request("");
    assert_eq!(
        empty,
        ParsedRequest { method_and_path: String::new(), path_id: 0, body: String::new() }
    );
}

#[test]
fn parts_agree_with_the_single_functions() {
    for text in [
        "GET /users/5",
        "GET /users/5 HTTP/1.1\r\n\r\n",
        "POST /users\r\nA: b\r\n\r\n{\"name\":\"n\",\"email\":\"e\"}",
        "\r\n\r\n\r\n",
        "no slashes here",
        "ü/ö/3\r\n\r\nä",
    ] {
        let parsed = parse_request(text);
        assert_eq!(parsed.method_and_path, request_line_of(text));
        assert_eq!(parsed.path_id, get_id_from_request(text));
        assert_eq!(parsed.body, body_from_request(text));
    }
}
