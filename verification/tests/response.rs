use minihttp::http::client;
use minihttp::http::server;
use minihttp::http::Error;
use minihttp::http::Status;

fn is_bad_response(bytes: &[u8]) -> bool {
    matches!(client::Response::parse(bytes), Err(Error::BadResponse))
}

#[test]
fn response_new_is_ok() {
    let response = server::Response::new();
    assert_eq!(*response.get_status(), Status::OK);
    assert_eq!(response.to_string(), "HTTP/1.1 200 OK\r\n\r\n");
}

#[test]
fn response_set_status() {
    let mut response = server::Response::new();
    response.set_status(Status::NotFound);
    assert_eq!(*response.get_status(), Status::NotFound);
    assert_eq!(response.to_string(), "HTTP/1.1 404 Not Found\r\n\r\n");
    response.set_status(Status::NetworkAuthenticationRequired);
    assert_eq!(
        response.to_string(),
        "HTTP/1.1 511 Network Authentication Required\r\n\r\n"
    );
}

#[test]
fn parse_status_line() {
    let response = client::Response::parse(b"HTTP/1.1 404 Not Found\r\n\r\n").unwrap();
    assert_eq!(*response.get_status(), Status::NotFound);
    assert_eq!(response.to_string(), "HTTP/1.1 404 Not Found\r\n\r\n");
    let response = client::Response::parse(b"HTTP/1.1 200 OK\r\n\r\n").unwrap();
    assert_eq!(*response.get_status(), Status::OK);
}

#[test]
fn parse_status_line_unknown_code() {
    assert!(is_bad_response(b"HTTP/1.1 999 Not Found\r\n\r\n"));
    assert!(is_bad_response(b"HTTP/1.1 418 I'm a teapot\r\n\r\n"));
    assert!(is_bad_response(b"HTTP/1.1 000 OK\r\n\r\n"));
    assert!(is_bad_response(b"HTTP/1.1 2x0 OK\r\n\r\n"));
    assert!(is_bad_response(b"HTTP/1.1  200 OK\r\n\r\n"));
}

#[test]
fn parse_status_line_ignores_what_follows_the_code() {
    let response = client::Response::parse(b"HTTP/1.1 404 lorem ipsum").unwrap();
    assert_eq!(*response.get_status(), Status::NotFound);
    let response = client::Response::parse(b"HTTP/1.1 2000").unwrap();
    assert_eq!(*response.get_status(), Status::OK);
    let response = client::Response::parse(b"HTTP/1.1 404").unwrap();
    assert_eq!(*response.get_status(), Status::NotFound);
    let response =
        client::Response::parse(b"HTTP/1.1 200 OK\r\nServer: lorem\r\n\r\nipsum").unwrap();
    assert_eq!(*response.get_status(), Status::OK);
}

#[test]
fn parse_status_line_short() {
    assert!(is_bad_response(b""));
    assert!(is_bad_response(b"HTTP/1.1"));
    assert!(is_bad_response(b"HTTP/1.1 "));
    assert!(is_bad_response(b"HTTP/1.1 4"));
    assert!(is_bad_response(b"HTTP/1.1 40"));
}

#[test]
fn parse_status_line_other_protocol() {
    assert!(is_bad_response(b"HTTP/1.0 200 OK\r\n\r\n"));
    assert!(is_bad_response(b"HTTP/2.0 200 OK\r\n\r\n"));
    assert!(is_bad_response(b"http/1.1 200 OK\r\n\r\n"));
    assert!(is_bad_response(b"HTTP/1.1\t200 OK\r\n\r\n"));
    assert!(is_bad_response(b" HTTP/1.1 200 OK\r\n\r\n"));
    assert!(is_bad_response(b"200 OK\r\n\r\n"));
}

#[test]
fn status_line_round_trip() {
    for status in (0..1000usize).filter_map(Status::from_code) {
        let mut response = server::Response::new();
        response.set_status(status);
        let line = response.to_string();
        let expected = format!(
            "HTTP/1.1 {} {}\r\n\r\n",
            status.get_code(),
            std::str::from_utf8(status.get_text()).unwrap()
        );
        assert_eq!(line, expected);
        let read = client::Response::parse(line.as_bytes()).unwrap();
        assert_eq!(*read.get_status(), status);
        assert_eq!(read.to_string(), line);
    }
}

#[test]
fn parse_status_line_looks_at_the_head_only() {
    let mut long = vec![b' '; client::MAX_HEADER_LENGTH + 100];
    long[..12].copy_from_slice(b"HTTP/1.1 204");
    let response = client::Response::parse(&long).unwrap();
    assert_eq!(*response.get_status(), Status::NoContent);
}
