use std::io::Read;

use minihttp::http::server::Request;
use minihttp::http::server::MAX_LENGTH_HEADER;
use minihttp::http::Error;
use minihttp::http::Fault;
use minihttp::http::Method;

const REQUEST_GET_HOMEPAGE: &str = "GET / HTTP/1.1\r\n\r\n";
const REQUEST_DELETE_HOMEPAGE: &str = "DELETE / HTTP/1.1\r\n\r\n";
const REQUEST_GET_PATH_1: &str = "GET /lorem HTTP/1.1\r\n\r\n";
const REQUEST_GET_PATH_1_TRAILING: &str = "GET /lorem/ HTTP/1.1\r\n\r\n";
const REQUEST_GET_PATH_2: &str = "GET /lorem/ipsum HTTP/1.1\r\n\r\n";

struct StringRead<'a> {
    iter: std::slice::Iter<'a, u8>,
}

impl<'a> StringRead<'a> {
    pub fn new(data: &'a str) -> Self {
        Self {
            iter: data.as_bytes().iter(),
        }
    }
}

impl<'a> std::io::Read for StringRead<'a> {
    fn read(&mut self, buffer: &mut [u8]) -> std::io::Result<usize> {
        for i in 0..buffer.len() {
            if let Some(&x) = self.iter.next() {
                buffer[i] = x;
            } else {
                return Ok(i);
            }
        }

        return Ok(buffer.len());
    }
}

/// Reads once from `reader`, as a connection is read, and parses what came.
fn parse(reader: &mut dyn Read) -> Result<Request, Error> {
    let mut buffer = [0u8; MAX_LENGTH_HEADER];
    let length = reader.read(&mut buffer)?;
    Request::parse(&buffer[..length])
}

fn is_bad_request(bytes: &[u8]) -> bool {
    matches!(Request::parse(bytes), Err(Error::BadRequest))
}

#[test]
fn parse_reader() {
    let mut reader_request_get_homepage = StringRead::new(REQUEST_GET_HOMEPAGE);
    let mut reader_request_delete_homepage = StringRead::new(REQUEST_DELETE_HOMEPAGE);
    let mut reader_request_get_path_1 = StringRead::new(REQUEST_GET_PATH_1);
    let mut reader_request_get_path_1_trailing = StringRead::new(REQUEST_GET_PATH_1_TRAILING);
    let mut reader_request_get_path_2 = StringRead::new(REQUEST_GET_PATH_2);

    let request_get_homepage = parse(&mut reader_request_get_homepage);
    assert!(request_get_homepage.is_ok());
    if request_get_homepage.is_ok() {
        let request = request_get_homepage.unwrap();

        assert_eq!(Method::GET, *request.get_method());
        assert_eq!(String::from("/"), request.get_target());
    }

    let request_delete_homepage = parse(&mut reader_request_delete_homepage);
    assert!(request_delete_homepage.is_ok());
    if request_delete_homepage.is_ok() {
        let request = request_delete_homepage.unwrap();

        assert_eq!(Method::DELETE, *request.get_method());
        assert_eq!(String::from("/"), request.get_target());
    }

    let request_get_path_1 = parse(&mut reader_request_get_path_1);
    assert!(request_get_path_1.is_ok());
    if request_get_path_1.is_ok() {
        let request = request_get_path_1.unwrap();

        assert_eq!(Method::GET, *request.get_method());
        assert_eq!("/lorem", request.get_target());
    }

    let request_get_path_1_trailing = parse(&mut reader_request_get_path_1_trailing);
    assert!(request_get_path_1_trailing.is_ok());
    if request_get_path_1_trailing.is_ok() {
        let request = request_get_path_1_trailing.unwrap();

        assert_eq!(Method::GET, *request.get_method());
        assert_eq!("/lorem", request.get_target());
    }

    let request_get_path_2 = parse(&mut reader_request_get_path_2);
    assert!(request_get_path_2.is_ok());
    if request_get_path_2.is_ok() {
        let request = request_get_path_2.unwrap();

        assert_eq!(Method::GET, *request.get_method());
        assert_eq!("/lorem/ipsum", request.get_target());
    }
}

#[test]
fn parse_get_homepage() {
    let request = Request::parse(REQUEST_GET_HOMEPAGE.as_bytes()).unwrap();
    assert_eq!(*request.get_method(), Method::GET);
    assert_eq!(request.get_target(), "/");
}

#[test]
fn parse_delete_homepage() {
    let request = Request::parse(REQUEST_DELETE_HOMEPAGE.as_bytes()).unwrap();
    assert_eq!(*request.get_method(), Method::DELETE);
    assert_eq!(request.get_target(), "/");
}

#[test]
fn parse_path() {
    let request = Request::parse(REQUEST_GET_PATH_1.as_bytes()).unwrap();
    assert_eq!(request.get_target(), "/lorem");
}

#[test]
fn parse_path_with_trailing_slash() {
    let plain = Request::parse(REQUEST_GET_PATH_1.as_bytes()).unwrap();
    let trailing = Request::parse(REQUEST_GET_PATH_1_TRAILING.as_bytes()).unwrap();
    assert_eq!(trailing.get_target(), "/lorem");
    assert_eq!(trailing.get_target(), plain.get_target());
    assert_eq!(trailing.get_method(), plain.get_method());
}

#[test]
fn parse_path_with_interior_slash() {
    let request = Request::parse(REQUEST_GET_PATH_2.as_bytes()).unwrap();
    assert_eq!(request.get_target(), "/lorem/ipsum");
}

#[test]
fn parse_drops_one_trailing_slash_only() {
    let request = Request::parse(b"GET /lorem// HTTP/1.1\r\n\r\n").unwrap();
    assert_eq!(request.get_target(), "/lorem/");
    let request = Request::parse(b"GET // HTTP/1.1\r\n\r\n").unwrap();
    assert_eq!(request.get_target(), "/");
}

#[test]
fn parse_every_method() {
    let methods = [
        (Method::GET, "GET"),
        (Method::HEAD, "HEAD"),
        (Method::POST, "POST"),
        (Method::PUT, "PUT"),
        (Method::DELETE, "DELETE"),
        (Method::CONNECT, "CONNECT"),
        (Method::OPTIONS, "OPTIONS"),
        (Method::TRACE, "TRACE"),
        (Method::PATCH, "PATCH"),
        (Method::COPY, "COPY"),
        (Method::MOVE, "MOVE"),
    ];
    for (method, text) in methods {
        let line = format!("{} /lorem/ipsum HTTP/1.1\r\n\r\n", text);
        let request = Request::parse(line.as_bytes()).unwrap();
        assert_eq!(*request.get_method(), method);
        assert_eq!(request.get_target(), "/lorem/ipsum");
    }
}

#[test]
fn parse_rejects_short_input() {
    assert!(is_bad_request(b""));
    assert!(is_bad_request(b"GET"));
    assert!(is_bad_request(b"GET / HTTP/1.1\r\n"));
    assert!(is_bad_request(b"GET / HTTP/1.1\r\n\r"));
    let line = REQUEST_GET_HOMEPAGE.as_bytes();
    assert_eq!(line.len(), 18);
    for length in 0..line.len() {
        assert!(is_bad_request(&line[..length]));
    }
}

#[test]
fn parse_rejects_missing_protocol() {
    assert!(is_bad_request(b"GET /lorem/ipsum/dolor\r\n\r\n"));
    assert!(is_bad_request(b"GET /lorem/ipsum \r\n\r\n\r\n\r\n\r\n\r\n"));
    assert!(is_bad_request(b"GET /lorem XXXX/1.1\r\n\r\n"));
}

#[test]
fn parse_rejects_other_protocol_versions() {
    assert!(is_bad_request(b"GET / HTTP/1.0\r\n\r\n"));
    assert!(is_bad_request(b"GET / HTTP/2.0\r\n\r\n"));
    assert!(is_bad_request(b"GET / http/1.1\r\n\r\n"));
}

#[test]
fn parse_rejects_unknown_method() {
    assert!(is_bad_request(b"FETCH / HTTP/1.1\r\n\r\n"));
    assert!(is_bad_request(b"get /lorem HTTP/1.1\r\n\r\n"));
    assert!(is_bad_request(b"GETS /lorem HTTP/1.1\r\n\r\n"));
    assert!(is_bad_request(b" GET /lorem HTTP/1.1\r\n\r\n"));
    assert!(is_bad_request(b"GE /lorem/ HTTP/1.1\r\n\r\n"));
}

#[test]
fn parse_rejects_target_without_leading_slash() {
    assert!(is_bad_request(b"GET lorem HTTP/1.1\r\n\r\n"));
    assert!(is_bad_request(b"GET http://lorem/ HTTP/1.1\r\n\r\n"));
    assert!(is_bad_request(b"GET * HTTP/1.1\r\n\r\n"));
    assert!(is_bad_request(b"GET  / HTTP/1.1\r\n\r\n"));
}

#[test]
fn parse_rejects_missing_empty_line() {
    assert!(is_bad_request(b"GET /lorem HTTP/1.1\r\nXY"));
    assert!(is_bad_request(b"GET /lorem HTTP/1.1\n\n\n\n"));
    assert!(is_bad_request(b"GET /lorem HTTP/1.1\r\n\n\r"));
}

#[test]
fn parse_rejects_trailing_bytes() {
    assert!(is_bad_request(b"GET / HTTP/1.1\r\n\r\n "));
    assert!(is_bad_request(b"GET / HTTP/1.1\r\nHost: lorem\r\n\r\n"));
    assert!(is_bad_request(b"GET / HTTP/1.1\r\n\r\nlorem ipsum"));
}

#[test]
fn parse_rejects_too_little_behind_the_method() {
    assert!(is_bad_request(b"OPTIONS /\xff HTTP/1."));
}

#[test]
fn parse_reports_undecodable_target() {
    let result = Request::parse(b"GET /\xff HTTP/1.1\r\n\r\n");
    assert!(matches!(
        result,
        Err(Error::InternalError(Fault::Encoding(_)))
    ));
    let result = Request::parse(b"GET /lorem\xc3 HTTP/1.1\r\n\r\n");
    assert!(matches!(
        result,
        Err(Error::InternalError(Fault::Encoding(_)))
    ));
}

#[test]
fn parse_reports_undecodable_target_before_protocol() {
    let result = Request::parse(b"GET /\xff lorem ipsum dolor");
    assert!(matches!(
        result,
        Err(Error::InternalError(Fault::Encoding(_)))
    ));
}

#[test]
fn parse_decodes_target() {
    let line = "GET /caf\u{e9}/\u{4e16}\u{754c}/ HTTP/1.1\r\n\r\n";
    let request = Request::parse(line.as_bytes()).unwrap();
    assert_eq!(request.get_target(), "/caf\u{e9}/\u{4e16}\u{754c}");
    assert_eq!(request.get_target().chars().count(), 8);
}

#[test]
fn parse_looks_at_the_head_only() {
    let mut long = Vec::new();
    long.extend_from_slice(b"GET /");
    while long.len() < MAX_LENGTH_HEADER - 13 {
        long.push(b'a');
    }
    long.extend_from_slice(b" HTTP/1.1\r\n\r\n");
    assert_eq!(long.len(), MAX_LENGTH_HEADER);
    let request = Request::parse(&long).unwrap();
    assert_eq!(request.get_target().len(), MAX_LENGTH_HEADER - 17);

    // What lies behind the head is not read, so nothing there is trailing.
    long.extend_from_slice(b"lorem");
    let request = Request::parse(&long).unwrap();
    assert_eq!(request.get_target().len(), MAX_LENGTH_HEADER - 17);

    // A line that ends behind the head is cut short.
    let mut longer = Vec::new();
    longer.extend_from_slice(b"GET /");
    while longer.len() < MAX_LENGTH_HEADER - 12 {
        longer.push(b'a');
    }
    longer.extend_from_slice(b" HTTP/1.1\r\n\r\n");
    assert_eq!(longer.len(), MAX_LENGTH_HEADER + 1);
    assert!(is_bad_request(&longer));
}

#[test]
fn request_round_trip() {
    for line in [
        REQUEST_GET_HOMEPAGE,
        REQUEST_DELETE_HOMEPAGE,
        REQUEST_GET_PATH_1,
        REQUEST_GET_PATH_2,
    ] {
        let request = Request::parse(line.as_bytes()).unwrap();
        assert_eq!(request.to_string(), line);
    }
    let request = Request::parse(REQUEST_GET_PATH_1_TRAILING.as_bytes()).unwrap();
    assert_eq!(request.to_string(), REQUEST_GET_PATH_1);
}
