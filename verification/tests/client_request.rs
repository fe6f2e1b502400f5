use minihttp::http::client::Request;
use minihttp::http::server;
use minihttp::http::Error;
use minihttp::http::Method;

#[test]
fn request_new() {
    let request = Request::new();
    assert_eq!(*request.get_method(), Method::GET);
    assert_eq!(request.get_target(), "/");
    assert_eq!(request.to_string(), "GET / HTTP/1.1\r\n\r\n");
}

#[test]
fn request_set_method() {
    let mut request = Request::new();
    request.set_method(Method::DELETE);
    assert_eq!(*request.get_method(), Method::DELETE);
    assert_eq!(request.get_target(), "/");
    assert_eq!(request.to_string(), "DELETE / HTTP/1.1\r\n\r\n");
}

#[test]
fn request_set_target() {
    let mut request = Request::new();
    assert!(request.set_target(b"/lorem").is_ok());
    assert_eq!(request.get_target(), "/lorem");
    assert_eq!(*request.get_method(), Method::GET);
    assert_eq!(request.to_string(), "GET /lorem HTTP/1.1\r\n\r\n");
    assert!(request.set_target(b"/lorem/ipsum").is_ok());
    assert_eq!(request.get_target(), "/lorem/ipsum");
    assert!(request.set_target(b"/").is_ok());
    assert_eq!(request.get_target(), "/");
}

#[test]
fn request_set_target_drops_trailing_slash() {
    let mut request = Request::new();
    assert!(request.set_target(b"/lorem/").is_ok());
    assert_eq!(request.get_target(), "/lorem");
    assert!(request.set_target(b"/lorem/ipsum/").is_ok());
    assert_eq!(request.get_target(), "/lorem/ipsum");
    assert!(request.set_target(b"/lorem//").is_ok());
    assert_eq!(request.get_target(), "/lorem/");
    assert!(request.set_target(b"//").is_ok());
    assert_eq!(request.get_target(), "/");
}

#[test]
fn request_set_target_invalid_path() {
    let mut request = Request::new();
    assert!(request.set_target(b"/lorem").is_ok());
    assert!(matches!(request.set_target(b""), Err(Error::InvalidPath)));
    assert_eq!(request.get_target(), "/lorem");
    assert!(matches!(request.set_target(b"lorem"), Err(Error::InvalidPath)));
    assert_eq!(request.get_target(), "/lorem");
    assert!(matches!(request.set_target(b"lorem/"), Err(Error::InvalidPath)));
    assert!(matches!(request.set_target(b" /"), Err(Error::InvalidPath)));
    assert!(matches!(request.set_target(b"\\"), Err(Error::InvalidPath)));
    assert_eq!(request.get_target(), "/lorem");
    assert_eq!(request.to_string(), "GET /lorem HTTP/1.1\r\n\r\n");
}

#[test]
fn request_set_target_not_utf8() {
    let mut request = Request::new();
    assert!(matches!(request.set_target(b"/\xff"), Err(Error::InvalidPath)));
    assert!(matches!(request.set_target(b"/lorem\xc3/"), Err(Error::InvalidPath)));
    assert_eq!(request.get_target(), "/");
}

#[test]
fn request_set_target_decodes() {
    let mut request = Request::new();
    assert!(request.set_target("/caf\u{e9}/".as_bytes()).is_ok());
    assert_eq!(request.get_target(), "/caf\u{e9}");
    assert_eq!(request.to_string(), "GET /caf\u{e9} HTTP/1.1\r\n\r\n");
}

#[test]
fn request_is_read_as_it_was_written() {
    let methods = [
        Method::GET,
        Method::HEAD,
        Method::POST,
        Method::PUT,
        Method::DELETE,
        Method::CONNECT,
        Method::OPTIONS,
        Method::TRACE,
        Method::PATCH,
        Method::COPY,
        Method::MOVE,
    ];
    let paths: [&[u8]; 5] = [
        b"/",
        b"/lorem",
        b"/lorem/",
        b"/lorem/ipsum",
        b"/lorem/ipsum/dolor/sit/amet",
    ];
    for method in methods {
        for path in paths {
            let mut request = Request::new();
            request.set_method(method);
            request.set_target(path).unwrap();
            let read = server::Request::parse(request.to_string().as_bytes()).unwrap();
            assert_eq!(read.get_method(), request.get_method());
            assert_eq!(read.get_target(), request.get_target());
            assert_eq!(read.to_string(), request.to_string());
        }
    }
}
