use minihttp::http::client;
use minihttp::http::server::Request;
use minihttp::http::server::Server;
use minihttp::http::Client;
use minihttp::http::Error;
use minihttp::http::Fault;
use minihttp::http::Method;
use minihttp::http::Status;

#[test]
fn server_defaults() {
    let mut server = Server::new();
    assert_eq!(server.get_address(), 0x7F_00_00_01);
    assert_eq!(server.get_port(), 80);
}

#[test]
fn server_setters() {
    let mut server = Server::new();
    server.set_port(8080);
    assert_eq!(server.get_port(), 8080);
    assert_eq!(server.get_address(), 0x7F_00_00_01);
    server.set_address(0xC0_A8_00_01);
    assert_eq!(server.get_address(), 0xC0_A8_00_01);
    assert_eq!(server.get_port(), 8080);
}

#[test]
fn client_defaults() {
    let mut client = Client::new();
    assert_eq!(client.get_address(), 0x7F_00_00_01);
    assert_eq!(client.get_port(), 80);
}

#[test]
fn client_setters() {
    let mut client = Client::new();
    client.set_address(0x0A_00_00_02);
    assert_eq!(client.get_address(), 0x0A_00_00_02);
    assert_eq!(client.get_port(), 80);
    client.set_port(u16::MAX);
    assert_eq!(client.get_port(), u16::MAX);
    assert_eq!(client.get_address(), 0x0A_00_00_02);
}

#[test]
fn server_responds_ok_to_get() {
    let server = Server::new();
    for line in ["GET / HTTP/1.1\r\n\r\n", "GET /lorem/ipsum HTTP/1.1\r\n\r\n"] {
        let request = Request::parse(line.as_bytes()).unwrap();
        let response = server.respond(&request);
        assert_eq!(*response.get_status(), Status::OK);
    }
}

#[test]
fn server_responds_not_found_to_other_methods() {
    let server = Server::new();
    for method in [
        "HEAD", "POST", "PUT", "DELETE", "CONNECT", "OPTIONS", "TRACE", "PATCH", "COPY", "MOVE",
    ] {
        let line = format!("{} / HTTP/1.1\r\n\r\n", method);
        let request = Request::parse(line.as_bytes()).unwrap();
        assert_ne!(*request.get_method(), Method::GET);
        let response = server.respond(&request);
        assert_eq!(*response.get_status(), Status::NotFound);
    }
}

#[test]
fn server_handles_request() {
    let server = Server::new();
    let (request, response) = server.handle(b"GET /lorem/ HTTP/1.1\r\n\r\n").unwrap();
    assert_eq!(*request.get_method(), Method::GET);
    assert_eq!(request.get_target(), "/lorem");
    assert_eq!(response.to_string(), "HTTP/1.1 200 OK\r\n\r\n");

    let (request, response) = server.handle(b"DELETE / HTTP/1.1\r\n\r\n").unwrap();
    assert_eq!(*request.get_method(), Method::DELETE);
    assert_eq!(response.to_string(), "HTTP/1.1 404 Not Found\r\n\r\n");
}

#[test]
fn server_handles_no_request() {
    let server = Server::new();
    assert!(matches!(server.handle(b""), Err(Error::BadRequest)));
    assert!(matches!(
        server.handle(b"GET / HTTP/1.0\r\n\r\n"),
        Err(Error::BadRequest)
    ));
    assert!(matches!(
        server.handle(b"GET /\xff HTTP/1.1\r\n\r\n"),
        Err(Error::InternalError(Fault::Encoding(_)))
    ));
}

#[test]
fn exchange() {
    let server = Server::new();
    let mut request = client::Request::new();
    request.set_target(b"/lorem/ipsum/").unwrap();
    let (read, response) = server.handle(request.to_string().as_bytes()).unwrap();
    assert_eq!(read.get_target(), "/lorem/ipsum");
    let answer = client::Response::parse(response.to_string().as_bytes()).unwrap();
    assert_eq!(*answer.get_status(), Status::OK);

    request.set_method(Method::POST);
    let (_, response) = server.handle(request.to_string().as_bytes()).unwrap();
    let answer = client::Response::parse(response.to_string().as_bytes()).unwrap();
    assert_eq!(*answer.get_status(), Status::NotFound);
}
