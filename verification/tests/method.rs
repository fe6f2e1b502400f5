use minihttp::http::Method;

const METHODS: [(Method, &str); 11] = [
    (Method::GET, "GET"),
    (Method::HEAD, "HEAD"),
    (Method::POST, "POST"),
    (Method::PUT, "PUT"),
    (Method::DELETE, "DELETE"),
    (Method::CONNECT, "CONNECT"),
    (Method::OPTIONS, "OPTIONS"),
    (Method::TRACE, "TRACE"),
    (Method::PATCH, "PATCH"),
    (Method::COPY, "COPY"),
    (Method::MOVE, "MOVE"),
];

#[test]
fn method_texts() {
    for (method, text) in METHODS {
        assert_eq!(method.get_text(), text.as_bytes());
        assert_eq!(method.as_str(), text);
    }
}

#[test]
fn method_round_trip() {
    for (method, _) in METHODS {
        assert_eq!(Method::from_text(method.get_text()), Some(method));
    }
}

#[test]
fn method_from_text() {
    for (method, text) in METHODS {
        assert_eq!(Method::from_text(text.as_bytes()), Some(method));
    }
}

#[test]
fn method_match_is_case_sensitive() {
    for (_, text) in METHODS {
        assert_eq!(Method::from_text(text.to_lowercase().as_bytes()), None);
    }
    assert_eq!(Method::from_text(b"Get"), None);
    assert_eq!(Method::from_text(b"gET"), None);
}

#[test]
fn method_match_is_exact() {
    assert_eq!(Method::from_text(b""), None);
    assert_eq!(Method::from_text(b"G"), None);
    assert_eq!(Method::from_text(b"GE"), None);
    assert_eq!(Method::from_text(b"GETS"), None);
    assert_eq!(Method::from_text(b"GET "), None);
    assert_eq!(Method::from_text(b" GET"), None);
    assert_eq!(Method::from_text(b"PO"), None);
    assert_eq!(Method::from_text(b"POSTS"), None);
    assert_eq!(Method::from_text(b"LINK"), None);
    assert_eq!(Method::from_text(b"\xff\xfe"), None);
}

#[test]
fn method_texts_differ() {
    for (a, _) in METHODS {
        for (b, _) in METHODS {
            assert_eq!(a == b, a.get_text() == b.get_text());
        }
    }
}
