use minihttp::http::Status;

/// Every status, found by its number.
fn statuses() -> Vec<Status> {
    (0..1000usize).filter_map(Status::from_code).collect()
}

#[test]
fn status_registry_size() {
    let all = statuses();
    assert_eq!(all.len(), 61);
    assert_eq!(all.first().unwrap().get_code(), 100);
    assert_eq!(all.last().unwrap().get_code(), 511);
}

#[test]
fn status_code_round_trip() {
    for status in statuses() {
        assert_eq!(Status::from_code(status.get_code()), Some(status));
    }
}

#[test]
fn status_code_text_round_trip() {
    for status in statuses() {
        assert_eq!(Status::from_code_text(status.get_code_text()), Some(status));
    }
}

#[test]
fn status_text_round_trip() {
    for status in statuses() {
        assert_eq!(Status::from_text(status.get_text()), Some(status));
    }
}

#[test]
fn status_phrase_round_trip() {
    for status in statuses() {
        assert_eq!(Status::from_phrase(status.get_phrase()), Some(status));
    }
}

#[test]
fn status_code_text_is_the_code_in_three_digits() {
    for status in statuses() {
        let text = format!("{:03}", status.get_code());
        assert_eq!(status.get_code_text(), text.as_bytes());
    }
}

#[test]
fn status_phrase_is_code_text_and_reason() {
    for status in statuses() {
        let mut phrase = Vec::new();
        phrase.extend_from_slice(status.get_code_text());
        phrase.push(b' ');
        phrase.extend_from_slice(status.get_text());
        assert_eq!(status.get_phrase(), phrase.as_slice());
        assert_eq!(status.as_str().as_bytes(), phrase.as_slice());
    }
}

#[test]
fn status_forms() {
    assert_eq!(Status::NotFound.get_code(), 404);
    assert_eq!(Status::NotFound.get_code_text(), b"404");
    assert_eq!(Status::NotFound.get_text(), b"Not Found");
    assert_eq!(Status::NotFound.get_phrase(), b"404 Not Found");
    assert_eq!(Status::OK.get_code(), 200);
    assert_eq!(Status::OK.get_code_text(), b"200");
    assert_eq!(Status::OK.get_text(), b"OK");
    assert_eq!(Status::OK.get_phrase(), b"200 OK");
    assert_eq!(Status::Continue.get_phrase(), b"100 Continue");
    assert_eq!(Status::IMUsed.get_phrase(), b"226 IM Used");
    assert_eq!(
        Status::NonAuthoritativeInformation.get_phrase(),
        b"203 Non-Authoritative Information"
    );
    assert_eq!(Status::MultiStatus.get_text(), b"Multi-Status");
    assert_eq!(Status::URITooLong.get_text(), b"URI Too Long");
    assert_eq!(
        Status::HTTPVersionNotSupported.get_phrase(),
        b"505 HTTP Version Not Supported"
    );
    assert_eq!(
        Status::NetworkAuthenticationRequired.get_phrase(),
        b"511 Network Authentication Required"
    );
}

#[test]
fn status_from_code() {
    assert_eq!(Status::from_code(100), Some(Status::Continue));
    assert_eq!(Status::from_code(200), Some(Status::OK));
    assert_eq!(Status::from_code(226), Some(Status::IMUsed));
    assert_eq!(Status::from_code(308), Some(Status::PermanentRedirect));
    assert_eq!(Status::from_code(404), Some(Status::NotFound));
    assert_eq!(Status::from_code(451), Some(Status::UnavailableForLegalReasons));
    assert_eq!(Status::from_code(511), Some(Status::NetworkAuthenticationRequired));
}

#[test]
fn status_from_unknown_code() {
    assert_eq!(Status::from_code(0), None);
    assert_eq!(Status::from_code(99), None);
    assert_eq!(Status::from_code(104), None);
    assert_eq!(Status::from_code(306), None);
    assert_eq!(Status::from_code(418), None);
    assert_eq!(Status::from_code(509), None);
    assert_eq!(Status::from_code(512), None);
    assert_eq!(Status::from_code(999), None);
    assert_eq!(Status::from_code(usize::MAX), None);
}

#[test]
fn status_from_code_text() {
    assert_eq!(Status::from_code_text(b"404"), Some(Status::NotFound));
    assert_eq!(Status::from_code_text(b"200"), Some(Status::OK));
    assert_eq!(Status::from_code_text(b"100"), Some(Status::Continue));
    assert_eq!(Status::from_code_text(b"511"), Some(Status::NetworkAuthenticationRequired));
}

#[test]
fn status_from_code_text_is_exact() {
    assert_eq!(Status::from_code_text(b""), None);
    assert_eq!(Status::from_code_text(b"4"), None);
    assert_eq!(Status::from_code_text(b"40"), None);
    assert_eq!(Status::from_code_text(b"4040"), None);
    assert_eq!(Status::from_code_text(b"0404"), None);
    assert_eq!(Status::from_code_text(b"404 "), None);
    assert_eq!(Status::from_code_text(b" 404"), None);
    assert_eq!(Status::from_code_text(b"999"), None);
    assert_eq!(Status::from_code_text(b"000"), None);
    assert_eq!(Status::from_code_text(b"40x"), None);
    assert_eq!(Status::from_code_text(b"4:4"), None);
    assert_eq!(Status::from_code_text(b"/04"), None);
    assert_eq!(Status::from_code_text(b"+20"), None);
    assert_eq!(Status::from_code_text(b"\xff\xff\xff"), None);
}

#[test]
fn status_from_text() {
    assert_eq!(Status::from_text(b"Not Found"), Some(Status::NotFound));
    assert_eq!(Status::from_text(b"OK"), Some(Status::OK));
    assert_eq!(Status::from_text(b"Continue"), Some(Status::Continue));
    assert_eq!(
        Status::from_text(b"Network Authentication Required"),
        Some(Status::NetworkAuthenticationRequired)
    );
    assert_eq!(Status::from_text(b"not found"), None);
    assert_eq!(Status::from_text(b"Not Found "), None);
    assert_eq!(Status::from_text(b"Not"), None);
    assert_eq!(Status::from_text(b""), None);
    assert_eq!(Status::from_text(b"404 Not Found"), None);
    assert_eq!(Status::from_text(b"404"), None);
}

#[test]
fn status_from_phrase() {
    assert_eq!(Status::from_phrase(b"404 Not Found"), Some(Status::NotFound));
    assert_eq!(Status::from_phrase(b"200 OK"), Some(Status::OK));
    assert_eq!(Status::from_phrase(b"200 Not Found"), None);
    assert_eq!(Status::from_phrase(b"404 not found"), None);
    assert_eq!(Status::from_phrase(b"404"), None);
    assert_eq!(Status::from_phrase(b"404 "), None);
    assert_eq!(Status::from_phrase(b"404Not Found"), None);
    assert_eq!(Status::from_phrase(b"404 Not Found\r\n"), None);
    assert_eq!(Status::from_phrase(b"Not Found"), None);
    assert_eq!(Status::from_phrase(b"999 Not Found"), None);
    assert_eq!(Status::from_phrase(b""), None);
    assert_eq!(Status::from_phrase(b"40"), None);
}

#[test]
fn status_forms_differ() {
    let all = statuses();
    for a in &all {
        for b in &all {
            assert_eq!(a == b, a.get_code() == b.get_code());
            assert_eq!(a == b, a.get_code_text() == b.get_code_text());
            assert_eq!(a == b, a.get_text() == b.get_text());
            assert_eq!(a == b, a.get_phrase() == b.get_phrase());
        }
    }
}

#[test]
fn status_reason_lengths() {
    let longest = statuses().iter().map(|status| status.get_text().len()).max();
    assert_eq!(longest, Some(31));
}
