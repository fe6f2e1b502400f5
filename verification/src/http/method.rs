//! The request methods.
use vstd::prelude::*;
use vstd::string::*;
use vstd::utf8::*;
use super::text::{bytes_equal, lemma_ascii_bytes, SPACE};

verus! {

/// A request method. The set is closed: a text outside it names no method.
#[derive(Debug, Clone, Copy, PartialEq, Eq, Structural)]
pub enum Method {
    GET,
    HEAD,
    POST,
    PUT,
    DELETE,
    CONNECT,
    OPTIONS,
    TRACE,
    PATCH,
    COPY,
    MOVE,
}

impl Method {
    /// The method's name, in upper case.
    pub open spec fn name(self) -> Seq<char> {
        match self {
            Method::GET => "GET"@,
            Method::HEAD => "HEAD"@,
            Method::POST => "POST"@,
            Method::PUT => "PUT"@,
            Method::DELETE => "DELETE"@,
            Method::CONNECT => "CONNECT"@,
            Method::OPTIONS => "OPTIONS"@,
            Method::TRACE => "TRACE"@,
            Method::PATCH => "PATCH"@,
            Method::COPY => "COPY"@,
            Method::MOVE => "MOVE"@,
        }
    }

    /// The bytes that name the method on the wire.
    pub open spec fn text(self) -> Seq<u8> {
        encode_utf8(self.name())
    }

    /// The method that `text` names, if any: the match is exact and case-sensitive.
    pub open spec fn spec_from_text(text: Seq<u8>) -> Option<Method> {
        if exists|method: Method| #[trigger] method.text() == text {
            Some(choose|method: Method| #[trigger] method.text() == text)
        } else {
            None
        }
    }

    /// A method's text is at least three bytes long, none of them a space.
    pub proof fn lemma_text_shape(self)
        ensures
            self.text().len() >= 3,
            forall|i: int| 0 <= i < self.text().len() ==> self.text()[i] != SPACE,
    {
        reveal_strlit("GET");
        reveal_strlit("HEAD");
        reveal_strlit("POST");
        reveal_strlit("PUT");
        reveal_strlit("DELETE");
        reveal_strlit("CONNECT");
        reveal_strlit("OPTIONS");
        reveal_strlit("TRACE");
        reveal_strlit("PATCH");
        reveal_strlit("COPY");
        reveal_strlit("MOVE");
        lemma_ascii_bytes(self.name());
    }

    /// No two methods share a name.
    pub proof fn lemma_name_injective(a: Method, b: Method)
        requires
            a.name() == b.name(),
        ensures
            a == b,
    {
        reveal_strlit("GET");
        reveal_strlit("HEAD");
        reveal_strlit("POST");
        reveal_strlit("PUT");
        reveal_strlit("DELETE");
        reveal_strlit("CONNECT");
        reveal_strlit("OPTIONS");
        reveal_strlit("TRACE");
        reveal_strlit("PATCH");
        reveal_strlit("COPY");
        reveal_strlit("MOVE");
        let key = |m: Method| (m.name().len(), m.name()[0]);
        assert(key(a) == key(b));
        assert(key(Method::GET) == (3nat, 'G'));
        assert(key(Method::HEAD) == (4nat, 'H'));
        assert(key(Method::POST) == (4nat, 'P'));
        assert(key(Method::PUT) == (3nat, 'P'));
        assert(key(Method::DELETE) == (6nat, 'D'));
        assert(key(Method::CONNECT) == (7nat, 'C'));
        assert(key(Method::OPTIONS) == (7nat, 'O'));
        assert(key(Method::TRACE) == (5nat, 'T'));
        assert(key(Method::PATCH) == (5nat, 'P'));
        assert(key(Method::COPY) == (4nat, 'C'));
        assert(key(Method::MOVE) == (4nat, 'M'));
    }

    /// No two methods share a text.
    pub proof fn lemma_text_injective(a: Method, b: Method)
        requires
            a.text() == b.text(),
        ensures
            a == b,
    {
        encode_utf8_decode_utf8(a.name());
        encode_utf8_decode_utf8(b.name());
        Self::lemma_name_injective(a, b);
    }

    /// A method's text names that method and no other: reading what was
    /// written gives the method back.
    pub proof fn lemma_text_round_trip(method: Method)
        ensures
            Method::spec_from_text(method.text()) == Some(method),
    {
        let found = choose|other: Method| #[trigger] other.text() == method.text();
        Self::lemma_text_injective(found, method);
    }

    /// The method's name as text.
    pub fn as_str(&self) -> (r: &'static str)
        ensures
            r@ == self.name(),
    {
        match self {
            Method::GET => "GET",
            Method::HEAD => "HEAD",
            Method::POST => "POST",
            Method::PUT => "PUT",
            Method::DELETE => "DELETE",
            Method::CONNECT => "CONNECT",
            Method::OPTIONS => "OPTIONS",
            Method::TRACE => "TRACE",
            Method::PATCH => "PATCH",
            Method::COPY => "COPY",
            Method::MOVE => "MOVE",
        }
    }

    /// The bytes that name the method on the wire.
    pub fn get_text(&self) -> (r: &'static [u8])
        ensures
            r@ == self.text(),
    {
        self.as_str().as_bytes()
    }

    /// The method that `text` names. The match is exact: no other case, no
    /// prefix, nothing around it.
    pub fn from_text(text: &[u8]) -> (r: Option<Method>)
        ensures
            r == Method::spec_from_text(text@),
            forall|method: Method| r == Some(method) <==> #[trigger] method.text() == text@,
    {
        let r = if bytes_equal(text, Method::GET.get_text()) {
            Some(Method::GET)
        } else if bytes_equal(text, Method::HEAD.get_text()) {
            Some(Method::HEAD)
        } else if bytes_equal(text, Method::POST.get_text()) {
            Some(Method::POST)
        } else if bytes_equal(text, Method::PUT.get_text()) {
            Some(Method::PUT)
        } else if bytes_equal(text, Method::DELETE.get_text()) {
            Some(Method::DELETE)
        } else if bytes_equal(text, Method::CONNECT.get_text()) {
            Some(Method::CONNECT)
        } else if bytes_equal(text, Method::OPTIONS.get_text()) {
            Some(Method::OPTIONS)
        } else if bytes_equal(text, Method::TRACE.get_text()) {
            Some(Method::TRACE)
        } else if bytes_equal(text, Method::PATCH.get_text()) {
            Some(Method::PATCH)
        } else if bytes_equal(text, Method::COPY.get_text()) {
            Some(Method::COPY)
        } else if bytes_equal(text, Method::MOVE.get_text()) {
            Some(Method::MOVE)
        } else {
            None
        };
        proof {
            match r {
                Some(found) => {
                    assert forall|method: Method| #[trigger] method.text() == text@ implies method
                        == found by {
                        Self::lemma_text_injective(method, found);
                    }
                    Self::lemma_text_round_trip(found);
                },
                None => {
                    assert forall|method: Method| #[trigger] method.text() != text@ by {
                        match method {
                            Method::GET => {},
                            Method::HEAD => {},
                            Method::POST => {},
                            Method::PUT => {},
                            Method::DELETE => {},
                            Method::CONNECT => {},
                            Method::OPTIONS => {},
                            Method::TRACE => {},
                            Method::PATCH => {},
                            Method::COPY => {},
                            Method::MOVE => {},
                        }
                    }
                },
            }
        }
        r
    }
}

} // verus!
