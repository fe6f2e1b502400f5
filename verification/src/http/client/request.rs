//! The request as the client writes it.
use vstd::prelude::*;
use vstd::string::*;
use vstd::utf8::*;
use super::super::method::Method;
use super::super::text::SLASH;
use super::super::wire::{
    is_path, lemma_fixed_parts, lemma_path_text, normalize, read_target, write_request,
    RequestLine,
};
use super::super::Error;

verus! {

/// A request: a method and a target. The target always begins with a slash.
#[derive(Debug)]
pub struct Request {
    method: Method,
    target: String,
}

impl View for Request {
    type V = RequestLine;

    closed spec fn view(&self) -> RequestLine {
        RequestLine { method: self.method, target: self.target@ }
    }
}

impl Request {
    #[verifier::type_invariant]
    spec fn well_formed(self) -> bool {
        is_path(encode_utf8(self.target@))
    }

    /// Whether `path` can be set as a target: it begins with a slash, and
    /// what is kept of it is UTF-8.
    pub open spec fn accepts(path: Seq<u8>) -> bool {
        is_path(path) && valid_utf8(normalize(path))
    }

    /// A request for `/` with the method GET.
    pub fn new() -> (r: Self)
        ensures
            r@ == (RequestLine { method: Method::GET, target: "/"@ }),
    {
        proof {
            lemma_fixed_parts();
        }
        Self { method: Method::GET, target: String::from_str("/") }
    }

    /// Gives the request another method.
    pub fn set_method(&mut self, method: Method)
        ensures
            final(self)@ == (RequestLine { method: method, ..old(self)@ }),
    {
        proof {
            use_type_invariant(&*self);
        }
        self.method = method;
    }

    /// The request's method.
    pub fn get_method(&self) -> (r: &Method)
        ensures
            *r == self@.method,
    {
        &self.method
    }

    /// Gives the request another target: `path` without the slash that
    /// ends it, unless `path` is the slash alone. A path that is empty,
    /// does not begin with a slash or is not UTF-8 is refused, and the
    /// request stays as it was.
    pub fn set_target(&mut self, path: &[u8]) -> (r: Result<(), Error>)
        ensures
            r is Ok <==> Self::accepts(path@),
            r is Err ==> r == Err::<(), Error>(Error::InvalidPath) && final(self)@ == old(self)@,
            r is Ok ==> final(self)@ == (RequestLine {
                target: decode_utf8(normalize(path@)),
                ..old(self)@
            }),
    {
        proof {
            use_type_invariant(&*self);
        }
        if path.len() == 0 {
            return Err(Error::InvalidPath);
        }
        if path[0] != SLASH {
            return Err(Error::InvalidPath);
        }
        match read_target(path) {
            Ok(target) => {
                self.target = target;
                Ok(())
            },
            Err(_) => Err(Error::InvalidPath),
        }
    }

    /// The request's target.
    pub fn get_target(&self) -> (r: &str)
        ensures
            r@ == self@.target,
            self@.wf(),
            r@.len() > 0 && r@[0] == '/',
    {
        proof {
            use_type_invariant(self);
            lemma_path_text(self.target@);
        }
        self.target.as_str()
    }

    /// The request as it is written on the wire.
    pub fn to_string(&self) -> (r: String)
        ensures
            encode_utf8(r@) == self@.wire(),
    {
        write_request(&self.method, self.target.as_str())
    }
}

} // verus!
