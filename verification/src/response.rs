//! HTTP response objects.
//!
//! [`IncomingResponse`] is a fully buffered response record whose accessors
//! may be called any number of times. [`Response`] models a response backed
//! by a one-shot transport stream: the whole response is buffered eagerly
//! when it is received, the status code stays readable, and each of the
//! header list and the body can be detached exactly once — a second read of
//! the same part fails with [`ResponseError::Moved`]. Buffering eagerly is
//! what lets `headers` and `bytes` each succeed once in either order.

use vstd::prelude::*;

verus! {

/// HTTP request method.
#[derive(Debug, Clone, Copy, PartialEq, Eq, Structural)]
pub enum Method {
    Get,
    Post,
    Put,
    Head,
    Delete,
}

/// Error returned when reading a response part that was already detached.
#[derive(Debug, Clone, Copy, PartialEq, Eq, Structural)]
pub enum ResponseError {
    Moved,
}

/// A fully buffered HTTP response: status code, header pairs and body bytes,
/// all readable repeatedly.
#[derive(Debug)]
pub struct IncomingResponse {
    status_code: u16,
    headers: Vec<(String, String)>,
    bytes: Vec<u8>,
}

impl IncomingResponse {
    /// The status code of the response.
    pub closed spec fn status_spec(self) -> u16 {
        self.status_code
    }

    /// The header pairs of the response.
    pub closed spec fn headers_spec(self) -> Seq<(String, String)> {
        self.headers@
    }

    /// The body bytes of the response.
    pub closed spec fn bytes_spec(self) -> Seq<u8> {
        self.bytes@
    }

    /// Assemble a buffered response from its parts.
    pub fn new(status_code: u16, headers: Vec<(String, String)>, bytes: Vec<u8>) -> (r: Self)
        ensures
            r.status_spec() == status_code,
            r.headers_spec() == headers@,
            r.bytes_spec() == bytes@,
    {
        IncomingResponse { status_code, headers, bytes }
    }

    /// The status code; non-consuming.
    pub fn status_code(&self) -> (r: u16)
        ensures
            r == self.status_spec(),
    {
        self.status_code
    }

    /// The header pairs; non-consuming.
    pub fn headers(&self) -> (r: &Vec<(String, String)>)
        ensures
            r@ == self.headers_spec(),
    {
        &self.headers
    }

    /// The body bytes; non-consuming.
    pub fn bytes(&self) -> (r: &Vec<u8>)
        ensures
            r@ == self.bytes_spec(),
    {
        &self.bytes
    }
}

/// The view of a list of string pairs, character for character.
pub open spec fn pairs_view(s: Seq<(String, String)>) -> Seq<(Seq<char>, Seq<char>)> {
    Seq::new(s.len(), |i: int| (s[i].0@, s[i].1@))
}

/// Copy a list of string pairs, preserving its view.
#[verifier::loop_isolation(false)]
pub fn clone_string_pairs(v: &Vec<(String, String)>) -> (r: Vec<(String, String)>)
    ensures
        pairs_view(r@) == pairs_view(v@),
{
    let mut out: Vec<(String, String)> = Vec::new();
    let mut i: usize = 0;
    while i < v.len()
        invariant
            i <= v@.len(),
            out@.len() == i,
            forall|j: int|
                0 <= j < i ==> #[trigger] out@[j].0@ == v@[j].0@ && out@[j].1@ == v@[j].1@,
        decreases v@.len() - i,
    {
        let pair = &v[i];
        out.push((pair.0.clone(), pair.1.clone()));
        i = i + 1;
    }
    proof {
        assert(pairs_view(out@) =~= pairs_view(v@));
    }
    out
}

/// Copy a list of bytes.
#[verifier::loop_isolation(false)]
pub fn clone_bytes(v: &Vec<u8>) -> (r: Vec<u8>)
    ensures
        r@ == v@,
{
    let mut out: Vec<u8> = Vec::new();
    let mut i: usize = 0;
    while i < v.len()
        invariant
            i <= v@.len(),
            out@ == v@.subrange(0, i as int),
        decreases v@.len() - i,
    {
        out.push(v[i]);
        proof {
            assert(out@ =~= v@.subrange(0, i + 1 as int));
        }
        i = i + 1;
    }
    proof {
        assert(out@ =~= v@);
    }
    out
}

/// A buffered response whose header list and body can each be detached
/// exactly once.
#[derive(Debug)]
pub struct Response {
    status_code: u16,
    headers: Option<Vec<(String, String)>>,
    body: Option<Vec<u8>>,
}

/// What one `headers` call returns and how it changes the response: the
/// still-attached header list is detached and handed out; once detached,
/// the call fails `Moved` and changes nothing.
pub open spec fn headers_step(
    pre: Response,
    post: Response,
    r: Result<Seq<(String, String)>, ResponseError>,
) -> bool {
    match pre.headers_part() {
        Some(h) => {
            &&& r == Ok::<_, ResponseError>(h)
            &&& post.headers_part() is None
            &&& post.body_part() == pre.body_part()
            &&& post.status_spec() == pre.status_spec()
        },
        None => {
            &&& r == Err::<Seq<(String, String)>, _>(ResponseError::Moved)
            &&& post == pre
        },
    }
}

/// What one `bytes` call returns and how it changes the response, mirroring
/// `headers_step` for the body part.
pub open spec fn bytes_step(
    pre: Response,
    post: Response,
    r: Result<Seq<u8>, ResponseError>,
) -> bool {
    match pre.body_part() {
        Some(b) => {
            &&& r == Ok::<_, ResponseError>(b)
            &&& post.body_part() is None
            &&& post.headers_part() == pre.headers_part()
            &&& post.status_spec() == pre.status_spec()
        },
        None => {
            &&& r == Err::<Seq<u8>, _>(ResponseError::Moved)
            &&& post == pre
        },
    }
}

impl Response {
    /// The status code of the response.
    pub closed spec fn status_spec(self) -> u16 {
        self.status_code
    }

    /// The header pairs, while still attached.
    pub closed spec fn headers_part(self) -> Option<Seq<(String, String)>> {
        match self.headers {
            Some(h) => Some(h@),
            None => None,
        }
    }

    /// The body bytes, while still attached.
    pub closed spec fn body_part(self) -> Option<Seq<u8>> {
        match self.body {
            Some(b) => Some(b@),
            None => None,
        }
    }

    /// Whether neither part has been detached yet.
    pub open spec fn fresh(self) -> bool {
        self.headers_part() is Some && self.body_part() is Some
    }

    /// Buffer a freshly received response.
    pub fn new(status_code: u16, headers: Vec<(String, String)>, body: Vec<u8>) -> (r: Self)
        ensures
            r.fresh(),
            r.status_spec() == status_code,
            r.headers_part() == Some(headers@),
            r.body_part() == Some(body@),
    {
        Response { status_code, headers: Some(headers), body: Some(body) }
    }

    /// The status code; non-consuming, may be called any number of times.
    pub fn status_code(&self) -> (r: u16)
        ensures
            r == self.status_spec(),
    {
        self.status_code
    }

    /// Detach and return the header list. Fails with `Moved` exactly when
    /// the headers were detached before; the body stays readable either way.
    pub fn headers(&mut self) -> (r: Result<Vec<(String, String)>, ResponseError>)
        ensures
            headers_step(
                *old(self),
                *final(self),
                match r {
                    Ok(h) => Ok(h@),
                    Err(e) => Err(e),
                },
            ),
    {
        match self.headers.take() {
            Some(h) => Ok(h),
            None => Err(ResponseError::Moved),
        }
    }

    /// Detach and return the body bytes. Fails with `Moved` exactly when the
    /// body was detached before; the headers stay readable either way.
    pub fn bytes(&mut self) -> (r: Result<Vec<u8>, ResponseError>)
        ensures
            bytes_step(
                *old(self),
                *final(self),
                match r {
                    Ok(b) => Ok(b@),
                    Err(e) => Err(e),
                },
            ),
    {
        match self.body.take() {
            Some(b) => Ok(b),
            None => Err(ResponseError::Moved),
        }
    }
}

/// Law: on a freshly received response, reading `headers` then `bytes`
/// succeeds exactly once each, and a second read of either part afterwards
/// fails with `Moved`.
pub proof fn lemma_headers_then_bytes(
    r0: Response,
    r1: Response,
    r2: Response,
    hr: Result<Seq<(String, String)>, ResponseError>,
    br: Result<Seq<u8>, ResponseError>,
)
    requires
        r0.fresh(),
        headers_step(r0, r1, hr),
        bytes_step(r1, r2, br),
    ensures
        hr == Ok::<_, ResponseError>(r0.headers_part().unwrap()),
        br == Ok::<_, ResponseError>(r0.body_part().unwrap()),
        forall|post: Response, rr: Result<Seq<(String, String)>, ResponseError>|
            #[trigger] headers_step(r2, post, rr) ==> rr == Err::<Seq<(String, String)>, _>(
                ResponseError::Moved,
            ),
        forall|post: Response, rr: Result<Seq<u8>, ResponseError>|
            #[trigger] bytes_step(r2, post, rr) ==> rr == Err::<Seq<u8>, _>(ResponseError::Moved),
{
}

/// Law: on a freshly received response, reading `bytes` then `headers`
/// succeeds exactly once each, and a second read of either part afterwards
/// fails with `Moved`.
pub proof fn lemma_bytes_then_headers(
    r0: Response,
    r1: Response,
    r2: Response,
    br: Result<Seq<u8>, ResponseError>,
    hr: Result<Seq<(String, String)>, ResponseError>,
)
    requires
        r0.fresh(),
        bytes_step(r0, r1, br),
        headers_step(r1, r2, hr),
    ensures
        br == Ok::<_, ResponseError>(r0.body_part().unwrap()),
        hr == Ok::<_, ResponseError>(r0.headers_part().unwrap()),
        forall|post: Response, rr: Result<Seq<(String, String)>, ResponseError>|
            #[trigger] headers_step(r2, post, rr) ==> rr == Err::<Seq<(String, String)>, _>(
                ResponseError::Moved,
            ),
        forall|post: Response, rr: Result<Seq<u8>, ResponseError>|
            #[trigger] bytes_step(r2, post, rr) ==> rr == Err::<Seq<u8>, _>(ResponseError::Moved),
{
}

} // verus!
