//! HTTP header normalization and validation.
//!
//! Before a request leaves the host, every header name is lowercased and the
//! pair is checked against the transport's rules: a name must be 1 to 65535
//! bytes of the lowercase header-name alphabet, and a value may hold any
//! byte except an ASCII control other than horizontal tab. A request with a
//! header that fails either check is rejected with `InvalidHeader` before
//! anything is sent.

use vstd::prelude::*;

use crate::response::pairs_view;
use vstd::string::StringSliceAdditionalSpecFns;

verus! {

/// Error produced by the HTTP capability: a header that cannot be encoded
/// as a transport header, or a transport-level failure of the request
/// itself.
#[derive(Debug, Clone, Copy, PartialEq, Eq, Structural)]
pub enum HttpError {
    InvalidHeader,
    RequestFailed,
}

/// The longest accepted header name, in bytes.
pub const MAX_HEADER_NAME_LEN: usize = 65535;

/// Whether a byte may appear in an already-lowercased header name: the
/// lowercase header-name alphabet of HTTP/2, i.e. `! " # $ % & ' * + - .`,
/// digits, `^ _ ` |  ~` and `a` to `z`.
pub open spec fn valid_name_byte(b: u8) -> bool {
    ||| (33 <= b && b <= 39)  // ! " # $ % & '
    ||| b == 42 || b == 43 || b == 45 || b == 46  // * + - .
    ||| (48 <= b && b <= 57)  // 0-9
    ||| (94 <= b && b <= 122)  // ^ _ ` a-z
    ||| b == 124 || b == 126  // | ~
}

/// Whether a byte may appear in a header value: anything but an ASCII
/// control character, except that horizontal tab is allowed.
pub open spec fn valid_value_byte(b: u8) -> bool {
    (b >= 32 && b != 127) || b == 9
}

/// Whether a byte string is a well-formed lowercased header name.
pub open spec fn valid_header_name(bytes: Seq<u8>) -> bool {
    &&& 1 <= bytes.len() <= MAX_HEADER_NAME_LEN
    &&& forall|i: int| 0 <= i < bytes.len() ==> valid_name_byte(#[trigger] bytes[i])
}

/// Whether a byte string is a well-formed header value.
pub open spec fn valid_header_value(bytes: Seq<u8>) -> bool {
    forall|i: int| 0 <= i < bytes.len() ==> valid_value_byte(#[trigger] bytes[i])
}

/// What `str::to_lowercase` returns, as a function of the characters alone.
pub uninterp spec fn lower_of(s: Seq<char>) -> Seq<char>;

/// Relies on `str::to_lowercase` of std: the result depends on the input
/// characters alone.
#[verifier::external_body]
fn lowercase(s: &str) -> (r: String)
    ensures
        r@ == lower_of(s@),
{
    s.to_lowercase()
}

/// Whether one name/value pair, with the name already lowercased, can be
/// encoded as a transport header.
pub open spec fn pair_encodable(name: Seq<char>, value: Seq<char>) -> bool {
    &&& valid_header_name(vstd::utf8::encode_utf8(name))
    &&& valid_header_value(vstd::utf8::encode_utf8(value))
}

/// Whether every header pair of a request is acceptable once its name is
/// lowercased.
pub open spec fn headers_acceptable(headers: Seq<(String, String)>) -> bool {
    forall|i: int|
        0 <= i < headers.len() ==> pair_encodable(
            lower_of(#[trigger] headers[i].0@),
            headers[i].1@,
        )
}

/// The header list as it is handed to the transport: each name lowercased,
/// each value kept.
pub open spec fn normalized_headers(headers: Seq<(String, String)>) -> Seq<
    (Seq<char>, Seq<char>),
> {
    Seq::new(headers.len(), |i: int| (lower_of(headers[i].0@), headers[i].1@))
}

/// Check an already-lowercased header name against the transport's rules.
#[verifier::loop_isolation(false)]
pub fn header_name_valid(name: &str) -> (r: bool)
    ensures
        r == valid_header_name(name.spec_bytes()),
{
    let bytes = name.as_bytes();
    if bytes.len() == 0 || bytes.len() > MAX_HEADER_NAME_LEN {
        return false;
    }
    let mut i: usize = 0;
    while i < bytes.len()
        invariant
            i <= bytes@.len(),
            forall|j: int| 0 <= j < i ==> valid_name_byte(#[trigger] bytes@[j]),
        decreases bytes@.len() - i,
    {
        let b = bytes[i];
        let ok = (33 <= b && b <= 39) || b == 42 || b == 43 || b == 45 || b == 46 || (48 <= b && b
            <= 57) || (94 <= b && b <= 122) || b == 124 || b == 126;
        if !ok {
            return false;
        }
        i = i + 1;
    }
    true
}

/// Check a header value against the transport's rules.
#[verifier::loop_isolation(false)]
pub fn header_value_valid(value: &str) -> (r: bool)
    ensures
        r == valid_header_value(value.spec_bytes()),
{
    let bytes = value.as_bytes();
    let mut i: usize = 0;
    while i < bytes.len()
        invariant
            i <= bytes@.len(),
            forall|j: int| 0 <= j < i ==> valid_value_byte(#[trigger] bytes@[j]),
        decreases bytes@.len() - i,
    {
        let b = bytes[i];
        if !((b >= 32 && b != 127) || b == 9) {
            return false;
        }
        i = i + 1;
    }
    true
}

/// Normalize and validate a request's header list: lowercase each name, keep
/// each value, and reject the whole list with `InvalidHeader` exactly when
/// some pair cannot be encoded as a transport header.
#[verifier::loop_isolation(false)]
pub fn prepare_headers(headers: &Vec<(String, String)>) -> (r: Result<
    Vec<(String, String)>,
    HttpError,
>)
    ensures
        r is Ok <==> headers_acceptable(headers@),
        match r {
            Ok(out) => pairs_view(out@) == normalized_headers(headers@),
            Err(e) => e == HttpError::InvalidHeader,
        },
{
    let mut out: Vec<(String, String)> = Vec::new();
    let mut i: usize = 0;
    while i < headers.len()
        invariant
            i <= headers@.len(),
            out@.len() == i,
            forall|j: int|
                0 <= j < i ==> pair_encodable(lower_of(#[trigger] headers@[j].0@), headers@[j].1@),
            forall|j: int|
                0 <= j < i ==> #[trigger] out@[j].0@ == lower_of(headers@[j].0@) && out@[j].1@
                    == headers@[j].1@,
        decreases headers@.len() - i,
    {
        let pair = &headers[i];
        let name = lowercase(&pair.0);
        if !header_name_valid(&name) {
            return Err(HttpError::InvalidHeader);
        }
        if !header_value_valid(&pair.1) {
            return Err(HttpError::InvalidHeader);
        }
        out.push((name, pair.1.clone()));
        i = i + 1;
    }
    proof {
        assert(pairs_view(out@) =~= normalized_headers(headers@));
    }
    Ok(out)
}

} // verus!
