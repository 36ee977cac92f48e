//! The cross-origin policy of the API: the one origin that the browser
//! front end is served from, and the methods and headers it may use.

use vstd::prelude::*;
use axum::http::HeaderValue;
use axum::http::header::InvalidHeaderValue;

verus! {

#[verifier::external_type_specification]
#[verifier::external_body]
pub struct ExHeaderValue(HeaderValue);

#[verifier::external_type_specification]
#[verifier::external_body]
pub struct ExInvalidHeaderValue(InvalidHeaderValue);

/// A byte that may stand in an HTTP header value: visible ASCII, a space,
/// a tab, or any byte of 128 and above.
pub open spec fn is_header_value_byte(b: u8) -> bool {
    (b >= 32 && b != 127) || b == 9
}

/// Every byte of the UTF-8 encoding of `s` may stand in a header value.
pub open spec fn is_header_value_text(s: &str) -> bool {
    forall|i: int| 0 <= i < vstd::utf8::encode_utf8(s@).len() ==> is_header_value_byte(#[trigger] vstd::utf8::encode_utf8(s@)[i])
}

/// A parsed header value together with the bytes it holds. Only
/// `parse_header_value` makes one, so the two always belong together.
pub struct HeaderText {
    value: HeaderValue,
    bytes: Ghost<Seq<u8>>,
}

impl HeaderText {
    /// The bytes that the header value holds, as sent on the wire.
    pub closed spec fn bytes(&self) -> Seq<u8> {
        self.bytes@
    }

    /// The header value, for the HTTP layer.
    pub fn value(&self) -> &HeaderValue {
        &self.value
    }
}

/// `HeaderValue::from_str`: succeeds exactly when every byte of `s` may
/// stand in a header value, and then holds the UTF-8 bytes of `s`.
#[verifier::external_body]
fn parse_header_value(s: &str) -> (res: Result<HeaderText, InvalidHeaderValue>)
    ensures
        res is Ok <==> is_header_value_text(s),
        res matches Ok(h) ==> h.bytes() == vstd::utf8::encode_utf8(s@),
{
    match HeaderValue::from_str(s) {
        Ok(value) => Ok(HeaderText { value, bytes: Ghost(vstd::utf8::encode_utf8(s@)) }),
        Err(e) => Err(e),
    }
}

/// A method that cross-origin requests may use.
#[derive(PartialEq, Eq, Structural, Clone, Copy, Debug)]
pub enum AllowedMethod {
    Get,
    Post,
    Patch,
    Delete,
}

/// A header that cross-origin requests may send.
#[derive(PartialEq, Eq, Structural, Clone, Copy, Debug)]
pub enum AllowedHeader {
    ContentType,
}

/// The cross-origin policy: the allowed origin (as text, and as the header
/// value that is sent), the allowed methods and the allowed headers. Only
/// `cors_policy` makes one.
pub struct CorsPolicy {
    origin: String,
    allow_origin: HeaderText,
    allow_methods: Vec<AllowedMethod>,
    allow_headers: Vec<AllowedHeader>,
}

impl CorsPolicy {
    /// The allowed origin, as text.
    pub closed spec fn origin_view(&self) -> Seq<char> {
        self.origin@
    }

    /// The bytes of the `access-control-allow-origin` value that is sent.
    pub closed spec fn allow_origin_bytes(&self) -> Seq<u8> {
        self.allow_origin.bytes()
    }

    /// The allowed methods, in order.
    pub closed spec fn methods_view(&self) -> Seq<AllowedMethod> {
        self.allow_methods@
    }

    /// The allowed request headers, in order.
    pub closed spec fn headers_view(&self) -> Seq<AllowedHeader> {
        self.allow_headers@
    }

    /// The allowed origin, as text.
    pub fn origin(&self) -> (o: &str)
        ensures
            o@ == self.origin_view(),
    {
        self.origin.as_str()
    }

    /// The allowed origin, as the header value that is sent; its bytes are
    /// `allow_origin_bytes()`.
    pub fn allow_origin(&self) -> &HeaderValue {
        self.allow_origin.value()
    }

    /// The allowed methods, in order.
    pub fn allow_methods(&self) -> (m: &Vec<AllowedMethod>)
        ensures
            m@ == self.methods_view(),
    {
        &self.allow_methods
    }

    /// The allowed request headers, in order.
    pub fn allow_headers(&self) -> (h: &Vec<AllowedHeader>)
        ensures
            h@ == self.headers_view(),
    {
        &self.allow_headers
    }
}

impl AllowedMethod {
    /// The name of the method on the wire.
    pub fn as_str(&self) -> (name: &'static str)
        ensures
            name@ == match self {
                AllowedMethod::Get => "GET"@,
                AllowedMethod::Post => "POST"@,
                AllowedMethod::Patch => "PATCH"@,
                AllowedMethod::Delete => "DELETE"@,
            },
    {
        match self {
            AllowedMethod::Get => "GET",
            AllowedMethod::Post => "POST",
            AllowedMethod::Patch => "PATCH",
            AllowedMethod::Delete => "DELETE",
        }
    }
}

impl AllowedHeader {
    /// The name of the header on the wire.
    pub fn as_str(&self) -> (name: &'static str)
        ensures
            name@ == match self {
                AllowedHeader::ContentType => "content-type"@,
            },
    {
        match self {
            AllowedHeader::ContentType => "content-type",
        }
    }
}

/// The policy for the configured origin: that origin alone, the methods
/// GET, POST, PATCH and DELETE, and the header `content-type`. Fails when
/// the origin cannot stand in a header value.
pub fn cors_policy(cors_origin: &str) -> (res: Result<CorsPolicy, InvalidHeaderValue>)
    ensures
        res is Ok <==> is_header_value_text(cors_origin),
        res matches Ok(p) ==> {
            &&& p.origin_view() == cors_origin@
            &&& p.allow_origin_bytes() == vstd::utf8::encode_utf8(cors_origin@)
            &&& p.methods_view() == seq![
                AllowedMethod::Get,
                AllowedMethod::Post,
                AllowedMethod::Patch,
                AllowedMethod::Delete,
            ]
            &&& p.headers_view() == seq![AllowedHeader::ContentType]
        },
{
    let allow_origin = match parse_header_value(cors_origin) {
        Ok(v) => v,
        Err(e) => return Err(e),
    };
    let mut allow_methods: Vec<AllowedMethod> = Vec::new();
    allow_methods.push(AllowedMethod::Get);
    allow_methods.push(AllowedMethod::Post);
    allow_methods.push(AllowedMethod::Patch);
    allow_methods.push(AllowedMethod::Delete);
    let mut allow_headers: Vec<AllowedHeader> = Vec::new();
    allow_headers.push(AllowedHeader::ContentType);
    assert(allow_methods@ =~= seq![
        AllowedMethod::Get,
        AllowedMethod::Post,
        AllowedMethod::Patch,
        AllowedMethod::Delete,
    ]);
    assert(allow_headers@ =~= seq![AllowedHeader::ContentType]);
    Ok(CorsPolicy { allow_origin, origin: cors_origin.to_owned(), allow_methods, allow_headers })
}

} // verus!
