//! A minimal HTTP/1.x codec: a request is parsed from one buffered chunk, and
//! a response is rendered as one buffer.
//!
//! A request is a request line `METHOD SP URI SP VERSION CRLF`, at most
//! [`MAX_HEADERS`] header lines `NAME ":" VALUE CRLF`, an empty line, and the
//! body, which is the rest of the chunk. A header value loses its leading and
//! trailing spaces and tabs.
use vstd::prelude::*;
use crate::text::{decimal, push_decimal};

verus! {

/// The largest number of header lines a request may carry.
pub const MAX_HEADERS: usize = 16;

#[derive(Debug, Clone, Copy, PartialEq, Eq, Structural)]
pub enum HttpVersion {
    Http09,
    Http10,
    Http11,
    Http2,
    Http3,
}

#[derive(Debug, Clone, Copy, PartialEq, Eq, Structural)]
pub enum ParseError {
    /// The chunk ends before the empty line that closes the headers.
    Partial,
    /// The request line lacks a method, a URI or a version.
    BadRequestLine,
    /// The version is none of HTTP/0.9, 1.0, 1.1, 2.0 and 3.0.
    UnknownVersion,
    /// A header line has no name before its colon, or no colon.
    BadHeader,
    /// More than `MAX_HEADERS` header lines.
    TooManyHeaders,
}

#[derive(Debug, Clone)]
pub struct Header {
    pub name: Vec<u8>,
    pub value: Vec<u8>,
}

#[derive(Debug, Clone)]
pub struct Request {
    pub method: Vec<u8>,
    pub uri: Vec<u8>,
    pub version: HttpVersion,
    pub headers: Vec<Header>,
    pub body: Vec<u8>,
}

/// What a request holds, as sequences of bytes.
pub struct RequestModel {
    pub method: Seq<u8>,
    pub uri: Seq<u8>,
    pub version: HttpVersion,
    pub headers: Seq<(Seq<u8>, Seq<u8>)>,
    pub body: Seq<u8>,
}

pub open spec fn header_model(h: Header) -> (Seq<u8>, Seq<u8>) {
    (h.name@, h.value@)
}

pub open spec fn headers_model(hs: Seq<Header>) -> Seq<(Seq<u8>, Seq<u8>)> {
    hs.map_values(|h: Header| header_model(h))
}

impl Request {
    pub open spec fn model(&self) -> RequestModel {
        RequestModel {
            method: self.method@,
            uri: self.uri@,
            version: self.version,
            headers: headers_model(self.headers@),
            body: self.body@,
        }
    }
}

pub open spec fn crlf_at(s: Seq<u8>, i: int) -> bool {
    0 <= i && i + 1 < s.len() && s[i] == 13 && s[i + 1] == 10
}

/// The first position at or after `from` where CR LF starts.
pub open spec fn line_end(s: Seq<u8>, from: nat) -> Option<nat>
    decreases s.len() - from,
{
    if from + 1 >= s.len() {
        None
    } else if crlf_at(s, from as int) {
        Some(from)
    } else {
        line_end(s, from + 1)
    }
}

/// The first position in `[from, to)` that holds `b`.
pub open spec fn first_of(s: Seq<u8>, from: nat, to: nat, b: u8) -> Option<nat>
    decreases to - from,
{
    if from >= to {
        None
    } else if s[from as int] == b {
        Some(from)
    } else {
        first_of(s, from + 1, to, b)
    }
}

pub open spec fn is_ows(b: u8) -> bool {
    b == 32 || b == 9
}

/// The first position in `[from, to)` that is not a space or a tab, or `to`.
pub open spec fn skip_ows(s: Seq<u8>, from: nat, to: nat) -> nat
    decreases to - from,
{
    if from >= to {
        to
    } else if is_ows(s[from as int]) {
        skip_ows(s, from + 1, to)
    } else {
        from
    }
}

/// The end of `[from, to)` once its trailing spaces and tabs are dropped.
pub open spec fn rskip_ows(s: Seq<u8>, from: nat, to: nat) -> nat
    decreases to - from,
{
    if from >= to {
        from
    } else if is_ows(s[to - 1]) {
        rskip_ows(s, from, (to - 1) as nat)
    } else {
        to
    }
}

pub open spec fn http_prefix() -> Seq<u8> {
    seq![72u8, 84u8, 84u8, 80u8, 47u8]
}

/// The major and minor version digits of a version.
pub open spec fn version_digits(v: HttpVersion) -> (u8, u8) {
    match v {
        HttpVersion::Http09 => (0, 9),
        HttpVersion::Http10 => (1, 0),
        HttpVersion::Http11 => (1, 1),
        HttpVersion::Http2 => (2, 0),
        HttpVersion::Http3 => (3, 0),
    }
}

/// The version as it is written on the wire, such as `HTTP/1.1`.
pub open spec fn version_text(v: HttpVersion) -> Seq<u8> {
    http_prefix() + seq![
        (48 + version_digits(v).0) as u8,
        46u8,
        (48 + version_digits(v).1) as u8,
    ]
}

/// The version named by the major and minor digit bytes `a` and `b`.
pub open spec fn version_of_digits(a: u8, b: u8) -> Option<HttpVersion> {
    if a == 48 && b == 57 {
        Some(HttpVersion::Http09)
    } else if a == 49 && b == 48 {
        Some(HttpVersion::Http10)
    } else if a == 49 && b == 49 {
        Some(HttpVersion::Http11)
    } else if a == 50 && b == 48 {
        Some(HttpVersion::Http2)
    } else if a == 51 && b == 48 {
        Some(HttpVersion::Http3)
    } else {
        None
    }
}

/// The version that the token `t` names: `HTTP/` and a digit, a dot, a digit.
pub open spec fn version_of_text(t: Seq<u8>) -> Option<HttpVersion> {
    if t.len() == 8 && t.subrange(0, 5) == http_prefix() && t[6] == 46 {
        version_of_digits(t[5], t[7])
    } else {
        None
    }
}

/// Method, URI and version of the request line `s[0..e]`.
pub open spec fn request_line_spec(s: Seq<u8>, e: nat) -> Result<
    (Seq<u8>, Seq<u8>, HttpVersion),
    ParseError,
> {
    match first_of(s, 0, e, 32) {
        None => Err(ParseError::BadRequestLine),
        Some(sp1) => match first_of(s, sp1 + 1, e, 32) {
            None => Err(ParseError::BadRequestLine),
            Some(sp2) => if sp1 == 0 || sp2 == sp1 + 1 {
                Err(ParseError::BadRequestLine)
            } else {
                match version_of_text(s.subrange(sp2 as int + 1, e as int)) {
                    None => Err(ParseError::UnknownVersion),
                    Some(v) => Ok(
                        (s.subrange(0, sp1 as int), s.subrange(sp1 as int + 1, sp2 as int), v),
                    ),
                }
            },
        },
    }
}

/// Name and value of the header line `s[p..e]`.
pub open spec fn header_line_spec(s: Seq<u8>, p: nat, e: nat) -> Option<(Seq<u8>, Seq<u8>)> {
    match first_of(s, p, e, 58) {
        None => None,
        Some(c) => if c == p {
            None
        } else {
            let a = skip_ows(s, c + 1, e);
            let b = rskip_ows(s, a, e);
            Some((s.subrange(p as int, c as int), s.subrange(a as int, b as int)))
        },
    }
}

/// The header lines from position `p` on, after the headers `hs` already read:
/// all the headers and the position where the body starts.
pub open spec fn headers_spec(s: Seq<u8>, p: nat, hs: Seq<(Seq<u8>, Seq<u8>)>) -> Result<
    (Seq<(Seq<u8>, Seq<u8>)>, nat),
    ParseError,
>
    decreases s.len() - p,
{
    match line_end(s, p) {
        None => Err(ParseError::Partial),
        Some(e) => if e < p || e + 2 > s.len() {
            Err(ParseError::Partial)
        } else if e == p {
            Ok((hs, e + 2))
        } else if hs.len() >= MAX_HEADERS {
            Err(ParseError::TooManyHeaders)
        } else {
            match header_line_spec(s, p, e) {
                None => Err(ParseError::BadHeader),
                Some(h) => headers_spec(s, e + 2, hs.push(h)),
            }
        },
    }
}

/// The request that a buffered chunk holds, or why it holds none.
pub open spec fn parse_spec(s: Seq<u8>) -> Result<RequestModel, ParseError> {
    match line_end(s, 0) {
        None => Err(ParseError::Partial),
        Some(e0) => match request_line_spec(s, e0) {
            Err(x) => Err(x),
            Ok((m, u, v)) => match headers_spec(s, e0 + 2, seq![]) {
                Err(x) => Err(x),
                Ok((hs, b)) => Ok(
                    RequestModel {
                        method: m,
                        uri: u,
                        version: v,
                        headers: hs,
                        body: s.subrange(b as int, s.len() as int),
                    },
                ),
            },
        },
    }
}

fn find_crlf(buf: &[u8], from: usize) -> (r: Option<usize>)
    requires
        from <= buf@.len(),
    ensures
        match r {
            Some(e) => line_end(buf@, from as nat) == Some(e as nat) && from <= e && e + 2
                <= buf@.len(),
            None => line_end(buf@, from as nat) is None,
        },
{
    let mut i = from;
    while buf.len() - i > 1
        invariant
            from <= i <= buf@.len(),
            line_end(buf@, from as nat) == line_end(buf@, i as nat),
        decreases buf@.len() - i,
    {
        if buf[i] == 13 && buf[i + 1] == 10 {
            return Some(i);
        }
        i = i + 1;
    }
    None
}

fn find_byte(buf: &[u8], from: usize, to: usize, b: u8) -> (r: Option<usize>)
    requires
        to <= buf@.len(),
    ensures
        match r {
            Some(k) => first_of(buf@, from as nat, to as nat, b) == Some(k as nat) && from <= k
                < to,
            None => first_of(buf@, from as nat, to as nat, b) is None,
        },
{
    let mut i = from;
    while i < to
        invariant
            from <= i,
            to <= buf@.len(),
            i <= to || i == from,
            first_of(buf@, from as nat, to as nat, b) == first_of(buf@, i as nat, to as nat, b),
        decreases to - i,
    {
        if buf[i] == b {
            return Some(i);
        }
        i = i + 1;
    }
    None
}

fn skip_leading_ows(buf: &[u8], from: usize, to: usize) -> (r: usize)
    requires
        from <= to <= buf@.len(),
    ensures
        r == skip_ows(buf@, from as nat, to as nat),
        from <= r <= to,
{
    let mut i = from;
    while i < to && (buf[i] == 32 || buf[i] == 9)
        invariant
            from <= i <= to <= buf@.len(),
            skip_ows(buf@, from as nat, to as nat) == skip_ows(buf@, i as nat, to as nat),
        decreases to - i,
    {
        i = i + 1;
    }
    i
}

fn skip_trailing_ows(buf: &[u8], from: usize, to: usize) -> (r: usize)
    requires
        from <= to <= buf@.len(),
    ensures
        r == rskip_ows(buf@, from as nat, to as nat),
        from <= r <= to,
{
    let mut j = to;
    while j > from && (buf[j - 1] == 32 || buf[j - 1] == 9)
        invariant
            from <= j <= to <= buf@.len(),
            rskip_ows(buf@, from as nat, to as nat) == rskip_ows(buf@, from as nat, j as nat),
        decreases j - from,
    {
        j = j - 1;
    }
    j
}

fn copy_range(buf: &[u8], from: usize, to: usize) -> (r: Vec<u8>)
    requires
        from <= to <= buf@.len(),
    ensures
        r@ == buf@.subrange(from as int, to as int),
{
    let mut out: Vec<u8> = Vec::new();
    let mut i = from;
    while i < to
        invariant
            from <= i <= to <= buf@.len(),
            out@ == buf@.subrange(from as int, i as int),
        decreases to - i,
    {
        out.push(buf[i]);
        assert(out@ =~= buf@.subrange(from as int, i + 1));
        i = i + 1;
    }
    out
}

fn parse_version(buf: &[u8], from: usize, to: usize) -> (r: Option<HttpVersion>)
    requires
        from <= to <= buf@.len(),
    ensures
        r == version_of_text(buf@.subrange(from as int, to as int)),
{
    let ghost t = buf@.subrange(from as int, to as int);
    if to - from != 8 {
        return None;
    }
    let prefix_ok = buf[from] == 72 && buf[from + 1] == 84 && buf[from + 2] == 84
        && buf[from + 3] == 80 && buf[from + 4] == 47;
    proof {
        assert(prefix_ok <==> t.subrange(0, 5) =~= http_prefix());
    }
    if !prefix_ok || buf[from + 6] != 46 {
        return None;
    }
    let a = buf[from + 5];
    let b = buf[from + 7];
    if a == 48 && b == 57 {
        Some(HttpVersion::Http09)
    } else if a == 49 && b == 48 {
        Some(HttpVersion::Http10)
    } else if a == 49 && b == 49 {
        Some(HttpVersion::Http11)
    } else if a == 50 && b == 48 {
        Some(HttpVersion::Http2)
    } else if a == 51 && b == 48 {
        Some(HttpVersion::Http3)
    } else {
        None
    }
}

fn parse_request_line(buf: &[u8], e: usize) -> (r: Result<
    (Vec<u8>, Vec<u8>, HttpVersion),
    ParseError,
>)
    requires
        e <= buf@.len(),
    ensures
        match (r, request_line_spec(buf@, e as nat)) {
            (Ok((m, u, v)), Ok((sm, su, sv))) => m@ == sm && u@ == su && v == sv,
            (Err(x), Err(y)) => x == y,
            _ => false,
        },
{
    let sp1 = match find_byte(buf, 0, e, 32) {
        None => return Err(ParseError::BadRequestLine),
        Some(k) => k,
    };
    let sp2 = match find_byte(buf, sp1 + 1, e, 32) {
        None => return Err(ParseError::BadRequestLine),
        Some(k) => k,
    };
    if sp1 == 0 || sp2 == sp1 + 1 {
        return Err(ParseError::BadRequestLine);
    }
    match parse_version(buf, sp2 + 1, e) {
        None => Err(ParseError::UnknownVersion),
        Some(v) => Ok((copy_range(buf, 0, sp1), copy_range(buf, sp1 + 1, sp2), v)),
    }
}

fn parse_header_line(buf: &[u8], p: usize, e: usize) -> (r: Option<Header>)
    requires
        p <= e <= buf@.len(),
    ensures
        match (r, header_line_spec(buf@, p as nat, e as nat)) {
            (Some(h), Some(sh)) => header_model(h) == sh,
            (None, None) => true,
            _ => false,
        },
{
    let c = match find_byte(buf, p, e, 58) {
        None => return None,
        Some(k) => k,
    };
    if c == p {
        return None;
    }
    let a = skip_leading_ows(buf, c + 1, e);
    let b = skip_trailing_ows(buf, a, e);
    Some(Header { name: copy_range(buf, p, c), value: copy_range(buf, a, b) })
}

/// Parses one buffered chunk as an HTTP request; the body is whatever follows
/// the empty line that ends the headers.
pub fn parse_request(buf: &[u8]) -> (r: Result<Request, ParseError>)
    ensures
        match (r, parse_spec(buf@)) {
            (Ok(req), Ok(m)) => req.model() == m,
            (Err(x), Err(y)) => x == y,
            _ => false,
        },
{
    let n = buf.len();
    let e0 = match find_crlf(buf, 0) {
        None => return Err(ParseError::Partial),
        Some(e) => e,
    };
    let (method, uri, version) = match parse_request_line(buf, e0) {
        Err(x) => return Err(x),
        Ok(t) => t,
    };
    let mut headers: Vec<Header> = Vec::new();
    let mut p = e0 + 2;
    let ghost target = headers_spec(buf@, (e0 + 2) as nat, seq![]);
    assert(headers_model(headers@) =~= seq![]);
    loop
        invariant
            p <= buf@.len(),
            n == buf@.len(),
            headers@.len() <= MAX_HEADERS,
            headers_spec(buf@, p as nat, headers_model(headers@)) == target,
            target == headers_spec(buf@, (e0 + 2) as nat, seq![]),
            request_line_spec(buf@, e0 as nat) matches Ok((sm, su, sv)) && method@ == sm
                && uri@ == su && version == sv,
            line_end(buf@, 0) == Some(e0 as nat),
        decreases buf@.len() - p,
    {
        let e = match find_crlf(buf, p) {
            None => return Err(ParseError::Partial),
            Some(e) => e,
        };
        if e == p {
            let body = copy_range(buf, e + 2, n);
            let req = Request { method, uri, version, headers, body };
            assert(req.model() == parse_spec(buf@).get_Ok_0());
            return Ok(req);
        }
        if headers.len() >= MAX_HEADERS {
            return Err(ParseError::TooManyHeaders);
        }
        match parse_header_line(buf, p, e) {
            None => return Err(ParseError::BadHeader),
            Some(h) => {
                let ghost before = headers@;
                headers.push(h);
                assert(headers_model(headers@) =~= headers_model(before).push(header_model(h)));
                p = e + 2;
            },
        }
    }
}

/// What `http` gives as the canonical reason phrase of a status code, as bytes.
pub uninterp spec fn canonical_reason_of(code: u16) -> Option<Seq<u8>>;

/// Relies on `http::StatusCode::from_u16`, which refuses a code outside
/// 100..=999, and on `StatusCode::canonical_reason`, which looks the code up in
/// the crate's table of registered codes ("OK" for 200).
#[verifier::external_body]
fn canonical_reason(code: u16) -> (r: Option<Vec<u8>>)
    ensures
        match r {
            Some(v) => canonical_reason_of(code) == Some(v@),
            None => canonical_reason_of(code) is None,
        },
        (code < 100 || code > 999) ==> r is None,
        code == 200 ==> r is Some && r->0@ == seq![79u8, 75u8],
{
    ::http::StatusCode::from_u16(code).ok().and_then(|c| c.canonical_reason()).map(
        |t| t.as_bytes().to_vec(),
    )
}

pub open spec fn crlf() -> Seq<u8> {
    seq![13u8, 10u8]
}

/// The reason phrase written after a status code: the canonical one, or
/// nothing for a code that has none.
pub open spec fn reason_bytes(code: u16) -> Seq<u8> {
    match canonical_reason_of(code) {
        Some(r) => r,
        None => seq![],
    }
}

/// Each header as `NAME ": " VALUE CRLF`, in order.
pub open spec fn header_lines(hs: Seq<(Seq<u8>, Seq<u8>)>) -> Seq<u8>
    decreases hs.len(),
{
    if hs.len() == 0 {
        seq![]
    } else {
        header_lines(hs.drop_last()) + hs.last().0 + seq![58u8, 32u8] + hs.last().1 + crlf()
    }
}

/// The status line, the header lines, an empty line, then the body verbatim.
pub open spec fn response_spec(
    v: HttpVersion,
    code: u16,
    hs: Seq<(Seq<u8>, Seq<u8>)>,
    body: Seq<u8>,
) -> Seq<u8> {
    version_text(v) + seq![32u8] + decimal(code as nat) + seq![32u8] + reason_bytes(code) + crlf()
        + header_lines(hs) + crlf() + body
}

fn append_bytes(out: &mut Vec<u8>, bytes: &[u8])
    ensures
        final(out)@ == old(out)@ + bytes@,
{
    let mut i: usize = 0;
    while i < bytes.len()
        invariant
            i <= bytes@.len(),
            out@ == old(out)@ + bytes@.subrange(0, i as int),
        decreases bytes@.len() - i,
    {
        out.push(bytes[i]);
        assert(out@ =~= old(out)@ + bytes@.subrange(0, i + 1));
        i = i + 1;
    }
    assert(bytes@.subrange(0, i as int) =~= bytes@);
}

fn push_version(out: &mut Vec<u8>, v: HttpVersion)
    ensures
        final(out)@ == old(out)@ + version_text(v),
{
    let (a, b): (u8, u8) = match v {
        HttpVersion::Http09 => (0, 9),
        HttpVersion::Http10 => (1, 0),
        HttpVersion::Http11 => (1, 1),
        HttpVersion::Http2 => (2, 0),
        HttpVersion::Http3 => (3, 0),
    };
    out.push(72);
    out.push(84);
    out.push(84);
    out.push(80);
    out.push(47);
    out.push(48 + a);
    out.push(46);
    out.push(48 + b);
    assert(final(out)@ =~= old(out)@ + version_text(v));
}

/// Renders a response: `VERSION SP STATUS SP REASON CRLF`, each header as
/// `NAME ": " VALUE CRLF`, an empty line, then the body verbatim.
pub fn encode_response(version: HttpVersion, status: u16, headers: &Vec<Header>, body: &[u8]) -> (r:
    Vec<u8>)
    ensures
        r@ == response_spec(version, status, headers_model(headers@), body@),
        status == 200 ==> reason_bytes(status) == seq![79u8, 75u8],
{
    let mut out: Vec<u8> = Vec::new();
    push_version(&mut out, version);
    out.push(32);
    push_decimal(&mut out, status as u64);
    out.push(32);
    match canonical_reason(status) {
        Some(reason) => append_bytes(&mut out, reason.as_slice()),
        None => {},
    }
    out.push(13);
    out.push(10);
    let ghost head = out@;
    assert(head =~= version_text(version) + seq![32u8] + decimal(status as nat) + seq![32u8]
        + reason_bytes(status) + crlf());
    let mut i: usize = 0;
    while i < headers.len()
        invariant
            i <= headers@.len(),
            out@ == head + header_lines(headers_model(headers@).subrange(0, i as int)),
        decreases headers@.len() - i,
    {
        let h = &headers[i];
        append_bytes(&mut out, h.name.as_slice());
        out.push(58);
        out.push(32);
        append_bytes(&mut out, h.value.as_slice());
        out.push(13);
        out.push(10);
        proof {
            let hs = headers_model(headers@);
            assert(hs.subrange(0, i + 1).drop_last() =~= hs.subrange(0, i as int));
            assert(out@ =~= head + header_lines(hs.subrange(0, i + 1)));
        }
        i = i + 1;
    }
    assert(headers_model(headers@).subrange(0, i as int) =~= headers_model(headers@));
    out.push(13);
    out.push(10);
    append_bytes(&mut out, body);
    assert(out@ =~= response_spec(version, status, headers_model(headers@), body@));
    out
}

} // verus!
