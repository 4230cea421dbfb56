use vstd::prelude::*;

use hyper::http::Error as HttpBuildFailure;
use hyper::Error as HyperFailure;

verus! {

/// `hyper::Uri`, a parsed URI, carried through opaque.
#[verifier::external_type_specification]
#[verifier::external_body]
pub struct ExUri(hyper::Uri);

/// `hyper::Error`, a connection failure, carried through opaque.
#[verifier::external_type_specification]
#[verifier::external_body]
pub struct ExHyperError(HyperFailure);

/// `http::Error`, a failure to assemble a request, carried through opaque.
#[verifier::external_type_specification]
#[verifier::external_body]
pub struct ExHttpError(HttpBuildFailure);

/// `std::io::Error`, a socket failure, carried through opaque.
#[verifier::external_type_specification]
#[verifier::external_body]
pub struct ExIoError(std::io::Error);

/// `std::string::FromUtf8Error`, a decoding failure, carried through opaque.
#[verifier::external_type_specification]
#[verifier::external_body]
pub struct ExFromUtf8Error(std::string::FromUtf8Error);

/// Why fetching a resource failed.
#[derive(Debug)]
pub enum HttpError {
    /// The HTTP connection failed.
    Transport(HyperFailure),
    /// Reading or writing the socket failed.
    Io(std::io::Error),
    /// The URL could not be used.
    Uri(String),
    /// The body was not UTF-8 text.
    Utf8(std::string::FromUtf8Error),
    /// The request could not be assembled.
    Hyper(HttpBuildFailure),
}

/// Whether `hyper::Uri`'s parser accepts the text.
pub uninterp spec fn uri_accepts(s: Seq<char>) -> bool;

/// What `String::from_utf8` makes of the bytes: their text, or `None` where
/// they are not UTF-8.
pub uninterp spec fn utf8_text(b: Seq<u8>) -> Option<Seq<char>>;

/// The host of the URI that the text parses to, if it has one.
pub uninterp spec fn uri_host_of(s: Seq<char>) -> Option<Seq<char>>;

/// The port written in the URI that the text parses to, if any.
pub uninterp spec fn uri_port_of(s: Seq<char>) -> Option<u16>;

/// The authority, as written, of the URI that the text parses to, if it has one.
pub uninterp spec fn uri_authority_of(s: Seq<char>) -> Option<Seq<char>>;

/// The message of the error that rejects the text as a URI.
pub uninterp spec fn uri_rejection_of(s: Seq<char>) -> Seq<char>;

/// The text held by an optional string.
pub open spec fn text_of(o: Option<String>) -> Option<Seq<char>> {
    match o {
        Some(t) => Some(t@),
        None => None,
    }
}

/// Relies on `<hyper::Uri as FromStr>::from_str`, then `Uri::host`,
/// `Uri::port_u16` and `Uri::authority` with `Authority::as_str` on the result,
/// or `InvalidUri`'s `Display` on the error: each depends on the text alone.
#[verifier::external_body]
fn parse_uri(url: &str) -> (r: Result<(hyper::Uri, Option<String>, Option<u16>, Option<String>), String>)
    ensures
        r is Ok <==> uri_accepts(url@),
        r matches Err(m) ==> m@ == uri_rejection_of(url@),
        r matches Ok((_, h, p, a)) ==> {
            &&& text_of(h) == uri_host_of(url@)
            &&& p == uri_port_of(url@)
            &&& text_of(a) == uri_authority_of(url@)
        },
{
    match url.parse::<hyper::Uri>() {
        Ok(u) => {
            let host = u.host().map(String::from);
            let port = u.port_u16();
            let authority = u.authority().map(|a| String::from(a.as_str()));
            Ok((u, host, port, authority))
        },
        Err(e) => Err(e.to_string()),
    }
}

/// Relies on `String::from_utf8`: the bytes decoded as UTF-8, failing exactly
/// when they are not UTF-8.
#[verifier::external_body]
fn decode_utf8(bytes: Vec<u8>) -> (r: Result<String, std::string::FromUtf8Error>)
    ensures
        match r {
            Ok(s) => utf8_text(bytes@) == Some(s@),
            Err(_) => utf8_text(bytes@) is None,
        },
{
    String::from_utf8(bytes)
}

/// The port used when a URL names none.
pub const DEFAULT_PORT: u16 = 80;

/// Where a GET request for a URL goes: the parsed URI, the host and port to
/// connect to, and the authority sent as the `Host` header.
pub struct Target {
    pub uri: hyper::Uri,
    pub host: String,
    pub port: u16,
    pub authority: String,
}

/// The message of the error for a URL without a host.
pub open spec fn no_host_message() -> Seq<char> {
    seq!['N', 'o', ' ', 'h', 'o', 's', 't']
}

fn no_host() -> (r: HttpError)
    ensures
        r matches HttpError::Uri(m) && m@ == no_host_message(),
{
    let m = "No host".to_owned();
    proof {
        reveal_strlit("No host");
    }
    assert(m@ =~= no_host_message());
    HttpError::Uri(m)
}

/// Completes a target from what a parsed URI holds: it fails with a `Uri`
/// error when the URI has no host or no authority, and the port is the one
/// written or else the default.
pub fn target_from_parts(
    uri: hyper::Uri,
    host: Option<String>,
    port: Option<u16>,
    authority: Option<String>,
) -> (r: Result<Target, HttpError>)
    ensures
        r is Ok <==> (host is Some && authority is Some),
        r matches Err(e) ==> (e matches HttpError::Uri(m) && m@ == no_host_message()),
        r matches Ok(t) ==> {
            &&& t.uri == uri
            &&& Some(t.host) == host
            &&& Some(t.authority) == authority
            &&& t.port == match port {
                Some(p) => p,
                None => DEFAULT_PORT,
            }
        },
{
    let host = match host {
        Some(h) => h,
        None => {
            return Err(no_host());
        },
    };
    let authority = match authority {
        Some(a) => a,
        None => {
            return Err(no_host());
        },
    };
    let port = match port {
        Some(p) => p,
        None => DEFAULT_PORT,
    };
    Ok(Target { uri, host, port, authority })
}

/// Works out where a GET request for `url` goes. It succeeds exactly when the
/// URL parses and has a host; the port is the one written, or else the
/// default. A URL that does not parse fails with the parser's message, one
/// without a host with "No host".
pub fn resolve_target(url: &str) -> (r: Result<Target, HttpError>)
    ensures
        r is Ok <==> (uri_accepts(url@) && uri_host_of(url@) is Some && uri_authority_of(
            url@,
        ) is Some),
        r matches Ok(t) ==> {
            &&& Some(t.host@) == uri_host_of(url@)
            &&& Some(t.authority@) == uri_authority_of(url@)
            &&& t.port == match uri_port_of(url@) {
                Some(p) => p,
                None => DEFAULT_PORT,
            }
        },
        r matches Err(e) ==> (e matches HttpError::Uri(m) && m@ == if uri_accepts(url@) {
            no_host_message()
        } else {
            uri_rejection_of(url@)
        }),
{
    match parse_uri(url) {
        Ok((uri, host, port, authority)) => target_from_parts(uri, host, port, authority),
        Err(m) => Err(HttpError::Uri(m)),
    }
}

/// Turns a response body into text; bytes that are not UTF-8 fail with a
/// `Utf8` error.
pub fn decode_body(bytes: Vec<u8>) -> (r: Result<String, HttpError>)
    ensures
        match r {
            Ok(s) => utf8_text(bytes@) == Some(s@),
            Err(e) => utf8_text(bytes@) is None && e is Utf8,
        },
{
    match decode_utf8(bytes) {
        Ok(s) => Ok(s),
        Err(e) => Err(HttpError::Utf8(e)),
    }
}

} // verus!
