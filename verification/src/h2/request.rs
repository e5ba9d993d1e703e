//! What an HTTP/2 connection changes in the requests that it sends.

use http::request::Parts;
use vstd::prelude::*;

verus! {

/// The parts of a request's head: method, URI, version, headers, extensions.
#[verifier::external_type_specification]
#[verifier::external_body]
pub struct ExParts(http::request::Parts);

/// A request's method. It is only carried.
#[verifier::external_type_specification]
#[verifier::external_body]
pub struct ExMethod(http::Method);

/// A request's URI. Only its authority is looked at.
#[verifier::external_type_specification]
#[verifier::external_body]
pub struct ExUri(http::Uri);

/// A version of HTTP, one of the constants of `http::Version`.
#[verifier::external_type_specification]
#[verifier::external_body]
pub struct ExHttpVersion(http::Version);

/// A request's headers. They are only carried.
#[verifier::external_type_specification]
#[verifier::external_body]
#[verifier::reject_recursive_types(T)]
pub struct ExHeaderMap<T>(http::HeaderMap<T>);

/// The value of a header. It is only carried.
#[verifier::external_type_specification]
#[verifier::external_body]
pub struct ExHeaderValue(http::HeaderValue);

/// A request's extensions. They are only carried.
#[verifier::external_type_specification]
#[verifier::external_body]
pub struct ExExtensions(http::Extensions);

/// A version of HTTP.
#[derive(Clone, Copy, Debug, PartialEq, Eq, Hash, Structural)]
pub enum HttpVersion {
    Http09,
    Http10,
    Http11,
    H2,
    H3,
}

/// The head of a request: all of it but the body.
pub struct Head {
    pub method: http::Method,
    pub uri: http::Uri,
    pub version: http::Version,
    pub headers: http::HeaderMap<http::HeaderValue>,
    pub extensions: http::Extensions,
}

/// The head that the parts of a request hold, in the public fields of `Parts`.
pub uninterp spec fn parts_head(parts: Parts) -> Head;

/// The version that a value of `http::Version` stands for.
pub uninterp spec fn version_kind(version: http::Version) -> HttpVersion;

/// The authority of a URI, as `Uri::authority` finds it: user information,
/// host and port, where it has one.
pub uninterp spec fn uri_authority(uri: http::Uri) -> Option<Seq<char>>;

/// The field `uri` of `Parts`.
#[verifier::external_body]
fn parts_uri(parts: &Parts) -> (uri: &http::Uri)
    ensures
        *uri == parts_head(*parts).uri,
{
    &parts.uri
}

/// The field `version` of `Parts`.
#[verifier::external_body]
fn parts_version(parts: &Parts) -> (version: http::Version)
    ensures
        version == parts_head(*parts).version,
{
    parts.version
}

/// An assignment to the field `version` of `Parts`: the other fields stay.
#[verifier::external_body]
fn set_parts_version(parts: &mut Parts, version: http::Version)
    ensures
        parts_head(*final(parts)) == (Head { version, ..parts_head(*old(parts)) }),
{
    parts.version = version;
}

/// The constants of `http::Version`, one for each version.
#[verifier::external_body]
fn http_version(version: HttpVersion) -> (http: http::Version)
    ensures
        version_kind(http) == version,
{
    match version {
        HttpVersion::Http09 => http::Version::HTTP_09,
        HttpVersion::Http10 => http::Version::HTTP_10,
        HttpVersion::Http11 => http::Version::HTTP_11,
        HttpVersion::H2 => http::Version::HTTP_2,
        HttpVersion::H3 => http::Version::HTTP_3,
    }
}

/// `Version::eq`: two values are equal if they stand for the same version.
#[verifier::external_body]
fn same_version(a: http::Version, b: http::Version) -> (same: bool)
    ensures
        same == (version_kind(a) == version_kind(b)),
{
    a == b
}

/// `Uri::authority`, as the text that the authority has in the URI.
#[verifier::external_body]
fn authority(uri: &http::Uri) -> (authority: Option<&str>)
    ensures
        authority is Some == uri_authority(*uri) is Some,
        authority matches Some(text) ==> text@ == uri_authority(*uri)->0,
{
    uri.authority().map(|authority| authority.as_str())
}

/// `sent` is the head with which a request whose head is `head` is sent: its
/// version is HTTP/1.1 where the URI has no authority; nothing else changes.
pub open spec fn sent_head(head: Head, sent: Head) -> bool {
    if uri_authority(head.uri) is None {
        version_kind(sent.version) == HttpVersion::Http11 && sent == (Head {
            version: sent.version,
            ..head
        })
    } else {
        sent == head
    }
}

/// The version that takes the place of a request's own on an HTTP/2
/// connection, given the authority of its URI.
///
/// A request that came in as HTTP/1 might not have an authority. The
/// HTTP/2 implementation sends such a request only where its version is not
/// HTTP/2, as an acknowledgement that it is not of the normal form.
pub fn replaced_version(authority: Option<&str>) -> (version: Option<HttpVersion>)
    ensures
        authority is None ==> version == Some(HttpVersion::Http11),
        authority is Some ==> version is None,
{
    if authority.is_none() {
        Some(HttpVersion::Http11)
    } else {
        None
    }
}

/// The version of a request's head is HTTP/2.
pub open spec fn has_h2_version(head: Head) -> bool {
    version_kind(head.version) == HttpVersion::H2
}

/// Tells whether the version of a request is HTTP/2.
pub fn is_h2(parts: &Parts) -> (h2: bool)
    ensures
        h2 == has_h2_version(parts_head(*parts)),
{
    same_version(parts_version(parts), http_version(HttpVersion::H2))
}

/// Replaces the version of a request whose URI has no authority.
fn replace_version(parts: Parts) -> (sent: Parts)
    ensures
        sent_head(parts_head(parts), parts_head(sent)),
{
    let mut sent = parts;
    if let Some(version) = replaced_version(authority(parts_uri(&sent))) {
        set_parts_version(&mut sent, http_version(version));
    }
    sent
}

/// Prepares the head of a request for being sent on an HTTP/2 connection. The
/// version of such a request is HTTP/2 until then.
pub fn prepare(parts: Parts) -> (sent: Parts)
    requires
        has_h2_version(parts_head(parts)),
    ensures
        sent_head(parts_head(parts), parts_head(sent)),
{
    replace_version(parts)
}

/// Prepares a head of any version as [`prepare`] does, and tells whether its
/// version was HTTP/2, as it should be.
pub fn prepare_any(parts: Parts) -> (prepared: (Parts, bool))
    ensures
        sent_head(parts_head(parts), parts_head(prepared.0)),
        prepared.1 == has_h2_version(parts_head(parts)),
{
    if is_h2(&parts) {
        (prepare(parts), true)
    } else {
        (replace_version(parts), false)
    }
}

/// Preparing a head that was prepared changes nothing but, at most, one
/// HTTP/1.1 for another.
pub proof fn law_preparing_twice(head: Head, once: Head, twice: Head)
    requires
        sent_head(head, once),
        sent_head(once, twice),
    ensures
        sent_head(head, twice),
        version_kind(twice.version) == version_kind(once.version),
{
}

/// A request whose URI has an authority, whatever its text, is sent as it is.
pub proof fn law_authority_keeps_the_head(head: Head, sent: Head)
    requires
        uri_authority(head.uri) is Some,
    ensures
        sent_head(head, sent) <==> sent == head,
{
}

/// A request whose URI has no authority is sent as HTTP/1.1, and with all else
/// as it is.
pub proof fn law_missing_authority_replaces_the_version(head: Head, sent: Head)
    requires
        uri_authority(head.uri) is None,
    ensures
        sent_head(head, sent) <==> {
            &&& version_kind(sent.version) == HttpVersion::Http11
            &&& sent.method == head.method
            &&& sent.uri == head.uri
            &&& sent.headers == head.headers
            &&& sent.extensions == head.extensions
        },
{
}

/// Of the URI, only whether it has an authority matters: two requests of the same
/// version are sent with the same version where both have one, and where neither
/// has.
pub proof fn law_only_the_presence_of_an_authority_matters(
    head: Head,
    sent: Head,
    other: Head,
    other_sent: Head,
)
    requires
        sent_head(head, sent),
        sent_head(other, other_sent),
        head.version == other.version,
        uri_authority(head.uri) is Some <==> uri_authority(other.uri) is Some,
    ensures
        version_kind(sent.version) == version_kind(other_sent.version),
{
}

/// A head has the version HTTP/2 if and only if its version stands for that one.
pub proof fn law_h2_version(head: Head)
    ensures
        has_h2_version(head) <==> version_kind(head.version) == HttpVersion::H2,
{
}

} // verus!
