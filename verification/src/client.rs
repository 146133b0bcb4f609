//! The locally computed part of client construction: formatting the
//! preshared key as a bearer credential, encoding it as a transport
//! metadata value, and parsing the server URL as an endpoint reference.
//!
//! Establishing the connection and dispatching calls over it is the
//! transport layer's part; it consumes the [`ClientSetup`] built here.

use vstd::prelude::*;
use vstd::string::*;
use crate::error::Error;

verus! {

/// Whether a character can appear in a transport metadata (header) value:
/// tab or anything from space upward except delete. A character above 127
/// encodes to bytes the transport accepts as opaque octets.
pub open spec fn is_metadata_value_char(c: char) -> bool {
    c == '\t' || (32 <= c as int && c as int != 127)
}

/// Whether every character of `s` can appear in a metadata value.
pub open spec fn metadata_value_ok(s: Seq<char>) -> bool {
    forall|i: int| 0 <= i < s.len() ==> is_metadata_value_char(#[trigger] s[i])
}

/// The bearer header value for a preshared key: `bearer ` then the key.
pub open spec fn bearer_of(key: Seq<char>) -> Seq<char> {
    seq!['b', 'e', 'a', 'r', 'e', 'r', ' '] + key
}

/// Whether `s` parses as an endpoint URI.
pub uninterp spec fn uri_ok(s: Seq<char>) -> bool;

/// Declares `http::HeaderValue`, the encoded form of a metadata value,
/// as an opaque outside type.
#[verifier::external_type_specification]
#[verifier::external_body]
pub struct ExHeaderValue(http::header::HeaderValue);

/// Declares the error `http::HeaderValue::from_str` fails with.
#[verifier::external_type_specification]
#[verifier::external_body]
pub struct ExInvalidHeaderValue(http::header::InvalidHeaderValue);

/// Declares `http::Uri`, the parsed endpoint reference, as an opaque
/// outside type.
#[verifier::external_type_specification]
#[verifier::external_body]
pub struct ExUri(http::uri::Uri);

/// Declares the error `http::Uri::try_from` fails with.
#[verifier::external_type_specification]
#[verifier::external_body]
pub struct ExInvalidUri(http::uri::InvalidUri);

/// Relies on `http::HeaderValue::from_str`: it succeeds exactly when every
/// byte of the string is 32 or above and not 127 (delete), or is a tab —
/// that is, when every character satisfies [`is_metadata_value_char`].
/// This is the same check the transport's metadata-value parse applies.
#[verifier::external_body]
fn parse_header_value(s: &String) -> (r: Result<
    http::header::HeaderValue,
    http::header::InvalidHeaderValue,
>)
    ensures
        r is Ok <==> metadata_value_ok(s@),
{
    http::header::HeaderValue::from_str(s.as_str())
}

/// Relies on `http::Uri::try_from(&str)`: it succeeds exactly on the
/// strings of the URI grammar, a function of the string alone, named
/// [`uri_ok`] here.
#[verifier::external_body]
fn parse_uri(s: &String) -> (r: Result<http::Uri, http::uri::InvalidUri>)
    ensures
        r is Ok <==> uri_ok(s@),
{
    http::Uri::try_from(s.as_str())
}

/// Formats the bearer header text for a preshared key.
fn format_bearer(preshared_key: &str) -> (s: String)
    ensures
        s@ == bearer_of(preshared_key@),
{
    let mut s = String::from_str("bearer ");
    proof {
        reveal_strlit("bearer ");
        assert(s@ =~= seq!['b', 'e', 'a', 'r', 'e', 'r', ' ']);
    }
    s.append(preshared_key);
    proof {
        assert(s@ =~= bearer_of(preshared_key@));
    }
    s
}

/// The bearer header text for a key is encodable exactly when the key is:
/// the `bearer ` prefix itself holds only visible ASCII.
pub proof fn lemma_bearer_ok(key: Seq<char>)
    ensures
        metadata_value_ok(bearer_of(key)) <==> metadata_value_ok(key),
{
    let p = seq!['b', 'e', 'a', 'r', 'e', 'r', ' '];
    let b = bearer_of(key);
    assert(forall|i: int| 0 <= i < 7 ==> is_metadata_value_char(#[trigger] p[i]));
    if metadata_value_ok(key) {
        assert forall|i: int| 0 <= i < b.len() implies is_metadata_value_char(#[trigger] b[i]) by {
            if i < 7 {
                assert(b[i] == p[i]);
            } else {
                assert(b[i] == key[i - 7]);
            }
        }
    }
    if metadata_value_ok(b) {
        assert forall|i: int| 0 <= i < key.len() implies is_metadata_value_char(
            #[trigger] key[i],
        ) by {
            assert(key[i] == b[i + 7]);
        }
    }
}

/// The static credential attached to every outbound call: the preshared
/// key formatted as `bearer <key>`, and that text encoded as a transport
/// metadata value. Built once at client construction; a malformed key
/// fails construction immediately rather than per call.
#[derive(Debug)]
pub struct BearerCredential {
    /// The exact header text, `bearer ` followed by the key.
    pub header_text: String,
    /// The header text in the transport's encoded form.
    pub header_value: http::header::HeaderValue,
}

impl BearerCredential {
    /// Formats `bearer <key>` and encodes it as a metadata value. Fails
    /// with [`Error::InvalidPresharedKey`] exactly when the key holds a
    /// character a metadata value cannot.
    pub fn from_preshared_key(preshared_key: &str) -> (r: Result<BearerCredential, Error>)
        ensures
            r is Ok <==> metadata_value_ok(preshared_key@),
            r matches Ok(c) ==> c.header_text@ == bearer_of(preshared_key@),
            r matches Err(e) ==> e is InvalidPresharedKey,
    {
        let text = format_bearer(preshared_key);
        proof {
            lemma_bearer_ok(preshared_key@);
        }
        match parse_header_value(&text) {
            Ok(v) => Ok(BearerCredential { header_text: text, header_value: v }),
            Err(_) => Err(Error::InvalidPresharedKey),
        }
    }
}

/// The name of the metadata entry the credential is attached under.
pub fn authorization_header_name() -> (r: &'static str)
    ensures
        r@ == "authorization"@,
{
    "authorization"
}

/// What client construction computes locally: the parsed endpoint and the
/// encoded credential. The transport layer connects from these and binds
/// one service stub per service group to the shared connection, each
/// attaching the credential to every call.
#[derive(Debug)]
pub struct ClientSetup {
    pub endpoint: http::Uri,
    pub credential: BearerCredential,
}

/// Validates and prepares everything client construction can decide
/// without touching the network: the credential first, then the endpoint,
/// failing with the corresponding error kind.
pub fn prepare_client(url: &String, preshared_key: &str) -> (r: Result<ClientSetup, Error>)
    ensures
        r is Ok <==> metadata_value_ok(preshared_key@) && uri_ok(url@),
        r matches Ok(s) ==> s.credential.header_text@ == bearer_of(preshared_key@),
        !metadata_value_ok(preshared_key@) ==> r matches Err(Error::InvalidPresharedKey),
        metadata_value_ok(preshared_key@) && !uri_ok(url@) ==> r matches Err(
            Error::InvalidEndpoint,
        ),
{
    let credential = match BearerCredential::from_preshared_key(preshared_key) {
        Ok(c) => c,
        Err(e) => {
            return Err(e);
        },
    };
    let endpoint = match parse_uri(url) {
        Ok(u) => u,
        Err(_) => {
            return Err(Error::InvalidEndpoint);
        },
    };
    Ok(ClientSetup { endpoint, credential })
}

} // verus!
