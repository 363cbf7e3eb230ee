use vstd::prelude::*;
use vstd::string::*;

use crate::text::join_text;

verus! {

/// What `base64::encode` returns for the UTF-8 bytes of a text: the standard
/// base64 alphabet of RFC 4648, with `=` padding.
pub uninterp spec fn base64_standard(text: Seq<char>) -> Seq<char>;

/// Calls `base64::encode` (standard alphabet, padded) on the UTF-8 bytes of
/// `text`. The contract only names the result; nothing is claimed of its
/// characters.
#[verifier::external_body]
#[allow(deprecated)]
fn base64_encode(text: &str) -> (r: String)
    ensures
        r@ == base64_standard(text@),
{
    base64::encode(text)
}

/// The value of the HTTP `Authorization` header for basic authentication.
pub open spec fn basic_auth(user: Seq<char>, password: Seq<char>) -> Seq<char> {
    "Basic "@ + base64_standard(user + ":"@ + password)
}

/// The `Authorization` header value for already encoded credentials.
pub fn basic_auth_header(encoded: &str) -> (r: String)
    ensures
        r@ == "Basic "@ + encoded@,
{
    join_text("Basic ", encoded)
}

/// The `Authorization` header value that every call to the node carries:
/// `Basic ` followed by the base64 encoding of `user:password`.
pub fn basic_auth_value(user: &str, password: &str) -> (r: String)
    ensures
        r@ == basic_auth(user@, password@),
{
    let credentials = join_text(user, ":");
    let credentials = join_text(credentials.as_str(), password);
    let encoded = base64_encode(credentials.as_str());
    basic_auth_header(encoded.as_str())
}

} // verus!
