//! The credential of the client: user name and password as one token.

use base64::Engine;
use vstd::prelude::*;
use vstd::string::StringExecFns;
use vstd::utf8::encode_utf8;

verus! {

/// The text that the standard base64 engine, with padding, gives for a sequence of bytes.
pub uninterp spec fn base64_text(bytes: Seq<u8>) -> Seq<char>;

/// Calls `encode_string` of `base64::engine::general_purpose::STANDARD` on an empty
/// string. The contract names what it writes: the same bytes always give the same text.
#[verifier::external_body]
fn encode_base64(bytes: &[u8]) -> (text: String)
    ensures
        text@ == base64_text(bytes@),
{
    let mut text = String::new();
    base64::engine::general_purpose::STANDARD.encode_string(bytes, &mut text);
    text
}

/// The token of HTTP basic authentication: user name, a colon and the password, as
/// UTF-8, in base64.
pub open spec fn credential_token(username: Seq<char>, password: Seq<char>) -> Seq<char> {
    base64_text(encode_utf8(username + ":"@ + password))
}

/// Computes the token of HTTP basic authentication.
pub fn basic_token(username: &str, password: &str) -> (token: String)
    ensures
        token@ == credential_token(username@, password@),
{
    let mut credential = String::from_str(username);
    credential.append(":");
    credential.append(password);
    encode_base64(credential.as_str().as_bytes())
}

} // verus!
