//! Credentials and the `Authorization` header they produce.

use base64::Engine;
use vstd::prelude::*;
use vstd::utf8::encode_utf8;
use crate::error::Error;
use crate::headers::{HeaderList, with_header};
use crate::text::bytes_to_vec;

verus! {

/// How requests authenticate.
#[derive(Clone)]
pub enum Auth {
    /// No credentials.
    Anonymous,
    /// A bearer token.
    Bearer(String),
    /// A login and password.
    Basic { username: String, password: String },
}

/// A byte that an HTTP header value may hold: visible ASCII, tab, or any
/// byte of 0x80 and above.
pub open spec fn header_value_byte(b: u8) -> bool {
    (b >= 32 && b != 127) || b == 9
}

/// Every byte of the UTF-8 encoding of `s` may stand in a header value.
pub open spec fn valid_header_text(s: Seq<char>) -> bool {
    forall|i: int| 0 <= i < encode_utf8(s).len() ==> header_value_byte(#[trigger] encode_utf8(s)[i])
}

/// Characters of the standard base64 alphabet, and its padding.
pub open spec fn base64_char(c: char) -> bool {
    ('A' <= c <= 'Z') || ('a' <= c <= 'z') || ('0' <= c <= '9') || c == '+' || c == '/' || c == '='
}

/// The standard, padded base64 encoding of some bytes.
pub uninterp spec fn base64_of(b: Seq<u8>) -> Seq<char>;

/// Relies on `base64::engine::general_purpose::STANDARD.encode`: the
/// encoding depends on the bytes alone and uses the standard alphabet with
/// `=` padding.
#[verifier::external_body]
fn base64_standard(bytes: &[u8]) -> (r: String)
    ensures
        r@ == base64_of(bytes@),
        forall|i: int| 0 <= i < r@.len() ==> base64_char(#[trigger] r@[i]),
{
    base64::engine::general_purpose::STANDARD.encode(bytes)
}

/// Relies on `http::HeaderValue::from_str`, which accepts a text exactly
/// when each of its bytes is visible ASCII, a tab, or 0x80 and above.
#[verifier::external_body]
pub(crate) fn header_value_accepts(s: &str) -> (r: bool)
    ensures
        r == valid_header_text(s@),
{
    http::HeaderValue::from_str(s).is_ok()
}

/// The `Authorization` value of bearer credentials.
pub open spec fn bearer_value(token: Seq<char>) -> Seq<char> {
    "Bearer "@ + token
}

/// The `Authorization` value of basic credentials.
pub open spec fn basic_value(username: Seq<char>, password: Seq<char>) -> Seq<char> {
    "Basic "@ + base64_of(encode_utf8(username + ":"@ + password))
}

impl Auth {
    pub fn none() -> (r: Auth)
        ensures
            r is Anonymous,
    {
        Auth::Anonymous
    }

    pub fn bearer(token: &str) -> (r: Auth)
        ensures
            r matches Auth::Bearer(t) && t@ == token@,
    {
        Auth::Bearer(String::from_str(token))
    }

    pub fn basic(username: &str, password: &str) -> (r: Auth)
        ensures
            r matches Auth::Basic { username: u, password: p } && u@ == username@ && p@
                == password@,
    {
        Auth::Basic { username: String::from_str(username), password: String::from_str(password) }
    }

    /// The `Authorization` value these credentials call for, if any. Fails
    /// only where the value could not stand in a header.
    pub fn authorization(&self) -> (r: Result<Option<String>, Error>)
        ensures
            match *self {
                Auth::Anonymous => r == Ok::<Option<String>, Error>(None),
                Auth::Bearer(t) => if valid_header_text(bearer_value(t@)) {
                    r matches Ok(Some(v)) && v@ == bearer_value(t@)
                } else {
                    r matches Err(Error::InvalidConfig { .. })
                },
                Auth::Basic { username, password } => r matches Ok(Some(v)) && v@ == basic_value(
                    username@,
                    password@,
                ),
            },
    {
        match self {
            Auth::Anonymous => Ok(None),
            Auth::Bearer(token) => {
                let mut value = String::from_str("Bearer ");
                value.append(token.as_str());
                if header_value_accepts(value.as_str()) {
                    Ok(Some(value))
                } else {
                    Err(
                        Error::invalid_config(
                            String::from_str("invalid bearer token: failed to parse header value"),
                        ),
                    )
                }
            },
            Auth::Basic { username, password } => {
                let mut credentials = String::from_str(username.as_str());
                credentials.append(":");
                credentials.append(password.as_str());
                let encoded = base64_standard(credentials.as_str().as_bytes());
                let mut value = String::from_str("Basic ");
                value.append(encoded.as_str());
                proof {
                    lemma_basic_value_valid(encoded@);
                }
                if header_value_accepts(value.as_str()) {
                    Ok(Some(value))
                } else {
                    Err(
                        Error::invalid_config(
                            String::from_str("invalid basic auth: failed to parse header value"),
                        ),
                    )
                }
            },
        }
    }

    /// Sets the `Authorization` header of `headers`, or leaves them alone
    /// when there are no credentials.
    pub fn apply(&self, headers: &mut HeaderList) -> (r: Result<(), Error>)
        ensures
            match self.authorization_spec() {
                Ok(Some(v)) => r is Ok && final(headers)@ == with_header(
                    old(headers)@,
                    "authorization"@,
                    encode_utf8(v),
                ),
                Ok(None) => r is Ok && final(headers)@ == old(headers)@,
                Err(_) => r matches Err(Error::InvalidConfig { .. }) && final(headers)@ == old(
                    headers,
                )@,
            },
    {
        match self.authorization() {
            Ok(Some(v)) => {
                headers.insert(String::from_str("authorization"), bytes_to_vec(v.as_str().as_bytes()));
                Ok(())
            },
            Ok(None) => Ok(()),
            Err(e) => Err(e),
        }
    }

    /// The `Authorization` value as a model: `Ok(None)` for no credentials,
    /// `Err` for a value that cannot stand in a header.
    pub open spec fn authorization_spec(self) -> Result<Option<Seq<char>>, ()> {
        match self {
            Auth::Anonymous => Ok(None),
            Auth::Bearer(t) => if valid_header_text(bearer_value(t@)) {
                Ok(Some(bearer_value(t@)))
            } else {
                Err(())
            },
            Auth::Basic { username, password } => Ok(Some(basic_value(username@, password@))),
        }
    }

    /// A description that names the kind of credentials and never the
    /// secret.
    pub fn describe(&self) -> (r: String)
        ensures
            match *self {
                Auth::Anonymous => r@ == "Anonymous"@,
                Auth::Bearer(_) => r@ == "Bearer(\"<redacted>\")"@,
                Auth::Basic { username, .. } => r@ == "Basic { username: "@ + username@
                    + ", password: \"<redacted>\" }"@,
            },
    {
        match self {
            Auth::Anonymous => String::from_str("Anonymous"),
            Auth::Bearer(_) => String::from_str("Bearer(\"<redacted>\")"),
            Auth::Basic { username, .. } => {
                let mut s = String::from_str("Basic { username: ");
                s.append(username.as_str());
                s.append(", password: \"<redacted>\" }");
                s
            },
        }
    }
}

proof fn lemma_basic_value_valid(encoded: Seq<char>)
    requires
        forall|i: int| 0 <= i < encoded.len() ==> base64_char(#[trigger] encoded[i]),
    ensures
        valid_header_text("Basic "@ + encoded),
{
    reveal_strlit("Basic ");
    let s = "Basic "@ + encoded;
    assert forall|i: int| 0 <= i < s.len() implies (s[i] as u32) >= 32 && (s[i] as u32) < 127 by {
        if i >= 6 {
            assert(s[i] == encoded[i - 6]);
        }
    }
    vstd::utf8::is_ascii_chars_encode_utf8(s);
    assert(vstd::utf8::is_ascii_chars(s));
}

} // verus!
