//! The values of `Authorization` headers.
use vstd::prelude::*;
use vstd::string::StringExecFns;
use vstd::utf8::encode_utf8;

use base64::Engine;

use crate::secret::Secret;

verus! {

/// What the standard Base64 alphabet, with padding, makes of `bytes`.
pub uninterp spec fn base64_of(bytes: Seq<u8>) -> Seq<char>;

/// Relies on base64's `STANDARD` engine and its `encode`: the standard
/// alphabet with padding, four characters for every three bytes begun. Its
/// buffer size overflows, and it panics, only for inputs beyond half the
/// address space, which the `requires` leaves out.
#[verifier::external_body]
fn encode_base64(bytes: &[u8]) -> (r: String)
    requires
        bytes@.len() <= usize::MAX / 2,
    ensures
        r@ == base64_of(bytes@),
        r@.len() == 4 * ((bytes@.len() + 2) / 3),
{
    base64::engine::general_purpose::STANDARD.encode(bytes)
}

/// The text that basic authentication encodes: the user name, a colon, and
/// the password if there is one.
pub open spec fn credentials(username: Seq<char>, password: Option<Seq<char>>) -> Seq<char> {
    username + ":"@ + match password {
        Some(p) => p,
        None => Seq::empty(),
    }
}

/// The characters of an optional text.
pub open spec fn text_of(t: Option<&str>) -> Option<Seq<char>> {
    match t {
        Some(t) => Some(t@),
        None => None,
    }
}

/// The characters of an optional secret.
pub open spec fn secret_text(t: Option<Secret>) -> Option<Seq<char>> {
    match t {
        Some(t) => Some(t@),
        None => None,
    }
}

/// The header value of basic authentication.
pub open spec fn basic_header(username: Seq<char>, password: Option<Seq<char>>) -> Seq<char> {
    "Basic "@ + base64_of(encode_utf8(credentials(username, password)))
}

/// The header value of bearer authentication.
pub open spec fn bearer_header(token: Seq<char>) -> Seq<char> {
    "Bearer "@ + token
}

/// The header value of basic authentication with `username` and `password`.
pub fn basic_auth(username: &str, password: Option<&str>) -> (r: String)
    requires
        encode_utf8(credentials(username@, text_of(password))).len() <= usize::MAX / 2,
    ensures
        r@ == basic_header(username@, text_of(password)),
{
    let mut text = username.to_owned();
    text.append(":");
    match password {
        Some(p) => text.append(p),
        None => {},
    }
    proof {
        assert(text@ =~= credentials(username@, text_of(password)));
    }
    let encoded = encode_base64(text.as_str().as_bytes());
    let mut out = "Basic ".to_owned();
    out.append(encoded.as_str());
    out
}

/// The header value of bearer authentication with `token`.
pub fn bearer_auth(token: &str) -> (r: String)
    ensures
        r@ == bearer_header(token@),
{
    let mut out = "Bearer ".to_owned();
    out.append(token);
    out
}

/// Bearer authentication with a secret token.
#[derive(Clone)]
pub struct BearerAuth(Secret);

impl BearerAuth {
    /// The token.
    pub closed spec fn token(&self) -> Seq<char> {
        self.0@
    }

    /// Bearer authentication with `key`.
    pub fn new(key: Secret) -> (r: Self)
        ensures
            r.token() == key@,
    {
        BearerAuth(key)
    }

    /// The value of the `Authorization` header.
    pub fn header_value(&self) -> (r: String)
        ensures
            r@ == bearer_header(self.token()),
    {
        bearer_auth(self.0.revealed())
    }
}

/// Basic authentication, with an optional password.
#[derive(Clone)]
pub struct BasicAuth {
    username: String,
    password: Option<Secret>,
}

impl BasicAuth {
    /// The user name.
    pub closed spec fn user(&self) -> Seq<char> {
        self.username@
    }

    /// The password, if any.
    pub closed spec fn pass(&self) -> Option<Seq<char>> {
        secret_text(self.password)
    }

    /// Basic authentication as `username`, with `password` if given.
    pub fn new(username: String, password: Option<Secret>) -> (r: Self)
        ensures
            r.user() == username@,
            r.pass() == secret_text(password),
    {
        BasicAuth { username, password }
    }

    /// The value of the `Authorization` header.
    pub fn header_value(&self) -> (r: String)
        requires
            encode_utf8(credentials(self.user(), self.pass())).len() <= usize::MAX / 2,
        ensures
            r@ == basic_header(self.user(), self.pass()),
    {
        let password = match &self.password {
            Some(p) => Some(p.revealed()),
            None => None,
        };
        basic_auth(self.username.as_str(), password)
    }
}

} // verus!
