//! Values of the Backblaze B2 API: identifiers, kinds, error codes and keys.
use vstd::prelude::*;
use vstd::string::StringExecFns;

use crate::secret::Secret;
use crate::text::{contains_char, same, starts_with_char};

verus! {

/// The identifier of a bucket.
#[derive(Debug, Clone)]
pub struct BucketID(String);

impl View for BucketID {
    type V = Seq<char>;

    closed spec fn view(&self) -> Seq<char> {
        self.0@
    }
}

impl BucketID {
    /// The bucket with the identifier `id`.
    pub fn new(id: String) -> (r: Self)
        ensures
            r@ == id@,
    {
        BucketID(id)
    }

    /// The identifier's text.
    pub fn as_str(&self) -> (r: &str)
        ensures
            r@ == self@,
    {
        self.0.as_str()
    }
}

/// The identifier of a file.
#[derive(Debug, Clone)]
pub struct FileID(String);

impl View for FileID {
    type V = Seq<char>;

    closed spec fn view(&self) -> Seq<char> {
        self.0@
    }
}

impl FileID {
    /// The file with the identifier `id`.
    pub fn new(id: String) -> (r: Self)
        ensures
            r@ == id@,
    {
        FileID(id)
    }

    /// The identifier's text.
    pub fn as_str(&self) -> (r: &str)
        ensures
            r@ == self@,
    {
        self.0.as_str()
    }
}

/// Who may read the files of a bucket.
#[derive(Debug, Clone, Copy, PartialEq, Eq, Structural)]
pub enum BucketType {
    AllPrivate,
    AllPublic,
    Snapshot,
}

impl BucketType {
    /// The name the API uses for this kind of bucket.
    pub fn name(&self) -> (r: &'static str)
        ensures
            r@ == match self {
                BucketType::AllPrivate => "allPrivate"@,
                BucketType::AllPublic => "allPublic"@,
                BucketType::Snapshot => "snapshot"@,
            },
    {
        match self {
            BucketType::AllPrivate => "allPrivate",
            BucketType::AllPublic => "allPublic",
            BucketType::Snapshot => "snapshot",
        }
    }
}

/// What an entry of a file listing stands for.
#[derive(Debug, Clone, Copy, PartialEq, Eq, Structural)]
pub enum Action {
    Start,
    Upload,
    Hide,
    Folder,
}

impl Action {
    /// The action the API names `name`, if any.
    pub fn from_name(name: &str) -> (r: Option<Action>)
        ensures
            name@ == "start"@ ==> r == Some(Action::Start),
            name@ == "upload"@ ==> r == Some(Action::Upload),
            name@ == "hide"@ ==> r == Some(Action::Hide),
            name@ == "folder"@ ==> r == Some(Action::Folder),
            r is None <==> (name@ != "start"@ && name@ != "upload"@ && name@ != "hide"@ && name@
                != "folder"@),
    {
        proof {
            reveal_strlit("start");
            reveal_strlit("upload");
            reveal_strlit("hide");
            reveal_strlit("folder");
            assert("hide"@.len() == 4 && "start"@.len() == 5 && "upload"@.len() == 6);
            assert("upload"@[0] != "folder"@[0]);
        }
        if same(name, "start") {
            Some(Action::Start)
        } else if same(name, "upload") {
            Some(Action::Upload)
        } else if same(name, "hide") {
            Some(Action::Hide)
        } else if same(name, "folder") {
            Some(Action::Folder)
        } else {
            None
        }
    }
}

/// An error code returned by the B2 API.
#[derive(Debug, Clone)]
pub enum B2ErrorCode {
    /// The authorization token has expired, and should be refreshed.
    ExpiredAuthToken,
    /// The request was malformed or invalid.
    BadRequest,
    /// An error code not recognized by this library.
    Other(String),
}

/// The error code that the API's text `value` stands for.
pub open spec fn code_of(value: String) -> B2ErrorCode {
    if value@ == "expired_auth_token"@ {
        B2ErrorCode::ExpiredAuthToken
    } else if value@ == "bad_request"@ {
        B2ErrorCode::BadRequest
    } else {
        B2ErrorCode::Other(value)
    }
}

impl B2ErrorCode {
    /// The code as the API writes it.
    pub open spec fn code_spec(self) -> Seq<char> {
        match self {
            B2ErrorCode::ExpiredAuthToken => "expired_auth_token"@,
            B2ErrorCode::BadRequest => "bad_request"@,
            B2ErrorCode::Other(s) => s@,
        }
    }

    /// Read an error code as the API writes it; codes not known here are kept as they are.
    pub fn from_code(value: String) -> (r: Self)
        ensures
            value@ == "expired_auth_token"@ ==> r is ExpiredAuthToken,
            value@ == "bad_request"@ ==> r is BadRequest,
            value@ != "expired_auth_token"@ && value@ != "bad_request"@ ==> r == B2ErrorCode::Other(
                value,
            ),
            r == code_of(value),
            r.code_spec() == value@,
    {
        proof {
            reveal_strlit("expired_auth_token");
            reveal_strlit("bad_request");
            assert("expired_auth_token"@.len() != "bad_request"@.len());
        }
        if same(value.as_str(), "expired_auth_token") {
            B2ErrorCode::ExpiredAuthToken
        } else if same(value.as_str(), "bad_request") {
            B2ErrorCode::BadRequest
        } else {
            B2ErrorCode::Other(value)
        }
    }

    /// The code as the API writes it.
    pub fn as_str(&self) -> (r: &str)
        ensures
            r@ == self.code_spec(),
    {
        match self {
            B2ErrorCode::ExpiredAuthToken => "expired_auth_token",
            B2ErrorCode::BadRequest => "bad_request",
            B2ErrorCode::Other(s) => s.as_str(),
        }
    }
}

impl From<String> for B2ErrorCode {
    fn from(value: String) -> (r: Self) {
        B2ErrorCode::from_code(value)
    }
}

impl vstd::std_specs::convert::FromSpecImpl<String> for B2ErrorCode {
    open spec fn obeys_from_spec() -> bool {
        true
    }

    open spec fn from_spec(value: String) -> B2ErrorCode {
        code_of(value)
    }
}

/// The SHA-1 digest and length of a file's contents.
#[derive(Debug, Clone, Copy)]
pub struct FileDigest {
    digest: [u8; 20],
    content_length: usize,
}

impl FileDigest {
    /// The digest.
    pub closed spec fn digest_spec(&self) -> Seq<u8> {
        self.digest@
    }

    /// The length of the contents.
    pub closed spec fn length_spec(&self) -> usize {
        self.content_length
    }

    /// Record the `digest` of contents of `content_length` bytes.
    pub fn new(digest: [u8; 20], content_length: usize) -> (r: Self)
        ensures
            r.digest_spec() == digest@,
            r.length_spec() == content_length,
    {
        FileDigest { digest, content_length }
    }

    /// The length of the contents.
    pub fn content_length(&self) -> (r: usize)
        ensures
            r == self.length_spec(),
    {
        self.content_length
    }

    /// The digest.
    pub fn digest(&self) -> (r: &[u8])
        ensures
            r@ == self.digest_spec(),
    {
        self.digest.as_slice()
    }
}

/// A B2 application key: an identifier and the secret key.
#[derive(Clone)]
pub struct B2ApplicationKey {
    key_id: Secret,
    key: Secret,
}

impl B2ApplicationKey {
    /// The key identifier.
    pub closed spec fn key_id_spec(&self) -> Seq<char> {
        self.key_id@
    }

    /// The secret key.
    pub closed spec fn key_spec(&self) -> Seq<char> {
        self.key@
    }

    /// Key identifiers issued by B2 start with `0`, keys with `K`.
    pub open spec fn looks_issued(key_id: Seq<char>, key: Seq<char>) -> bool {
        key_id.len() > 0 && key_id[0] == '0' && key.len() > 0 && key[0] == 'K'
    }

    /// Pair an identifier with its key.
    pub fn new(key_id: Secret, key: Secret) -> (r: Self)
        ensures
            r.key_id_spec() == key_id@,
            r.key_spec() == key@,
    {
        B2ApplicationKey { key_id, key }
    }

    /// Whether the pair has the shape of a key that B2 issued.
    pub fn looks_valid(&self) -> (r: bool)
        ensures
            r == Self::looks_issued(self.key_id_spec(), self.key_spec()),
    {
        starts_with_char(self.key_id.revealed(), '0') && starts_with_char(self.key.revealed(), 'K')
    }

    /// The key: the secret part of the pair.
    pub fn key(&self) -> (r: &Secret)
        ensures
            r@ == self.key_spec(),
    {
        &self.key
    }

    /// The key identifier: the less secret part of the pair.
    pub fn key_id(&self) -> (r: &Secret)
        ensures
            r@ == self.key_id_spec(),
    {
        &self.key_id
    }
}

/// Configuration for a client that uses a separate key per bucket.
#[derive(Clone)]
pub struct B2MultiConfig {
    /// The key of each bucket, by bucket name.
    pub buckets: std::collections::HashMap<String, B2ApplicationKey>,
}

/// The text that the `mime` crate keeps of the MIME type that `s` writes,
/// if `s` writes one.
pub uninterp spec fn mime_text(s: Seq<char>) -> Option<Seq<char>>;

/// Relies on `mime::Mime`'s `FromStr`, and on its `AsRef<str>` for the text
/// it keeps of the parsed type.
#[verifier::external_body]
fn parse_mime(s: &str) -> (r: Option<String>)
    ensures
        r is Some <==> mime_text(s@) is Some,
        r is Some ==> r.unwrap()@ == mime_text(s@).unwrap(),
{
    let parsed: mime::Mime = s.parse().ok()?;
    Some(parsed.as_ref().to_owned())
}

/// A text that is no content type.
#[derive(Debug, Clone)]
pub struct Invalid(pub String);

impl Invalid {
    /// The error's text: `Invalid MIME type: ` and the refused text.
    pub fn message(&self) -> (r: String)
        ensures
            r@ == "Invalid MIME type: "@ + self.0@,
    {
        let mut out = "Invalid MIME type: ".to_owned();
        out.append(self.0.as_str());
        out
    }
}

/// The content type of a B2 file.
#[derive(Debug, Clone)]
pub enum BzMime {
    /// B2 picks the type from the file name.
    Auto,
    /// The marker of a hidden file.
    Hide,
    /// A MIME type, as the `mime` crate keeps its text.
    Mime(String),
    /// Any other text with a slash.
    Custom(String),
}

impl BzMime {
    /// The type as B2 writes it.
    pub open spec fn text_spec(self) -> Seq<char> {
        match self {
            BzMime::Auto => "b2/x-auto"@,
            BzMime::Hide => "application/x-bz-hide-marker"@,
            BzMime::Mime(t) => t@,
            BzMime::Custom(t) => t@,
        }
    }

    /// Read a content type: a MIME type where the `mime` crate reads one,
    /// else the hide marker, the automatic type, or any other text with a
    /// slash.
    pub fn parse(s: &str) -> (r: Result<BzMime, Invalid>)
        ensures
            mime_text(s@) is Some ==> r is Ok && r->Ok_0 is Mime && r->Ok_0.text_spec() == mime_text(
                s@,
            ).unwrap(),
            mime_text(s@) is None && s@ == "application/x-bz-hide-marker"@ ==> r is Ok
                && r->Ok_0 is Hide,
            mime_text(s@) is None && s@ == "b2/x-auto"@ ==> r is Ok && r->Ok_0 is Auto,
            mime_text(s@) is None && s@ != "application/x-bz-hide-marker"@ && s@ != "b2/x-auto"@
                ==> (if s@.contains('/') {
                r is Ok && r->Ok_0 is Custom && r->Ok_0.text_spec() == s@
            } else {
                r is Err && r->Err_0.0@ == s@
            }),
    {
        proof {
            reveal_strlit("application/x-bz-hide-marker");
            reveal_strlit("b2/x-auto");
            assert("application/x-bz-hide-marker"@.len() != "b2/x-auto"@.len());
        }
        match parse_mime(s) {
            Some(t) => return Ok(BzMime::Mime(t)),
            None => {},
        }
        if same(s, "application/x-bz-hide-marker") {
            return Ok(BzMime::Hide);
        }
        if same(s, "b2/x-auto") {
            return Ok(BzMime::Auto);
        }
        if contains_char(s, '/') {
            return Ok(BzMime::Custom(s.to_owned()));
        }
        Err(Invalid(s.to_owned()))
    }

    /// The type as B2 writes it.
    pub fn as_str(&self) -> (r: &str)
        ensures
            r@ == self.text_spec(),
    {
        match self {
            BzMime::Auto => "b2/x-auto",
            BzMime::Hide => "application/x-bz-hide-marker",
            BzMime::Mime(t) => t.as_str(),
            BzMime::Custom(t) => t.as_str(),
        }
    }
}

} // verus!
