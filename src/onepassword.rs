//! Values of the 1Password Connect API: identifiers, items, fields and references.
use vstd::prelude::*;

use crate::auth::{bearer_auth, bearer_header};
use crate::secret::Secret;
use crate::text::same;

verus! {

/// A 1Password identifier.
#[derive(Debug, Clone)]
pub struct VaultID(String);

impl View for VaultID {
    type V = Seq<char>;

    closed spec fn view(&self) -> Seq<char> {
        self.0@
    }
}

impl VaultID {
    /// The identifier `id`.
    pub fn new(id: String) -> (r: Self)
        ensures
            r@ == id@,
    {
        VaultID(id)
    }

    /// The identifier's text.
    pub fn as_str(&self) -> (r: &str)
        ensures
            r@ == self@,
    {
        self.0.as_str()
    }
}

/// A 1Password identifier.
#[derive(Debug, Clone)]
pub struct ItemID(String);

impl View for ItemID {
    type V = Seq<char>;

    closed spec fn view(&self) -> Seq<char> {
        self.0@
    }
}

impl ItemID {
    /// The identifier `id`.
    pub fn new(id: String) -> (r: Self)
        ensures
            r@ == id@,
    {
        ItemID(id)
    }

    /// The identifier's text.
    pub fn as_str(&self) -> (r: &str)
        ensures
            r@ == self@,
    {
        self.0.as_str()
    }
}

/// A 1Password identifier.
#[derive(Debug, Clone)]
pub struct SectionID(String);

impl View for SectionID {
    type V = Seq<char>;

    closed spec fn view(&self) -> Seq<char> {
        self.0@
    }
}

impl SectionID {
    /// The identifier `id`.
    pub fn new(id: String) -> (r: Self)
        ensures
            r@ == id@,
    {
        SectionID(id)
    }

    /// The identifier's text.
    pub fn as_str(&self) -> (r: &str)
        ensures
            r@ == self@,
    {
        self.0.as_str()
    }
}

/// A 1Password identifier.
#[derive(Debug, Clone)]
pub struct FieldID(String);

impl View for FieldID {
    type V = Seq<char>;

    closed spec fn view(&self) -> Seq<char> {
        self.0@
    }
}

impl FieldID {
    /// The identifier `id`.
    pub fn new(id: String) -> (r: Self)
        ensures
            r@ == id@,
    {
        FieldID(id)
    }

    /// The identifier's text.
    pub fn as_str(&self) -> (r: &str)
        ensures
            r@ == self@,
    {
        self.0.as_str()
    }
}

/// Authentication with a 1Password Connect token.
#[derive(Clone)]
pub struct OnePasswordApiAuthentication {
    token: Secret,
}

impl OnePasswordApiAuthentication {
    /// The token.
    pub closed spec fn token_spec(&self) -> Seq<char> {
        self.token@
    }

    /// Authenticate with `token`.
    pub fn new(token: Secret) -> (r: Self)
        ensures
            r.token_spec() == token@,
    {
        OnePasswordApiAuthentication { token }
    }

    /// The value of the `Authorization` header: a bearer token.
    pub fn header_value(&self) -> (r: String)
        ensures
            r@ == bearer_header(self.token_spec()),
    {
        bearer_auth(self.token.revealed())
    }
}

/// The kinds of object that the API serves.
#[derive(Debug, Clone, Copy, PartialEq, Eq, Structural)]
pub enum Kind {
    Vault,
    Item,
    File,
}

impl Kind {
    /// The kind's name.
    pub fn name(&self) -> (r: &'static str)
        ensures
            r@ == match self {
                Kind::Vault => "Vault"@,
                Kind::Item => "Item"@,
                Kind::File => "File"@,
            },
    {
        match self {
            Kind::Vault => "Vault",
            Kind::Item => "Item",
            Kind::File => "File",
        }
    }
}

/// Information about a vault.
#[derive(Debug, Clone)]
pub struct VaultInfo {
    /// The 1Password identifier for this vault.
    pub id: VaultID,
}

/// The category of a 1Password item.
#[derive(Debug, Clone, Copy, PartialEq, Eq, Structural, Hash)]
pub enum Category {
    Login,
    Password,
    ApiCredential,
    Server,
    Database,
    CreditCard,
    Membership,
    Passport,
    SoftwareLicense,
    OutdoorLicense,
    SecureNote,
    WirelessRouter,
    BankAccount,
    DriverLicense,
    Identity,
    RewardProgram,
    Document,
    EmailAccount,
    SocialSecurityNumber,
    MedicalRecord,
    SshKey,
}

impl Category {
    /// The categories whose items can be looked up as secrets.
    pub open spec fn holds_secret(self) -> bool {
        matches!(self, Category::Login | Category::ApiCredential | Category::Server
            | Category::Database | Category::SoftwareLicense | Category::WirelessRouter
            | Category::EmailAccount | Category::SshKey)
    }

    /// Can this item be used as a target for looking up a secret?
    pub fn is_secret(&self) -> (r: bool)
        ensures
            r == self.holds_secret(),
    {
        match self {
            Category::Login => true,
            Category::Password => false,
            Category::ApiCredential => true,
            Category::Server => true,
            Category::Database => true,
            Category::CreditCard => false,
            Category::Membership => false,
            Category::Passport => false,
            Category::SoftwareLicense => true,
            Category::OutdoorLicense => false,
            Category::SecureNote => false,
            Category::WirelessRouter => true,
            Category::BankAccount => false,
            Category::DriverLicense => false,
            Category::Identity => false,
            Category::RewardProgram => false,
            Category::Document => false,
            Category::EmailAccount => true,
            Category::SocialSecurityNumber => false,
            Category::MedicalRecord => false,
            Category::SshKey => true,
        }
    }
}

/// Information about a section of an item.
#[derive(Debug, Clone)]
pub struct SectionInfo {
    /// The ID of the section.
    pub id: SectionID,
}

/// The types of field in a 1Password item.
#[derive(Debug, Clone, Copy, PartialEq, Eq, Structural)]
pub enum FieldType {
    String,
    Email,
    Concealed,
    Url,
    Otp,
    Date,
    MonthYear,
    Menu,
}

impl FieldType {
    /// Whether the field's value is concealed.
    pub fn concealed(&self) -> (r: bool)
        ensures
            r == (*self == FieldType::Concealed),
    {
        match self {
            FieldType::Concealed => true,
            _ => false,
        }
    }
}

/// A field of a 1Password item.
#[derive(Clone)]
pub struct Field {
    /// The ID of the field.
    pub id: FieldID,
    /// The type of the field.
    pub field_type: FieldType,
    /// The label of the field.
    pub label: Option<String>,
    /// The value of the field.
    pub value: Option<Secret>,
    /// The section of the field.
    pub section: Option<SectionInfo>,
}

/// A section of a 1Password item.
#[derive(Debug, Clone)]
pub struct Section {
    /// The ID of the section.
    pub id: SectionID,
    /// The label shown for the section.
    pub label: Option<String>,
}

/// The summary returned when items are queried.
#[derive(Debug, Clone)]
pub struct ItemSummary {
    /// The identifier of the item.
    pub id: ItemID,
    /// The title of the item.
    pub title: String,
    /// The category of the item.
    pub category: Category,
}

/// The text that percent-decoding `text` gives, where its bytes are UTF-8.
pub uninterp spec fn percent_decoded(text: Seq<char>) -> Option<Seq<char>>;

/// Relies on `percent_encoding::percent_decode` and `PercentDecode::decode_utf8`,
/// which fails where the decoded bytes are not UTF-8.
#[verifier::external_body]
fn percent_decode(text: &str) -> (r: Option<String>)
    ensures
        r is Some <==> percent_decoded(text@) is Some,
        r is Some ==> r.unwrap()@ == percent_decoded(text@).unwrap(),
{
    let decoded = percent_encoding::percent_decode(text.as_bytes()).decode_utf8().ok()?;
    Some(decoded.into_owned())
}

/// The parts of a URL that a secret reference is read from.
#[derive(Debug, Clone)]
pub struct SecretUrl {
    /// The scheme.
    pub scheme: String,
    /// The host, if the URL has one.
    pub host: Option<String>,
    /// The segments of the path, if the URL has a hierarchical path.
    pub segments: Option<Vec<String>>,
}

/// Why a URL is no secret reference.
#[derive(Debug, Clone, PartialEq, Eq)]
pub enum InvalidSecretUrl {
    /// The scheme is not `op`.
    UnexpectedScheme,
    /// The path has fewer than two segments.
    MissingPathSegments,
    /// The URL has no host, which names the vault.
    MissingVault,
    /// Percent-decoding a segment gave bytes that are not UTF-8.
    Utf8Error { field: &'static str },
}

/// A reference to a field of a 1Password item: `op://<vault>/<item>/[<section>/]<field>`.
#[derive(Debug, Clone)]
pub struct SecretReference {
    vault: String,
    item: String,
    section: Option<String>,
    field: String,
}

/// The parts of a reference: vault, item, section and field.
pub type ReferenceParts = (Seq<char>, Seq<char>, Option<Seq<char>>, Seq<char>);

/// What reading `url` as a secret reference gives: the vault is the host,
/// the item the first segment, the field the last, and the section the
/// second where there are three or more; each segment percent-decoded.
pub open spec fn reference_of(scheme: Seq<char>, host: Option<Seq<char>>, segments: Option<Seq<Seq<char>>>) -> Result<ReferenceParts, InvalidSecretUrl> {
    let n = match segments {
        Some(s) => s.len(),
        None => 0,
    };
    if scheme != "op"@ {
        Err(InvalidSecretUrl::UnexpectedScheme)
    } else if n < 2 {
        Err(InvalidSecretUrl::MissingPathSegments)
    } else if host is None {
        Err(InvalidSecretUrl::MissingVault)
    } else {
        let segs = segments.unwrap();
        if percent_decoded(segs[0]) is None {
            Err(InvalidSecretUrl::Utf8Error { field: "name" })
        } else if percent_decoded(segs.last()) is None {
            Err(InvalidSecretUrl::Utf8Error { field: "field" })
        } else if n > 2 && percent_decoded(segs[1]) is None {
            Err(InvalidSecretUrl::Utf8Error { field: "section" })
        } else {
            Ok((
                host.unwrap(),
                percent_decoded(segs[0]).unwrap(),
                if n > 2 { Some(percent_decoded(segs[1]).unwrap()) } else { None },
                percent_decoded(segs.last()).unwrap(),
            ))
        }
    }
}

/// The characters of each text.
pub open spec fn texts(v: Seq<String>) -> Seq<Seq<char>> {
    v.map_values(|s: String| s@)
}

impl SecretUrl {
    /// The segments of the path as characters.
    pub open spec fn segment_texts(&self) -> Option<Seq<Seq<char>>> {
        match self.segments {
            Some(v) => Some(texts(v@)),
            None => None,
        }
    }

    /// The host as characters.
    pub open spec fn host_text(&self) -> Option<Seq<char>> {
        match self.host {
            Some(h) => Some(h@),
            None => None,
        }
    }
}

impl SecretReference {
    /// The vault, item, section and field of the reference.
    pub closed spec fn parts(&self) -> ReferenceParts {
        (
            self.vault@,
            self.item@,
            match self.section {
                Some(s) => Some(s@),
                None => None,
            },
            self.field@,
        )
    }

    /// Read a secret reference from the parts of a URL.
    pub fn parse(url: &SecretUrl) -> (r: Result<SecretReference, InvalidSecretUrl>)
        ensures
            match reference_of(url.scheme@, url.host_text(), url.segment_texts()) {
                Ok(parts) => r is Ok && r->Ok_0.parts() == parts,
                Err(e) => r == Err::<SecretReference, InvalidSecretUrl>(e),
            },
    {
        proof {
            reveal_strlit("op");
        }
        if !same(url.scheme.as_str(), "op") {
            return Err(InvalidSecretUrl::UnexpectedScheme);
        }
        let n = match &url.segments {
            Some(s) => s.len(),
            None => 0,
        };
        if n < 2 {
            return Err(InvalidSecretUrl::MissingPathSegments);
        }
        let vault = match &url.host {
            Some(h) => h.clone(),
            None => return Err(InvalidSecretUrl::MissingVault),
        };
        let segments = match &url.segments {
            Some(s) => s,
            None => return Err(InvalidSecretUrl::MissingPathSegments),
        };
        proof {
            assert(texts(segments@)[0] == segments@[0]@);
            assert(texts(segments@).last() == segments@[n - 1]@);
            assert(texts(segments@)[1] == segments@[1]@);
        }
        let item = match percent_decode(segments[0].as_str()) {
            Some(t) => t,
            None => return Err(InvalidSecretUrl::Utf8Error { field: "name" }),
        };
        let field = match percent_decode(segments[n - 1].as_str()) {
            Some(t) => t,
            None => return Err(InvalidSecretUrl::Utf8Error { field: "field" }),
        };
        let section = if n > 2 {
            match percent_decode(segments[1].as_str()) {
                Some(t) => Some(t),
                None => return Err(InvalidSecretUrl::Utf8Error { field: "section" }),
            }
        } else {
            None
        };
        Ok(SecretReference { vault, item, section, field })
    }

    /// The vault: the URL's host.
    pub fn vault(&self) -> (r: &str)
        ensures
            r@ == self.parts().0,
    {
        self.vault.as_str()
    }

    /// The item: the first segment.
    pub fn item(&self) -> (r: &str)
        ensures
            r@ == self.parts().1,
    {
        self.item.as_str()
    }

    /// The section: the second segment, where there are three or more.
    pub fn section(&self) -> (r: Option<&str>)
        ensures
            r is Some <==> self.parts().2 is Some,
            r is Some ==> r.unwrap()@ == self.parts().2.unwrap(),
    {
        match &self.section {
            Some(s) => Some(s.as_str()),
            None => None,
        }
    }

    /// The field: the last segment.
    pub fn field(&self) -> (r: &str)
        ensures
            r@ == self.parts().3,
    {
        self.field.as_str()
    }
}

} // verus!
