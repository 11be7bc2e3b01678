//! Values of the Linode API: domains, their records, and instances.
use vstd::prelude::*;
use vstd::string::StringExecFns;

use crate::secret::Secret;
use crate::text::{decimal, decimal_text, same, trim_end, trim_end_char};

verus! {

/// Configuration for the Linode API.
#[derive(Clone)]
pub struct LinodeConfiguration {
    /// API token.
    pub token: Secret,
}

/// A Linode API error message.
#[derive(Debug, Clone)]
pub struct ApiError {
    reason: String,
}

impl ApiError {
    /// Why the API refused the request.
    pub closed spec fn reason_spec(&self) -> Seq<char> {
        self.reason@
    }

    /// An error for `reason`.
    pub fn new(reason: String) -> (r: Self)
        ensures
            r.reason_spec() == reason@,
    {
        ApiError { reason }
    }

    /// The message: `reason: ` and the reason.
    pub fn message(&self) -> (r: String)
        ensures
            r@ == "reason: "@ + self.reason_spec(),
    {
        let mut out = "reason: ".to_owned();
        out.append(self.reason.as_str());
        out
    }
}

/// A Linode API error response.
#[derive(Debug, Clone)]
pub struct ErrorResponse {
    /// The errors returned by the Linode API.
    pub errors: Vec<ApiError>,
}

/// The text of an error response: a heading line, then one line per reason.
pub open spec fn response_text(errors: Seq<ApiError>) -> Seq<char>
    decreases errors.len(),
{
    if errors.len() == 0 {
        "Linode API Errors: \n"@
    } else {
        response_text(errors.drop_last()) + errors.last().reason_spec() + "\n"@
    }
}

impl ErrorResponse {
    /// The heading `Linode API Errors: ` and each reason on a line of its own.
    pub fn message(&self) -> (r: String)
        ensures
            r@ == response_text(self.errors@),
    {
        let mut out = "Linode API Errors: \n".to_owned();
        let mut i: usize = 0;
        while i < self.errors.len()
            invariant
                i <= self.errors@.len(),
                out@ == response_text(self.errors@.subrange(0, i as int)),
            decreases self.errors@.len() - i,
        {
            proof {
                assert(self.errors@.subrange(0, i + 1).drop_last() =~= self.errors@.subrange(0, i as int));
            }
            out.append(self.errors[i].reason.as_str());
            out.append("\n");
            i = i + 1;
        }
        assert(self.errors@.subrange(0, i as int) =~= self.errors@);
        out
    }
}

/// An identifier that Linode hands out.
#[derive(Debug, Clone, Copy, PartialEq, Eq, Structural, Hash)]
pub struct LinodeID(pub usize);

impl LinodeID {
    /// The identifier in decimal.
    pub fn text(&self) -> (r: String)
        ensures
            r@ == decimal(self.0 as nat),
    {
        decimal_text(self.0)
    }
}

/// The identifier of a Linode domain.
#[derive(Debug, Clone, Copy, PartialEq, Eq, Structural, Hash)]
pub struct DomainID(pub LinodeID);

impl DomainID {
    /// The identifier in decimal.
    pub fn text(&self) -> (r: String)
        ensures
            r@ == decimal((self.0).0 as nat),
    {
        self.0.text()
    }
}

/// The identifier of a Linode domain record: its domain and its own number.
#[derive(Debug, Clone, Copy, PartialEq, Eq, Structural, Hash)]
pub struct RecordID {
    domain: DomainID,
    record: LinodeID,
}

impl RecordID {
    /// The domain of the record.
    pub closed spec fn domain_spec(&self) -> DomainID {
        self.domain
    }

    /// The record's own number.
    pub closed spec fn id_spec(&self) -> LinodeID {
        self.record
    }

    /// The record `record` of `domain`.
    pub fn new(domain: DomainID, record: LinodeID) -> (r: Self)
        ensures
            r.domain_spec() == domain,
            r.id_spec() == record,
    {
        RecordID { domain, record }
    }

    /// The domain ID of the record.
    pub fn domain(&self) -> (r: DomainID)
        ensures
            r == self.domain_spec(),
    {
        self.domain
    }

    /// The record ID.
    pub fn id(&self) -> (r: LinodeID)
        ensures
            r == self.id_spec(),
    {
        self.record
    }

    /// The record's own number in decimal.
    pub fn text(&self) -> (r: String)
        ensures
            r@ == decimal(self.id_spec().0 as nat),
    {
        self.record.text()
    }
}

/// A Linode domain.
#[derive(Debug, Clone)]
pub struct Domain {
    id: DomainID,
    name: String,
}

impl Domain {
    /// The domain's ID.
    pub closed spec fn id_spec(&self) -> DomainID {
        self.id
    }

    /// The domain's name.
    pub closed spec fn name_spec(&self) -> Seq<char> {
        self.name@
    }

    /// The domain `name` with the ID `id`.
    pub fn new(id: DomainID, name: String) -> (r: Self)
        ensures
            r.id_spec() == id,
            r.name_spec() == name@,
    {
        Domain { id, name }
    }

    /// The ID of the domain.
    pub fn id(&self) -> (r: DomainID)
        ensures
            r == self.id_spec(),
    {
        self.id
    }

    /// The name of the domain.
    pub fn name(&self) -> (r: &str)
        ensures
            r@ == self.name_spec(),
    {
        self.name.as_str()
    }

    /// The domain name.
    pub fn domain(&self) -> (r: &str)
        ensures
            r@ == self.name_spec(),
    {
        self.name.as_str()
    }

    /// The domain's ID and name: `<id>/<name>`.
    pub fn text(&self) -> (r: String)
        ensures
            r@ == decimal((self.id_spec().0).0 as nat) + "/"@ + self.name_spec(),
    {
        let mut out = self.id.text();
        out.append("/");
        out.append(self.name.as_str());
        out
    }
}

/// Kinds of subdomain that can be created in Linode domain records.
#[derive(Debug, Clone)]
pub enum SubDomain {
    /// A specific, named subdomain.
    Named(String),
    /// The "empty" subdomain, which is the root domain.
    Root,
    /// A wildcard subdomain, which matches any subdomain.
    Wildcard,
}

impl SubDomain {
    /// The form used in DNS records.
    pub open spec fn text(self) -> Seq<char> {
        match self {
            SubDomain::Named(name) => name@,
            SubDomain::Root => "@"@,
            SubDomain::Wildcard => "*"@,
        }
    }

    /// The full name under `domain`: a named subdomain without trailing dots,
    /// a dot and the domain; the domain itself; or `*.` and the domain.
    pub open spec fn full_name(self, domain: Seq<char>) -> Seq<char> {
        match self {
            SubDomain::Named(name) => trim_end(name@, '.') + "."@ + domain,
            SubDomain::Root => domain,
            SubDomain::Wildcard => "*."@ + domain,
        }
    }

    /// The full name of this subdomain under `domain`.
    pub fn with_domain(&self, domain: &Domain) -> (r: String)
        ensures
            r@ == self.full_name(domain.name_spec()),
    {
        match self {
            SubDomain::Named(name) => {
                let mut out = trim_end_char(name.as_str(), '.').to_owned();
                out.append(".");
                out.append(domain.name());
                out
            },
            SubDomain::Root => domain.name().to_owned(),
            SubDomain::Wildcard => {
                let mut out = "*.".to_owned();
                out.append(domain.name());
                out
            },
        }
    }

    /// The form used in DNS records.
    pub fn as_str(&self) -> (r: &str)
        ensures
            r@ == self.text(),
    {
        match self {
            SubDomain::Named(name) => name.as_str(),
            SubDomain::Root => "@",
            SubDomain::Wildcard => "*",
        }
    }

    /// The subdomain that the record name `value` stands for.
    pub fn from_text(value: &str) -> (r: Self)
        ensures
            (value@ == ""@ || value@ == "@"@) ==> r is Root,
            value@ == "*"@ ==> r is Wildcard,
            (value@ != ""@ && value@ != "@"@ && value@ != "*"@) ==> r is Named && r.text()
                == value@,
    {
        proof {
            reveal_strlit("");
            reveal_strlit("@");
            reveal_strlit("*");
            assert(""@.len() == 0 && "@"@.len() == 1 && "*"@.len() == 1 && "@"@[0] != "*"@[0]);
        }
        if same(value, "") || same(value, "@") {
            SubDomain::Root
        } else if same(value, "*") {
            SubDomain::Wildcard
        } else {
            SubDomain::Named(value.to_owned())
        }
    }

    /// Whether this subdomain is the one that the record name `other` stands for.
    pub fn matches(&self, other: &str) -> (r: bool)
        ensures
            (other@ == ""@ || other@ == "@"@) ==> r == (self is Root),
            other@ == "*"@ ==> r == (self is Wildcard),
            (other@ != ""@ && other@ != "@"@ && other@ != "*"@) ==> r == (self.text() == other@),
    {
        proof {
            reveal_strlit("");
            reveal_strlit("@");
            reveal_strlit("*");
            assert(""@.len() == 0 && "@"@.len() == 1 && "*"@.len() == 1 && "@"@[0] != "*"@[0]);
        }
        if same(other, "") || same(other, "@") {
            match self {
                SubDomain::Root => true,
                _ => false,
            }
        } else if same(other, "*") {
            match self {
                SubDomain::Wildcard => true,
                _ => false,
            }
        } else {
            same(self.as_str(), other)
        }
    }
}

/// DNS record types that can be created in Linode domain records.
#[derive(Debug, Clone, Copy, PartialEq, Eq, Structural, Hash, PartialOrd, Ord)]
#[allow(clippy::upper_case_acronyms)]
pub enum RecordType {
    /// Maps a domain to an IPv4 address.
    A,
    /// Maps a domain to an IPv6 address.
    AAAA,
    /// Maps a domain to another domain.
    CNAME,
    /// Arbitrary text data.
    TXT,
    /// Service location data.
    SRV,
    /// Mail exchange data.
    MX,
    /// Name server data.
    NS,
    /// Certificate authority data.
    CAA,
    /// Pointer data.
    PTR,
}

impl RecordType {
    /// The type's name as DNS writes it.
    pub fn name(&self) -> (r: &'static str)
        ensures
            r@ == match self {
                RecordType::A => "A"@,
                RecordType::AAAA => "AAAA"@,
                RecordType::CNAME => "CNAME"@,
                RecordType::TXT => "TXT"@,
                RecordType::SRV => "SRV"@,
                RecordType::MX => "MX"@,
                RecordType::NS => "NS"@,
                RecordType::CAA => "CAA"@,
                RecordType::PTR => "PTR"@,
            },
    {
        match self {
            RecordType::A => "A",
            RecordType::AAAA => "AAAA",
            RecordType::CNAME => "CNAME",
            RecordType::TXT => "TXT",
            RecordType::SRV => "SRV",
            RecordType::MX => "MX",
            RecordType::NS => "NS",
            RecordType::CAA => "CAA",
            RecordType::PTR => "PTR",
        }
    }
}

/// A Linode domain record.
#[derive(Debug, Clone)]
pub struct Record {
    kind: RecordType,
    name: String,
    target: String,
    id: RecordID,
}

impl Record {
    /// The record's type.
    pub closed spec fn kind_spec(&self) -> RecordType {
        self.kind
    }

    /// The record's name.
    pub closed spec fn name_spec(&self) -> Seq<char> {
        self.name@
    }

    /// The record's target.
    pub closed spec fn target_spec(&self) -> Seq<char> {
        self.target@
    }

    /// The record's ID.
    pub closed spec fn id_spec(&self) -> RecordID {
        self.id
    }

    /// The record `record` of `domain`, as the API lists it.
    pub fn new(kind: RecordType, name: String, target: String, record: LinodeID, domain: DomainID) -> (r: Self)
        ensures
            r.kind_spec() == kind,
            r.name_spec() == name@,
            r.target_spec() == target@,
            r.id_spec() == RecordID::new_spec(domain, record),
    {
        Record { kind, name, target, id: RecordID::new(domain, record) }
    }

    /// The ID of the record.
    pub fn id(&self) -> (r: RecordID)
        ensures
            r == self.id_spec(),
    {
        self.id
    }

    /// The name of the record.
    pub fn name(&self) -> (r: &str)
        ensures
            r@ == self.name_spec(),
    {
        self.name.as_str()
    }

    /// The subdomain that the record's name stands for.
    pub fn subdomain(&self) -> (r: SubDomain)
        ensures
            (self.name_spec() == ""@ || self.name_spec() == "@"@) ==> r is Root,
            self.name_spec() == "*"@ ==> r is Wildcard,
            (self.name_spec() != ""@ && self.name_spec() != "@"@ && self.name_spec() != "*"@)
                ==> r is Named && r.text() == self.name_spec(),
    {
        SubDomain::from_text(self.name.as_str())
    }

    /// The target of the record.
    pub fn target(&self) -> (r: &str)
        ensures
            r@ == self.target_spec(),
    {
        self.target.as_str()
    }

    /// The type of the record.
    pub fn record_type(&self) -> (r: &RecordType)
        ensures
            *r == self.kind_spec(),
    {
        &self.kind
    }
}

impl RecordID {
    /// The record `record` of `domain`.
    pub closed spec fn new_spec(domain: DomainID, record: LinodeID) -> RecordID {
        RecordID { domain, record }
    }
}

/// The status of a Linode instance.
#[derive(Debug, Clone, Copy, PartialEq, Eq, Structural)]
pub enum InstanceStatus {
    Running,
    Offline,
    Booting,
    Rebooting,
    ShuttingDown,
    Provisioning,
    Deleting,
    Migrating,
    Rebuilding,
    Cloning,
    Restoring,
    Stopped,
}

/// The record lifetimes, in seconds, that Linode accepts.
pub open spec fn accepted_ttls() -> Seq<u64> {
    seq![300, 3600, 7200, 14400, 28800, 57600, 86400, 172800, 345600, 604800, 1209600, 2419200]
}

/// The lifetime to send for a record meant to live `secs` seconds.
pub fn ttl(secs: u64) -> (r: u64)
    ensures
        accepted_ttls().contains(secs) ==> r == secs,
        !accepted_ttls().contains(secs) ==> (exists|i: int|
            0 <= i < accepted_ttls().len() && accepted_ttls()[i] > secs) ==> (accepted_ttls().contains(r) && r > secs
            && forall|j: int| 0 <= j < accepted_ttls().len() && accepted_ttls()[j] > secs ==> r <= accepted_ttls()[j]),
        (forall|j: int| 0 <= j < accepted_ttls().len() ==> accepted_ttls()[j] <= secs) ==> r == secs,
{
    let table: [u64; 12] = [300, 3600, 7200, 14400, 28800, 57600, 86400, 172800, 345600, 604800, 1209600, 2419200];
    assert(table@ =~= accepted_ttls());
    let mut i: usize = 0;
    while i < 12
        invariant
            table@ == accepted_ttls(),
            i <= 12,
            forall|j: int| 0 <= j < i ==> table@[j] != secs,
        decreases 12 - i,
    {
        if table[i] == secs {
            return secs;
        }
        i = i + 1;
    }
    assert(!accepted_ttls().contains(secs));
    let mut k: usize = 0;
    while k < 12
        invariant
            table@ == accepted_ttls(),
            k <= 12,
            !accepted_ttls().contains(secs),
            forall|j: int| 0 <= j < k ==> table@[j] <= secs,
        decreases 12 - k,
    {
        if table[k] > secs {
            proof {
                assert forall|j: int| 0 <= j < 12 && accepted_ttls()[j] > secs implies table@[k as int] <= accepted_ttls()[j] by {
                    if j < k {
                    } else {
                        assert(table@[k as int] <= table@[j]);
                    }
                }
            }
            return table[k];
        }
        k = k + 1;
    }
    secs
}

} // verus!
