use echocache::auth::{basic_auth, bearer_auth, BasicAuth, BearerAuth};
use echocache::b2::{Action, B2ApplicationKey, B2ErrorCode, BucketID, BucketType, BzMime, FileDigest};
use echocache::linode::{ttl, ApiError, Domain, DomainID, ErrorResponse, LinodeID, Record, RecordType, SubDomain};
use echocache::onepassword::{Category, FieldType, Kind, OnePasswordApiAuthentication};
use echocache::registry::{
    validate_digest, validate_manifest_type, validate_repository, RegistryBuilder, RegistryError,
    RegistryStorage,
};
use echocache::retry::{Attempts, Backoff};
use echocache::secret::Secret;
use echocache::span::Span;
use echocache::storage::DriverUri;
use echocache::tailscale::{IpVersion, TailscaleApiAuth, TailscaleError};
use echocache::text::{contains_text, trim_end_char};
use echocache::timeout::{SharedDuration, SharedTimeoutLayer, TimeoutService};

#[test]
fn secret_hidden_debug() {
    let key = "secret garden";
    let apikey = Secret::from(key.to_string());
    assert!(!apikey.redacted().contains("secret garden"));
    assert_eq!(&apikey.redacted(), "Secret(****)");
    assert_eq!(apikey.revealed(), key);
}

#[test]
fn basic_auth_encodes_credentials() {
    assert_eq!(basic_auth("user", Some("pass")), "Basic dXNlcjpwYXNz");
    assert_eq!(basic_auth("user", None), "Basic dXNlcjo=");
    let auth = BasicAuth::new("user".to_string(), Some(Secret::from_str("pass")));
    assert_eq!(auth.header_value(), "Basic dXNlcjpwYXNz");
    let ts = TailscaleApiAuth(Secret::from_str("tskey"));
    assert_eq!(ts.header_value(), "Basic dHNrZXk6");
}

#[test]
fn bearer_auth_prefixes_token() {
    assert_eq!(bearer_auth("my-secret"), "Bearer my-secret");
    assert_eq!(BearerAuth::new(Secret::from_str("my-secret")).header_value(), "Bearer my-secret");
    let op = OnePasswordApiAuthentication::new(Secret::from_str("tok"));
    assert_eq!(op.header_value(), "Bearer tok");
}

#[test]
fn span_arithmetic() {
    let s = Span::new(1, 1_500_000_000);
    assert_eq!(s.as_secs(), 2);
    assert_eq!(s.subsec_nanos(), 500_000_000);
    assert_eq!(Span::from_millis(1500).as_total(), 1_500_000_000);
    assert_eq!(Span::from_secs(3).checked_mul(4).map(|d| d.as_secs()), Some(12));
    assert!(Span::from_secs(u64::MAX).checked_mul(2).is_none());
    assert_eq!(Span::saturating_new(u64::MAX, 2_000_000_000).as_total(), Span::longest().as_total());
}

#[test]
fn backoff_grows_until_max() {
    let b = Backoff::new(Span::from_millis(100), 2, Span::from_millis(500));
    let b1 = b.increment().unwrap();
    assert_eq!(b1.delay.as_total(), 200_000_000);
    let b2 = b1.increment().unwrap();
    assert_eq!(b2.delay.as_total(), 400_000_000);
    assert!(b2.increment().is_none());
    let big = Backoff::new(Span::from_secs(u64::MAX), 2, Span::from_secs(u64::MAX));
    assert!(big.increment().is_none());
    assert_eq!(b.rate_limited(Span::from_secs(7)).delay.as_secs(), 7);
}

#[test]
fn backoff_retry_decisions() {
    let b = Backoff::new(Span::from_millis(100), 2, Span::from_secs(10));
    assert_eq!(b.retry(Some(504), None).unwrap().delay.as_total(), 200_000_000);
    assert_eq!(b.retry(Some(408), None).unwrap().delay.as_total(), 200_000_000);
    assert_eq!(b.retry(Some(503), None).unwrap().delay.as_total(), 200_000_000);
    assert_eq!(b.retry(None, None).unwrap().delay.as_total(), 200_000_000);
    assert_eq!(b.retry(Some(429), Some(3)).unwrap().delay.as_secs(), 3);
    assert_eq!(b.retry(Some(429), None).unwrap().delay.as_total(), 200_000_000);
    assert!(b.retry(Some(404), None).is_none());
    assert!(b.retry(Some(200), None).is_none());
    let done = Backoff::new(Span::from_secs(5), 2, Span::from_secs(10));
    assert!(done.retry(Some(503), None).is_none());
}

#[test]
fn attempts_count_down() {
    let mut a = Attempts::default();
    assert_eq!(a.0, 3);
    assert!(!a.retry(Some(404)));
    assert!(a.retry(Some(500)));
    assert!(a.retry(None));
    assert!(a.retry(Some(599)));
    assert!(!a.retry(Some(500)));
    assert_eq!(a.0, 0);
    assert_eq!(Attempts::new(1).0, 1);
    assert_eq!(Attempts::from(5usize).0, 5);
}

#[test]
fn shared_timeout_is_shared() {
    let layer = SharedTimeoutLayer::new(Span::from_secs(5));
    let service = layer.layer("inner");
    assert_eq!(service.timeout().get().as_secs(), 5);
    layer.timeout().set(Span::from_millis(2500));
    assert_eq!(service.timeout().get().as_total(), 2_500_000_000);
    assert_eq!(*service.service(), "inner");
    let own = TimeoutService::new(1u8, Span::from_secs(1));
    assert_eq!(own.into_service(), 1u8);
    let d = SharedDuration::new(Span::from_secs(9));
    let from = SharedTimeoutLayer::from(d.clone());
    d.set(Span::from_secs(4));
    assert_eq!(from.timeout().get().as_secs(), 4);
}

#[test]
fn b2_values() {
    assert!(matches!(B2ErrorCode::from_code("expired_auth_token".to_string()), B2ErrorCode::ExpiredAuthToken));
    assert!(matches!(B2ErrorCode::from_code("bad_request".to_string()), B2ErrorCode::BadRequest));
    let other = B2ErrorCode::from_code("service_unavailable".to_string());
    assert_eq!(other.as_str(), "service_unavailable");
    assert_eq!(B2ErrorCode::BadRequest.as_str(), "bad_request");
    assert_eq!(Action::from_name("hide"), Some(Action::Hide));
    assert_eq!(Action::from_name("folder"), Some(Action::Folder));
    assert_eq!(Action::from_name("other"), None);
    assert_eq!(BucketType::AllPrivate.name(), "allPrivate");
    assert_eq!(BucketID::new("abc".to_string()).as_str(), "abc");
    let digest = FileDigest::new([7; 20], 12);
    assert_eq!(digest.content_length(), 12);
    assert_eq!(digest.digest(), &[7u8; 20][..]);
    let key = B2ApplicationKey::new(Secret::from_str("001B2-key-id-test"), Secret::from_str("K001B2-key-test"));
    assert!(key.looks_valid());
    assert_eq!(key.key().revealed(), "K001B2-key-test");
    assert_eq!(key.key_id().revealed(), "001B2-key-id-test");
    let odd = B2ApplicationKey::new(Secret::from_str("x"), Secret::from_str("K"));
    assert!(!odd.looks_valid());
}

#[test]
fn linode_subdomains() {
    let domain = Domain::new(DomainID(LinodeID(1)), "example.com".to_string());
    assert_eq!(SubDomain::Named("www..".to_string()).with_domain(&domain), "www.example.com");
    assert_eq!(SubDomain::Root.with_domain(&domain), "example.com");
    assert_eq!(SubDomain::Wildcard.with_domain(&domain), "*.example.com");
    assert!(matches!(SubDomain::from_text(""), SubDomain::Root));
    assert!(matches!(SubDomain::from_text("@"), SubDomain::Root));
    assert!(matches!(SubDomain::from_text("*"), SubDomain::Wildcard));
    assert_eq!(SubDomain::from_text("api").as_str(), "api");
    assert!(SubDomain::Root.matches(""));
    assert!(SubDomain::Wildcard.matches("*"));
    assert!(!SubDomain::Root.matches("*"));
    assert!(SubDomain::Named("api".to_string()).matches("api"));
    assert_eq!(domain.name(), "example.com");
    assert_eq!(domain.domain(), "example.com");
    assert_eq!(domain.id(), DomainID(LinodeID(1)));
}

#[test]
fn linode_records() {
    let r = Record::new(RecordType::AAAA, "@".to_string(), "::1".to_string(), LinodeID(7), DomainID(LinodeID(1)));
    assert_eq!(r.id().id(), LinodeID(7));
    assert_eq!(r.id().domain(), DomainID(LinodeID(1)));
    assert!(matches!(r.subdomain(), SubDomain::Root));
    assert_eq!(r.target(), "::1");
    assert_eq!(r.name(), "@");
    assert_eq!(r.record_type().name(), "AAAA");
}

#[test]
fn linode_ttl_rounds_up() {
    assert_eq!(ttl(300), 300);
    assert_eq!(ttl(0), 300);
    assert_eq!(ttl(301), 3600);
    assert_eq!(ttl(86400), 86400);
    assert_eq!(ttl(3_000_000), 3_000_000);
}

#[test]
fn linode_error_text() {
    let e = ErrorResponse { errors: vec![ApiError::new("a".to_string()), ApiError::new("b".to_string())] };
    assert_eq!(e.message(), "Linode API Errors: \na\nb\n");
    assert_eq!(ApiError::new("bad".to_string()).message(), "reason: bad");
}

#[test]
fn onepassword_values() {
    assert!(Category::Login.is_secret());
    assert!(!Category::Password.is_secret());
    assert!(Category::SshKey.is_secret());
    assert!(FieldType::Concealed.concealed());
    assert!(!FieldType::Email.concealed());
    assert_eq!(Kind::Vault.name(), "Vault");
}

#[test]
fn registry_validation() {
    assert!(validate_repository("library/alpine").is_ok());
    assert!(matches!(validate_repository(""), Err(RegistryError::InvalidRepository(_))));
    assert!(matches!(validate_repository("a/../b"), Err(RegistryError::InvalidRepository(_))));
    assert!(validate_digest("sha256:abc").is_ok());
    assert!(validate_digest("sha256:abc:def").is_ok());
    assert!(matches!(validate_digest("sha256abc"), Err(RegistryError::InvalidDigest(_))));
    assert!(validate_digest(":abc").is_err());
    assert!(validate_digest("sha256:").is_err());
    assert!(validate_manifest_type("application/vnd.oci.image.index.v1+json").is_ok());
    assert!(matches!(validate_manifest_type("text/plain"), Err(RegistryError::UnsupportedManifestType(_))));
}

#[test]
fn registry_error_codes() {
    assert_eq!(RegistryError::BlobNotFound("x".to_string()).status_code(), 404);
    assert_eq!(RegistryError::BlobNotFound("x".to_string()).error_code(), "BLOB_UNKNOWN");
    assert_eq!(RegistryError::RangeNotSatisfiable.status_code(), 416);
    assert_eq!(RegistryError::UnsupportedManifestType("x".to_string()).status_code(), 415);
    assert_eq!(RegistryError::Io("x".to_string()).error_code(), "UNKNOWN");
    assert_eq!(RegistryError::InvalidRepository("x".to_string()).error_code(), "NAME_INVALID");
}

#[test]
fn test_blob_paths() {
    let storage = RegistryStorage::new((), "registry".to_string());
    assert_eq!(storage.blob_path("sha256:abcdef123456"), "blobs/sha256/abcdef123456");
    assert_eq!(storage.blob_path("abcdef"), "blobs/sha256/abcdef");
}

#[test]
fn test_manifest_paths() {
    let storage = RegistryStorage::new((), "registry".to_string());
    assert_eq!(storage.manifest_path("myrepo", "sha256:abcdef123456"), "manifests/myrepo/sha256:abcdef123456");
}

#[test]
fn test_tag_paths() {
    let storage = RegistryStorage::new((), "registry".to_string());
    assert_eq!(storage.tag_path("myrepo", "latest"), "tags/myrepo/latest");
}

#[test]
fn test_builder() {
    let storage = RegistryBuilder::new().storage(5u8).into_storage();
    assert_eq!(storage.bucket(), "registry");
    assert_eq!(*storage.storage(), 5u8);
    let named = RegistryBuilder::new().bucket("images".to_string()).storage(1u8).into_storage();
    assert_eq!(named.bucket(), "images");
}

#[test]
fn tailscale_errors() {
    assert_eq!(TailscaleError::api("x".to_string(), "request failed".to_string()).message(), "Tailscale API error: request failed");
    assert_eq!(TailscaleError::command("ip".to_string(), None).message(), "Command 'ip' failed");
    assert_eq!(TailscaleError::command("ip".to_string(), Some("out".to_string())).message(), "Command 'ip' failed: out");
    let p = TailscaleError::parsing_with_source("IPv4 address".to_string(), "x".to_string(), "bad".to_string());
    assert_eq!(p.message(), "Failed to parse IPv4 address from 'x'");
    assert_eq!(p.source(), Some("bad"));
    assert_eq!(TailscaleError::conversion("path".to_string()).message(), "Failed to convert path");
    assert_eq!(TailscaleError::conversion("path".to_string()).source(), None);
    assert_eq!(TailscaleError::other("plain".to_string()).message(), "plain");
    assert_eq!(TailscaleError::other_with_source("m".to_string(), "s".to_string()).source(), Some("s"));
    assert_eq!(TailscaleError::command_spawn("ip".to_string(), "missing".to_string()).source(), Some("missing"));
    assert_eq!(TailscaleError::parsing("a".to_string(), "b".to_string()).source(), None);
    assert_eq!(TailscaleError::conversion_with_source("a".to_string(), "c".to_string()).source(), Some("c"));
    assert_eq!(IpVersion::V4.ip_arg(), "-4");
    assert_eq!(IpVersion::V6.ip_arg(), "-6");
}

#[test]
fn text_helpers() {
    assert!(contains_text("a..b", ".."));
    assert!(!contains_text("a.b", ".."));
    assert!(contains_text("abc", ""));
    assert_eq!(trim_end_char("name...", '.'), "name");
    assert_eq!(trim_end_char("...", '.'), "");
}

#[test]
fn driver_uri_holds_driver() {
    assert_eq!(*DriverUri::new(3u8).driver(), 3u8);
    let _file: DriverUri<()> = DriverUri::file();
}

#[test]
fn bz_mime_parsing() {
    let m = BzMime::parse("TEXT/Plain").unwrap();
    assert!(matches!(m, BzMime::Mime(_)));
    assert_eq!(m.as_str(), "text/plain");
    let err = BzMime::parse("nonsense").unwrap_err();
    assert_eq!(err.message(), "Invalid MIME type: nonsense");
    assert_eq!(BzMime::Auto.as_str(), "b2/x-auto");
    assert_eq!(BzMime::Hide.as_str(), "application/x-bz-hide-marker");
    assert!(BzMime::parse("application/json").is_ok());
}

#[test]
fn b2_error_code_from_string() {
    let code: B2ErrorCode = "bad_request".to_string().into();
    assert!(matches!(code, B2ErrorCode::BadRequest));
}

#[test]
fn registry_error_messages() {
    assert_eq!(RegistryError::BlobNotFound("sha256:x".to_string()).message(), "blob not found: sha256:x");
    assert_eq!(
        RegistryError::DigestMismatch { expected: "a".to_string(), actual: "b".to_string() }.message(),
        "digest mismatch: expected a, got b"
    );
    assert_eq!(RegistryError::RangeNotSatisfiable.message(), "range not satisfiable");
}

#[test]
fn linode_identifiers_in_decimal() {
    assert_eq!(LinodeID(0).text(), "0");
    assert_eq!(LinodeID(1234).text(), "1234");
    let domain = Domain::new(DomainID(LinodeID(42)), "example.com".to_string());
    assert_eq!(domain.text(), "42/example.com");
    assert_eq!(DomainID(LinodeID(7)).text(), "7");
    let r = Record::new(RecordType::A, "www".to_string(), "1.2.3.4".to_string(), LinodeID(99), DomainID(LinodeID(1)));
    assert_eq!(r.id().text(), "99");
}
