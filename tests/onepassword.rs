use echocache::onepassword::{InvalidSecretUrl, SecretReference, SecretUrl, VaultID};

fn url(scheme: &str, host: Option<&str>, segments: &[&str]) -> SecretUrl {
    SecretUrl {
        scheme: scheme.to_string(),
        host: host.map(str::to_string),
        segments: Some(segments.iter().map(|s| s.to_string()).collect()),
    }
}

#[test]
fn reference_with_section() {
    let r = SecretReference::parse(&url("op", Some("vault"), &["my%20item", "sec", "password"])).unwrap();
    assert_eq!(r.vault(), "vault");
    assert_eq!(r.item(), "my item");
    assert_eq!(r.section(), Some("sec"));
    assert_eq!(r.field(), "password");
}

#[test]
fn reference_without_section() {
    let r = SecretReference::parse(&url("op", Some("vault"), &["item", "field"])).unwrap();
    assert_eq!(r.section(), None);
    assert_eq!(r.field(), "field");
}

#[test]
fn reference_errors() {
    assert_eq!(
        SecretReference::parse(&url("https", Some("v"), &["a", "b"])).unwrap_err(),
        InvalidSecretUrl::UnexpectedScheme
    );
    assert_eq!(
        SecretReference::parse(&url("op", Some("v"), &["a"])).unwrap_err(),
        InvalidSecretUrl::MissingPathSegments
    );
    let no_path = SecretUrl { scheme: "op".to_string(), host: Some("v".to_string()), segments: None };
    assert_eq!(SecretReference::parse(&no_path).unwrap_err(), InvalidSecretUrl::MissingPathSegments);
    assert_eq!(
        SecretReference::parse(&url("op", None, &["a", "b"])).unwrap_err(),
        InvalidSecretUrl::MissingVault
    );
    assert_eq!(
        SecretReference::parse(&url("op", Some("v"), &["%FF", "b"])).unwrap_err(),
        InvalidSecretUrl::Utf8Error { field: "name" }
    );
    assert_eq!(
        SecretReference::parse(&url("op", Some("v"), &["a", "%FF"])).unwrap_err(),
        InvalidSecretUrl::Utf8Error { field: "field" }
    );
    assert_eq!(
        SecretReference::parse(&url("op", Some("v"), &["a", "%FF", "c"])).unwrap_err(),
        InvalidSecretUrl::Utf8Error { field: "section" }
    );
}

#[test]
fn identifiers_keep_their_text() {
    assert_eq!(VaultID::new("abc".to_string()).as_str(), "abc");
}
