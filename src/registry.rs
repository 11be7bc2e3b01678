//! The rules of the container registry: names, digests, media types, errors
//! and where things are stored.
use vstd::prelude::*;
use vstd::string::StringExecFns;

use crate::text::{contains_text, find_char, has_infix, same};

verus! {

/// An error of a registry operation.
#[derive(Debug, Clone)]
pub enum RegistryError {
    /// Blob not found.
    BlobNotFound(String),
    /// Manifest not found.
    ManifestNotFound(String),
    /// Invalid digest format.
    InvalidDigest(String),
    /// The storage failed, with its message.
    Storage(String),
    /// Invalid manifest.
    InvalidManifest(String),
    /// Unsupported manifest media type.
    UnsupportedManifestType(String),
    /// The contents do not have the expected digest.
    DigestMismatch { expected: String, actual: String },
    /// Invalid repository name.
    InvalidRepository(String),
    /// An I/O error, with its message.
    Io(String),
    /// Range not satisfiable.
    RangeNotSatisfiable,
    /// Blob upload invalid.
    BlobUploadInvalid(String),
}

/// The text of an error: a heading, and the value it is about.
pub open spec fn registry_error_text(e: RegistryError) -> Seq<char> {
    match e {
        RegistryError::BlobNotFound(v) => "blob not found: "@ + v@,
        RegistryError::ManifestNotFound(v) => "manifest not found: "@ + v@,
        RegistryError::InvalidDigest(v) => "invalid digest: "@ + v@,
        RegistryError::Storage(v) => "storage error: "@ + v@,
        RegistryError::InvalidManifest(v) => "invalid manifest: "@ + v@,
        RegistryError::UnsupportedManifestType(v) => "unsupported manifest type: "@ + v@,
        RegistryError::DigestMismatch { expected, actual } => "digest mismatch: expected "@
            + expected@ + ", got "@ + actual@,
        RegistryError::InvalidRepository(v) => "invalid repository name: "@ + v@,
        RegistryError::Io(v) => "IO error: "@ + v@,
        RegistryError::RangeNotSatisfiable => "range not satisfiable"@,
        RegistryError::BlobUploadInvalid(v) => "blob upload invalid: "@ + v@,
    }
}

/// `head` followed by `value`.
fn joined(head: &str, value: &str) -> (r: String)
    ensures
        r@ == head@ + value@,
{
    let mut out = head.to_owned();
    out.append(value);
    out
}

impl RegistryError {
    /// The error's text.
    pub fn message(&self) -> (r: String)
        ensures
            r@ == registry_error_text(*self),
    {
        match self {
            RegistryError::BlobNotFound(v) => joined("blob not found: ", v.as_str()),
            RegistryError::ManifestNotFound(v) => joined("manifest not found: ", v.as_str()),
            RegistryError::InvalidDigest(v) => joined("invalid digest: ", v.as_str()),
            RegistryError::Storage(v) => joined("storage error: ", v.as_str()),
            RegistryError::InvalidManifest(v) => joined("invalid manifest: ", v.as_str()),
            RegistryError::UnsupportedManifestType(v) => joined(
                "unsupported manifest type: ",
                v.as_str(),
            ),
            RegistryError::DigestMismatch { expected, actual } => {
                let mut out = joined("digest mismatch: expected ", expected.as_str());
                out.append(", got ");
                out.append(actual.as_str());
                out
            },
            RegistryError::InvalidRepository(v) => joined("invalid repository name: ", v.as_str()),
            RegistryError::Io(v) => joined("IO error: ", v.as_str()),
            RegistryError::RangeNotSatisfiable => "range not satisfiable".to_owned(),
            RegistryError::BlobUploadInvalid(v) => joined("blob upload invalid: ", v.as_str()),
        }
    }

    /// The HTTP status code for this error.
    pub fn status_code(&self) -> (r: u16)
        ensures
            r == match self {
                RegistryError::BlobNotFound(_) | RegistryError::ManifestNotFound(_) => 404u16,
                RegistryError::InvalidDigest(_) | RegistryError::InvalidManifest(_)
                | RegistryError::InvalidRepository(_) | RegistryError::DigestMismatch { .. }
                | RegistryError::BlobUploadInvalid(_) => 400u16,
                RegistryError::UnsupportedManifestType(_) => 415u16,
                RegistryError::RangeNotSatisfiable => 416u16,
                RegistryError::Storage(_) | RegistryError::Io(_) => 500u16,
            },
    {
        match self {
            RegistryError::BlobNotFound(_) | RegistryError::ManifestNotFound(_) => 404,
            RegistryError::InvalidDigest(_)
            | RegistryError::InvalidManifest(_)
            | RegistryError::InvalidRepository(_)
            | RegistryError::DigestMismatch { .. }
            | RegistryError::BlobUploadInvalid(_) => 400,
            RegistryError::UnsupportedManifestType(_) => 415,
            RegistryError::RangeNotSatisfiable => 416,
            RegistryError::Storage(_) | RegistryError::Io(_) => 500,
        }
    }

    /// The error code of OCI error responses.
    pub fn error_code(&self) -> (r: &'static str)
        ensures
            r@ == match self {
                RegistryError::BlobNotFound(_) => "BLOB_UNKNOWN"@,
                RegistryError::ManifestNotFound(_) => "MANIFEST_UNKNOWN"@,
                RegistryError::InvalidDigest(_) => "DIGEST_INVALID"@,
                RegistryError::InvalidManifest(_) => "MANIFEST_INVALID"@,
                RegistryError::UnsupportedManifestType(_) => "MANIFEST_INVALID"@,
                RegistryError::DigestMismatch { .. } => "DIGEST_INVALID"@,
                RegistryError::InvalidRepository(_) => "NAME_INVALID"@,
                RegistryError::RangeNotSatisfiable => "BLOB_UNKNOWN"@,
                RegistryError::BlobUploadInvalid(_) => "BLOB_UPLOAD_INVALID"@,
                RegistryError::Storage(_) | RegistryError::Io(_) => "UNKNOWN"@,
            },
    {
        match self {
            RegistryError::BlobNotFound(_) => "BLOB_UNKNOWN",
            RegistryError::ManifestNotFound(_) => "MANIFEST_UNKNOWN",
            RegistryError::InvalidDigest(_) => "DIGEST_INVALID",
            RegistryError::InvalidManifest(_) => "MANIFEST_INVALID",
            RegistryError::UnsupportedManifestType(_) => "MANIFEST_INVALID",
            RegistryError::DigestMismatch { .. } => "DIGEST_INVALID",
            RegistryError::InvalidRepository(_) => "NAME_INVALID",
            RegistryError::RangeNotSatisfiable => "BLOB_UNKNOWN",
            RegistryError::BlobUploadInvalid(_) => "BLOB_UPLOAD_INVALID",
            RegistryError::Storage(_) | RegistryError::Io(_) => "UNKNOWN",
        }
    }
}

/// A repository name is refused when it is empty or holds `..`.
pub open spec fn repository_ok(name: Seq<char>) -> bool {
    name.len() > 0 && !has_infix(name, ".."@)
}

/// A digest is `<algorithm>:<hex>`: a colon with text on both sides of the first one.
pub open spec fn digest_ok(digest: Seq<char>) -> bool {
    exists|i: int|
        0 < i < digest.len() - 1 && digest[i] == ':' && forall|j: int|
            0 <= j < i ==> digest[j] != ':'
}

/// The manifest media types that the registry stores.
pub open spec fn manifest_types() -> Seq<Seq<char>> {
    seq![
        "application/vnd.docker.distribution.manifest.v1+json"@,
        "application/vnd.docker.distribution.manifest.v1+prettyjws"@,
        "application/vnd.docker.distribution.manifest.v2+json"@,
        "application/vnd.docker.distribution.manifest.list.v2+json"@,
        "application/vnd.oci.image.manifest.v1+json"@,
        "application/vnd.oci.image.index.v1+json"@,
    ]
}

/// Check a repository name.
pub fn validate_repository(name: &str) -> (r: Result<(), RegistryError>)
    ensures
        r is Ok <==> repository_ok(name@),
        r is Err ==> r->Err_0 is InvalidRepository && r->Err_0->InvalidRepository_0@ == name@,
{
    if name.unicode_len() == 0 || contains_text(name, "..") {
        return Err(RegistryError::InvalidRepository(name.to_owned()));
    }
    Ok(())
}

/// Check the format of a digest.
pub fn validate_digest(digest: &str) -> (r: Result<(), RegistryError>)
    ensures
        r is Ok <==> digest_ok(digest@),
        r is Err ==> r->Err_0 is InvalidDigest && r->Err_0->InvalidDigest_0@ == digest@,
{
    match find_char(digest, ':') {
        Some(i) => {
            if i > 0 && i < digest.unicode_len() - 1 {
                return Ok(());
            }
            proof {
                assert forall|k: int|
                    0 < k < digest@.len() - 1 && digest@[k] == ':' implies exists|j: int|
                    0 <= j < k && digest@[j] == ':' by {
                    assert(k > i);
                }
            }
        },
        None => {},
    }
    Err(RegistryError::InvalidDigest(digest.to_owned()))
}

/// Check that a manifest's media type is one the registry stores.
pub fn validate_manifest_type(content_type: &str) -> (r: Result<(), RegistryError>)
    ensures
        r is Ok <==> manifest_types().contains(content_type@),
        r is Err ==> r->Err_0 is UnsupportedManifestType && r->Err_0->UnsupportedManifestType_0@
            == content_type@,
{
    let known = [
        "application/vnd.docker.distribution.manifest.v1+json",
        "application/vnd.docker.distribution.manifest.v1+prettyjws",
        "application/vnd.docker.distribution.manifest.v2+json",
        "application/vnd.docker.distribution.manifest.list.v2+json",
        "application/vnd.oci.image.manifest.v1+json",
        "application/vnd.oci.image.index.v1+json",
    ];
    let mut i: usize = 0;
    while i < 6
        invariant
            i <= 6,
            forall|k: int| 0 <= k < 6 ==> (#[trigger] known@[k])@ == manifest_types()[k],
            forall|k: int| 0 <= k < i ==> manifest_types()[k] != content_type@,
        decreases 6 - i,
    {
        if same(known[i], content_type) {
            proof {
                assert(manifest_types()[i as int] == content_type@);
            }
            return Ok(());
        }
        i = i + 1;
    }
    Err(RegistryError::UnsupportedManifestType(content_type.to_owned()))
}

/// Where the registry keeps its blobs, manifests and tags, in a bucket of a storage `S`.
#[derive(Debug, Clone)]
pub struct RegistryStorage<S> {
    storage: S,
    bucket: String,
}

/// The path of a blob: `blobs/<algorithm>/<hex>` for a digest with a colon,
/// else `blobs/sha256/<digest>`.
pub open spec fn blob_path_of(digest: Seq<char>) -> Seq<char> {
    if digest.contains(':') {
        let i = choose|i: int| 0 <= i < digest.len() && digest[i] == ':' && forall|j: int|
            0 <= j < i ==> digest[j] != ':';
        "blobs/"@ + digest.subrange(0, i) + "/"@ + digest.subrange(i + 1, digest.len() as int)
    } else {
        "blobs/sha256/"@ + digest
    }
}

impl<S> RegistryStorage<S> {
    /// The bucket.
    pub closed spec fn bucket_spec(&self) -> Seq<char> {
        self.bucket@
    }

    /// The storage backend.
    pub closed spec fn storage_spec(&self) -> S {
        self.storage
    }

    /// Keep the registry in `bucket` of `storage`.
    pub fn new(storage: S, bucket: String) -> (r: Self)
        ensures
            r.storage_spec() == storage,
            r.bucket_spec() == bucket@,
    {
        RegistryStorage { storage, bucket }
    }

    /// The bucket that holds the registry.
    pub fn bucket(&self) -> (r: &str)
        ensures
            r@ == self.bucket_spec(),
    {
        self.bucket.as_str()
    }

    /// The storage backend.
    pub fn storage(&self) -> (r: &S)
        ensures
            *r == self.storage_spec(),
    {
        &self.storage
    }

    /// The path of the blob with `digest`.
    pub fn blob_path(&self, digest: &str) -> (r: String)
        ensures
            r@ == blob_path_of(digest@),
    {
        match find_char(digest, ':') {
            Some(i) => {
                let n = digest.unicode_len();
                let mut out = "blobs/".to_owned();
                out.append(digest.substring_char(0, i));
                out.append("/");
                out.append(digest.substring_char(i + 1, n));
                proof {
                    let k = choose|k: int| 0 <= k < digest@.len() && digest@[k] == ':' && forall|j: int|
                        0 <= j < k ==> digest@[j] != ':';
                    assert(k == i) by {
                        if k < i {
                        } else if k > i {
                        }
                    }
                }
                out
            },
            None => {
                let mut out = "blobs/sha256/".to_owned();
                out.append(digest);
                out
            },
        }
    }

    /// The path of the manifest `reference` of `repository`.
    pub fn manifest_path(&self, repository: &str, reference: &str) -> (r: String)
        ensures
            r@ == "manifests/"@ + repository@ + "/"@ + reference@,
    {
        let mut out = "manifests/".to_owned();
        out.append(repository);
        out.append("/");
        out.append(reference);
        out
    }

    /// The path of the tag `tag` of `repository`.
    pub fn tag_path(&self, repository: &str, tag: &str) -> (r: String)
        ensures
            r@ == "tags/"@ + repository@ + "/"@ + tag@,
    {
        let mut out = "tags/".to_owned();
        out.append(repository);
        out.append("/");
        out.append(tag);
        out
    }
}

/// Configures the registry: its storage backend and its bucket.
#[derive(Debug)]
pub struct RegistryBuilder<S> {
    storage: Option<S>,
    bucket: Option<String>,
}

impl<S> RegistryBuilder<S> {
    /// The storage backend, once set.
    pub closed spec fn storage_spec(&self) -> Option<S> {
        self.storage
    }

    /// The bucket, once set.
    pub closed spec fn bucket_spec(&self) -> Option<Seq<char>> {
        match self.bucket {
            Some(b) => Some(b@),
            None => None,
        }
    }

    /// A builder with nothing set.
    pub fn new() -> (r: Self)
        ensures
            r.storage_spec() is None,
            r.bucket_spec() is None,
    {
        RegistryBuilder { storage: None, bucket: None }
    }

    /// Set the storage backend.
    pub fn storage(self, storage: S) -> (r: Self)
        ensures
            r.storage_spec() == Some(storage),
            r.bucket_spec() == self.bucket_spec(),
    {
        RegistryBuilder { storage: Some(storage), bucket: self.bucket }
    }

    /// Set the bucket.
    pub fn bucket(self, bucket: String) -> (r: Self)
        ensures
            r.storage_spec() == self.storage_spec(),
            r.bucket_spec() == Some(bucket@),
    {
        RegistryBuilder { storage: self.storage, bucket: Some(bucket) }
    }

    /// Where the registry is kept: the storage backend, which must be set,
    /// and the bucket, `registry` unless another was set.
    pub fn into_storage(self) -> (r: RegistryStorage<S>)
        requires
            self.storage_spec() is Some,
        ensures
            r.storage_spec() == self.storage_spec().unwrap(),
            r.bucket_spec() == match self.bucket_spec() {
                Some(b) => b,
                None => "registry"@,
            },
    {
        let storage = self.storage.unwrap();
        let bucket = match self.bucket {
            Some(b) => b,
            None => "registry".to_owned(),
        };
        RegistryStorage::new(storage, bucket)
    }
}

/// An identifier for a blob upload.
#[derive(Debug, Clone, Copy)]
pub struct Uuid;

impl Uuid {
    /// A new upload identifier.
    pub fn new_v4() -> (r: Self) {
        Uuid
    }
}

} // verus!
