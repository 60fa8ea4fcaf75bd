//! Where licence-key files are kept: paths on local disk and object keys in
//! an S3 bucket.
use vstd::prelude::*;
use crate::ids::{id_text, uuid_text};

verus! {

/// Files kept under a base directory.
#[derive(Debug, Clone, PartialEq, Eq)]
pub struct LocalStorage {
    base_path: String,
}

/// The local path of a licence key's file: `<base>/<key id>/<file name>`.
pub open spec fn local_path_of(base: Seq<char>, license_key_id: u128, file_name: Seq<char>) -> Seq<char> {
    base + "/"@ + uuid_text(license_key_id) + "/"@ + file_name
}

/// The object key of a licence key's file: `license-keys/<key id>/<file name>`.
pub open spec fn object_key_of(license_key_id: u128, file_name: Seq<char>) -> Seq<char> {
    "license-keys/"@ + uuid_text(license_key_id) + "/"@ + file_name
}

impl LocalStorage {
    /// Storage rooted at `base_path` (the directory itself is created by the caller).
    pub fn new(base_path: String) -> (s: LocalStorage)
        ensures
            s.base()@ == base_path@,
    {
        LocalStorage { base_path }
    }

    /// The base directory.
    pub closed spec fn base(&self) -> String {
        self.base_path
    }

    /// The base directory.
    pub fn base_path(&self) -> (p: &str)
        ensures
            p@ == self.base()@,
    {
        self.base_path.as_str()
    }

    /// Where the file of a licence key is written: one directory per key.
    pub fn file_path(&self, license_key_id: u128, file_name: &str) -> (path: String)
        ensures
            path@ == local_path_of(self.base()@, license_key_id, file_name@),
    {
        let mut path = String::from_str(self.base_path.as_str());
        path.append("/");
        let id = id_text(license_key_id);
        path.append(id.as_str());
        path.append("/");
        path.append(file_name);
        path
    }
}

/// The key under which a licence key's file is stored in the bucket.
pub fn object_key(license_key_id: u128, file_name: &str) -> (key: String)
    ensures
        key@ == object_key_of(license_key_id, file_name@),
{
    let mut key = String::from_str("license-keys/");
    let id = id_text(license_key_id);
    key.append(id.as_str());
    key.append("/");
    key.append(file_name);
    key
}

/// The size reported for a stored object: its content length, 0 when unknown,
/// converted to `u64` as an `as` cast does.
pub fn reported_size(content_length: Option<i64>) -> (size: u64)
    ensures
        size == match content_length {
            Some(n) => n as u64,
            None => 0u64,
        },
{
    match content_length {
        Some(n) => n as u64,
        None => 0,
    }
}

} // verus!
