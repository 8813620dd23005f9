//! Object storage: which bucket the bot writes to, and the public address of
//! what it stores.

use vstd::prelude::*;

verus! {

/// The storage bucket of the bot.
#[derive(Clone, Debug, PartialEq, Eq)]
pub struct S3Storage {
    bucket_name: String,
}

/// One object of the bucket, by the names the storage service asks for.
#[derive(Clone, Debug, PartialEq, Eq)]
pub struct ObjectRef {
    pub bucket: String,
    pub key: String,
}

/// The public address of the object `key` of `bucket`.
pub open spec fn public_url(bucket: Seq<char>, key: Seq<char>) -> Seq<char> {
    "https://storage.yandexcloud.net/"@ + bucket + "/"@ + key
}

/// How a read of an object ended.
#[derive(Clone, Debug, PartialEq, Eq)]
pub enum Fetched {
    /// The object exists; these are its bytes.
    Found(Vec<u8>),
    /// The service answered that there is no object under the key.
    NoSuchKey,
    /// The read failed for any other reason.
    Failed(String),
}

impl S3Storage {
    /// The name of the bucket.
    pub closed spec fn bucket(&self) -> Seq<char> {
        self.bucket_name@
    }

    pub fn new(bucket_name: String) -> (r: S3Storage)
        ensures
            r.bucket() == bucket_name@,
    {
        S3Storage { bucket_name }
    }

    /// The name of the storage region.
    pub fn region_name() -> (r: String)
        ensures
            r@ == "ru-central1"@,
    {
        String::from_str("ru-central1")
    }

    /// The host that serves the storage interface.
    pub fn endpoint() -> (r: String)
        ensures
            r@ == "storage.yandexcloud.net"@,
    {
        String::from_str("storage.yandexcloud.net")
    }

    /// The object to read for `s3_path`.
    pub fn download_object(&self, s3_path: &str) -> (r: ObjectRef)
        ensures
            r.bucket@ == self.bucket(),
            r.key@ == s3_path@,
    {
        ObjectRef { bucket: self.bucket_name.clone(), key: String::from_str(s3_path) }
    }

    /// The object to write for `s3_path`.
    pub fn upload_object(&self, s3_path: &str) -> (r: ObjectRef)
        ensures
            r.bucket@ == self.bucket(),
            r.key@ == s3_path@,
    {
        ObjectRef { bucket: self.bucket_name.clone(), key: String::from_str(s3_path) }
    }

    /// The object to write for `s3_path` when the content comes from a file.
    pub fn upload_file(&self, s3_path: String) -> (r: ObjectRef)
        ensures
            r.bucket@ == self.bucket(),
            r.key@ == s3_path@,
    {
        ObjectRef { bucket: self.bucket_name.clone(), key: s3_path }
    }

    /// The public address of the object stored under `s3_path`.
    pub fn get_public_url(&self, s3_path: &str) -> (r: String)
        ensures
            r@ == public_url(self.bucket(), s3_path@),
    {
        let mut url = String::from_str("https://storage.yandexcloud.net/");
        url.append(self.bucket_name.as_str());
        url.append("/");
        url.append(s3_path);
        url
    }
}

} // verus!
