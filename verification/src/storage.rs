//! Which file storage a server uses.

use vstd::prelude::*;
use crate::shared::text::str_eq;

verus! {

/// The directory files are stored in when none is configured.
pub const DEFAULT_STORAGE_PATH: &'static str = "./uploads";

/// The kinds of file storage.
#[derive(Debug, Clone, Copy, PartialEq, Eq, Structural)]
pub enum StorageBackend {
    /// No storage: uploads are refused.
    Disabled,
    /// A directory of the local file system.
    Local,
    /// An S3 bucket.
    S3,
}

/// The storage that a configured name stands for, if it stands for one.
pub open spec fn backend_named(name: Seq<char>) -> Option<StorageBackend> {
    if name.len() == 0 {
        Some(StorageBackend::Disabled)
    } else if name == "s3"@ {
        Some(StorageBackend::S3)
    } else if name == "local"@ {
        Some(StorageBackend::Local)
    } else {
        None
    }
}

/// Reads the kind of storage from its configured name. An empty name
/// means none; an unknown one is an error.
pub fn storage_backend(name: &str) -> (r: Result<StorageBackend, String>)
    ensures
        match backend_named(name@) {
            Some(b) => r == Ok::<StorageBackend, String>(b),
            None => r is Err && r->Err_0@ == "Unknown STORAGE_BACKEND: '"@ + name@
                + "' (expected 'local' or 's3')"@,
        },
{
    if name.unicode_len() == 0 {
        Ok(StorageBackend::Disabled)
    } else if str_eq(name, "s3") {
        Ok(StorageBackend::S3)
    } else if str_eq(name, "local") {
        Ok(StorageBackend::Local)
    } else {
        let mut m = String::from_str("Unknown STORAGE_BACKEND: '");
        m.append(name);
        m.append("' (expected 'local' or 's3')");
        Err(m)
    }
}

} // verus!
