//! The failures the library reports.

use vstd::prelude::*;

verus! {

/// A failure of the cache.
#[derive(Debug, Clone, PartialEq, Eq)]
pub enum CacheError {
    /// The store could not be reached or refused the statement.
    IoFailure { message: String },
    /// The bytes under `key` are not the value that was asked for.
    DeserializeFailure { key: String, cause: String },
}

impl CacheError {
    /// Whether the bytes stored under `key` could not be read as the value
    /// asked for.
    pub open spec fn is_deserialize_of(&self, key: Seq<char>) -> bool {
        match self {
            CacheError::DeserializeFailure { key: k, .. } => k@ == key,
            _ => false,
        }
    }
}

/// A failure of the cluster client.
#[derive(Clone, Copy, Debug, PartialEq, Eq, Structural)]
pub enum KucoBackendError {
    /// No client could be made for the cluster.
    KubeConnectionError,
    /// Any other failure.
    Unknown,
}

impl KucoBackendError {
    /// The text shown for this failure.
    pub open spec fn message_text(self) -> Seq<char> {
        match self {
            KucoBackendError::KubeConnectionError =>
                "unable to initialize kubernetes client - please verify you can access the cluster"@,
            KucoBackendError::Unknown => "unknown data store error"@,
        }
    }

    /// The text shown for this failure.
    pub fn message(&self) -> (text: String)
        ensures
            text@ == self.message_text(),
    {
        match self {
            KucoBackendError::KubeConnectionError => String::from_str(
                "unable to initialize kubernetes client - please verify you can access the cluster",
            ),
            KucoBackendError::Unknown => String::from_str("unknown data store error"),
        }
    }
}

} // verus!
