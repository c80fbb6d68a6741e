//! The provisioning error taxonomy. Every failure is terminal: nothing is
//! retried or recovered, and each variant carries a human-readable detail
//! string that is surfaced to the host unchanged.

use vstd::prelude::*;
use vstd::string::StringExecFns;

verus! {

/// Why a provisioning attempt stopped.
#[derive(Debug)]
pub enum ProvisionError {
    /// The remote index returned no qualifying release; carries the index's
    /// own error text.
    ReleaseNotFound(String),
    /// No asset in the release matched the expected name; carries that
    /// expected name.
    AssetNotFound(String),
    /// The archive could not be fetched or unpacked; carries the transport's
    /// error text.
    DownloadFailed(String),
    /// The unpacked binary could not be marked executable; carries the
    /// filesystem's error text.
    PermissionError(String),
}

/// The ghost mirror of `ProvisionError`, over character sequences.
pub ghost enum ErrorModel {
    ReleaseNotFound { detail: Seq<char> },
    AssetNotFound { expected_name: Seq<char> },
    DownloadFailed { detail: Seq<char> },
    PermissionError { detail: Seq<char> },
}

impl View for ProvisionError {
    type V = ErrorModel;

    open spec fn view(&self) -> ErrorModel {
        match self {
            ProvisionError::ReleaseNotFound(d) => ErrorModel::ReleaseNotFound { detail: d@ },
            ProvisionError::AssetNotFound(n) => ErrorModel::AssetNotFound { expected_name: n@ },
            ProvisionError::DownloadFailed(d) => ErrorModel::DownloadFailed { detail: d@ },
            ProvisionError::PermissionError(d) => ErrorModel::PermissionError { detail: d@ },
        }
    }
}

/// The message shown to the host for each error. Index and permission errors
/// pass their underlying text through unchanged; the other two prefix it with
/// what went wrong.
pub open spec fn spec_message(e: ErrorModel) -> Seq<char> {
    match e {
        ErrorModel::ReleaseNotFound { detail } => detail,
        ErrorModel::AssetNotFound { expected_name } => "Asset not found: "@ + expected_name,
        ErrorModel::DownloadFailed { detail } => "Download failed: "@ + detail,
        ErrorModel::PermissionError { detail } => detail,
    }
}

impl ProvisionError {
    /// Renders the error as the message the host receives.
    pub fn message(&self) -> (r: String)
        ensures
            r@ == spec_message(self@),
    {
        match self {
            ProvisionError::ReleaseNotFound(d) => d.clone(),
            ProvisionError::AssetNotFound(n) => String::from_str("Asset not found: ").concat(
                n.as_str(),
            ),
            ProvisionError::DownloadFailed(d) => String::from_str("Download failed: ").concat(
                d.as_str(),
            ),
            ProvisionError::PermissionError(d) => d.clone(),
        }
    }
}

} // verus!
