//! The terminal failures of a resolution call, one variant per failure point.

use vstd::prelude::*;

verus! {

/// Why a resolution call failed. Every failure is terminal: the cycle aborts
/// and the error is surfaced to the caller; there is no retry and no rollback.
#[derive(Debug)]
pub enum ProvisionError {
    /// The (OS, architecture) pair has no defined asset; holds the word naming
    /// the offending architecture.
    UnsupportedPlatform { arch_word: String },
    /// The release feed was unreachable or held no qualifying release; holds
    /// the feed client's own message.
    ReleaseFetch { cause: String },
    /// No asset of the release bears the computed name; holds that name for
    /// diagnosis.
    AssetNotFound { asset_name: String },
    /// The download transport or the write to the install path failed; holds
    /// the transport's message.
    Download { cause: String },
    /// Listing the working directory failed outright.
    DirectoryList { cause: String },
    /// One entry of the working-directory listing could not be read.
    EntryRead { cause: String },
    /// The platform refused to mark the resolved file executable.
    Permission { cause: String },
}

/// The user-facing message of each failure: a fixed phrase around the carried
/// detail, or the underlying message verbatim where the failure is surfaced
/// unchanged.
pub open spec fn message_of(e: ProvisionError) -> Seq<char> {
    match e {
        ProvisionError::UnsupportedPlatform { arch_word } => "unsupported platform "@ + arch_word@,
        ProvisionError::ReleaseFetch { cause } => cause@,
        ProvisionError::AssetNotFound { asset_name } => "no asset found matching \""@ + asset_name@
            + "\""@,
        ProvisionError::Download { cause } => "failed to download file: "@ + cause@,
        ProvisionError::DirectoryList { cause } => "failed to list working directory "@ + cause@,
        ProvisionError::EntryRead { cause } => "failed to load directory entry "@ + cause@,
        ProvisionError::Permission { cause } => cause@,
    }
}

impl ProvisionError {
    /// Renders the failure as the error string the caller displays.
    pub fn message(&self) -> (r: String)
        ensures
            r@ == message_of(*self),
    {
        match self {
            ProvisionError::UnsupportedPlatform { arch_word } => String::from_str(
                "unsupported platform ",
            ).concat(arch_word.as_str()),
            ProvisionError::ReleaseFetch { cause } => cause.clone(),
            ProvisionError::AssetNotFound { asset_name } => String::from_str(
                "no asset found matching \"",
            ).concat(asset_name.as_str()).concat("\""),
            ProvisionError::Download { cause } => String::from_str(
                "failed to download file: ",
            ).concat(cause.as_str()),
            ProvisionError::DirectoryList { cause } => String::from_str(
                "failed to list working directory ",
            ).concat(cause.as_str()),
            ProvisionError::EntryRead { cause } => String::from_str(
                "failed to load directory entry ",
            ).concat(cause.as_str()),
            ProvisionError::Permission { cause } => cause.clone(),
        }
    }
}

} // verus!
