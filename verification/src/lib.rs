use vstd::prelude::*;

pub mod archive;
pub mod targets;
pub mod transfer;
pub mod variant;

verus! {

/// Why an installation stopped. Every failure is fatal: a target either
/// fully completes or the whole invocation stops with one of these.
#[derive(Clone, Copy, Debug, PartialEq, Eq, Structural)]
pub enum InstallError {
    /// The requested target derives its URL from a variant, and none was
    /// supplied.
    MissingVariant,
    /// The selected variant publishes no binary bundle.
    NoBinaryBundle,
    /// The to-file download's response declared no content length.
    MissingContentLength,
    /// The archive's bytes could not be decoded.
    BadArchive,
    /// The releases-API response listed no assets.
    NoAssets,
}

impl InstallError {
    /// The failure's human-readable description.
    pub open spec fn describe_spec(self) -> Seq<char> {
        match self {
            InstallError::MissingVariant => "specify the engine"@,
            InstallError::NoBinaryBundle => "download link not implemented for this game type"@,
            InstallError::MissingContentLength => "failed to get content length"@,
            InstallError::BadArchive => "unable to extract archive"@,
            InstallError::NoAssets => "release lists no downloadable assets"@,
        }
    }

    /// A human-readable description of the failure.
    pub fn describe(&self) -> (r: &'static str)
        ensures
            r@ == self.describe_spec(),
    {
        match self {
            InstallError::MissingVariant => "specify the engine",
            InstallError::NoBinaryBundle => "download link not implemented for this game type",
            InstallError::MissingContentLength => "failed to get content length",
            InstallError::BadArchive => "unable to extract archive",
            InstallError::NoAssets => "release lists no downloadable assets",
        }
    }
}

} // verus!
