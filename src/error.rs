use vstd::prelude::*;

verus! {

/// Every way in which resolving one package can fail.
#[derive(Debug, Clone, Copy, PartialEq, Eq, Structural)]
pub enum ResolveError {
    /// The registry could not be reached (network or transport failure).
    RegistryUnavailable,
    /// The registry has no manifest for the package, or its answer lacks a download location.
    PackageNotFound,
    /// The registry answered, but its download location is not a string.
    MalformedResponse,
    /// The manifest text does not parse.
    MalformedManifest,
    /// The manifest holds no section that describes the artifact.
    DescriptorNotFound,
    /// The server answered a download with a status that is not a success.
    HttpError,
    /// The connection dropped, or the body ended before its declared length.
    TransportError,
    /// Writing to local storage failed.
    IoError,
    /// The checksum has no `=` separator, or its digest is not clean hexadecimal.
    MalformedChecksum,
    /// The checksum names an algorithm that is not supported.
    UnsupportedAlgorithm,
    /// The artifact's digest differs from the expected one.
    ChecksumMismatch,
}

} // verus!
