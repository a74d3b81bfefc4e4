//! What can stop a build.

use vstd::prelude::*;

verus! {

/// A mistake in what the caller asked for. It is found before any byte of
/// an archive is written.
#[derive(Clone, Copy, Debug, PartialEq, Eq, Structural)]
pub enum ConfigurationError {
    /// The version has a pre-release that is not `alpha.N`, `beta.N` or
    /// `rc.N`.
    UnsupportedPrerelease,
    /// The version has both a pre-release and build metadata.
    PrereleaseWithBuildMetadata,
    /// No wheel can be built for this operating system and processor.
    UnsupportedPlatform,
    /// A platform came without any loadable file.
    NoLoadableFiles,
}

} // verus!
