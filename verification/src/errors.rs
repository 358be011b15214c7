//! The failures this library can report. Every failure is fatal to the
//! invocation that hit it: the caller reports it and stops.

use vstd::prelude::*;

verus! {

/// Why an operation could not be completed.
#[derive(Clone, Copy, Debug, PartialEq, Eq, Structural)]
pub enum Error {
    /// No image was configured and none was passed on the command line.
    NoImage,
    /// The image's user-id label is not an unsigned decimal number that fits
    /// in 64 bits. The decision is security-relevant, so there is no
    /// recovery.
    MalformedLabel,
    /// A user-database line does not have at least four `:`-separated fields
    /// with unsigned decimal numbers in the third and fourth.
    MalformedPasswd,
    /// Pulling the image failed.
    PullFailed,
    /// The image is absent locally and a dry run cannot pull it, so identity
    /// resolution cannot go on.
    PullNeededInDryRun,
    /// Inspecting the image still failed after it was pulled.
    ImageUnavailable,
    /// The additional mount specifier at this position is not exactly
    /// `host_directory:container_directory`.
    MountFormat { index: usize },
}

} // verus!
