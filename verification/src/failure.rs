//! The two ways in which a resolution can fail, and the text each one carries.

use vstd::prelude::*;

verus! {

/// The message carried by every failure that is raised where path expansion
/// is not available. Callers match on this text, so it is part of the
/// interface.
pub const UNSUPPORTED_PLATFORM_MESSAGE: &'static str =
    "get_long_path_name is only supported on Windows";

/// Why a resolution produced no path.
#[derive(Debug, PartialEq, Eq)]
pub enum Failure {
    /// The build targets a platform without the long-path facility. Permanent:
    /// trying again cannot help.
    UnsupportedPlatform,
    /// The operating system rejected the path. Holds its diagnostic text,
    /// exactly as it was reported.
    OperatingSystemError(String),
}

/// The mathematical value of a [`Failure`].
pub enum FailureView {
    UnsupportedPlatform,
    OperatingSystemError(Seq<char>),
}

impl FailureView {
    /// The message that a failure with this value reports.
    pub open spec fn message(self) -> Seq<char> {
        match self {
            FailureView::UnsupportedPlatform => UNSUPPORTED_PLATFORM_MESSAGE@,
            FailureView::OperatingSystemError(text) => text,
        }
    }
}

impl View for Failure {
    type V = FailureView;

    open spec fn view(&self) -> FailureView {
        match self {
            Failure::UnsupportedPlatform => FailureView::UnsupportedPlatform,
            Failure::OperatingSystemError(text) => FailureView::OperatingSystemError(text@),
        }
    }
}

impl Failure {
    /// The human-readable message of this failure: the fixed text for an
    /// unsupported platform, the operating system's own words otherwise.
    pub fn message(&self) -> (text: String)
        ensures
            text@ == self@.message(),
    {
        match self {
            Failure::UnsupportedPlatform => {
                UNSUPPORTED_PLATFORM_MESSAGE.to_owned()
            },
            Failure::OperatingSystemError(text) => text.clone(),
        }
    }

    /// Whether this failure reports an unsupported platform rather than an
    /// error of the operating system.
    pub fn is_unsupported_platform(&self) -> (answer: bool)
        ensures
            answer == (self@ == FailureView::UnsupportedPlatform),
    {
        match self {
            Failure::UnsupportedPlatform => true,
            Failure::OperatingSystemError(_) => false,
        }
    }
}

} // verus!
