//! The one command offered to the rendered interface.

use vstd::prelude::*;

verus! {

/// How the program was built.
#[derive(Clone, Copy, Debug, PartialEq, Eq, Structural)]
pub enum BuildProfile {
    /// A development build.
    Debug,
    /// A build meant for users.
    Release,
}

/// Something a command asks of the window that invoked it.
#[derive(Clone, Copy, Debug, PartialEq, Eq, Structural)]
pub enum WindowRequest {
    /// Show the window's developer-tools panel.
    OpenDevtools,
}

/// What one invocation of the command asks of its window: the panel in a
/// debug build, nothing at all in a release build.
pub open spec fn devtools_request(profile: BuildProfile) -> Option<WindowRequest> {
    match profile {
        BuildProfile::Debug => Some(WindowRequest::OpenDevtools),
        BuildProfile::Release => None,
    }
}

/// Decides what the `open_devtools` command does for a build of the given
/// profile. The caller passes the one request, if any, on to the window; the
/// command has no other effect and cannot fail.
pub fn open_devtools(profile: BuildProfile) -> (request: Option<WindowRequest>)
    ensures
        request == devtools_request(profile),
{
    match profile {
        BuildProfile::Debug => Some(WindowRequest::OpenDevtools),
        BuildProfile::Release => None,
    }
}

} // verus!
