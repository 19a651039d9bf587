//! The operating-system families whose behaviour the client tells apart.
use vstd::prelude::*;

verus! {

/// The host platform, resolved once by the host program at startup.
#[derive(Clone, Copy, Debug, PartialEq, Eq, Structural)]
pub enum Platform {
    /// macOS: proxy settings go through `networksetup`, per network service.
    MacOS,
    /// Windows: proxy settings live in the user's registry hive.
    Windows,
    /// Any other Unix: the system proxy is not managed.
    Other,
}

impl Platform {
    /// Whether executables carry Unix permission bits on this platform.
    pub open spec fn spec_is_unix(self) -> bool {
        self != Platform::Windows
    }

    /// Whether executables carry Unix permission bits on this platform.
    #[verifier::when_used_as_spec(spec_is_unix)]
    pub fn is_unix(self) -> (unix: bool)
        ensures
            unix == self.spec_is_unix(),
    {
        match self {
            Platform::Windows => false,
            _ => true,
        }
    }
}

} // verus!
