//! The host platforms on which the child process can be started.

use crate::text::same;
use vstd::prelude::*;

verus! {

/// A host platform that the supervisor supports.
#[derive(Debug, Clone, Copy, PartialEq, Eq, Structural)]
pub enum Platform {
    Linux,
    Windows,
}

/// The supported platform that goes by the name `os`.
pub open spec fn platform_named(os: Seq<char>) -> Option<Platform> {
    if os == "linux"@ {
        Some(Platform::Linux)
    } else if os == "windows"@ {
        Some(Platform::Windows)
    } else {
        None
    }
}

/// The supported platform that goes by the name `os`; `None` for a platform
/// on which the child cannot be started.
pub fn supported_platform(os: &str) -> (platform: Option<Platform>)
    ensures
        platform == platform_named(os@),
{
    if same(os, "linux") {
        Some(Platform::Linux)
    } else if same(os, "windows") {
        Some(Platform::Windows)
    } else {
        None
    }
}

impl Platform {
    /// Whether the child has to be told to look for its libraries in its own
    /// directory: on Linux only.
    pub fn needs_library_path(&self) -> (needed: bool)
        ensures
            needed == (*self == Platform::Linux),
    {
        match self {
            Platform::Linux => true,
            Platform::Windows => false,
        }
    }
}

} // verus!
