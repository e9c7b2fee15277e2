//! The Photoshop client on platforms without an integration: every request
//! fails with the same message.
use crate::text::string_of;
use vstd::prelude::*;

verus! {

/// The message of every request on this platform.
pub open spec fn unsupported_message() -> Seq<char> {
    "Photoshop integration is only supported on Windows and macOS"@
}

fn unsupported_error() -> (r: String)
    ensures
        r@ == unsupported_message(),
{
    string_of("Photoshop integration is only supported on Windows and macOS")
}

/// The platform client where Photoshop cannot be reached.
#[derive(Debug, Clone)]
pub struct PlatformClient;

impl PlatformClient {
    /// Connecting fails.
    pub fn active(_expected_path: Option<&str>) -> (r: Result<Self, String>)
        ensures
            r matches Err(e) && e@ == unsupported_message(),
    {
        Err(unsupported_error())
    }

    /// Reading the path fails.
    pub fn path(&self) -> (r: Result<String, String>)
        ensures
            r matches Err(e) && e@ == unsupported_message(),
    {
        Err(unsupported_error())
    }

    /// Reading the version fails.
    pub fn version(&self) -> (r: Result<String, String>)
        ensures
            r matches Err(e) && e@ == unsupported_message(),
    {
        Err(unsupported_error())
    }

    /// Running a script fails.
    pub fn do_javascript(&self, _jsx: &str) -> (r: Result<String, String>)
        ensures
            r matches Err(e) && e@ == unsupported_message(),
    {
        Err(unsupported_error())
    }
}

} // verus!
