//! What the service prepares before it runs the fetch tool: a copy of the
//! tool kept with the application's data.

use vstd::prelude::*;

verus! {

/// Qualifier under which the application's data directory is looked up.
pub const APP_QUALIFIER: &'static str = "me";

/// Organization under which the application's data directory is looked up.
pub const APP_ORGANIZATION: &'static str = "lukasz26671";

/// Name under which the application's data directory is looked up.
pub const APP_NAME: &'static str = "r_webaudioprov";

/// File name of the fetch tool, in the working directory and in the data
/// directory.
pub const FETCH_TOOL: &'static str = "yt-dlp.exe";

/// Name of the cache root below the root directory of the service.
pub const CACHE_DIR: &'static str = "temp";

/// What is to be done about the fetch tool.
#[derive(Clone, Copy, Debug, PartialEq, Eq, Structural)]
pub enum Install {
    /// The platform names no data directory: the tool cannot be set up.
    Unavailable,
    /// The data directory holds no copy yet: the tool is copied there from
    /// the working directory.
    Copy,
    /// The data directory holds a copy, which is used as it is.
    Keep,
}

/// The decision of `setup`.
pub open spec fn install(data_dir_known: bool, tool_installed: bool) -> Install {
    if !data_dir_known {
        Install::Unavailable
    } else if tool_installed {
        Install::Keep
    } else {
        Install::Copy
    }
}

/// Decides what to do about the fetch tool, given whether the platform
/// names a data directory for the application and whether that directory
/// already holds the tool. The tool is copied once, when it is absent.
pub fn setup(data_dir_known: bool, tool_installed: bool) -> (r: Install)
    ensures
        r == install(data_dir_known, tool_installed),
{
    if !data_dir_known {
        Install::Unavailable
    } else if tool_installed {
        Install::Keep
    } else {
        Install::Copy
    }
}

} // verus!
