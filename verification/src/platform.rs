//! The target platforms the release host publishes archives for.

use crate::text::same_text;
use vstd::prelude::*;
use vstd::string::*;

verus! {

/// The platform an archive is fetched and unpacked for.
#[derive(Clone, Copy, Debug, PartialEq, Eq, Structural)]
pub enum Platform {
    Linux,
    Windows,
    /// Every target that is neither Linux nor Windows is served the macOS build.
    MacOs,
}

/// The platform that an operating system of this name is served as.
pub open spec fn platform_of(os_name: Seq<char>) -> Platform {
    if os_name == "windows"@ {
        Platform::Windows
    } else if os_name == "linux"@ {
        Platform::Linux
    } else {
        Platform::MacOs
    }
}

/// The archive suffix published for `platform`.
pub open spec fn file_type_of(platform: Platform) -> Seq<char> {
    if platform == Platform::Windows {
        "zip"@
    } else {
        "tar.gz"@
    }
}

/// The platform tag inside the archive's name on the release host.
pub open spec fn host_segment_of(platform: Platform) -> Seq<char> {
    match platform {
        Platform::Linux => "linux64"@,
        Platform::Windows => "win64"@,
        Platform::MacOs => "macos"@,
    }
}

impl Platform {
    /// Picks the platform for an operating system by its name, as the
    /// compiler spells it: `windows`, `linux`, or anything else.
    pub fn from_os_name(os_name: &str) -> (platform: Platform)
        ensures
            platform == platform_of(os_name@),
    {
        if same_text(os_name, "windows") {
            Platform::Windows
        } else if same_text(os_name, "linux") {
            Platform::Linux
        } else {
            Platform::MacOs
        }
    }
}

/// Returns the archive suffix for `platform`: `zip` on Windows, `tar.gz` elsewhere.
pub fn get_file_type(platform: Platform) -> (extension: String)
    ensures
        extension@ == file_type_of(platform),
{
    match platform {
        Platform::Windows => String::from_str("zip"),
        _ => String::from_str("tar.gz"),
    }
}

/// Returns the platform tag used in archive names: `linux64`, `win64` or `macos`.
pub fn host_segment(platform: Platform) -> (segment: String)
    ensures
        segment@ == host_segment_of(platform),
{
    match platform {
        Platform::Linux => String::from_str("linux64"),
        Platform::Windows => String::from_str("win64"),
        Platform::MacOs => String::from_str("macos"),
    }
}

} // verus!
