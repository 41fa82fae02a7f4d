//! The platforms that the simulator binary exists for, and the layout of the
//! workspace that it runs in.

use vstd::prelude::*;
use crate::errors::ProcessError;

verus! {

/// The name of the simulator executable inside the workspace.
pub const CHAIN_SIMULATOR_NAME: &'static str = "chainsimulator";

/// The directory of the workspace that holds the configuration.
pub const CONFIG_FOLDER: &'static str = "config";

/// The configuration file inside that directory.
pub const CONFIG_NAME: &'static str = "config.toml";

/// Whether the simulator binary exists for operating system `os` and
/// architecture `arch`: Linux on x86-64, and macOS on x86-64 or ARM64.
pub open spec fn is_supported_platform(os: Seq<char>, arch: Seq<char>) -> bool {
    ||| os == "linux"@ && arch == "x86_64"@
    ||| os == "macos"@ && (arch == "x86_64"@ || arch == "aarch64"@)
}

/// Checks that the simulator can run on `os` and `arch`.
pub fn check_platform(os: &str, arch: &str) -> (r: Result<(), ProcessError>)
    ensures
        is_supported_platform(os@, arch@) ==> r is Ok,
        !is_supported_platform(os@, arch@) ==> (r matches Err(
            ProcessError::UnsupportedOSAndArch { os: o, arch: a },
        ) && o@ == os@ && a@ == arch@),
{
    let o = String::from_str(os);
    let a = String::from_str(arch);
    let linux = String::from_str("linux");
    let macos = String::from_str("macos");
    let x86_64 = String::from_str("x86_64");
    let aarch64 = String::from_str("aarch64");
    if (o == linux && a == x86_64) || (o == macos && (a == x86_64 || a == aarch64)) {
        Ok(())
    } else {
        Err(ProcessError::UnsupportedOSAndArch { os: o, arch: a })
    }
}

} // verus!
