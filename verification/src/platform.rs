//! Platform strings of the form "os/arch", shared by hub and node.

use crate::text::same_text;
use vstd::prelude::*;

verus! {

/// The platform that a CPU architecture name stands for.
///
/// The three known architectures map to their container platform; every
/// other name maps to the default platform, so that an unusual node still
/// receives a usable image.
pub open spec fn platform_of(arch: Seq<char>) -> Seq<char> {
    if arch == "x86_64"@ {
        "linux/amd64"@
    } else if arch == "aarch64"@ {
        "linux/arm64"@
    } else if arch == "arm"@ {
        "linux/arm/v7"@
    } else {
        "linux/amd64"@
    }
}

/// Maps an architecture name to its platform string.
pub fn platform_for_arch(arch: &str) -> (p: &'static str)
    ensures
        p@ == platform_of(arch@),
{
    if same_text(arch, "x86_64") {
        "linux/amd64"
    } else if same_text(arch, "aarch64") {
        "linux/arm64"
    } else if same_text(arch, "arm") {
        "linux/arm/v7"
    } else {
        "linux/amd64"
    }
}

/// The platform assumed for a request that names none.
pub fn default_platform() -> (p: &'static str)
    ensures
        p@ == "linux/amd64"@,
{
    "linux/amd64"
}

} // verus!
