//! The target platform an image is pulled and unpacked for.

use vstd::prelude::*;
use crate::text::str_eq;

verus! {

/// A platform descriptor in the runtime's naming convention.
pub struct Platform {
    pub os: String,
    pub architecture: String,
    pub variant: String,
    pub os_version: String,
}

/// Maps a host architecture name to the runtime's naming convention.
///
/// The table is fixed: `x86_64` becomes `amd64` and `aarch64` becomes
/// `arm64`. Any other name passes through unchanged by explicit policy,
/// rather than being rejected.
pub fn resolve_architecture(host_arch: &str) -> (r: String)
    ensures
        host_arch@ == "x86_64"@ ==> r@ == "amd64"@,
        host_arch@ == "aarch64"@ ==> r@ == "arm64"@,
        host_arch@ != "x86_64"@ && host_arch@ != "aarch64"@ ==> r@ == host_arch@,
{
    proof {
        reveal_strlit("x86_64");
        reveal_strlit("aarch64");
        assert("x86_64"@.len() == 6);
        assert("aarch64"@.len() == 7);
        assert("x86_64"@ != "aarch64"@);
    }
    if str_eq(host_arch, "x86_64") {
        "amd64".to_owned()
    } else if str_eq(host_arch, "aarch64") {
        "arm64".to_owned()
    } else {
        host_arch.to_owned()
    }
}

impl Platform {
    /// The platform for a Linux host whose native architecture is
    /// `host_arch`, with the architecture resolved through the fixed
    /// mapping table and the variant and OS version left empty.
    pub fn for_linux_host(host_arch: &str) -> (p: Platform)
        ensures
            p.os@ == "linux"@,
            p.variant@ == ""@,
            p.os_version@ == ""@,
            host_arch@ == "x86_64"@ ==> p.architecture@ == "amd64"@,
            host_arch@ == "aarch64"@ ==> p.architecture@ == "arm64"@,
            host_arch@ != "x86_64"@ && host_arch@ != "aarch64"@
                ==> p.architecture@ == host_arch@,
    {
        Platform {
            os: "linux".to_owned(),
            architecture: resolve_architecture(host_arch),
            variant: "".to_owned(),
            os_version: "".to_owned(),
        }
    }
}

} // verus!
