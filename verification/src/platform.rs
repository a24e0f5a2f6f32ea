//! Platform naming: how Go names operating systems, architectures and
//! archives, from the names that Rust gives the running platform
//! (`std::env::consts::OS` and `ARCH`).
use vstd::prelude::*;
use crate::text::str_equal;

verus! {

/// Go's name for an operating system (unknown systems are treated as Linux).
pub open spec fn go_os_name(rust_os: Seq<char>) -> Seq<char> {
    if rust_os == "macos"@ {
        "darwin"@
    } else if rust_os == "windows"@ {
        "windows"@
    } else {
        "linux"@
    }
}

/// Go's name for an architecture (unknown ones are treated as amd64).
pub open spec fn go_arch_name(rust_arch: Seq<char>) -> Seq<char> {
    if rust_arch == "x86_64"@ {
        "amd64"@
    } else if rust_arch == "x86"@ {
        "386"@
    } else if rust_arch == "aarch64"@ {
        "arm64"@
    } else if rust_arch == "arm"@ {
        "armv6l"@
    } else {
        "amd64"@
    }
}

/// The archive extension of Go releases on a system.
pub open spec fn archive_extension(rust_os: Seq<char>) -> Seq<char> {
    if rust_os == "windows"@ {
        "zip"@
    } else {
        "tar.gz"@
    }
}

/// The file name of a Go release archive.
pub open spec fn archive_name(
    version: Seq<char>,
    os: Seq<char>,
    arch: Seq<char>,
    extension: Seq<char>,
) -> Seq<char> {
    "go"@ + version + "."@ + os + "-"@ + arch + "."@ + extension
}

/// Platform information structure.
#[derive(Debug, Clone, PartialEq, Eq)]
pub struct PlatformInfo {
    pub os: String,
    pub arch: String,
    pub extension: String,
}

/// Go's operating system and architecture names for the running platform.
pub fn detect_os_arch(rust_os: &str, rust_arch: &str) -> (res: (&'static str, &'static str))
    ensures
        res.0@ == go_os_name(rust_os@),
        res.1@ == go_arch_name(rust_arch@),
{
    let os = if str_equal(rust_os, "macos") {
        "darwin"
    } else if str_equal(rust_os, "windows") {
        "windows"
    } else {
        "linux"
    };
    let arch = if str_equal(rust_arch, "x86_64") {
        "amd64"
    } else if str_equal(rust_arch, "x86") {
        "386"
    } else if str_equal(rust_arch, "aarch64") {
        "arm64"
    } else if str_equal(rust_arch, "arm") {
        "armv6l"
    } else {
        "amd64"
    };
    (os, arch)
}

/// The archive extension used on the running system.
pub fn detect_archive_extension(rust_os: &str) -> (res: &'static str)
    ensures
        res@ == archive_extension(rust_os@),
{
    if str_equal(rust_os, "windows") {
        "zip"
    } else {
        "tar.gz"
    }
}

impl PlatformInfo {
    /// The platform information of the system that Rust names `rust_os` and
    /// `rust_arch`.
    pub fn detect(rust_os: &str, rust_arch: &str) -> (res: Self)
        ensures
            res.os@ == go_os_name(rust_os@),
            res.arch@ == go_arch_name(rust_arch@),
            res.extension@ == archive_extension(rust_os@),
    {
        let (os, arch) = detect_os_arch(rust_os, rust_arch);
        let extension = detect_archive_extension(rust_os);
        PlatformInfo {
            os: String::from_str(os),
            arch: String::from_str(arch),
            extension: String::from_str(extension),
        }
    }

    /// The Go archive file name, as in `go1.21.0.linux-amd64.tar.gz`.
    pub fn archive_filename(&self, version: &str) -> (res: String)
        ensures
            res@ == archive_name(version@, self.os@, self.arch@, self.extension@),
    {
        let mut s = String::from_str("go");
        s.append(version);
        s.append(".");
        s.append(self.os.as_str());
        s.append("-");
        s.append(self.arch.as_str());
        s.append(".");
        s.append(self.extension.as_str());
        s
    }

    /// The Go executable file name on a system.
    pub fn go_executable_name(rust_os: &str) -> (res: &'static str)
        ensures
            rust_os@ == "windows"@ ==> res@ == "go.exe"@,
            rust_os@ != "windows"@ ==> res@ == "go"@,
    {
        if str_equal(rust_os, "windows") {
            "go.exe"
        } else {
            "go"
        }
    }
}

/// Law: Go's names for the architectures that Rust reports: `x86_64` is
/// `amd64`, `x86` is `386`, `aarch64` is `arm64`, `arm` is `armv6l`, and any
/// other is taken as `amd64`.
pub proof fn lemma_go_arch_names(rust_arch: Seq<char>)
    ensures
        rust_arch == "x86_64"@ ==> go_arch_name(rust_arch) == "amd64"@,
        rust_arch == "x86"@ ==> go_arch_name(rust_arch) == "386"@,
        rust_arch == "aarch64"@ ==> go_arch_name(rust_arch) == "arm64"@,
        rust_arch == "arm"@ ==> go_arch_name(rust_arch) == "armv6l"@,
        (rust_arch != "x86_64"@ && rust_arch != "x86"@ && rust_arch != "aarch64"@ && rust_arch != "arm"@)
            ==> go_arch_name(rust_arch) == "amd64"@,
{
    reveal_strlit("x86_64");
    reveal_strlit("x86");
    reveal_strlit("aarch64");
    reveal_strlit("arm");
    assert("x86_64"@.len() == 6 && "x86"@.len() == 3 && "aarch64"@.len() == 7 && "arm"@.len() == 3);
    assert("x86"@[0] == 'x' && "arm"@[0] == 'a');
    assert("x86"@ != "x86_64"@ && "aarch64"@ != "x86_64"@ && "aarch64"@ != "x86"@);
    assert("arm"@ != "x86_64"@ && "arm"@ != "x86"@ && "arm"@ != "aarch64"@);
}

/// Law: Go's names for the systems that Rust reports: `macos` is `darwin`,
/// `windows` is `windows`, and any other is taken as `linux`; Windows
/// releases are `zip` archives, the others `tar.gz`.
pub proof fn lemma_go_os_names(rust_os: Seq<char>)
    ensures
        rust_os == "macos"@ ==> go_os_name(rust_os) == "darwin"@ && archive_extension(rust_os) == "tar.gz"@,
        rust_os == "windows"@ ==> go_os_name(rust_os) == "windows"@ && archive_extension(rust_os) == "zip"@,
        (rust_os != "macos"@ && rust_os != "windows"@) ==> go_os_name(rust_os) == "linux"@
            && archive_extension(rust_os) == "tar.gz"@,
{
    reveal_strlit("macos");
    reveal_strlit("windows");
    assert("macos"@.len() == 5 && "windows"@.len() == 7);
    assert("macos"@ != "windows"@);
}

/// Law: the archive of a release for a platform names Go's system and
/// architecture for it; on a 64-bit ARM machine it is the `arm64` build, as
/// in `go<version>.linux-arm64.tar.gz` or `go<version>.darwin-arm64.tar.gz`.
pub proof fn lemma_arm64_archive(version: Seq<char>, rust_os: Seq<char>, p: PlatformInfo)
    requires
        p.os@ == go_os_name(rust_os),
        p.arch@ == go_arch_name("aarch64"@),
        p.extension@ == archive_extension(rust_os),
    ensures
        archive_name(version, p.os@, p.arch@, p.extension@)
            == "go"@ + version + "."@ + go_os_name(rust_os) + "-arm64."@ + archive_extension(rust_os),
{
    lemma_go_arch_names("aarch64"@);
    reveal_strlit("-");
    reveal_strlit(".");
    reveal_strlit("-arm64.");
    reveal_strlit("arm64");
    assert("-"@ + "arm64"@ + "."@ =~= "-arm64."@);
    assert("go"@ + version + "."@ + p.os@ + "-"@ + p.arch@ + "."@ + p.extension@
        =~= "go"@ + version + "."@ + go_os_name(rust_os) + "-arm64."@ + archive_extension(rust_os));
}

} // verus!
