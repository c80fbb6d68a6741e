//! Platform resolution: maps the host operating system and CPU architecture
//! to the tokens that make up a release asset name, and to the name of the
//! executable inside the unpacked archive.

use vstd::prelude::*;
use vstd::string::StringExecFns;

verus! {

/// Operating systems a host can run on.
#[derive(Clone, Copy, PartialEq, Eq, Structural, Debug)]
pub enum Os {
    Mac,
    Linux,
    Windows,
}

/// CPU architectures a host can run on. 32-bit x86 is normalized to the
/// 64-bit asset: no distinct 32-bit asset is ever requested.
#[derive(Clone, Copy, PartialEq, Eq, Structural, Debug)]
pub enum Arch {
    Aarch64,
    X8664,
    X86,
}

/// The logical component name, which prefixes asset names and version
/// directories.
pub open spec fn spec_component_name() -> Seq<char> {
    "mcp-relay"@
}

pub fn component_name() -> (r: &'static str)
    ensures
        r@ == spec_component_name(),
{
    "mcp-relay"
}

/// The repository identifier the release index is queried with.
pub open spec fn spec_component_repo() -> Seq<char> {
    "moshyfawn/mcp-relay"@
}

pub fn component_repo() -> (r: &'static str)
    ensures
        r@ == spec_component_repo(),
{
    "moshyfawn/mcp-relay"
}

/// The operating-system token used inside asset names.
pub open spec fn spec_os_token(os: Os) -> Seq<char> {
    match os {
        Os::Mac => "darwin"@,
        Os::Linux => "linux"@,
        Os::Windows => "windows"@,
    }
}

pub fn os_token(os: Os) -> (r: &'static str)
    ensures
        r@ == spec_os_token(os),
{
    match os {
        Os::Mac => "darwin",
        Os::Linux => "linux",
        Os::Windows => "windows",
    }
}

/// The architecture token used inside asset names; 32-bit x86 is normalized
/// to `x86_64`.
pub open spec fn spec_arch_token(arch: Arch) -> Seq<char> {
    match arch {
        Arch::Aarch64 => "aarch64"@,
        Arch::X8664 => "x86_64"@,
        Arch::X86 => "x86_64"@,
    }
}

pub fn arch_token(arch: Arch) -> (r: &'static str)
    ensures
        r@ == spec_arch_token(arch),
{
    match arch {
        Arch::Aarch64 => "aarch64",
        Arch::X8664 => "x86_64",
        Arch::X86 => "x86_64",
    }
}

/// The file name of the executable inside the unpacked archive.
pub open spec fn spec_executable_filename(os: Os) -> Seq<char> {
    if os == Os::Windows {
        "mcp_relay.exe"@
    } else {
        "mcp_relay"@
    }
}

pub fn executable_filename(os: Os) -> (r: &'static str)
    ensures
        r@ == spec_executable_filename(os),
{
    if os == Os::Windows {
        "mcp_relay.exe"
    } else {
        "mcp_relay"
    }
}

/// The full asset name for a platform: `{component}-{os}-{arch}.tar.gz`.
pub open spec fn spec_asset_name(os: Os, arch: Arch) -> Seq<char> {
    spec_component_name() + "-"@ + spec_os_token(os) + "-"@ + spec_arch_token(arch)
        + ".tar.gz"@
}

pub fn asset_name(os: Os, arch: Arch) -> (r: String)
    ensures
        r@ == spec_asset_name(os, arch),
{
    let mut s = String::from_str(component_name());
    s.append("-");
    s.append(os_token(os));
    s.append("-");
    s.append(arch_token(arch));
    s.append(".tar.gz");
    s
}

/// Distinct platforms get distinct asset names. The asset name is a pure
/// function of the operating system and the normalized architecture token, so
/// together with `asset_name`'s postcondition this pins down one stable,
/// distinct name per supported platform pair.
pub proof fn lemma_asset_names_distinct(os1: Os, arch1: Arch, os2: Os, arch2: Arch)
    requires
        !(os1 == os2 && spec_arch_token(arch1) == spec_arch_token(arch2)),
    ensures
        spec_asset_name(os1, arch1) != spec_asset_name(os2, arch2),
{
    reveal_strlit("mcp-relay");
    reveal_strlit("-");
    reveal_strlit("darwin");
    reveal_strlit("linux");
    reveal_strlit("windows");
    reveal_strlit("aarch64");
    reveal_strlit("x86_64");
    reveal_strlit(".tar.gz");
    let n1 = spec_asset_name(os1, arch1);
    let n2 = spec_asset_name(os2, arch2);
    assert(spec_os_token(os1)[0] == n1[10]);
    assert(spec_os_token(os2)[0] == n2[10]);
    if os1 != os2 {
        assert(spec_os_token(os1)[0] != spec_os_token(os2)[0]);
        assert(n1 != n2);
    } else {
        let k = 11 + spec_os_token(os1).len() as int;
        assert(spec_arch_token(arch1)[0] == n1[k]);
        assert(spec_arch_token(arch2)[0] == n2[k]);
        assert(spec_arch_token(arch1)[0] != spec_arch_token(arch2)[0]);
        assert(n1 != n2);
    }
}

} // verus!
