//! Planning one provisioning attempt: from the host platform and the located
//! release, compute the expected asset name, pick the matching asset, and lay
//! out the version directory and binary path that the cache works with.

use vstd::prelude::*;
use vstd::string::StringExecFns;
use crate::error::ErrorModel;
use crate::error::ProvisionError;
use crate::platform::Arch;
use crate::platform::Os;
use crate::platform::asset_name;
use crate::platform::component_name;
use crate::platform::executable_filename;
use crate::platform::spec_asset_name;
use crate::platform::spec_component_name;
use crate::platform::spec_executable_filename;
use crate::release::ReleaseInfo;
use crate::release::ReleaseModel;
use crate::release::find_asset;
use crate::release::first_match;
use crate::release::has_matching_asset;

verus! {

/// Whether `prefix` is an initial segment of `s`.
pub open spec fn starts_with(s: Seq<char>, prefix: Seq<char>) -> bool {
    prefix.len() <= s.len() && s.subrange(0, prefix.len() as int) == prefix
}

/// Everything the cache manager needs to bring the binary of one release
/// onto disk.
pub struct ProvisionPlan {
    /// Where the matching asset's archive is downloaded from.
    pub download_url: String,
    /// The directory the archive is unpacked into: `{component}-{version}`.
    pub version_dir: String,
    /// The executable's path inside that directory.
    pub binary_path: String,
    /// Whether the binary must be marked executable after unpacking (true on
    /// every platform but Windows).
    pub mark_executable: bool,
}

/// The ghost mirror of `ProvisionPlan`.
pub ghost struct PlanModel {
    pub download_url: Seq<char>,
    pub version_dir: Seq<char>,
    pub binary_path: Seq<char>,
    pub mark_executable: bool,
}

impl View for ProvisionPlan {
    type V = PlanModel;

    open spec fn view(&self) -> PlanModel {
        PlanModel {
            download_url: self.download_url@,
            version_dir: self.version_dir@,
            binary_path: self.binary_path@,
            mark_executable: self.mark_executable,
        }
    }
}

/// The version directory for a release: `{component}-{version}`. The version
/// tag is embedded in the name, so staleness is visible from the name alone.
pub open spec fn spec_version_dir(version: Seq<char>) -> Seq<char> {
    spec_component_name() + "-"@ + version
}

/// The binary's path for a release: `{version_dir}/{executable}`.
pub open spec fn spec_binary_path(version: Seq<char>, os: Os) -> Seq<char> {
    spec_version_dir(version) + "/"@ + spec_executable_filename(os)
}

/// The plan for a release that holds a matching asset.
pub open spec fn spec_plan(os: Os, arch: Arch, release: ReleaseModel) -> PlanModel {
    PlanModel {
        download_url: release.assets[first_match(
            release.assets,
            spec_asset_name(os, arch),
        )].download_url,
        version_dir: spec_version_dir(release.version),
        binary_path: spec_binary_path(release.version, os),
        mark_executable: os != Os::Windows,
    }
}

/// A plan's paths are tied together and to the component: the version
/// directory carries the component prefix, and the binary path sits inside
/// the version directory.
pub open spec fn plan_paths_wf(p: PlanModel) -> bool {
    starts_with(p.version_dir, spec_component_name()) && starts_with(
        p.binary_path,
        p.version_dir,
    )
}

/// Every version directory starts with the component name.
pub proof fn lemma_version_dir_prefixed(version: Seq<char>)
    ensures
        starts_with(spec_version_dir(version), spec_component_name()),
{
    let d = spec_version_dir(version);
    let c = spec_component_name();
    assert(d.subrange(0, c.len() as int) =~= c);
}

/// Plans built by `spec_plan` have well-formed paths.
pub proof fn lemma_spec_plan_paths_wf(os: Os, arch: Arch, release: ReleaseModel)
    ensures
        plan_paths_wf(spec_plan(os, arch, release)),
{
    let p = spec_plan(os, arch, release);
    lemma_version_dir_prefixed(release.version);
    assert(p.binary_path.subrange(0, p.version_dir.len() as int) =~= p.version_dir);
}

/// Builds the plan for one attempt. Succeeds if and only if the release holds
/// an asset named exactly `{component}-{os}-{arch}.tar.gz` for this platform;
/// otherwise fails with `AssetNotFound` carrying that expected name.
pub fn plan_provision(os: Os, arch: Arch, release: &ReleaseInfo) -> (r: Result<
    ProvisionPlan,
    ProvisionError,
>)
    ensures
        r is Ok <==> has_matching_asset(release@.assets, spec_asset_name(os, arch)),
        r matches Ok(p) ==> p@ == spec_plan(os, arch, release@),
        r matches Err(e) ==> (e@ matches ErrorModel::AssetNotFound { expected_name }
            && expected_name == spec_asset_name(os, arch)),
{
    let expected = asset_name(os, arch);
    let asset = match find_asset(release, &expected) {
        Ok(a) => a,
        Err(e) => {
            return Err(e);
        },
    };
    let mut version_dir = String::from_str(component_name());
    version_dir.append("-");
    version_dir.append(release.version.as_str());
    let mut binary_path = version_dir.clone();
    binary_path.append("/");
    binary_path.append(executable_filename(os));
    Ok(
        ProvisionPlan {
            download_url: asset.download_url.clone(),
            version_dir,
            binary_path,
            mark_executable: os != Os::Windows,
        },
    )
}

} // verus!
