//! The provisioning state machine. One provisioning attempt is a sequence of
//! decisions interleaved with I/O; the I/O itself (release lookup, stat,
//! delete, download, chmod) is performed by a driver outside this crate. The
//! driver calls `Provisioner::start`, performs the returned request, and
//! feeds the outcome back through `step` until the phase is terminal. Every
//! transition is pinned by `spec_step`, so the order of effects — cache check
//! before cleanup, cleanup before download, download before chmod — is part
//! of the verified contract.

use vstd::prelude::*;
use vstd::string::StrSliceExecFns;
use vstd::string::StringExecFns;
use crate::error::ErrorModel;
use crate::error::ProvisionError;
use crate::plan::PlanModel;
use crate::plan::ProvisionPlan;
use crate::plan::plan_provision;
use crate::plan::spec_plan;
use crate::plan::starts_with;
use crate::platform::Arch;
use crate::platform::Os;
use crate::platform::component_name;
use crate::platform::component_repo;
use crate::platform::spec_asset_name;
use crate::platform::spec_component_name;
use crate::platform::spec_component_repo;
use crate::release::ReleaseInfo;
use crate::release::ReleaseModel;
use crate::release::has_matching_asset;

verus! {

/// Where one provisioning attempt stands.
pub enum Phase {
    /// Waiting for the release index to answer.
    AwaitRelease { os: Os, arch: Arch },
    /// Waiting to learn whether the planned binary path already exists.
    AwaitCacheCheck { plan: ProvisionPlan },
    /// Waiting for the stale-version sweep to finish.
    AwaitCleanup { plan: ProvisionPlan },
    /// Waiting for the archive to be fetched and unpacked.
    AwaitDownload { plan: ProvisionPlan },
    /// Waiting for the binary to be marked executable.
    AwaitChmod { plan: ProvisionPlan },
    /// The binary is provisioned at this path.
    Complete { binary_path: String },
    /// The attempt stopped; nothing was partially returned.
    Failed { error: ProvisionError },
}

/// What the driver must do next.
pub enum Request {
    /// Query the release index for the latest release of this repository
    /// that has downloadable assets and is not a pre-release.
    FetchLatestRelease { repo: String },
    /// Report whether a file exists at this path.
    StatFile { path: String },
    /// Best-effort delete of every working-directory entry whose name starts
    /// with this prefix; failures are swallowed.
    RemoveMatching { prefix: String },
    /// Download the archive at `url` and unpack it into `dest_dir`.
    FetchArchive { url: String, dest_dir: String },
    /// Mark the file at this path executable.
    SetExecutable { path: String },
}

/// What the driver observed while performing the request.
pub enum Reply {
    ReleaseLocated { release: ReleaseInfo },
    ReleaseLookupFailed { detail: String },
    FileExists { exists: bool },
    CleanupDone,
    ArchiveFetched,
    ArchiveFetchFailed { detail: String },
    ExecutableMarked,
    ExecutableMarkFailed { detail: String },
}

/// The ghost mirror of `Phase`.
pub ghost enum PhaseModel {
    AwaitRelease { os: Os, arch: Arch },
    AwaitCacheCheck { plan: PlanModel },
    AwaitCleanup { plan: PlanModel },
    AwaitDownload { plan: PlanModel },
    AwaitChmod { plan: PlanModel },
    Complete { binary_path: Seq<char> },
    Failed { error: ErrorModel },
}

/// The ghost mirror of `Request`.
pub ghost enum RequestModel {
    FetchLatestRelease { repo: Seq<char> },
    StatFile { path: Seq<char> },
    RemoveMatching { prefix: Seq<char> },
    FetchArchive { url: Seq<char>, dest_dir: Seq<char> },
    SetExecutable { path: Seq<char> },
}

/// The ghost mirror of `Reply`.
pub ghost enum ReplyModel {
    ReleaseLocated { release: ReleaseModel },
    ReleaseLookupFailed { detail: Seq<char> },
    FileExists { exists: bool },
    CleanupDone,
    ArchiveFetched,
    ArchiveFetchFailed { detail: Seq<char> },
    ExecutableMarked,
    ExecutableMarkFailed { detail: Seq<char> },
}

impl View for Phase {
    type V = PhaseModel;

    open spec fn view(&self) -> PhaseModel {
        match self {
            Phase::AwaitRelease { os, arch } => PhaseModel::AwaitRelease { os: *os, arch: *arch },
            Phase::AwaitCacheCheck { plan } => PhaseModel::AwaitCacheCheck { plan: plan@ },
            Phase::AwaitCleanup { plan } => PhaseModel::AwaitCleanup { plan: plan@ },
            Phase::AwaitDownload { plan } => PhaseModel::AwaitDownload { plan: plan@ },
            Phase::AwaitChmod { plan } => PhaseModel::AwaitChmod { plan: plan@ },
            Phase::Complete { binary_path } => PhaseModel::Complete { binary_path: binary_path@ },
            Phase::Failed { error } => PhaseModel::Failed { error: error@ },
        }
    }
}

impl View for Request {
    type V = RequestModel;

    open spec fn view(&self) -> RequestModel {
        match self {
            Request::FetchLatestRelease { repo } => RequestModel::FetchLatestRelease {
                repo: repo@,
            },
            Request::StatFile { path } => RequestModel::StatFile { path: path@ },
            Request::RemoveMatching { prefix } => RequestModel::RemoveMatching {
                prefix: prefix@,
            },
            Request::FetchArchive { url, dest_dir } => RequestModel::FetchArchive {
                url: url@,
                dest_dir: dest_dir@,
            },
            Request::SetExecutable { path } => RequestModel::SetExecutable { path: path@ },
        }
    }
}

impl View for Reply {
    type V = ReplyModel;

    open spec fn view(&self) -> ReplyModel {
        match self {
            Reply::ReleaseLocated { release } => ReplyModel::ReleaseLocated { release: release@ },
            Reply::ReleaseLookupFailed { detail } => ReplyModel::ReleaseLookupFailed {
                detail: detail@,
            },
            Reply::FileExists { exists } => ReplyModel::FileExists { exists: *exists },
            Reply::CleanupDone => ReplyModel::CleanupDone,
            Reply::ArchiveFetched => ReplyModel::ArchiveFetched,
            Reply::ArchiveFetchFailed { detail } => ReplyModel::ArchiveFetchFailed {
                detail: detail@,
            },
            Reply::ExecutableMarked => ReplyModel::ExecutableMarked,
            Reply::ExecutableMarkFailed { detail } => ReplyModel::ExecutableMarkFailed {
                detail: detail@,
            },
        }
    }
}

/// The view of an optional request.
pub open spec fn opt_request_view(o: Option<Request>) -> Option<RequestModel> {
    match o {
        Some(r) => Some(r@),
        None => None,
    }
}

/// Whether the attempt is over, successfully or not.
pub open spec fn is_terminal(phase: PhaseModel) -> bool {
    phase is Complete || phase is Failed
}

/// The transition relation of one provisioning attempt. A reply that does not
/// answer the pending phase leaves the phase unchanged and requests nothing.
pub open spec fn spec_step(phase: PhaseModel, reply: ReplyModel) -> (PhaseModel, Option<
    RequestModel,
>) {
    match (phase, reply) {
        (PhaseModel::AwaitRelease { os, arch }, ReplyModel::ReleaseLocated { release }) => {
            if has_matching_asset(release.assets, spec_asset_name(os, arch)) {
                let plan = spec_plan(os, arch, release);
                (
                    PhaseModel::AwaitCacheCheck { plan },
                    Some(RequestModel::StatFile { path: plan.binary_path }),
                )
            } else {
                (
                    PhaseModel::Failed {
                        error: ErrorModel::AssetNotFound {
                            expected_name: spec_asset_name(os, arch),
                        },
                    },
                    None,
                )
            }
        },
        (
            PhaseModel::AwaitRelease { os, arch },
            ReplyModel::ReleaseLookupFailed { detail },
        ) => (PhaseModel::Failed { error: ErrorModel::ReleaseNotFound { detail } }, None),
        (PhaseModel::AwaitCacheCheck { plan }, ReplyModel::FileExists { exists }) => {
            if exists {
                (PhaseModel::Complete { binary_path: plan.binary_path }, None)
            } else {
                (
                    PhaseModel::AwaitCleanup { plan },
                    Some(RequestModel::RemoveMatching { prefix: spec_component_name() }),
                )
            }
        },
        (PhaseModel::AwaitCleanup { plan }, ReplyModel::CleanupDone) => (
            PhaseModel::AwaitDownload { plan },
            Some(
                RequestModel::FetchArchive {
                    url: plan.download_url,
                    dest_dir: plan.version_dir,
                },
            ),
        ),
        (PhaseModel::AwaitDownload { plan }, ReplyModel::ArchiveFetched) => {
            if plan.mark_executable {
                (
                    PhaseModel::AwaitChmod { plan },
                    Some(RequestModel::SetExecutable { path: plan.binary_path }),
                )
            } else {
                (PhaseModel::Complete { binary_path: plan.binary_path }, None)
            }
        },
        (PhaseModel::AwaitDownload { plan }, ReplyModel::ArchiveFetchFailed { detail }) => (
            PhaseModel::Failed { error: ErrorModel::DownloadFailed { detail } },
            None,
        ),
        (PhaseModel::AwaitChmod { plan }, ReplyModel::ExecutableMarked) => (
            PhaseModel::Complete { binary_path: plan.binary_path },
            None,
        ),
        (PhaseModel::AwaitChmod { plan }, ReplyModel::ExecutableMarkFailed { detail }) => (
            PhaseModel::Failed { error: ErrorModel::PermissionError { detail } },
            None,
        ),
        (p, _) => (p, None),
    }
}

/// Advances one provisioning attempt by one observed reply. The result is
/// exactly what `spec_step` prescribes for the current phase and reply.
pub fn step(phase: Phase, reply: Reply) -> (r: (Phase, Option<Request>))
    ensures
        r.0@ == spec_step(phase@, reply@).0,
        opt_request_view(r.1) == spec_step(phase@, reply@).1,
{
    match (phase, reply) {
        (Phase::AwaitRelease { os, arch }, Reply::ReleaseLocated { release }) => {
            match plan_provision(os, arch, &release) {
                Ok(plan) => {
                    let path = plan.binary_path.clone();
                    (Phase::AwaitCacheCheck { plan }, Some(Request::StatFile { path }))
                },
                Err(e) => (Phase::Failed { error: e }, None),
            }
        },
        (Phase::AwaitRelease { os: _, arch: _ }, Reply::ReleaseLookupFailed { detail }) => (
            Phase::Failed { error: ProvisionError::ReleaseNotFound(detail) },
            None,
        ),
        (Phase::AwaitCacheCheck { plan }, Reply::FileExists { exists }) => {
            if exists {
                (Phase::Complete { binary_path: plan.binary_path }, None)
            } else {
                (
                    Phase::AwaitCleanup { plan },
                    Some(
                        Request::RemoveMatching {
                            prefix: String::from_str(component_name()),
                        },
                    ),
                )
            }
        },
        (Phase::AwaitCleanup { plan }, Reply::CleanupDone) => {
            let url = plan.download_url.clone();
            let dest_dir = plan.version_dir.clone();
            (Phase::AwaitDownload { plan }, Some(Request::FetchArchive { url, dest_dir }))
        },
        (Phase::AwaitDownload { plan }, Reply::ArchiveFetched) => {
            if plan.mark_executable {
                let path = plan.binary_path.clone();
                (Phase::AwaitChmod { plan }, Some(Request::SetExecutable { path }))
            } else {
                (Phase::Complete { binary_path: plan.binary_path }, None)
            }
        },
        (Phase::AwaitDownload { plan: _ }, Reply::ArchiveFetchFailed { detail }) => (
            Phase::Failed { error: ProvisionError::DownloadFailed(detail) },
            None,
        ),
        (Phase::AwaitChmod { plan }, Reply::ExecutableMarked) => (
            Phase::Complete { binary_path: plan.binary_path },
            None,
        ),
        (Phase::AwaitChmod { plan: _ }, Reply::ExecutableMarkFailed { detail }) => (
            Phase::Failed { error: ProvisionError::PermissionError(detail) },
            None,
        ),
        (p, _) => (p, None),
    }
}

/// The in-process memo cell: once an attempt succeeds, the binary path is
/// recorded here and later calls return it without touching disk or network.
pub struct Provisioner {
    binary_path: Option<String>,
}

impl View for Provisioner {
    type V = Option<Seq<char>>;

    closed spec fn view(&self) -> Option<Seq<char>> {
        match self.binary_path {
            Some(p) => Some(p@),
            None => None,
        }
    }
}

/// How an attempt begins: a memoized path completes at once with no request;
/// otherwise the release index must be queried for the component repository.
pub open spec fn spec_start(cached: Option<Seq<char>>, os: Os, arch: Arch) -> (PhaseModel, Option<
    RequestModel,
>) {
    match cached {
        Some(path) => (PhaseModel::Complete { binary_path: path }, None),
        None => (
            PhaseModel::AwaitRelease { os, arch },
            Some(RequestModel::FetchLatestRelease { repo: spec_component_repo() }),
        ),
    }
}

impl Provisioner {
    /// A fresh provisioner, with nothing memoized.
    pub fn new() -> (r: Provisioner)
        ensures
            r@ is None,
    {
        Provisioner { binary_path: None }
    }

    /// The memoized binary path, if an attempt has succeeded before.
    pub fn cached_path(&self) -> (r: Option<&String>)
        ensures
            match r {
                Some(p) => self@ == Some(p@),
                None => self@ is None,
            },
    {
        self.binary_path.as_ref()
    }

    /// Begins an attempt, exactly as `spec_start` prescribes.
    pub fn start(&self, os: Os, arch: Arch) -> (r: (Phase, Option<Request>))
        ensures
            r.0@ == spec_start(self@, os, arch).0,
            opt_request_view(r.1) == spec_start(self@, os, arch).1,
    {
        match &self.binary_path {
            Some(p) => (Phase::Complete { binary_path: p.clone() }, None),
            None => (
                Phase::AwaitRelease { os, arch },
                Some(
                    Request::FetchLatestRelease {
                        repo: String::from_str(component_repo()),
                    },
                ),
            ),
        }
    }

    /// Memoizes the path a successful attempt ended with.
    pub fn record_success(&mut self, binary_path: String)
        ensures
            final(self)@ == Some(binary_path@),
    {
        self.binary_path = Some(binary_path);
    }
}

/// The cleanup sweep's predicate: an entry is removed exactly when its name
/// starts with the component name, so every prior version directory of this
/// component goes, and nothing else does.
pub fn should_remove(entry_name: &str) -> (r: bool)
    ensures
        r == starts_with(entry_name@, spec_component_name()),
{
    let prefix = component_name();
    let n = prefix.unicode_len();
    let total = entry_name.unicode_len();
    if total < n {
        return false;
    }
    let mut i: usize = 0;
    while i < n
        invariant
            prefix@ == spec_component_name(),
            n == prefix@.len(),
            n <= entry_name@.len(),
            i <= n,
            forall|j: int| 0 <= j < i ==> entry_name@[j] == prefix@[j],
        decreases n - i,
    {
        if entry_name.get_char(i) != prefix.get_char(i) {
            proof {
                if starts_with(entry_name@, spec_component_name()) {
                    assert(entry_name@.subrange(0, n as int)[i as int] == entry_name@[i as int]);
                }
            }
            return false;
        }
        i = i + 1;
    }
    proof {
        assert(entry_name@.subrange(0, n as int) =~= prefix@);
    }
    true
}

} // verus!
