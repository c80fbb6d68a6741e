//! Laws of the provisioning machine: what a driver that follows the
//! machine's requests faithfully can rely on across a whole attempt —
//! cache hits cost no I/O, memoization makes later calls free, and a
//! successful cache-miss attempt leaves exactly one version directory.

use vstd::prelude::*;
use crate::machine::PhaseModel;
use crate::machine::ReplyModel;
use crate::machine::RequestModel;
use crate::machine::is_terminal;
use crate::machine::spec_start;
use crate::machine::spec_step;
use crate::plan::PlanModel;
use crate::plan::plan_paths_wf;
use crate::plan::starts_with;
use crate::platform::Arch;
use crate::platform::Os;
use crate::platform::spec_component_name;

verus! {

/// An optional request as a (possibly empty) sequence.
pub open spec fn opt_to_seq(o: Option<RequestModel>) -> Seq<RequestModel> {
    match o {
        Some(r) => seq![r],
        None => Seq::empty(),
    }
}

/// Runs the machine from `phase` through `replies`, stopping at a terminal
/// phase: the phase reached and the requests issued along the way, in order.
pub open spec fn spec_run(phase: PhaseModel, replies: Seq<ReplyModel>) -> (PhaseModel, Seq<
    RequestModel,
>)
    decreases replies.len(),
{
    if replies.len() == 0 || is_terminal(phase) {
        (phase, Seq::empty())
    } else {
        let stepped = spec_step(phase, replies[0]);
        let rest = spec_run(stepped.0, replies.drop_first());
        (rest.0, opt_to_seq(stepped.1) + rest.1)
    }
}

/// The entries left in the working directory after the sweep deletes every
/// entry carrying `prefix` (assuming each best-effort deletion succeeds).
pub open spec fn remove_matching(dir: Set<Seq<char>>, prefix: Seq<char>) -> Set<Seq<char>> {
    Set::new(|e: Seq<char>| dir.contains(e) && !starts_with(e, prefix))
}

/// The effect of one faithfully performed request on the set of entry names
/// in the working directory. Queries change nothing; the sweep removes its
/// matches; a download creates the destination directory.
pub open spec fn apply_request(dir: Set<Seq<char>>, req: RequestModel) -> Set<Seq<char>> {
    match req {
        RequestModel::RemoveMatching { prefix } => remove_matching(dir, prefix),
        RequestModel::FetchArchive { url, dest_dir } => dir.insert(dest_dir),
        _ => dir,
    }
}

/// The working directory after a whole sequence of requests.
pub open spec fn apply_all(dir: Set<Seq<char>>, reqs: Seq<RequestModel>) -> Set<Seq<char>>
    decreases reqs.len(),
{
    if reqs.len() == 0 {
        dir
    } else {
        apply_all(apply_request(dir, reqs[0]), reqs.drop_first())
    }
}

/// Cache-hit short-circuit: when the planned binary path already exists on
/// disk, the attempt completes at once with that path unchanged, and the
/// driver is asked for nothing further — in particular, no download and no
/// deletion, whatever replies might follow.
pub proof fn lemma_cache_hit_short_circuit(plan: PlanModel, rest: Seq<ReplyModel>)
    ensures
        ({
            let replies = seq![ReplyModel::FileExists { exists: true }] + rest;
            let r = spec_run(PhaseModel::AwaitCacheCheck { plan }, replies);
            r.0 == PhaseModel::Complete { binary_path: plan.binary_path } && r.1
                == Seq::<RequestModel>::empty()
        }),
{
    reveal_with_fuel(spec_run, 3);
    let replies = seq![ReplyModel::FileExists { exists: true }] + rest;
    let s0 = PhaseModel::AwaitCacheCheck { plan };
    assert(replies[0] == ReplyModel::FileExists { exists: true });
    let stepped = spec_step(s0, replies[0]);
    assert(stepped.0 == PhaseModel::Complete { binary_path: plan.binary_path });
    assert(is_terminal(stepped.0));
    let r = spec_run(s0, replies);
    assert(r.1 =~= Seq::<RequestModel>::empty());
}

/// Memoized idempotence: once a successful attempt has recorded its path,
/// a later attempt starts complete, with that same path and no request at
/// all — no network and no filesystem I/O happen after the first success.
pub proof fn lemma_memoized_no_requests(
    path: Seq<char>,
    os: Os,
    arch: Arch,
    replies: Seq<ReplyModel>,
)
    ensures
        (spec_start(Some(path), os, arch).0 == PhaseModel::Complete { binary_path: path }),
        (spec_start(Some(path), os, arch).1 is None),
        (spec_run(PhaseModel::Complete { binary_path: path }, replies).1
            == Seq::<RequestModel>::empty()),
        (spec_run(PhaseModel::Complete { binary_path: path }, replies).0
            == PhaseModel::Complete { binary_path: path }),
{
}

/// The replies a driver reports back during a successful cache-miss attempt,
/// in order: the binary was absent, the sweep ran, the archive was fetched
/// and unpacked, and — where required — the binary was marked executable.
pub open spec fn success_replies(plan: PlanModel) -> Seq<ReplyModel> {
    if plan.mark_executable {
        seq![
            ReplyModel::FileExists { exists: false },
            ReplyModel::CleanupDone,
            ReplyModel::ArchiveFetched,
            ReplyModel::ExecutableMarked,
        ]
    } else {
        seq![
            ReplyModel::FileExists { exists: false },
            ReplyModel::CleanupDone,
            ReplyModel::ArchiveFetched,
        ]
    }
}

/// The requests a successful cache-miss attempt issues, in order: one sweep
/// of the component's entries, one download into the version directory, and
/// — where required — one chmod on the binary path. Nothing else, and
/// nothing twice.
pub open spec fn success_requests(plan: PlanModel) -> Seq<RequestModel> {
    let base = seq![
        RequestModel::RemoveMatching { prefix: spec_component_name() },
        RequestModel::FetchArchive { url: plan.download_url, dest_dir: plan.version_dir },
    ];
    if plan.mark_executable {
        base.push(RequestModel::SetExecutable { path: plan.binary_path })
    } else {
        base
    }
}

/// Cleanup-then-fetch invariant: a successful cache-miss attempt completes
/// with the plan's binary path and issues exactly the requests of
/// `success_requests`, in that order. On a faithfully driven working
/// directory it leaves exactly one entry carrying the component prefix — the
/// new version directory. Any stale version directory is gone, and every
/// unrelated entry survives.
pub proof fn lemma_success_attempt(plan: PlanModel, dir: Set<Seq<char>>)
    requires
        plan_paths_wf(plan),
    ensures
        ({
            let r = spec_run(PhaseModel::AwaitCacheCheck { plan }, success_replies(plan));
            let after = apply_all(dir, r.1);
            r.0 == PhaseModel::Complete { binary_path: plan.binary_path }
                && r.1 == success_requests(plan)
                && after.contains(plan.version_dir)
                && (forall|e: Seq<char>| #[trigger] after.contains(e)
                    && starts_with(e, spec_component_name()) ==> e == plan.version_dir)
                && (forall|e: Seq<char>| dir.contains(e)
                    && !starts_with(e, spec_component_name()) ==> #[trigger] after.contains(e))
        }),
{
    reveal_with_fuel(spec_run, 6);
    reveal_with_fuel(apply_all, 5);
    let replies = success_replies(plan);
    let s0 = PhaseModel::AwaitCacheCheck { plan };
    let t1 = spec_step(s0, replies[0]);
    assert(t1.0 == PhaseModel::AwaitCleanup { plan });
    let r1 = replies.drop_first();
    let t2 = spec_step(t1.0, r1[0]);
    assert(t2.0 == PhaseModel::AwaitDownload { plan });
    let r2 = r1.drop_first();
    let t3 = spec_step(t2.0, r2[0]);
    let r3 = r2.drop_first();
    let reqs = spec_run(s0, replies).1;
    if plan.mark_executable {
        assert(t3.0 == PhaseModel::AwaitChmod { plan });
        let t4 = spec_step(t3.0, r3[0]);
        assert(t4.0 == PhaseModel::Complete { binary_path: plan.binary_path });
        assert(r3.drop_first().len() == 0);
        assert(spec_run(s0, replies).0 == PhaseModel::Complete { binary_path: plan.binary_path });
        assert(reqs =~= success_requests(plan));
    } else {
        assert(t3.0 == PhaseModel::Complete { binary_path: plan.binary_path });
        assert(r3.len() == 0);
        assert(spec_run(s0, replies).0 == PhaseModel::Complete { binary_path: plan.binary_path });
        assert(reqs =~= success_requests(plan));
    }
    let swept = remove_matching(dir, spec_component_name());
    let after = apply_all(dir, reqs);
    assert(after =~= swept.insert(plan.version_dir));
    assert(after.contains(plan.version_dir));
    assert forall|e: Seq<char>| #[trigger] after.contains(e)
        && starts_with(e, spec_component_name()) implies e == plan.version_dir by {
        if e != plan.version_dir {
            assert(swept.contains(e));
            assert(!starts_with(e, spec_component_name()));
        }
    }
}

} // verus!
