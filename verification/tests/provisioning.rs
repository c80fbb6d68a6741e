use emfont_mcp::command::server_command;
use emfont_mcp::error::ProvisionError;
use emfont_mcp::machine::Phase;
use emfont_mcp::machine::Provisioner;
use emfont_mcp::machine::Reply;
use emfont_mcp::machine::Request;
use emfont_mcp::machine::should_remove;
use emfont_mcp::machine::step;
use emfont_mcp::plan::plan_provision;
use emfont_mcp::platform::Arch;
use emfont_mcp::platform::Os;
use emfont_mcp::platform::arch_token;
use emfont_mcp::platform::asset_name;
use emfont_mcp::platform::component_name;
use emfont_mcp::platform::component_repo;
use emfont_mcp::platform::executable_filename;
use emfont_mcp::platform::os_token;
use emfont_mcp::release::Asset;
use emfont_mcp::release::ReleaseInfo;
use emfont_mcp::release::find_asset;

fn release(version: &str, names: &[&str]) -> ReleaseInfo {
    ReleaseInfo {
        version: version.to_string(),
        assets: names
            .iter()
            .map(|n| Asset {
                name: n.to_string(),
                download_url: format!("https://releases.example/{}", n),
            })
            .collect(),
    }
}

#[test]
fn asset_names_are_stable_and_distinct() {
    assert_eq!(asset_name(Os::Mac, Arch::Aarch64), "mcp-relay-darwin-aarch64.tar.gz");
    assert_eq!(asset_name(Os::Mac, Arch::X8664), "mcp-relay-darwin-x86_64.tar.gz");
    assert_eq!(asset_name(Os::Linux, Arch::Aarch64), "mcp-relay-linux-aarch64.tar.gz");
    assert_eq!(asset_name(Os::Linux, Arch::X8664), "mcp-relay-linux-x86_64.tar.gz");
    assert_eq!(asset_name(Os::Windows, Arch::Aarch64), "mcp-relay-windows-aarch64.tar.gz");
    assert_eq!(asset_name(Os::Windows, Arch::X8664), "mcp-relay-windows-x86_64.tar.gz");
    let all = [
        asset_name(Os::Mac, Arch::Aarch64),
        asset_name(Os::Mac, Arch::X8664),
        asset_name(Os::Linux, Arch::Aarch64),
        asset_name(Os::Linux, Arch::X8664),
        asset_name(Os::Windows, Arch::Aarch64),
        asset_name(Os::Windows, Arch::X8664),
    ];
    for i in 0..all.len() {
        for j in 0..all.len() {
            if i != j {
                assert_ne!(all[i], all[j]);
            }
        }
    }
    // Same input, same output: a pure function of the platform pair.
    assert_eq!(asset_name(Os::Linux, Arch::X8664), asset_name(Os::Linux, Arch::X8664));
}

#[test]
fn x86_is_normalized_to_x86_64() {
    assert_eq!(arch_token(Arch::X86), "x86_64");
    assert_eq!(asset_name(Os::Linux, Arch::X86), asset_name(Os::Linux, Arch::X8664));
}

#[test]
fn platform_tokens() {
    assert_eq!(os_token(Os::Mac), "darwin");
    assert_eq!(os_token(Os::Linux), "linux");
    assert_eq!(os_token(Os::Windows), "windows");
    assert_eq!(arch_token(Arch::Aarch64), "aarch64");
    assert_eq!(arch_token(Arch::X8664), "x86_64");
    assert_eq!(executable_filename(Os::Windows), "mcp_relay.exe");
    assert_eq!(executable_filename(Os::Linux), "mcp_relay");
    assert_eq!(executable_filename(Os::Mac), "mcp_relay");
    assert_eq!(component_name(), "mcp-relay");
    assert_eq!(component_repo(), "moshyfawn/mcp-relay");
}

#[test]
fn find_asset_returns_exact_match() {
    let rel = release(
        "v1.2.0",
        &["mcp-relay-darwin-aarch64.tar.gz", "mcp-relay-linux-x86_64.tar.gz"],
    );
    let expected = asset_name(Os::Linux, Arch::X8664);
    let asset = find_asset(&rel, &expected).unwrap();
    assert_eq!(asset.name, "mcp-relay-linux-x86_64.tar.gz");
    assert_eq!(asset.download_url, "https://releases.example/mcp-relay-linux-x86_64.tar.gz");
}

#[test]
fn find_asset_rejects_different_names() {
    let rel = release("v1.2.0", &["mcp-relay-linux-x86_64.tar.gz.sha256", "mcp-relay-linux"]);
    let expected = asset_name(Os::Linux, Arch::X8664);
    match find_asset(&rel, &expected) {
        Err(ProvisionError::AssetNotFound(name)) => {
            assert_eq!(name, "mcp-relay-linux-x86_64.tar.gz");
        }
        _ => panic!("expected AssetNotFound"),
    }
}

#[test]
fn plan_lays_out_version_dir_and_binary_path() {
    let rel = release("v1.2.0", &["mcp-relay-linux-x86_64.tar.gz"]);
    let plan = plan_provision(Os::Linux, Arch::X8664, &rel).unwrap();
    assert_eq!(plan.version_dir, "mcp-relay-v1.2.0");
    assert_eq!(plan.binary_path, "mcp-relay-v1.2.0/mcp_relay");
    assert_eq!(plan.download_url, "https://releases.example/mcp-relay-linux-x86_64.tar.gz");
    assert!(plan.mark_executable);
}

#[test]
fn plan_on_windows_needs_no_chmod() {
    let rel = release("v2.0.0", &["mcp-relay-windows-x86_64.tar.gz"]);
    let plan = plan_provision(Os::Windows, Arch::X8664, &rel).unwrap();
    assert_eq!(plan.binary_path, "mcp-relay-v2.0.0/mcp_relay.exe");
    assert!(!plan.mark_executable);
}

#[test]
fn wrong_platform_asset_is_a_hard_stop() {
    // The release only carries a Windows build while the host is Linux.
    let rel = release("v1.2.0", &["mcp-relay-windows-x86_64.tar.gz"]);
    match plan_provision(Os::Linux, Arch::X8664, &rel) {
        Err(e) => {
            match &e {
                ProvisionError::AssetNotFound(name) => {
                    assert_eq!(name, "mcp-relay-linux-x86_64.tar.gz");
                }
                _ => panic!("expected AssetNotFound"),
            }
            assert_eq!(e.message(), "Asset not found: mcp-relay-linux-x86_64.tar.gz");
        }
        Ok(_) => panic!("expected failure"),
    }
}

#[test]
fn cache_hit_short_circuits_without_requests() {
    let rel = release("v1.2.0", &["mcp-relay-linux-x86_64.tar.gz"]);
    let plan = plan_provision(Os::Linux, Arch::X8664, &rel).unwrap();
    let (phase, req) = step(
        Phase::AwaitCacheCheck { plan },
        Reply::FileExists { exists: true },
    );
    assert!(req.is_none());
    match phase {
        Phase::Complete { binary_path } => assert_eq!(binary_path, "mcp-relay-v1.2.0/mcp_relay"),
        _ => panic!("expected Complete"),
    }
}

#[test]
fn memoized_provisioner_asks_for_nothing() {
    let mut p = Provisioner::new();
    assert!(p.cached_path().is_none());
    p.record_success("mcp-relay-v1.2.0/mcp_relay".to_string());
    assert_eq!(p.cached_path().unwrap(), "mcp-relay-v1.2.0/mcp_relay");
    let (phase, req) = p.start(Os::Linux, Arch::X8664);
    assert!(req.is_none());
    match phase {
        Phase::Complete { binary_path } => assert_eq!(binary_path, "mcp-relay-v1.2.0/mcp_relay"),
        _ => panic!("expected Complete"),
    }
}

#[test]
fn fresh_provisioner_queries_the_release_index() {
    let p = Provisioner::new();
    let (phase, req) = p.start(Os::Linux, Arch::X8664);
    match req {
        Some(Request::FetchLatestRelease { repo }) => assert_eq!(repo, "moshyfawn/mcp-relay"),
        _ => panic!("expected FetchLatestRelease"),
    }
    assert!(matches!(phase, Phase::AwaitRelease { .. }));
}

#[test]
fn sweep_predicate_matches_component_entries_only() {
    assert!(should_remove("mcp-relay-v1.1.0"));
    assert!(should_remove("mcp-relay"));
    assert!(!should_remove("mcp-rela"));
    assert!(!should_remove("other-dir"));
    assert!(!should_remove(""));
    assert!(!should_remove("MCP-relay-v1.1.0"));
}

#[test]
fn error_messages() {
    assert_eq!(
        ProvisionError::ReleaseNotFound("no releases".to_string()).message(),
        "no releases"
    );
    assert_eq!(
        ProvisionError::AssetNotFound("mcp-relay-linux-x86_64.tar.gz".to_string()).message(),
        "Asset not found: mcp-relay-linux-x86_64.tar.gz"
    );
    assert_eq!(
        ProvisionError::DownloadFailed("connection reset".to_string()).message(),
        "Download failed: connection reset"
    );
    assert_eq!(
        ProvisionError::PermissionError("permission denied".to_string()).message(),
        "permission denied"
    );
}

#[test]
fn release_lookup_failure_is_release_not_found() {
    let (phase, req) = step(
        Phase::AwaitRelease { os: Os::Linux, arch: Arch::X8664 },
        Reply::ReleaseLookupFailed { detail: "rate limited".to_string() },
    );
    assert!(req.is_none());
    match phase {
        Phase::Failed { error: ProvisionError::ReleaseNotFound(d) } => {
            assert_eq!(d, "rate limited");
        }
        _ => panic!("expected ReleaseNotFound"),
    }
}

#[test]
fn download_failure_is_terminal() {
    let rel = release("v1.2.0", &["mcp-relay-linux-x86_64.tar.gz"]);
    let plan = plan_provision(Os::Linux, Arch::X8664, &rel).unwrap();
    let (phase, req) = step(
        Phase::AwaitDownload { plan },
        Reply::ArchiveFetchFailed { detail: "timeout".to_string() },
    );
    assert!(req.is_none());
    match phase {
        Phase::Failed { error } => {
            assert_eq!(error.message(), "Download failed: timeout");
        }
        _ => panic!("expected Failed"),
    }
}

#[test]
fn chmod_failure_is_permission_error() {
    let rel = release("v1.2.0", &["mcp-relay-linux-x86_64.tar.gz"]);
    let plan = plan_provision(Os::Linux, Arch::X8664, &rel).unwrap();
    let (phase, req) = step(
        Phase::AwaitChmod { plan },
        Reply::ExecutableMarkFailed { detail: "permission denied".to_string() },
    );
    assert!(req.is_none());
    match phase {
        Phase::Failed { error: ProvisionError::PermissionError(d) } => {
            assert_eq!(d, "permission denied");
        }
        _ => panic!("expected PermissionError"),
    }
}

// Drives a whole cache-miss attempt for linux/x86_64 against a simulated
// working directory, the way the host-side driver would, and checks the
// stale-version sweep and the final path.
fn drive_success(start_entries: &[&str]) -> (String, Vec<String>) {
    let mut entries: Vec<String> = start_entries.iter().map(|e| e.to_string()).collect();
    let rel = release("v1.2.0", &["mcp-relay-linux-x86_64.tar.gz"]);
    let p = Provisioner::new();
    let (mut phase, mut req) = p.start(Os::Linux, Arch::X8664);
    let mut downloads = 0;
    loop {
        let reply = match req {
            Some(Request::FetchLatestRelease { repo }) => {
                assert_eq!(repo, "moshyfawn/mcp-relay");
                Reply::ReleaseLocated {
                    release: release("v1.2.0", &["mcp-relay-linux-x86_64.tar.gz"]),
                }
            }
            Some(Request::StatFile { path }) => Reply::FileExists {
                exists: entries.iter().any(|e| *e == path),
            },
            Some(Request::RemoveMatching { prefix }) => {
                assert_eq!(prefix, "mcp-relay");
                entries.retain(|e| !should_remove(e));
                Reply::CleanupDone
            }
            Some(Request::FetchArchive { url, dest_dir }) => {
                assert_eq!(url, rel.assets[0].download_url);
                downloads += 1;
                entries.push(dest_dir);
                Reply::ArchiveFetched
            }
            Some(Request::SetExecutable { path }) => {
                assert!(entries.iter().any(|e| path.starts_with(e.as_str())));
                Reply::ExecutableMarked
            }
            None => break,
        };
        let next = step(phase, reply);
        phase = next.0;
        req = next.1;
    }
    assert_eq!(downloads, 1);
    match phase {
        Phase::Complete { binary_path } => (binary_path, entries),
        _ => panic!("expected Complete"),
    }
}

#[test]
fn linux_provisioning_scenario() {
    let (path, entries) = drive_success(&[]);
    assert_eq!(path, "mcp-relay-v1.2.0/mcp_relay");
    assert_eq!(entries, vec!["mcp-relay-v1.2.0".to_string()]);
}

#[test]
fn stale_version_directory_is_swept() {
    let (path, entries) = drive_success(&["mcp-relay-v1.1.0", "other-dir"]);
    assert_eq!(path, "mcp-relay-v1.2.0/mcp_relay");
    assert!(!entries.iter().any(|e| e == "mcp-relay-v1.1.0"));
    assert!(entries.iter().any(|e| e == "other-dir"));
    let component_dirs: Vec<&String> =
        entries.iter().filter(|e| e.starts_with("mcp-relay")).collect();
    assert_eq!(component_dirs.len(), 1);
    assert_eq!(component_dirs[0], "mcp-relay-v1.2.0");
}

#[test]
fn cached_binary_means_no_download() {
    // The planned binary path already exists: the attempt completes with no
    // cleanup, no download, and no chmod request.
    let rel = release("v1.2.0", &["mcp-relay-linux-x86_64.tar.gz"]);
    let plan = plan_provision(Os::Linux, Arch::X8664, &rel).unwrap();
    let binary = plan.binary_path.clone();
    let (phase, req) = step(Phase::AwaitCacheCheck { plan }, Reply::FileExists { exists: true });
    assert!(req.is_none());
    match phase {
        Phase::Complete { binary_path } => assert_eq!(binary_path, binary),
        _ => panic!("expected Complete"),
    }
}

#[test]
fn windows_attempt_skips_chmod() {
    let rel = release("v1.2.0", &["mcp-relay-windows-x86_64.tar.gz"]);
    let plan = plan_provision(Os::Windows, Arch::X8664, &rel).unwrap();
    let (phase1, req1) = step(Phase::AwaitCacheCheck { plan }, Reply::FileExists { exists: false });
    assert!(matches!(req1, Some(Request::RemoveMatching { .. })));
    let (phase2, req2) = step(phase1, Reply::CleanupDone);
    match &req2 {
        Some(Request::FetchArchive { dest_dir, .. }) => assert_eq!(dest_dir, "mcp-relay-v1.2.0"),
        _ => panic!("expected FetchArchive"),
    }
    let (phase3, req3) = step(phase2, Reply::ArchiveFetched);
    assert!(req3.is_none());
    match phase3 {
        Phase::Complete { binary_path } => {
            assert_eq!(binary_path, "mcp-relay-v1.2.0/mcp_relay.exe");
        }
        _ => panic!("expected Complete without a chmod step"),
    }
}

#[test]
fn launch_command_is_path_plus_fixed_endpoint() {
    let cmd = server_command("mcp-relay-v1.2.0/mcp_relay".to_string());
    assert_eq!(cmd.command, "mcp-relay-v1.2.0/mcp_relay");
    assert_eq!(cmd.args, vec!["https://font.emtech.cc/mcp".to_string()]);
    assert!(cmd.env.is_empty());
}
