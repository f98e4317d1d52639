use saorsa_cli::checksum::digest;
use saorsa_cli::downloader::{Action, Downloader, Event, Stage};
use saorsa_cli::error::DownloadError;
use saorsa_cli::platform::Platform;
use saorsa_cli::release::{GitHubAsset, GitHubRelease};

fn targz(name: &str, data: &[u8]) -> Vec<u8> {
    let gz = flate2::write::GzEncoder::new(Vec::new(), flate2::Compression::default());
    let mut builder = tar::Builder::new(gz);
    let mut header = tar::Header::new_gnu();
    header.set_size(data.len() as u64);
    header.set_mode(0o755);
    header.set_cksum();
    builder.append_data(&mut header, name, data).unwrap();
    builder.into_inner().unwrap().finish().unwrap()
}

fn release(asset_names: &[&str]) -> GitHubRelease {
    GitHubRelease {
        tag_name: "v1.2.0".to_string(),
        name: Some("v1.2.0".to_string()),
        assets: asset_names
            .iter()
            .map(|n| GitHubAsset {
                name: n.to_string(),
                browser_download_url: format!("https://example.com/download/{}", n),
                size: 1234,
            })
            .collect(),
        published_at: "2024-01-01T00:00:00Z".to_string(),
    }
}

fn downloader() -> Downloader {
    Downloader::new("owner".to_string(), "repo".to_string(), "/cache".to_string())
}

#[test]
fn linux_release_installs_tool() {
    let d = downloader();
    let platform = Platform::from_tags("linux", "x86_64").unwrap();
    let (mut acq, action) = d.begin("tool", &platform, false, false, None, "1");
    assert!(matches!(action, Action::FetchRelease));
    assert_eq!(acq.stage, Stage::Resolving);

    let action = acq.step(Event::ReleaseFetched(Ok(release(&["tool-linux-x86_64.tar.gz"]))));
    let archive_path = match action {
        Action::Download { url, archive_path, declared_size } => {
            assert_eq!(url, "https://example.com/download/tool-linux-x86_64.tar.gz");
            assert_eq!(declared_size, 1234);
            assert_eq!(archive_path, "/cache/tool-linux-x86_64.tar.gz.1.part");
            archive_path
        }
        _ => panic!("expected a download"),
    };

    let bytes = targz("tool", b"#!/bin/sh\necho tool\n");
    let action = acq.step(Event::Downloaded(Ok(bytes)));
    let staging = match action {
        Action::Stage { archive_path: a, staging_path, contents } => {
            assert_eq!(a, archive_path);
            assert_eq!(staging_path, "/cache/tool.1.tmp");
            assert_eq!(contents, b"#!/bin/sh\necho tool\n".to_vec());
            staging_path
        }
        _ => panic!("expected staging"),
    };

    let action = acq.step(Event::Staged(Ok(())));
    match action {
        Action::Install { staging_path, final_path, executable } => {
            assert_eq!(staging_path, staging);
            assert_eq!(final_path, "/cache/tool");
            assert!(executable);
        }
        _ => panic!("expected install"),
    }

    let action = acq.step(Event::Installed(Ok(())));
    match action {
        Action::Finish { result, cleanup } => {
            assert_eq!(result, Ok("/cache/tool".to_string()));
            assert!(cleanup.is_empty());
        }
        _ => panic!("expected finish"),
    }
    assert_eq!(acq.stage, Stage::Done);

    // Second call with the file now present: same path, nothing fetched.
    let (again, action) = d.begin("tool", &platform, false, true, None, "2");
    assert_eq!(again.stage, Stage::Done);
    match action {
        Action::Finish { result, cleanup } => {
            assert_eq!(result, Ok("/cache/tool".to_string()));
            assert!(cleanup.is_empty());
        }
        _ => panic!("a cache hit must not reach the network"),
    }
}

#[test]
fn cache_hit_twice_returns_same_path_offline() {
    let d = downloader();
    let platform = Platform::from_tags("linux", "aarch64").unwrap();
    let (_, first) = d.begin("x", &platform, false, true, None, "a");
    let (_, second) = d.begin("x", &platform, false, true, None, "b");
    for action in [first, second] {
        match action {
            Action::Finish { result, .. } => assert_eq!(result, Ok("/cache/x".to_string())),
            _ => panic!("a cache hit must not reach the network"),
        }
    }
}

#[test]
fn forced_refresh_fetches_even_when_cached() {
    let d = downloader();
    let platform = Platform::from_tags("linux", "x86_64").unwrap();
    let (acq, action) = d.begin("tool", &platform, true, true, None, "1");
    assert!(matches!(action, Action::FetchRelease));
    assert_eq!(acq.stage, Stage::Resolving);
}

#[test]
fn windows_asset_missing_is_no_matching_asset() {
    let d = downloader();
    let platform = Platform::from_tags("windows", "x86_64").unwrap();
    let (mut acq, _) = d.begin("tool", &platform, false, false, None, "1");
    let action = acq.step(Event::ReleaseFetched(Ok(release(&[
        "tool-linux-x86_64.tar.gz",
        "tool-macos-aarch64.tar.gz",
    ]))));
    match action {
        Action::Finish { result, cleanup } => {
            assert_eq!(result, Err(DownloadError::NoMatchingAsset));
            assert!(cleanup.is_empty());
        }
        _ => panic!("expected failure"),
    }
    assert_eq!(acq.stage, Stage::Done);
}

#[test]
fn checksum_mismatch_aborts_and_cleans_up() {
    let d = downloader();
    let platform = Platform::from_tags("linux", "x86_64").unwrap();
    let wrong = "0".repeat(64);
    let (mut acq, _) = d.begin("tool", &platform, false, false, Some(wrong), "7");
    acq.step(Event::ReleaseFetched(Ok(release(&["tool-linux-x86_64.tar.gz"]))));
    let action = acq.step(Event::Downloaded(Ok(targz("tool", b"payload"))));
    match action {
        Action::Finish { result, cleanup } => {
            assert_eq!(result, Err(DownloadError::ChecksumMismatch));
            assert_eq!(cleanup, vec!["/cache/tool-linux-x86_64.tar.gz.7.part".to_string()]);
        }
        _ => panic!("a mismatch must not be staged"),
    }
    assert_eq!(acq.stage, Stage::Done);
    assert!(!acq.accepts(&Event::Staged(Ok(()))));
    assert!(!acq.accepts(&Event::Installed(Ok(()))));
}

#[test]
fn matching_checksum_is_accepted() {
    let d = downloader();
    let platform = Platform::from_tags("linux", "x86_64").unwrap();
    let bytes = targz("tool", b"payload");
    let expected = digest(&bytes).to_uppercase();
    let (mut acq, _) = d.begin("tool", &platform, false, false, Some(expected), "7");
    acq.step(Event::ReleaseFetched(Ok(release(&["tool-linux-x86_64.tar.gz"]))));
    let action = acq.step(Event::Downloaded(Ok(bytes)));
    assert!(matches!(action, Action::Stage { .. }));
}

#[test]
fn missing_member_removes_archive() {
    let d = downloader();
    let platform = Platform::from_tags("linux", "x86_64").unwrap();
    let (mut acq, _) = d.begin("tool", &platform, false, false, None, "3");
    acq.step(Event::ReleaseFetched(Ok(release(&["tool-linux-x86_64.tar.gz"]))));
    let action = acq.step(Event::Downloaded(Ok(targz("other", b"x"))));
    match action {
        Action::Finish { result, cleanup } => {
            assert_eq!(result, Err(DownloadError::MemberNotFound("tool".to_string())));
            assert_eq!(cleanup, vec!["/cache/tool-linux-x86_64.tar.gz.3.part".to_string()]);
        }
        _ => panic!("expected failure"),
    }
}

#[test]
fn failures_after_staging_remove_temporary_files() {
    let d = downloader();
    let platform = Platform::from_tags("linux", "x86_64").unwrap();
    let (mut acq, _) = d.begin("tool", &platform, false, false, None, "4");
    acq.step(Event::ReleaseFetched(Ok(release(&["tool-linux-x86_64.tar.gz"]))));
    acq.step(Event::Downloaded(Ok(targz("tool", b"x"))));
    let action = acq.step(Event::Staged(Err(DownloadError::Io("disk full".to_string()))));
    match action {
        Action::Finish { result, cleanup } => {
            assert_eq!(result, Err(DownloadError::Io("disk full".to_string())));
            assert_eq!(
                cleanup,
                vec![
                    "/cache/tool-linux-x86_64.tar.gz.4.part".to_string(),
                    "/cache/tool.4.tmp".to_string()
                ]
            );
        }
        _ => panic!("expected failure"),
    }
}

#[test]
fn network_failure_is_handed_on() {
    let d = downloader();
    let platform = Platform::from_tags("linux", "x86_64").unwrap();
    let (mut acq, _) = d.begin("tool", &platform, false, false, None, "5");
    let action = acq.step(Event::ReleaseFetched(Err(DownloadError::Network("timeout".to_string()))));
    assert!(matches!(
        action,
        Action::Finish { result: Err(DownloadError::Network(_)), .. }
    ));
    assert_eq!(acq.stage, Stage::Done);
}

#[test]
fn concurrent_refreshes_use_distinct_temporary_files() {
    let d = downloader();
    let platform = Platform::from_tags("linux", "x86_64").unwrap();
    let (mut a, _) = d.begin("tool", &platform, true, true, None, "100");
    let (mut b, _) = d.begin("tool", &platform, true, true, None, "200");
    assert_ne!(a.staging_path, b.staging_path);
    assert_ne!(a.archive_path, b.archive_path);
    assert_eq!(a.final_path, b.final_path);
    for (acq, payload) in [(&mut a, b"one".as_slice()), (&mut b, b"two".as_slice())] {
        acq.step(Event::ReleaseFetched(Ok(release(&["tool-linux-x86_64.tar.gz"]))));
        acq.step(Event::Downloaded(Ok(targz("tool", payload))));
        acq.step(Event::Staged(Ok(())));
        let done = acq.step(Event::Installed(Ok(())));
        assert!(matches!(done, Action::Finish { result: Ok(_), .. }));
    }
}
