use addon_manager::Action;
use addon_manager::Addon;
use addon_manager::AddonType;
use addon_manager::Cleanup;
use addon_manager::Event;
use addon_manager::Install;
use addon_manager::InstallLocation;
use addon_manager::InstallLocationName;
use addon_manager::InstallState;
use addon_manager::Manifest;
use addon_manager::Operation;
use addon_manager::TransitionError;
use hyper::Url;
use semver::Version;

fn sample_install(base_directory: &str) -> Install {
    let manifest = Manifest::new(
        String::from("@test123"),
        String::from("Test Addon"),
        Version::new(0, 1, 0),
        AddonType::WebExtension,
        Url::parse("http://example/addon.xpi").unwrap(),
    )
    .unwrap();
    let location = InstallLocation::new(InstallLocationName::Profile, String::from(base_directory));
    Install::new(Addon::new(manifest, location))
}

/// Stands in for the outside world: every action succeeds, and the transport
/// delivers `bytes`.
fn succeed(action: Action, bytes: &[u8]) -> Event {
    match action {
        Action::Fetch { .. } => Event::Fetched(bytes.to_vec()),
        Action::Persist { .. } => Event::Persisted,
        Action::Verify { .. } => Event::VerificationPassed,
        Action::Copy { .. } => Event::Copied,
        Action::Commit => Event::Committed,
    }
}

fn run_to_the_end(install: &mut Install, bytes: &[u8]) -> Vec<InstallState> {
    let mut seen = vec![install.state];
    let mut next = Some(install.download().unwrap());
    seen.push(install.state);
    while let Some(action) = next {
        next = install.handle(succeed(action, bytes)).unwrap();
        seen.push(install.state);
    }
    seen
}

#[test]
fn install_addon() {
    let id = String::from("@test123");
    let name = String::from("Test Addon");
    let version = Version::parse("0.0.1").unwrap();
    let addon_type = AddonType::WebExtension;
    let url = Url::parse("http://localhost:8080").unwrap();
    let manifest = Manifest::new(id, name, version, addon_type, url).unwrap();

    let name = InstallLocationName::Profile;
    let base_directory = String::from("./test/tmp");
    let install_location = InstallLocation::new(name, base_directory);

    let addon = Addon::new(manifest, install_location);

    let mut install = Install::new(addon);

    // Start the install process from scratch.
    run_to_the_end(&mut install, b"artifact");

    match install.state {
        InstallState::Installed => {},
        _ => panic!("Unexpected install state"),
    }
    assert_eq!(install.addon.source_uri, "./test/tmp/staging/@test123.xpi");
}

#[test]
fn end_to_end_install_from_profile_location() {
    let mut install = sample_install("/tmp/addons");
    assert_eq!(install.state, InstallState::Available);
    assert_eq!(install.addon.source_uri, "");

    let fetch = install.download().unwrap();
    assert_eq!(fetch, Action::Fetch { url: Url::parse("http://example/addon.xpi").unwrap() });
    assert_eq!(install.state, InstallState::Downloading);

    let persist = install.handle(Event::Fetched(b"PK\x03\x04".to_vec())).unwrap();
    assert_eq!(
        persist,
        Some(Action::Persist {
            directory: String::from("/tmp/addons/download"),
            path: String::from("/tmp/addons/download/@test123.xpi"),
            bytes: vec![0x50, 0x4b, 0x03, 0x04],
        })
    );
    assert_eq!(install.state, InstallState::Downloading);
    assert_eq!(install.addon.source_uri, "");

    let verify = install.handle(Event::Persisted).unwrap();
    assert_eq!(
        verify,
        Some(Action::Verify { path: String::from("/tmp/addons/download/@test123.xpi") })
    );
    assert_eq!(install.state, InstallState::Verifying);
    assert_eq!(install.addon.source_uri, "/tmp/addons/download/@test123.xpi");

    let copy = install.handle(Event::VerificationPassed).unwrap();
    assert_eq!(
        copy,
        Some(Action::Copy {
            directory: String::from("/tmp/addons/staging"),
            from: String::from("/tmp/addons/download/@test123.xpi"),
            to: String::from("/tmp/addons/staging/@test123.xpi"),
        })
    );
    assert_eq!(install.state, InstallState::Staging);
    assert_eq!(install.addon.source_uri, "/tmp/addons/download/@test123.xpi");

    let commit = install.handle(Event::Copied).unwrap();
    assert_eq!(commit, Some(Action::Commit));
    assert_eq!(install.state, InstallState::Installing);
    assert_eq!(install.addon.source_uri, "/tmp/addons/staging/@test123.xpi");

    let done = install.handle(Event::Committed).unwrap();
    assert_eq!(done, None);
    assert_eq!(install.state, InstallState::Installed);
    assert_eq!(install.addon.source_uri, "/tmp/addons/staging/@test123.xpi");
}

#[test]
fn successful_download_passes_through_each_step_in_order() {
    let mut install = sample_install("/srv/addons");
    let seen = run_to_the_end(&mut install, b"PK\x03\x04");
    assert_eq!(
        seen,
        vec![
            InstallState::Available,
            InstallState::Downloading,
            InstallState::Downloading,
            InstallState::Verifying,
            InstallState::Staging,
            InstallState::Installing,
            InstallState::Installed,
        ]
    );
    assert_eq!(install.addon.source_uri, "/srv/addons/staging/@test123.xpi");
}

#[test]
fn download_hands_out_a_copy_of_the_install_url() {
    let mut install = sample_install("/tmp/addons");
    match install.download().unwrap() {
        Action::Fetch { url } => {
            assert_eq!(url.as_str(), "http://example/addon.xpi");
            assert_eq!(url, install.addon.install_url);
        },
        other => panic!("unexpected action {:?}", other),
    }
    assert_eq!(install.addon.install_url.as_str(), "http://example/addon.xpi");
}

#[test]
fn fetch_failure_leaves_download_failed_and_starts_nothing() {
    let mut install = sample_install("/tmp/addons");
    install.download().unwrap();
    assert_eq!(install.handle(Event::FetchFailed), Ok(None));
    assert_eq!(install.state, InstallState::DownloadFailed);
    assert_eq!(install.addon.source_uri, "");

    let refused = |operation| Err(TransitionError { state: InstallState::DownloadFailed, operation });
    assert_eq!(install.download(), refused(Operation::Download));
    assert_eq!(install.verify(), refused(Operation::Verify));
    assert_eq!(install.stage(), refused(Operation::Stage));
    assert_eq!(install.install(), refused(Operation::Install));
    assert_eq!(install.handle(Event::Persisted), refused(Operation::Download).map(Some));
    assert_eq!(install.handle(Event::VerificationPassed), refused(Operation::Verify).map(Some));
    assert_eq!(install.handle(Event::Copied), refused(Operation::Stage).map(Some));
    assert_eq!(install.handle(Event::Committed), refused(Operation::Install).map(Some));
    assert_eq!(install.state, InstallState::DownloadFailed);
}

#[test]
fn persist_failure_leaves_download_failed() {
    let mut install = sample_install("/tmp/addons");
    install.download().unwrap();
    install.handle(Event::Fetched(vec![1, 2, 3])).unwrap();
    assert_eq!(install.handle(Event::PersistFailed), Ok(None));
    assert_eq!(install.state, InstallState::DownloadFailed);
    assert_eq!(install.addon.source_uri, "");
}

#[test]
fn verification_failure_halts_the_pipeline() {
    let mut install = sample_install("/tmp/addons");
    install.download().unwrap();
    install.handle(Event::Fetched(vec![1, 2, 3])).unwrap();
    install.handle(Event::Persisted).unwrap();
    assert_eq!(install.handle(Event::VerificationFailed), Ok(None));
    assert_eq!(install.state, InstallState::VerifyFailed);
    assert_eq!(install.addon.source_uri, "/tmp/addons/download/@test123.xpi");
    assert!(install.stage().is_err());
    assert!(install.cancel().is_err());
}

#[test]
fn copy_failure_leaves_staging_failed() {
    let mut install = sample_install("/tmp/addons");
    install.download().unwrap();
    install.handle(Event::Fetched(vec![1, 2, 3])).unwrap();
    install.handle(Event::Persisted).unwrap();
    install.handle(Event::VerificationPassed).unwrap();
    assert_eq!(install.handle(Event::CopyFailed), Ok(None));
    assert_eq!(install.state, InstallState::StagingFailed);
    assert_eq!(install.addon.source_uri, "/tmp/addons/download/@test123.xpi");
    assert!(install.install().is_err());
}

#[test]
fn commit_failure_leaves_install_failed() {
    let mut install = sample_install("/tmp/addons");
    install.download().unwrap();
    install.handle(Event::Fetched(vec![1, 2, 3])).unwrap();
    install.handle(Event::Persisted).unwrap();
    install.handle(Event::VerificationPassed).unwrap();
    install.handle(Event::Copied).unwrap();
    assert_eq!(install.handle(Event::CommitFailed), Ok(None));
    assert_eq!(install.state, InstallState::InstallFailed);
    assert_eq!(install.addon.source_uri, "/tmp/addons/staging/@test123.xpi");
    assert!(install.cancel().is_err());
}

#[test]
fn event_for_another_step_is_refused_and_changes_nothing() {
    let mut install = sample_install("/tmp/addons");
    install.download().unwrap();
    assert_eq!(
        install.handle(Event::Committed),
        Err(TransitionError { state: InstallState::Downloading, operation: Operation::Install })
    );
    assert_eq!(
        install.handle(Event::VerificationFailed),
        Err(TransitionError { state: InstallState::Downloading, operation: Operation::Verify })
    );
    assert_eq!(
        install.handle(Event::CopyFailed),
        Err(TransitionError { state: InstallState::Downloading, operation: Operation::Stage })
    );
    assert_eq!(install.state, InstallState::Downloading);
    assert_eq!(install.addon.source_uri, "");

    let mut fresh = sample_install("/tmp/addons");
    assert_eq!(
        fresh.handle(Event::Fetched(vec![9])),
        Err(TransitionError { state: InstallState::Available, operation: Operation::Download })
    );
    assert_eq!(fresh, sample_install("/tmp/addons"));
}

#[test]
fn explicit_steps_from_forced_states() {
    let mut install = sample_install("/tmp/addons");
    install.state = InstallState::Downloaded;
    install.addon.source_uri = String::from("/elsewhere/a.xpi");
    assert_eq!(install.verify(), Ok(Action::Verify { path: String::from("/elsewhere/a.xpi") }));
    assert_eq!(install.state, InstallState::Verifying);

    install.state = InstallState::Verified;
    assert_eq!(
        install.stage(),
        Ok(Action::Copy {
            directory: String::from("/tmp/addons/staging"),
            from: String::from("/elsewhere/a.xpi"),
            to: String::from("/tmp/addons/staging/@test123.xpi"),
        })
    );
    assert_eq!(install.state, InstallState::Staging);

    install.state = InstallState::Staged;
    assert_eq!(install.install(), Ok(Action::Commit));
    assert_eq!(install.state, InstallState::Installing);
    assert_eq!(install.addon.source_uri, "/elsewhere/a.xpi");
}

#[test]
fn postpone_then_resume_waits_for_the_caller() {
    let mut install = sample_install("/tmp/addons");
    install.download().unwrap();
    install.handle(Event::Fetched(vec![1])).unwrap();
    install.handle(Event::Persisted).unwrap();
    install.state = InstallState::Verified;

    assert_eq!(install.postpone(), Ok(()));
    assert_eq!(install.state, InstallState::Postponed);
    assert_eq!(install.addon.source_uri, "/tmp/addons/download/@test123.xpi");

    assert_eq!(install.resume(), Ok(()));
    assert_eq!(install.state, InstallState::Resumed);
    assert_eq!(install.addon.source_uri, "/tmp/addons/download/@test123.xpi");

    assert!(install.handle(Event::VerificationPassed).is_err());
    assert!(install.handle(Event::Copied).is_err());
    assert_eq!(install.state, InstallState::Resumed);

    assert_eq!(install.cancel(), Ok(Cleanup::Resumption));
    assert_eq!(install.state, InstallState::Cancelled);
}

#[test]
fn cancel_from_staged_removes_the_staged_artifact_once() {
    let mut install = sample_install("/tmp/addons");
    install.download().unwrap();
    install.handle(Event::Fetched(vec![1])).unwrap();
    install.handle(Event::Persisted).unwrap();
    install.handle(Event::VerificationPassed).unwrap();
    install.state = InstallState::Staged;
    install.addon.source_uri = String::from("/tmp/addons/staging/@test123.xpi");

    assert_eq!(
        install.cancel(),
        Ok(Cleanup::Staging { path: String::from("/tmp/addons/staging/@test123.xpi") })
    );
    assert_eq!(install.state, InstallState::Cancelled);

    assert_eq!(
        install.cancel(),
        Err(TransitionError { state: InstallState::Cancelled, operation: Operation::Cancel })
    );
    assert_eq!(install.state, InstallState::Cancelled);
    assert_eq!(install.addon.source_uri, "/tmp/addons/staging/@test123.xpi");
}

#[test]
fn cancel_cleans_up_by_how_far_the_install_came() {
    let cases = vec![
        (
            InstallState::Downloading,
            Cleanup::Download { path: String::from("/opt/a/download/@test123.xpi") },
        ),
        (
            InstallState::Downloaded,
            Cleanup::Download { path: String::from("/opt/a/download/@test123.xpi") },
        ),
        (InstallState::Verifying, Cleanup::Verification),
        (InstallState::Verified, Cleanup::Verification),
        (InstallState::Postponing, Cleanup::Postponement),
        (InstallState::Postponed, Cleanup::Postponement),
        (InstallState::Resuming, Cleanup::Resumption),
        (InstallState::Resumed, Cleanup::Resumption),
        (
            InstallState::Staging,
            Cleanup::Staging { path: String::from("/opt/a/staging/@test123.xpi") },
        ),
        (
            InstallState::Staged,
            Cleanup::Staging { path: String::from("/opt/a/staging/@test123.xpi") },
        ),
        (InstallState::Installing, Cleanup::Installation { path: String::from("/kept/here.xpi") }),
        (InstallState::Installed, Cleanup::Installation { path: String::from("/kept/here.xpi") }),
    ];
    for (state, cleanup) in cases {
        let mut install = sample_install("/opt/a");
        install.state = state;
        install.addon.source_uri = String::from("/kept/here.xpi");
        assert_eq!(install.cancel(), Ok(cleanup));
        assert_eq!(install.state, InstallState::Cancelled);
        assert_eq!(install.addon.source_uri, "/kept/here.xpi");
    }
}

#[test]
fn cancel_between_chained_steps_of_a_run() {
    let mut install = sample_install("/tmp/addons");
    install.download().unwrap();
    install.handle(Event::Fetched(vec![1])).unwrap();
    install.handle(Event::Persisted).unwrap();
    install.handle(Event::VerificationPassed).unwrap();
    install.handle(Event::Copied).unwrap();
    install.handle(Event::Committed).unwrap();
    assert_eq!(
        install.cancel(),
        Ok(Cleanup::Installation { path: String::from("/tmp/addons/staging/@test123.xpi") })
    );
    assert_eq!(install.state, InstallState::Cancelled);
}
