use hpydev::cli::go::{Install, Uninstall};
use hpydev::go::{
    begin_fetch, make_removal_prompt, status_is_success, InstallParam, InstallState,
    OperationError, Operator, Reply, Request, UninstallParam, UninstallState,
};
use hpydev::Os;

const STAGING: &str = "./go_archive.tar.gz";

fn install_param() -> InstallParam {
    InstallParam::try_from(Install {
        version: "v1.15.0".to_string(),
        arch: "amd64".to_string(),
        dest: "/opt/tools".to_string(),
    })
    .unwrap()
}

fn uninstall_param(root: &str, skip: bool) -> UninstallParam {
    UninstallParam::try_from(Uninstall {
        go_root: root.to_string(),
        skip_prompt: skip,
    })
    .unwrap()
}

fn failed(e: OperationError) -> (InstallState, Request) {
    (InstallState::Finished(Err(e)), Request::Report(Err(e)))
}

/// Runs an installation against the replies and returns every request made.
fn run_install(op: &Operator, param: &InstallParam, replies: &[Reply]) -> Vec<Request> {
    let mut requests = Vec::new();
    let (mut state, first) = op.install(param, InstallState::Starting, Reply::Done);
    requests.push(first);
    for reply in replies {
        let (next, request) = op.install(param, state, *reply);
        state = next;
        requests.push(request);
    }
    requests
}

/// Runs a removal against the replies and returns every request made.
fn run_uninstall(op: &Operator, param: &UninstallParam, replies: &[Reply]) -> Vec<Request> {
    let mut requests = Vec::new();
    let (mut state, first) = op.uninstall(param, UninstallState::Starting, Reply::Done);
    requests.push(first);
    for reply in replies {
        let (next, request) = op.uninstall(param, state, *reply);
        state = next;
        requests.push(request);
    }
    requests
}

#[test]
fn install_without_failure() {
    let requests = run_install(
        &Operator::new(),
        &install_param(),
        &[
            Reply::Platform(Some(Os::Darwin)),
            Reply::Status(200),
            Reply::Done,
            Reply::Done,
            Reply::Done,
            Reply::Done,
        ],
    );
    assert_eq!(
        requests,
        vec![
            Request::DetectPlatform,
            Request::Fetch("https://golang.org/dl/go1.15.0.darwin-amd64.tar.gz".to_string()),
            Request::Store(STAGING.to_string()),
            Request::CreateDirectory("/opt/tools".to_string()),
            Request::Extract(STAGING.to_string(), "/opt/tools".to_string()),
            Request::RemoveFile(STAGING.to_string()),
            Request::Report(Ok(())),
        ]
    );
}

#[test]
fn install_on_linux() {
    let requests = run_install(
        &Operator::new(),
        &install_param(),
        &[Reply::Platform(Some(Os::Linux))],
    );
    assert_eq!(
        requests[1],
        Request::Fetch("https://golang.org/dl/go1.15.0.linux-amd64.tar.gz".to_string())
    );
}

#[test]
fn install_aborts_on_status_404() {
    let requests = run_install(
        &Operator::new(),
        &install_param(),
        &[
            Reply::Platform(Some(Os::Darwin)),
            Reply::Status(404),
            Reply::Done,
            Reply::Done,
            Reply::Done,
            Reply::Done,
        ],
    );
    assert_eq!(requests.len(), 7);
    for request in &requests[2..] {
        assert_eq!(request, &Request::Report(Err(OperationError::DownloadFailed(404))));
    }
    assert!(!requests.iter().any(|r| matches!(r, Request::Extract(_, _))));
    assert!(!requests.iter().any(|r| matches!(r, Request::Store(_))));
}

#[test]
fn statuses_of_success() {
    assert!(status_is_success(200));
    assert!(status_is_success(204));
    assert!(status_is_success(299));
    assert!(!status_is_success(199));
    assert!(!status_is_success(300));
    assert!(!status_is_success(304));
    assert!(!status_is_success(404));
    assert!(!status_is_success(500));
    assert!(!status_is_success(0));
    assert!(!status_is_success(u16::MAX));
    let op = Operator::new();
    let p = install_param();
    assert_eq!(
        op.install(&p, InstallState::Fetching, Reply::Status(299)),
        (InstallState::Storing, Request::Store(STAGING.to_string()))
    );
    assert_eq!(
        op.install(&p, InstallState::Fetching, Reply::Status(300)),
        failed(OperationError::DownloadFailed(300))
    );
    assert_eq!(
        op.install(&p, InstallState::Fetching, Reply::Status(199)),
        failed(OperationError::DownloadFailed(199))
    );
}

#[test]
fn install_without_platform() {
    let op = Operator::new();
    let p = install_param();
    assert_eq!(
        op.install(&p, InstallState::Resolving, Reply::Platform(None)),
        failed(OperationError::PlatformUndetected)
    );
    assert_eq!(
        op.install(&p, InstallState::Resolving, Reply::Failed),
        failed(OperationError::PlatformUndetected)
    );
}

#[test]
fn install_without_endpoint() {
    let op = Operator::with_archive_url("mailto:me@example.com".to_string());
    let p = install_param();
    assert_eq!(
        op.install(&p, InstallState::Resolving, Reply::Platform(Some(Os::Linux))),
        failed(OperationError::EndpointInvalid)
    );
    assert_eq!(begin_fetch(None), failed(OperationError::EndpointInvalid));
    assert_eq!(
        begin_fetch(Some("https://example.com/x".to_string())),
        (InstallState::Fetching, Request::Fetch("https://example.com/x".to_string()))
    );
}

#[test]
fn install_fails_with_the_error_of_the_step() {
    let op = Operator::new();
    let p = install_param();
    let cases = [
        (InstallState::Fetching, OperationError::Network),
        (InstallState::Storing, OperationError::Io),
        (InstallState::Preparing, OperationError::Io),
        (InstallState::Extracting, OperationError::Extraction),
        (InstallState::Cleaning, OperationError::Io),
    ];
    for (state, error) in cases {
        assert_eq!(op.install(&p, state, Reply::Failed), failed(error));
    }
    // a reply that does not report the success of what was pending fails the step too
    assert_eq!(
        op.install(&p, InstallState::Extracting, Reply::Answer(true)),
        failed(OperationError::Extraction)
    );
    assert_eq!(
        op.install(&p, InstallState::Fetching, Reply::Done),
        failed(OperationError::Network)
    );
}

#[test]
fn install_once_finished_stays_finished() {
    let op = Operator::new();
    let p = install_param();
    for result in [Ok(()), Err(OperationError::Io), Err(OperationError::DownloadFailed(503))] {
        for reply in [
            Reply::Done,
            Reply::Failed,
            Reply::Status(200),
            Reply::Platform(Some(Os::Linux)),
        ] {
            assert_eq!(
                op.install(&p, InstallState::Finished(result), reply),
                (InstallState::Finished(result), Request::Report(result))
            );
        }
    }
}

#[test]
fn install_steps_one_by_one() {
    let op = Operator::new();
    let p = install_param();
    assert_eq!(
        op.install(&p, InstallState::Starting, Reply::Failed),
        (InstallState::Resolving, Request::DetectPlatform)
    );
    assert_eq!(
        op.install(&p, InstallState::Storing, Reply::Done),
        (InstallState::Preparing, Request::CreateDirectory("/opt/tools".to_string()))
    );
    assert_eq!(
        op.install(&p, InstallState::Preparing, Reply::Done),
        (
            InstallState::Extracting,
            Request::Extract(STAGING.to_string(), "/opt/tools".to_string())
        )
    );
    assert_eq!(
        op.install(&p, InstallState::Extracting, Reply::Done),
        (InstallState::Cleaning, Request::RemoveFile(STAGING.to_string()))
    );
    assert_eq!(
        op.install(&p, InstallState::Cleaning, Reply::Done),
        (InstallState::Finished(Ok(())), Request::Report(Ok(())))
    );
}

#[test]
fn uninstall_declined_removes_nothing() {
    let requests = run_uninstall(
        &Operator::new(),
        &uninstall_param("/usr/local/go", false),
        &[Reply::Answer(false), Reply::Done, Reply::Done],
    );
    assert_eq!(
        requests,
        vec![
            Request::Confirm("delete \"/usr/local/go\" recursively".to_string()),
            Request::Report(Ok(())),
            Request::Report(Ok(())),
            Request::Report(Ok(())),
        ]
    );
    assert!(!requests.iter().any(|r| matches!(r, Request::RemoveDirectory(_))));
}

#[test]
fn uninstall_skipping_the_prompt() {
    let requests = run_uninstall(
        &Operator::new(),
        &uninstall_param("/usr/local/go", true),
        &[Reply::Done, Reply::Done],
    );
    assert_eq!(
        requests,
        vec![
            Request::RemoveDirectory("/usr/local/go".to_string()),
            Request::Report(Ok(())),
            Request::Report(Ok(())),
        ]
    );
    assert!(!requests.iter().any(|r| matches!(r, Request::Confirm(_))));
    let removals = requests.iter().filter(|r| matches!(r, Request::RemoveDirectory(_))).count();
    assert_eq!(removals, 1);
}

#[test]
fn uninstall_confirmed() {
    let requests = run_uninstall(
        &Operator::new(),
        &uninstall_param("/usr/local/go", false),
        &[Reply::Answer(true), Reply::Done],
    );
    assert_eq!(
        requests,
        vec![
            Request::Confirm("delete \"/usr/local/go\" recursively".to_string()),
            Request::RemoveDirectory("/usr/local/go".to_string()),
            Request::Report(Ok(())),
        ]
    );
}

#[test]
fn uninstall_failures() {
    let op = Operator::new();
    let p = uninstall_param("/usr/local/go", false);
    assert_eq!(
        op.uninstall(&p, UninstallState::Confirming, Reply::Failed),
        (
            UninstallState::Finished(Err(OperationError::Input)),
            Request::Report(Err(OperationError::Input))
        )
    );
    assert_eq!(
        op.uninstall(&p, UninstallState::Removing, Reply::Failed),
        (
            UninstallState::Finished(Err(OperationError::Io)),
            Request::Report(Err(OperationError::Io))
        )
    );
    assert_eq!(
        op.uninstall(&p, UninstallState::Finished(Err(OperationError::Io)), Reply::Done),
        (
            UninstallState::Finished(Err(OperationError::Io)),
            Request::Report(Err(OperationError::Io))
        )
    );
}

#[test]
fn prompt_quotes_the_path() {
    assert_eq!(make_removal_prompt("\"/x\""), "delete \"/x\" recursively");
    assert_eq!(make_removal_prompt(""), "delete  recursively");
    let op = Operator::new();
    let p = uninstall_param("/tmp/a \"b\"\\c", false);
    assert_eq!(
        op.uninstall(&p, UninstallState::Starting, Reply::Done),
        (
            UninstallState::Confirming,
            Request::Confirm("delete \"/tmp/a \\\"b\\\"\\\\c\" recursively".to_string())
        )
    );
}
