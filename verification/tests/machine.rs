use ssdownloader::errors::SsError;
use ssdownloader::orchestrator::{
    backoff_ms, classify_status, exit_code, fatal_for_run, init, run_outcome, step, Action, Event,
    FileState, Outcome, Phase, Run, RunConfig,
};
use ssdownloader::sendsafely::{Confirmation, FileRef, Package, Recipient};

fn test_config() -> RunConfig {
    RunConfig {
        base_url: "https://demo.sendsafely.com/api/v2.0".to_string(),
        max_attempts: 3,
        backoff_base_ms: 100,
    }
}

fn recipient(email: &str, needs_approval: bool) -> Recipient {
    Recipient {
        recipient_id: "r1".to_string(),
        email: email.to_string(),
        full_name: "Jo Doe".to_string(),
        needs_approval,
        recipient_code: "rc".to_string(),
        confirmations: Vec::<Confirmation>::new(),
        is_package_owner: false,
        check_for_public_keys: false,
        role_name: "VIEWER".to_string(),
    }
}

fn package(needs_approval: bool) -> Package {
    Package {
        package_id: "PID1".to_string(),
        package_code: "PKG123".to_string(),
        server_secret: "SERVER_secret1".to_string(),
        recipients: vec![recipient("pending@example.com", needs_approval)],
        contact_groups: Vec::new(),
        files: Vec::new(),
        directories: Vec::new(),
        approver_list: Vec::new(),
        needs_approval,
        state: "PACKAGE_STATE_IN_PROGRESS".to_string(),
        password_required: false,
        life: 10,
        is_vdr: false,
        is_archived: false,
        package_sender: "sender@example.com".to_string(),
        package_timestamp: "ts".to_string(),
        root_directory_id: "root".to_string(),
        response: "SUCCESS".to_string(),
    }
}

fn file_ref(id: &str, name: &str, size: u64) -> FileRef {
    FileRef { file_id: id.to_string(), file_name: name.to_string(), file_size: size }
}

fn good_link() -> String {
    "https://demo.sendsafely.com/receive/?packageCode=PKG123#keyCode=KEY456".to_string()
}

fn start_running(run: &mut Run) -> Vec<Action> {
    let acts = step(run, Event::Start);
    assert_eq!(run.phase, Phase::FetchingMetadata);
    acts
}

#[test]
fn start_on_valid_link_requests_metadata() {
    let mut run = init(test_config(), good_link());
    let acts = start_running(&mut run);
    assert_eq!(acts.len(), 1);
    match &acts[0] {
        Action::FetchMetadata(url, delay) => {
            assert_eq!(url, "https://demo.sendsafely.com/api/v2.0/package/PKG123");
            assert_eq!(*delay, 0);
        }
        _ => panic!("expected a metadata fetch"),
    }
}

#[test]
fn start_on_invalid_link_fails_without_requests() {
    let mut run = init(test_config(), "https://example.com/nope".to_string());
    let acts = step(&mut run, Event::Start);
    assert_eq!(run.phase, Phase::Failed);
    assert_eq!(run.failure, Some(SsError::InvalidLink));
    assert!(acts.is_empty());
}

#[test]
fn approval_needed_and_confirmation_fails_blocks_forever() {
    let mut run = init(test_config(), good_link());
    start_running(&mut run);
    let acts = step(&mut run, Event::Metadata(Ok(package(true))));
    assert_eq!(run.phase, Phase::CheckingApproval);
    assert_eq!(acts.len(), 1);
    match &acts[0] {
        Action::Confirm(url, delay) => {
            assert_eq!(url, "https://demo.sendsafely.com/api/v2.0/package/PID1");
            assert_eq!(*delay, 0);
        }
        _ => panic!("expected a confirmation request"),
    }
    let acts = step(&mut run, Event::Confirmed(Err(SsError::Auth)));
    assert_eq!(run.phase, Phase::Blocked);
    assert!(acts.is_empty());
    assert_eq!(run.pending, vec!["pending@example.com".to_string()]);
    // Blocked is terminal: whatever arrives later, nothing is downloaded.
    let acts = step(&mut run, Event::FilesListed(Ok(vec![file_ref("f", "a", 1)])));
    assert_eq!(run.phase, Phase::Blocked);
    assert!(acts.is_empty());
    let acts = step(&mut run, Event::FileOutcome(0, Ok(())));
    assert_eq!(run.phase, Phase::Blocked);
    assert!(acts.is_empty());
    assert_eq!(run_outcome(&run), Outcome::Blocked);
}

#[test]
fn confirm_transient_failures_retried_then_blocked() {
    let mut run = init(test_config(), good_link());
    start_running(&mut run);
    step(&mut run, Event::Metadata(Ok(package(true))));
    // max_attempts is 3: three transient confirmation failures are each
    // answered by one retried confirmation with doubled backoff.
    for expected_delay in [200u64, 400, 800] {
        let acts = step(&mut run, Event::Confirmed(Err(SsError::Transient)));
        assert_eq!(run.phase, Phase::CheckingApproval);
        assert_eq!(acts.len(), 1);
        match &acts[0] {
            Action::Confirm(url, delay) => {
                assert_eq!(url, "https://demo.sendsafely.com/api/v2.0/package/PID1");
                assert_eq!(*delay, expected_delay);
            }
            _ => panic!("expected a retried confirmation"),
        }
    }
    // The bound is reached: the next failure blocks the package.
    let acts = step(&mut run, Event::Confirmed(Err(SsError::Transient)));
    assert_eq!(run.phase, Phase::Blocked);
    assert!(acts.is_empty());
    assert_eq!(run.pending, vec!["pending@example.com".to_string()]);
    assert_eq!(run_outcome(&run), Outcome::Blocked);
}

#[test]
fn approval_confirmed_proceeds_to_enumeration() {
    let mut run = init(test_config(), good_link());
    start_running(&mut run);
    step(&mut run, Event::Metadata(Ok(package(true))));
    let acts = step(&mut run, Event::Confirmed(Ok(())));
    assert_eq!(run.phase, Phase::EnumeratingFiles);
    assert_eq!(acts.len(), 1);
    match &acts[0] {
        Action::ListFiles(url, delay) => {
            assert_eq!(url, "https://demo.sendsafely.com/api/v2.0/package/PID1");
            assert_eq!(*delay, 0);
        }
        _ => panic!("expected a file listing request"),
    }
}

#[test]
fn no_approval_skips_confirmation() {
    let mut run = init(test_config(), good_link());
    start_running(&mut run);
    let acts = step(&mut run, Event::Metadata(Ok(package(false))));
    assert_eq!(run.phase, Phase::EnumeratingFiles);
    assert_eq!(acts.len(), 1);
    assert!(matches!(&acts[0], Action::ListFiles(_, 0)));
}

#[test]
fn metadata_transient_failure_retried_with_backoff() {
    let mut run = init(test_config(), good_link());
    start_running(&mut run);
    let acts = step(&mut run, Event::Metadata(Err(SsError::Transient)));
    assert_eq!(run.phase, Phase::FetchingMetadata);
    assert_eq!(acts.len(), 1);
    match &acts[0] {
        Action::FetchMetadata(url, delay) => {
            assert_eq!(url, "https://demo.sendsafely.com/api/v2.0/package/PKG123");
            assert_eq!(*delay, 200);
        }
        _ => panic!("expected a retried metadata fetch"),
    }
}

#[test]
fn metadata_auth_failure_is_fatal() {
    let mut run = init(test_config(), good_link());
    start_running(&mut run);
    let acts = step(&mut run, Event::Metadata(Err(SsError::Auth)));
    assert_eq!(run.phase, Phase::Failed);
    assert_eq!(run.failure, Some(SsError::Auth));
    assert!(acts.is_empty());
    assert_eq!(run_outcome(&run), Outcome::Failed);
    assert!(fatal_for_run(&run));
}

#[test]
fn not_found_fails_only_this_package() {
    let mut run = init(test_config(), good_link());
    start_running(&mut run);
    step(&mut run, Event::Metadata(Err(SsError::NotFound)));
    assert_eq!(run.phase, Phase::Failed);
    assert_eq!(run.failure, Some(SsError::NotFound));
    assert!(!fatal_for_run(&run));
}

fn into_downloading(run: &mut Run) {
    start_running(run);
    step(run, Event::Metadata(Ok(package(false))));
    let files = vec![
        file_ref("f1", "one.bin", 10),
        file_ref("f2", "two.bin", 20),
        file_ref("f3", "three.bin", 30),
    ];
    let acts = step(run, Event::FilesListed(Ok(files)));
    assert_eq!(run.phase, Phase::Downloading);
    assert_eq!(acts.len(), 3);
    for (i, a) in acts.iter().enumerate() {
        match a {
            Action::DownloadFile(idx, delay) => {
                assert_eq!(*idx, i);
                assert_eq!(*delay, 0);
            }
            _ => panic!("expected a download request"),
        }
    }
}

#[test]
fn three_files_second_retries_twice_then_succeeds() {
    let mut run = init(test_config(), good_link());
    into_downloading(&mut run);
    // Files one and three succeed straight away, independent of file two.
    assert!(step(&mut run, Event::FileOutcome(0, classify_status(200))).is_empty());
    assert!(step(&mut run, Event::FileOutcome(2, classify_status(200))).is_empty());
    assert_eq!(run.states[0], FileState::Delivered);
    assert_eq!(run.states[2], FileState::Delivered);
    // File two answers 503 twice; each is met by exactly one retried
    // download with doubled backoff.
    let acts = step(&mut run, Event::FileOutcome(1, classify_status(503)));
    assert_eq!(acts.len(), 1);
    assert!(matches!(&acts[0], Action::DownloadFile(1, 400)));
    let acts = step(&mut run, Event::FileOutcome(1, classify_status(503)));
    assert_eq!(acts.len(), 1);
    assert!(matches!(&acts[0], Action::DownloadFile(1, 800)));
    assert_eq!(run.phase, Phase::Downloading);
    // The third attempt answers 200 and completes the package.
    let acts = step(&mut run, Event::FileOutcome(1, classify_status(200)));
    assert!(acts.is_empty());
    assert_eq!(run.phase, Phase::Done);
    assert_eq!(run.states[1], FileState::Delivered);
    assert_eq!(run_outcome(&run), Outcome::Succeeded);
}

#[test]
fn retries_stop_at_the_bound() {
    let mut run = init(test_config(), good_link());
    into_downloading(&mut run);
    // max_attempts is 3: after the initial try, two retries are allowed.
    assert_eq!(step(&mut run, Event::FileOutcome(1, Err(SsError::Transient))).len(), 1);
    assert_eq!(step(&mut run, Event::FileOutcome(1, Err(SsError::Transient))).len(), 1);
    let acts = step(&mut run, Event::FileOutcome(1, Err(SsError::Transient)));
    assert!(acts.is_empty());
    assert_eq!(run.states[1], FileState::Failed(SsError::Transient));
    // The other files still finish on their own.
    step(&mut run, Event::FileOutcome(0, Ok(())));
    let acts = step(&mut run, Event::FileOutcome(2, Ok(())));
    assert!(acts.is_empty());
    assert_eq!(run.phase, Phase::Done);
    assert_eq!(run_outcome(&run), Outcome::Failed);
}

#[test]
fn integrity_failure_never_retried() {
    let mut run = init(test_config(), good_link());
    into_downloading(&mut run);
    let acts = step(&mut run, Event::FileOutcome(1, Err(SsError::Integrity)));
    assert!(acts.is_empty());
    assert_eq!(run.states[1], FileState::Failed(SsError::Integrity));
}

#[test]
fn duplicate_names_get_distinct_paths() {
    let mut run = init(test_config(), good_link());
    start_running(&mut run);
    step(&mut run, Event::Metadata(Ok(package(false))));
    let files = vec![file_ref("f1", "log.txt", 1), file_ref("f2", "log.txt", 2)];
    step(&mut run, Event::FilesListed(Ok(files)));
    assert_eq!(run.names.len(), 2);
    assert_eq!(run.names[0], "log.txt");
    assert_eq!(run.names[1], "log.txt.1");
    assert_ne!(run.names[0], run.names[1]);
}

#[test]
fn empty_package_is_done_immediately() {
    let mut run = init(test_config(), good_link());
    start_running(&mut run);
    step(&mut run, Event::Metadata(Ok(package(false))));
    let acts = step(&mut run, Event::FilesListed(Ok(Vec::new())));
    assert!(acts.is_empty());
    assert_eq!(run.phase, Phase::Done);
    assert_eq!(run_outcome(&run), Outcome::Succeeded);
}

#[test]
fn file_listing_transient_failure_retried() {
    let mut run = init(test_config(), good_link());
    start_running(&mut run);
    step(&mut run, Event::Metadata(Ok(package(false))));
    let acts = step(&mut run, Event::FilesListed(Err(SsError::Transient)));
    assert_eq!(run.phase, Phase::EnumeratingFiles);
    assert_eq!(acts.len(), 1);
    assert!(matches!(&acts[0], Action::ListFiles(_, 200)));
}

#[test]
fn classify_statuses() {
    assert_eq!(classify_status(200), Ok(()));
    assert_eq!(classify_status(204), Ok(()));
    assert_eq!(classify_status(404), Err(SsError::NotFound));
    assert_eq!(classify_status(401), Err(SsError::Auth));
    assert_eq!(classify_status(403), Err(SsError::Auth));
    assert_eq!(classify_status(500), Err(SsError::Transient));
    assert_eq!(classify_status(503), Err(SsError::Transient));
    assert_eq!(classify_status(302), Err(SsError::Protocol));
}

#[test]
fn backoff_doubles_per_attempt() {
    assert_eq!(backoff_ms(100, 0), 100);
    assert_eq!(backoff_ms(100, 1), 200);
    assert_eq!(backoff_ms(100, 3), 800);
    assert_eq!(backoff_ms(0, 5), 0);
}

#[test]
fn exit_codes_per_run_summary() {
    assert_eq!(exit_code(&Vec::new()), 0);
    assert_eq!(exit_code(&vec![Outcome::Succeeded]), 0);
    assert_eq!(exit_code(&vec![Outcome::Failed, Outcome::Failed]), 1);
    assert_eq!(exit_code(&vec![Outcome::Failed, Outcome::Blocked]), 0);
    assert_eq!(exit_code(&vec![Outcome::Failed, Outcome::Succeeded]), 0);
}
