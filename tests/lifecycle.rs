use cert_renewer::config::CloudflareConfig;
use cert_renewer::dns::{create_outcome, create_record_request};
use cert_renewer::issuance::{issue_error_from_dns, Action, Event, IssueError, Issuance, Phase};
use cert_renewer::poll::{ChallengeStatus, DEFAULT_MAX_ATTEMPTS};

fn label(a: &Action) -> String {
    match a {
        Action::CreateRecord => "create".to_string(),
        Action::WaitPropagation { secs } => format!("wait{}", secs),
        Action::TriggerValidation => "validate".to_string(),
        Action::FetchStatusAfter { secs } => format!("fetch{}", secs),
        Action::FinalizeOrder => "finalize".to_string(),
        Action::StoreCertificate => "store".to_string(),
        Action::DeleteRecord => "delete".to_string(),
        Action::Finish(Ok(())) => "ok".to_string(),
        Action::Finish(Err(_)) => "err".to_string(),
    }
}

/// Drives an attempt against a mock CA whose challenge reports `statuses`
/// and a mock DNS provider whose create call answers `create_status`.
fn run(statuses: &[ChallengeStatus], create_status: u16) -> (Vec<String>, Action) {
    let mut m = Issuance::new(DEFAULT_MAX_ATTEMPTS);
    let mut log = Vec::new();
    let mut polls = 0;
    let mut action = m.on_event(Event::Done);
    loop {
        log.push(label(&action));
        let event = match &action {
            Action::CreateRecord => match create_outcome(create_status, "forbidden".to_string()) {
                Ok(()) => Event::Done,
                Err(e) => Event::Failed(issue_error_from_dns(e)),
            },
            Action::FetchStatusAfter { .. } => {
                let s = statuses[polls];
                polls += 1;
                Event::Status(s)
            }
            Action::Finish(_) => return (log, action),
            _ => Event::Done,
        };
        action = m.on_event(event);
    }
}

#[test]
fn issues_after_two_polls() {
    let (log, last) = run(&[ChallengeStatus::Pending, ChallengeStatus::Valid], 200);
    assert_eq!(
        log,
        vec!["create", "wait30", "validate", "fetch0", "fetch5", "finalize", "store", "delete", "ok"]
    );
    assert!(matches!(last, Action::Finish(Ok(()))));
    let cfg = CloudflareConfig {
        api_token: "tok".to_string(),
        zone_id: "z1".to_string(),
        api_base_url: "https://dns.example/zones/{zone_id}/dns_records".to_string(),
        dns_record_ttl: 120,
    };
    let req = create_record_request("example.com", "proof", &cfg);
    assert_eq!(req.name, "_acme-challenge.example.com");
    assert_eq!(req.content, "proof");
    assert_eq!(req.url, "https://dns.example/zones/z1/dns_records");
    assert_eq!(req.authorization, "Bearer tok");
    assert_eq!(req.ttl, 120);
}

#[test]
fn invalid_first_poll_cleans_up_without_finalize() {
    let (log, last) = run(&[ChallengeStatus::Invalid], 200);
    assert_eq!(log, vec!["create", "wait30", "validate", "fetch0", "delete", "err"]);
    assert!(matches!(last, Action::Finish(Err(IssueError::Validation))));
    assert_eq!(log.iter().filter(|a| *a == "delete").count(), 1);
}

#[test]
fn provider_403_aborts_before_wait() {
    let (log, last) = run(&[], 403);
    assert_eq!(log, vec!["create", "err"]);
    match last {
        Action::Finish(Err(IssueError::Provider { status, body })) => {
            assert_eq!(status, 403);
            assert_eq!(body, "forbidden");
        }
        _ => panic!("expected a provider error"),
    }
}

#[test]
fn never_valid_times_out_and_cleans_up() {
    let statuses = vec![ChallengeStatus::Pending; DEFAULT_MAX_ATTEMPTS as usize];
    let (log, last) = run(&statuses, 200);
    assert_eq!(log.iter().filter(|a| a.starts_with("fetch")).count(), 10);
    assert!(matches!(last, Action::Finish(Err(IssueError::Timeout))));
    assert_eq!(log[log.len() - 2], "delete");
}

#[test]
fn storage_failure_still_deletes_record() {
    let mut m = Issuance::new(3);
    m.on_event(Event::Done);
    m.on_event(Event::Done);
    m.on_event(Event::Done);
    m.on_event(Event::Done);
    assert!(matches!(m.on_event(Event::Status(ChallengeStatus::Valid)), Action::FinalizeOrder));
    assert!(matches!(m.on_event(Event::Done), Action::StoreCertificate));
    let a = m.on_event(Event::Failed(IssueError::Storage("disk full".to_string())));
    assert!(matches!(a, Action::DeleteRecord));
    let a = m.on_event(Event::Failed(IssueError::Network("gone".to_string())));
    assert!(matches!(a, Action::Finish(Err(IssueError::Storage(_)))));
    assert_eq!(m.phase, Phase::Finished);
}

#[test]
fn account_failure_ends_without_dns_work() {
    let mut m = Issuance::new(3);
    let a = m.on_event(Event::Failed(IssueError::Auth("bad eab".to_string())));
    assert!(matches!(a, Action::Finish(Err(IssueError::Auth(_)))));
}
