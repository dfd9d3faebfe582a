use cert_renewer::config::CloudflareConfig;
use cert_renewer::dns::{create_outcome, create_record_request};
use cert_renewer::issuance::{issue_error_from_dns, IssueError};
use cert_renewer::config::{contact_uri, renewal_period_secs, StorageConfig};
use cert_renewer::dns::{
    challenge_record_name, delete_record_url, list_records_url, records_to_delete, DnsError,
    ListedRecord,
};
use cert_renewer::poll::{poll_until_decided, ChallengeStatus, PollDecision, Poller};
use cert_renewer::proof_value::{decode_mac_key, dns_proof_value};
use cert_renewer::storage::storage_paths;

fn rec(id: Option<&str>, content: Option<&str>) -> ListedRecord {
    ListedRecord { id: id.map(|s| s.to_string()), content: content.map(|s| s.to_string()) }
}

#[test]
fn deletes_only_matching_content() {
    let listing = Some(vec![rec(Some("a"), Some("other")), rec(Some("b"), Some("proof"))]);
    let ids = records_to_delete(&listing, "proof").ok().unwrap();
    assert_eq!(ids, vec!["b".to_string()]);
}

#[test]
fn no_match_is_no_op() {
    let listing = Some(vec![rec(Some("a"), Some("other")), rec(None, Some("proof"))]);
    assert!(records_to_delete(&listing, "proof").ok().unwrap().is_empty());
    assert!(records_to_delete(&Some(vec![]), "proof").ok().unwrap().is_empty());
}

#[test]
fn missing_listing_is_an_error() {
    assert!(matches!(records_to_delete(&None, "proof"), Err(DnsError::MalformedListing)));
}

#[test]
fn valid_on_third_fetch() {
    let reports = vec![ChallengeStatus::Pending, ChallengeStatus::Processing, ChallengeStatus::Valid];
    assert_eq!(poll_until_decided(&reports, 10), (PollDecision::Valid, 3));
}

#[test]
fn pending_forever_times_out_after_max() {
    let reports = vec![ChallengeStatus::Pending; 20];
    assert_eq!(poll_until_decided(&reports, 4), (PollDecision::TimedOut, 4));
}

#[test]
fn invalid_stops_polling() {
    let reports = vec![ChallengeStatus::Pending, ChallengeStatus::Invalid, ChallengeStatus::Valid];
    assert_eq!(poll_until_decided(&reports, 10), (PollDecision::Invalid, 2));
}

#[test]
fn poller_counts_fetches() {
    let mut p = Poller::new(2);
    assert_eq!(p.observe(ChallengeStatus::Pending), PollDecision::Retry);
    assert_eq!(p.observe(ChallengeStatus::Processing), PollDecision::TimedOut);
    assert_eq!(p.fetches, 2);
}

#[test]
fn proof_value_known_answers() {
    assert_eq!(
        dns_proof_value("").unwrap(),
        "47DEQpj8HBSa-_TImW-5JCeuQeRkm5NMpJWZG3hSuFU"
    );
    assert_eq!(
        dns_proof_value("abc").unwrap(),
        "ungWv48Bz-pBQUDeXa4iI7ADYaOWF3qctBD_YfIAFa0"
    );
    assert_eq!(dns_proof_value("tok.thumb"), dns_proof_value("tok.thumb"));
    assert_ne!(dns_proof_value("tok1.thumb"), dns_proof_value("tok2.thumb"));
}

#[test]
fn mac_key_decodes() {
    assert_eq!(decode_mac_key("bWFjLWtleQ").unwrap(), b"mac-key".to_vec());
    assert!(decode_mac_key("not base64!").is_none());
}

#[test]
fn names_and_urls() {
    assert_eq!(challenge_record_name("example.com"), "_acme-challenge.example.com");
    assert_eq!(
        list_records_url("z", "_acme-challenge.a.b"),
        "https://api.cloudflare.com/client/v4/zones/z/dns_records?type=TXT&name=_acme-challenge.a.b"
    );
    assert_eq!(
        delete_record_url("z", "id9"),
        "https://api.cloudflare.com/client/v4/zones/z/dns_records/id9"
    );
    assert_eq!(contact_uri("a@b.c"), "mailto:a@b.c");
}

#[test]
fn renewal_period() {
    assert_eq!(renewal_period_secs(30), Some(2_592_000));
    assert_eq!(renewal_period_secs(u64::MAX), None);
}

#[test]
fn storage_layout() {
    let cfg = StorageConfig {
        certs_base_path: "/certs".to_string(),
        cert_file_name: "cert.pem".to_string(),
        key_file_name: "key.pem".to_string(),
    };
    let p = storage_paths("example.com", &cfg);
    assert_eq!(p.dir, "/certs/example.com");
    assert_eq!(p.cert, "/certs/example.com/cert.pem");
    assert_eq!(p.key, "/certs/example.com/key.pem");
    assert_eq!(p.cert_tmp, "/certs/example.com/cert.pem.tmp");
}

#[test]
fn create_status_boundaries() {
    assert!(create_outcome(200, String::new()).is_ok());
    assert!(create_outcome(299, String::new()).is_ok());
    assert!(matches!(
        create_outcome(300, "moved".to_string()),
        Err(DnsError::Provider { status: 300, .. })
    ));
    assert!(matches!(create_outcome(199, String::new()), Err(DnsError::Provider { status: 199, .. })));
}

#[test]
fn listing_error_maps_to_protocol() {
    match issue_error_from_dns(DnsError::MalformedListing) {
        IssueError::Protocol(m) => assert_eq!(m, "malformed DNS record listing"),
        _ => panic!("expected a protocol error"),
    }
}

#[test]
fn zone_placeholder_replaced_everywhere() {
    let cfg = CloudflareConfig {
        api_token: "t".to_string(),
        zone_id: "Z".to_string(),
        api_base_url: "{zone_id}/x/{zone_id}".to_string(),
        dns_record_ttl: 60,
    };
    assert_eq!(create_record_request("d", "v", &cfg).url, "Z/x/Z");
}
