use std::collections::HashMap;

use stassh::host_keys::TrustChallenge;
use stassh::model::{HostAuth, SshEndpoint, SshHost, TrustedHostKey};
use stassh::navigation::HostConnectionStatus::{Reachable, Unknown, Unreachable};
use stassh::reachability::{probe_timeout_secs, sync_host_statuses};
use stassh::ssh_tabs::{after_start_report, close_status_after, SessionReport, StartReport, StartStep};

fn host(id: u32, endpoints: usize) -> SshHost {
    SshHost {
        id,
        name: format!("h{id}"),
        user: "u".to_string(),
        group: String::new(),
        endpoints: (0..endpoints).map(|i| SshEndpoint { host: format!("e{i}"), port: 22 }).collect(),
        auth: HostAuth::Password { password: "p".to_string() },
    }
}

#[test]
fn start_reports_lead_to_tab_steps() {
    match after_start_report(StartReport::HostMissing) {
        StartStep::Close(s) => assert_eq!(s, "Selected host no longer exists"),
        _ => panic!("a missing host closes the tab"),
    }
    assert!(matches!(after_start_report(StartReport::Started), StartStep::Run));
    match after_start_report(StartReport::Failed("SSH error: refused".to_string())) {
        StartStep::Close(s) => assert_eq!(s, "SSH error: refused"),
        _ => panic!("a failure closes the tab"),
    }
    let key = TrustedHostKey {
        host: "e0".to_string(),
        port: 22,
        algorithm: "ssh-ed25519".to_string(),
        public_key_base64: "AAAA".to_string(),
        fingerprint_sha256: "SHA256:x".to_string(),
    };
    let challenge = TrustChallenge { proposed_key: key, previous_fingerprint: None };
    match after_start_report(StartReport::TrustRequired(challenge)) {
        StartStep::AskTrust(c, choice) => {
            assert_eq!(c.proposed_key.algorithm, "ssh-ed25519");
            assert!(!choice.selected);
        }
        _ => panic!("an untrusted key is put to the user"),
    }
}

#[test]
fn first_end_report_wins() {
    let s = close_status_after(None, SessionReport::Output);
    assert_eq!(s, None);
    let s = close_status_after(s, SessionReport::Closed("SSH session closed".to_string()));
    let s = close_status_after(s, SessionReport::Failed("late".to_string()));
    assert_eq!(s, Some("SSH session closed".to_string()));
}

#[test]
fn statuses_follow_the_host_list() {
    let mut known = HashMap::new();
    known.insert(1, vec![Reachable]);
    known.insert(2, vec![Unreachable]);
    known.insert(9, vec![Reachable]);
    let hosts = vec![host(1, 1), host(2, 2), host(3, 0)];
    let synced = sync_host_statuses(&hosts, &known);
    assert_eq!(synced.len(), 3);
    assert_eq!(synced[&1], vec![Reachable]);
    assert_eq!(synced[&2], vec![Unknown, Unknown]);
    assert_eq!(synced[&3], Vec::new());
    assert!(!synced.contains_key(&9));
}

#[test]
fn probe_timeout_is_capped() {
    assert_eq!(probe_timeout_secs(0), 1);
    assert_eq!(probe_timeout_secs(1), 1);
    assert_eq!(probe_timeout_secs(2), 2);
    assert_eq!(probe_timeout_secs(5), 2);
}
