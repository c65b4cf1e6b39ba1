use stassh::host_keys::{check_server_key, trust_host_key, HostKeyCheck};
use stassh::migrations::{migrate_config, migrate_database, migrate_legacy_host, ConfigAny, DatabaseAny, LegacyHostAuth, LegacySshHost};
use stassh::model::{Config, Database, DbEncryption, HostAuth, SshEndpoint, SshHost, TrustedHostKey};
use stassh::store::{
    auth_kind, config_from_row, config_to_row, db_encryption_to_str, is_wrong_passphrase_error,
    max_host_id_plus_one, normalize_loaded, parse_db_encryption, stored_next_host_id, write_passphrase,
};

fn host(id: u32) -> SshHost {
    SshHost {
        id,
        name: format!("h{id}"),
        user: "u".to_string(),
        group: String::new(),
        endpoints: vec![SshEndpoint { host: "example".to_string(), port: 22 }],
        auth: HostAuth::KeyPath { key_path: "~/.ssh/id".to_string() },
    }
}

fn key(host: &str, port: u16, blob: &str, fp: &str) -> TrustedHostKey {
    TrustedHostKey {
        host: host.to_string(),
        port,
        algorithm: "ssh-ed25519".to_string(),
        public_key_base64: blob.to_string(),
        fingerprint_sha256: fp.to_string(),
    }
}

#[test]
fn encryption_names_round_trip() {
    for e in [DbEncryption::Unencrypted, DbEncryption::Passphrase] {
        let text = db_encryption_to_str(&e);
        assert!(matches!((parse_db_encryption(text).unwrap(), e), (DbEncryption::Unencrypted, DbEncryption::Unencrypted) | (DbEncryption::Passphrase, DbEncryption::Passphrase)));
    }
    assert_eq!(db_encryption_to_str(&DbEncryption::Unencrypted), "none");
    assert_eq!(parse_db_encryption("rot13").unwrap_err(), "invalid db_encryption value: rot13");
    assert_eq!(auth_kind(&HostAuth::Password { password: "x".to_string() }), "password");
}

#[test]
fn host_ids_and_normalizing() {
    assert_eq!(max_host_id_plus_one(&[host(3), host(9), host(1)]), 10);
    assert_eq!(max_host_id_plus_one(&[]), 1);
    let mut db = Database::default();
    db.hosts = vec![host(4), host(7)];
    db.next_host_id = 2;
    let mut config = Config::default();
    config.ssh_idle_timeout_seconds = 0;
    normalize_loaded(&mut db, &mut config);
    assert_eq!(db.next_host_id, 8);
    assert_eq!(config.ssh_idle_timeout_seconds, 1);
    let id = db.add_host("n".to_string(), "u".to_string(), String::new(), vec![], HostAuth::Password { password: "p".to_string() });
    assert_eq!(id, 8);
    assert_eq!(db.next_host_id, 9);
    assert!(db.hosts.iter().filter(|h| h.id == 8).count() == 1);
}

#[test]
fn wrong_passphrase_messages() {
    assert!(is_wrong_passphrase_error("file is not a database"));
    assert!(!is_wrong_passphrase_error("disk I/O error"));
}

#[test]
fn config_rows_read_back() {
    let mut c = Config::default();
    c.enable_telemetry = Some(true);
    c.telemetry_uuid = Some("id".to_string());
    c.last_telemetry_report_at_unix_ms = Some(1_700_000_000_000);
    c.db_encryption = Some(DbEncryption::Passphrase);
    c.ssh_connect_timeout_seconds = 9;
    let back = config_from_row(&config_to_row(&c)).unwrap();
    assert_eq!(back.enable_telemetry, Some(true));
    assert_eq!(back.telemetry_uuid.as_deref(), Some("id"));
    assert_eq!(back.last_telemetry_report_at_unix_ms, Some(1_700_000_000_000));
    assert!(matches!(back.db_encryption, Some(DbEncryption::Passphrase)));
    assert_eq!(back.ssh_connect_timeout_seconds, 9);
    assert_eq!(back.ssh_idle_timeout_seconds, 600);
}

#[test]
fn host_keys_are_trusted_per_endpoint() {
    let trusted = vec![key("a", 22, "K1", "fp1")];
    assert!(matches!(check_server_key(&trusted, "a", 22, key("a", 22, "K1", "fp1")), HostKeyCheck::Trusted));
    match check_server_key(&trusted, "a", 22, key("a", 22, "K2", "fp2")) {
        HostKeyCheck::NeedsTrust(ch) => {
            assert_eq!(ch.previous_fingerprint.as_deref(), Some("fp1"));
            assert_eq!(ch.proposed_key.public_key_base64, "K2");
        }
        HostKeyCheck::Trusted => panic!("changed key must not be trusted"),
    }
    match check_server_key(&trusted, "b", 22, key("b", 22, "K1", "fp1")) {
        HostKeyCheck::NeedsTrust(ch) => assert!(ch.previous_fingerprint.is_none()),
        HostKeyCheck::Trusted => panic!("unknown endpoint must not be trusted"),
    }
    let mut keys = vec![key("a", 22, "K1", "fp1"), key("a", 2222, "K3", "fp3")];
    trust_host_key(&mut keys, key("a", 22, "K2", "fp2"));
    assert_eq!(keys.len(), 2);
    assert_eq!(keys[0].port, 2222);
    assert_eq!(keys[1].public_key_base64, "K2");
    assert!(matches!(check_server_key(&keys, "a", 22, key("a", 22, "K2", "fp2")), HostKeyCheck::Trusted));
}

#[test]
fn old_configs_upgrade_with_defaults() {
    let (c, changed) = migrate_config(ConfigAny::V0 { enable_telemetry: Some(false), db_encryption: None, show_sidebar: None });
    assert!(changed);
    assert_eq!(c.enable_telemetry, Some(false));
    assert_eq!(c.ssh_idle_timeout_seconds, 600);
    assert_eq!(c.ssh_connect_timeout_seconds, 5);
    assert!(!c.show_debug_panel);
    assert!(c.telemetry_uuid.is_none());
    let (c, changed) = migrate_config(ConfigAny::V6 {
        enable_telemetry: None,
        telemetry_uuid: None,
        last_telemetry_report_at_unix_ms: None,
        db_encryption: None,
        show_debug_panel: true,
        ssh_idle_timeout_seconds: 0,
        ssh_connect_timeout_seconds: 0,
    });
    assert!(!changed);
    assert_eq!((c.ssh_idle_timeout_seconds, c.ssh_connect_timeout_seconds), (1, 1));
    assert!(c.show_debug_panel);
}

#[test]
fn old_databases_upgrade() {
    let (db, changed) = migrate_database(DatabaseAny::V0 { name: Some("x".to_string()), index: None });
    assert!(changed);
    assert!(db.hosts.is_empty());
    assert_eq!(db.next_host_id, 1);
    let legacy = LegacySshHost {
        id: 5,
        name: "web".to_string(),
        host: "w.example".to_string(),
        user: "root".to_string(),
        port: 2200,
        auth: LegacyHostAuth::Key { key_path: "/k".to_string() },
    };
    let (db, _) = migrate_database(DatabaseAny::V2 { hosts: vec![legacy], next_host_id: 0 });
    assert_eq!(db.next_host_id, 1);
    assert_eq!(db.hosts[0].endpoints[0].host, "w.example");
    assert_eq!(db.hosts[0].endpoints[0].port, 2200);
    assert!(matches!(&db.hosts[0].auth, HostAuth::KeyPath { key_path } if key_path == "/k"));
    let h = migrate_legacy_host(LegacySshHost {
        id: 1,
        name: "n".to_string(),
        host: "h".to_string(),
        user: "u".to_string(),
        port: 22,
        auth: LegacyHostAuth::Password { password: "p".to_string() },
    });
    assert_eq!(h.endpoints.len(), 1);
    assert!(h.group.is_empty());
}

#[test]
fn stored_next_id_never_lags_behind_the_hosts() {
    let db = Database { hosts: vec![host(3), host(9)], next_host_id: 4, trusted_host_keys: vec![] };
    assert_eq!(stored_next_host_id(&db), 10);
    let db = Database { hosts: vec![host(3)], next_host_id: 40, trusted_host_keys: vec![] };
    assert_eq!(stored_next_host_id(&db), 40);
    let db = Database { hosts: vec![], next_host_id: 0, trusted_host_keys: vec![] };
    assert_eq!(stored_next_host_id(&db), 1);
}

#[test]
fn encrypted_database_needs_a_passphrase_to_write() {
    assert_eq!(write_passphrase(DbEncryption::Unencrypted, Some("x")), Ok(None));
    assert_eq!(write_passphrase(DbEncryption::Passphrase, Some("x")), Ok(Some("x".to_string())));
    assert_eq!(
        write_passphrase(DbEncryption::Passphrase, None),
        Err("missing passphrase for encrypted database".to_string())
    );
}
