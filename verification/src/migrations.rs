//! Stored settings and databases carry a format version; older formats are
//! upgraded one version at a time until they reach the latest one.

use vstd::prelude::*;
use crate::model::{
    duplicate_keys, endpoints_view, hosts_view, keys_view, Config, Database, DatabaseView,
    DbEncryption, EndpointView, HostAuth, HostAuthView, HostView, SshEndpoint, SshHost,
    TrustedHostKey, TrustedKeyView,
};
use crate::store::{at_least_one, duplicate_opt_string};

verus! {

/// The format version of the newest stored settings.
pub const LATEST_CONFIG_VERSION: u32 = 6;

/// The format version of the newest stored database.
pub const LATEST_DB_VERSION: u32 = 4;

/// Stored settings in any of their format versions.
#[derive(Debug)]
pub enum ConfigAny {
    V0 { enable_telemetry: Option<bool>, db_encryption: Option<DbEncryption>, show_sidebar: Option<bool> },
    V1 {
        enable_telemetry: Option<bool>,
        db_encryption: Option<DbEncryption>,
        show_sidebar: bool,
        ssh_idle_timeout_seconds: u64,
    },
    V2 {
        enable_telemetry: Option<bool>,
        db_encryption: Option<DbEncryption>,
        show_sidebar: bool,
        ssh_idle_timeout_seconds: u64,
        ssh_connect_timeout_seconds: u64,
    },
    V3 {
        enable_telemetry: Option<bool>,
        db_encryption: Option<DbEncryption>,
        ssh_idle_timeout_seconds: u64,
        ssh_connect_timeout_seconds: u64,
    },
    V4 {
        enable_telemetry: Option<bool>,
        db_encryption: Option<DbEncryption>,
        show_debug_panel: bool,
        ssh_idle_timeout_seconds: u64,
        ssh_connect_timeout_seconds: u64,
    },
    V5 {
        enable_telemetry: Option<bool>,
        telemetry_uuid: Option<String>,
        db_encryption: Option<DbEncryption>,
        show_debug_panel: bool,
        ssh_idle_timeout_seconds: u64,
        ssh_connect_timeout_seconds: u64,
    },
    V6 {
        enable_telemetry: Option<bool>,
        telemetry_uuid: Option<String>,
        last_telemetry_report_at_unix_ms: Option<u64>,
        db_encryption: Option<DbEncryption>,
        show_debug_panel: bool,
        ssh_idle_timeout_seconds: u64,
        ssh_connect_timeout_seconds: u64,
    },
}

/// The format version of stored settings.
pub open spec fn config_version(c: ConfigAny) -> nat {
    match c {
        ConfigAny::V0 { .. } => 0,
        ConfigAny::V1 { .. } => 1,
        ConfigAny::V2 { .. } => 2,
        ConfigAny::V3 { .. } => 3,
        ConfigAny::V4 { .. } => 4,
        ConfigAny::V5 { .. } => 5,
        ConfigAny::V6 { .. } => 6,
    }
}

/// One upgrade step: settings of version `n` become version `n + 1`; the
/// latest version has no next step. Each step adds its new fields with
/// their defaults (idle timeout 600 s, connect timeout 5 s, no debug panel,
/// no telemetry id, no report time) and drops the sidebar flag at version 3.
pub open spec fn config_step(c: ConfigAny) -> Option<ConfigAny> {
    match c {
        ConfigAny::V0 { enable_telemetry, db_encryption, show_sidebar } => Some(
            ConfigAny::V1 {
                enable_telemetry,
                db_encryption,
                show_sidebar: match show_sidebar {
                    Some(b) => b,
                    None => true,
                },
                ssh_idle_timeout_seconds: 600,
            },
        ),
        ConfigAny::V1 { enable_telemetry, db_encryption, show_sidebar, ssh_idle_timeout_seconds } => Some(
            ConfigAny::V2 {
                enable_telemetry,
                db_encryption,
                show_sidebar,
                ssh_idle_timeout_seconds,
                ssh_connect_timeout_seconds: 5,
            },
        ),
        ConfigAny::V2 {
            enable_telemetry,
            db_encryption,
            ssh_idle_timeout_seconds,
            ssh_connect_timeout_seconds,
            ..
        } => Some(
            ConfigAny::V3 {
                enable_telemetry,
                db_encryption,
                ssh_idle_timeout_seconds,
                ssh_connect_timeout_seconds,
            },
        ),
        ConfigAny::V3 {
            enable_telemetry,
            db_encryption,
            ssh_idle_timeout_seconds,
            ssh_connect_timeout_seconds,
        } => Some(
            ConfigAny::V4 {
                enable_telemetry,
                db_encryption,
                show_debug_panel: false,
                ssh_idle_timeout_seconds,
                ssh_connect_timeout_seconds,
            },
        ),
        ConfigAny::V4 {
            enable_telemetry,
            db_encryption,
            show_debug_panel,
            ssh_idle_timeout_seconds,
            ssh_connect_timeout_seconds,
        } => Some(
            ConfigAny::V5 {
                enable_telemetry,
                telemetry_uuid: None,
                db_encryption,
                show_debug_panel,
                ssh_idle_timeout_seconds,
                ssh_connect_timeout_seconds,
            },
        ),
        ConfigAny::V5 {
            enable_telemetry,
            telemetry_uuid,
            db_encryption,
            show_debug_panel,
            ssh_idle_timeout_seconds,
            ssh_connect_timeout_seconds,
        } => Some(
            ConfigAny::V6 {
                enable_telemetry,
                telemetry_uuid,
                last_telemetry_report_at_unix_ms: None,
                db_encryption,
                show_debug_panel,
                ssh_idle_timeout_seconds,
                ssh_connect_timeout_seconds,
            },
        ),
        ConfigAny::V6 { .. } => None,
    }
}

/// The settings that stored settings of any version amount to.
///
/// Fields a version lacks take their defaults (no telemetry id, no report
/// time, no debug panel, idle timeout 600 s, connect timeout 5 s); the
/// sidebar flag of old versions is dropped; both timeouts are at least 1.
pub open spec fn config_of(c: ConfigAny) -> Config {
    match c {
        ConfigAny::V0 { enable_telemetry, db_encryption, .. } => Config {
            enable_telemetry,
            telemetry_uuid: None,
            last_telemetry_report_at_unix_ms: None,
            db_encryption,
            show_debug_panel: false,
            ssh_idle_timeout_seconds: 600,
            ssh_connect_timeout_seconds: 5,
        },
        ConfigAny::V1 { enable_telemetry, db_encryption, ssh_idle_timeout_seconds, .. } => Config {
            enable_telemetry,
            telemetry_uuid: None,
            last_telemetry_report_at_unix_ms: None,
            db_encryption,
            show_debug_panel: false,
            ssh_idle_timeout_seconds: at_least_one(ssh_idle_timeout_seconds),
            ssh_connect_timeout_seconds: 5,
        },
        ConfigAny::V2 {
            enable_telemetry,
            db_encryption,
            ssh_idle_timeout_seconds,
            ssh_connect_timeout_seconds,
            ..
        } => Config {
            enable_telemetry,
            telemetry_uuid: None,
            last_telemetry_report_at_unix_ms: None,
            db_encryption,
            show_debug_panel: false,
            ssh_idle_timeout_seconds: at_least_one(ssh_idle_timeout_seconds),
            ssh_connect_timeout_seconds: at_least_one(ssh_connect_timeout_seconds),
        },
        ConfigAny::V3 {
            enable_telemetry,
            db_encryption,
            ssh_idle_timeout_seconds,
            ssh_connect_timeout_seconds,
        } => Config {
            enable_telemetry,
            telemetry_uuid: None,
            last_telemetry_report_at_unix_ms: None,
            db_encryption,
            show_debug_panel: false,
            ssh_idle_timeout_seconds: at_least_one(ssh_idle_timeout_seconds),
            ssh_connect_timeout_seconds: at_least_one(ssh_connect_timeout_seconds),
        },
        ConfigAny::V4 {
            enable_telemetry,
            db_encryption,
            show_debug_panel,
            ssh_idle_timeout_seconds,
            ssh_connect_timeout_seconds,
        } => Config {
            enable_telemetry,
            telemetry_uuid: None,
            last_telemetry_report_at_unix_ms: None,
            db_encryption,
            show_debug_panel,
            ssh_idle_timeout_seconds: at_least_one(ssh_idle_timeout_seconds),
            ssh_connect_timeout_seconds: at_least_one(ssh_connect_timeout_seconds),
        },
        ConfigAny::V5 {
            enable_telemetry,
            telemetry_uuid,
            db_encryption,
            show_debug_panel,
            ssh_idle_timeout_seconds,
            ssh_connect_timeout_seconds,
        } => Config {
            enable_telemetry,
            telemetry_uuid,
            last_telemetry_report_at_unix_ms: None,
            db_encryption,
            show_debug_panel,
            ssh_idle_timeout_seconds: at_least_one(ssh_idle_timeout_seconds),
            ssh_connect_timeout_seconds: at_least_one(ssh_connect_timeout_seconds),
        },
        ConfigAny::V6 {
            enable_telemetry,
            telemetry_uuid,
            last_telemetry_report_at_unix_ms,
            db_encryption,
            show_debug_panel,
            ssh_idle_timeout_seconds,
            ssh_connect_timeout_seconds,
        } => Config {
            enable_telemetry,
            telemetry_uuid,
            last_telemetry_report_at_unix_ms,
            db_encryption,
            show_debug_panel,
            ssh_idle_timeout_seconds: at_least_one(ssh_idle_timeout_seconds),
            ssh_connect_timeout_seconds: at_least_one(ssh_connect_timeout_seconds),
        },
    }
}

impl ConfigAny {
    /// The next format version of these settings, or `None` at the latest.
    pub fn upgrade_one(&self) -> (r: Option<ConfigAny>)
        ensures
            r == config_step(*self),
    {
        match self {
            ConfigAny::V0 { enable_telemetry, db_encryption, show_sidebar } => Some(
                ConfigAny::V1 {
                    enable_telemetry: *enable_telemetry,
                    db_encryption: *db_encryption,
                    show_sidebar: match show_sidebar {
                        Some(b) => *b,
                        None => true,
                    },
                    ssh_idle_timeout_seconds: 600,
                },
            ),
            ConfigAny::V1 {
                enable_telemetry,
                db_encryption,
                show_sidebar,
                ssh_idle_timeout_seconds,
            } => Some(
                ConfigAny::V2 {
                    enable_telemetry: *enable_telemetry,
                    db_encryption: *db_encryption,
                    show_sidebar: *show_sidebar,
                    ssh_idle_timeout_seconds: *ssh_idle_timeout_seconds,
                    ssh_connect_timeout_seconds: 5,
                },
            ),
            ConfigAny::V2 {
                enable_telemetry,
                db_encryption,
                ssh_idle_timeout_seconds,
                ssh_connect_timeout_seconds,
                ..
            } => Some(
                ConfigAny::V3 {
                    enable_telemetry: *enable_telemetry,
                    db_encryption: *db_encryption,
                    ssh_idle_timeout_seconds: *ssh_idle_timeout_seconds,
                    ssh_connect_timeout_seconds: *ssh_connect_timeout_seconds,
                },
            ),
            ConfigAny::V3 {
                enable_telemetry,
                db_encryption,
                ssh_idle_timeout_seconds,
                ssh_connect_timeout_seconds,
            } => Some(
                ConfigAny::V4 {
                    enable_telemetry: *enable_telemetry,
                    db_encryption: *db_encryption,
                    show_debug_panel: false,
                    ssh_idle_timeout_seconds: *ssh_idle_timeout_seconds,
                    ssh_connect_timeout_seconds: *ssh_connect_timeout_seconds,
                },
            ),
            ConfigAny::V4 {
                enable_telemetry,
                db_encryption,
                show_debug_panel,
                ssh_idle_timeout_seconds,
                ssh_connect_timeout_seconds,
            } => Some(
                ConfigAny::V5 {
                    enable_telemetry: *enable_telemetry,
                    telemetry_uuid: None,
                    db_encryption: *db_encryption,
                    show_debug_panel: *show_debug_panel,
                    ssh_idle_timeout_seconds: *ssh_idle_timeout_seconds,
                    ssh_connect_timeout_seconds: *ssh_connect_timeout_seconds,
                },
            ),
            ConfigAny::V5 {
                enable_telemetry,
                telemetry_uuid,
                db_encryption,
                show_debug_panel,
                ssh_idle_timeout_seconds,
                ssh_connect_timeout_seconds,
            } => Some(
                ConfigAny::V6 {
                    enable_telemetry: *enable_telemetry,
                    telemetry_uuid: duplicate_opt_string(telemetry_uuid),
                    last_telemetry_report_at_unix_ms: None,
                    db_encryption: *db_encryption,
                    show_debug_panel: *show_debug_panel,
                    ssh_idle_timeout_seconds: *ssh_idle_timeout_seconds,
                    ssh_connect_timeout_seconds: *ssh_connect_timeout_seconds,
                },
            ),
            ConfigAny::V6 { .. } => None,
        }
    }

    /// The settings held by settings of the latest format version.
    pub fn into_latest(self) -> (c: Config)
        requires
            self is V6,
        ensures
            c == config_of(self),
    {
        match self {
            ConfigAny::V6 {
                enable_telemetry,
                telemetry_uuid,
                last_telemetry_report_at_unix_ms,
                db_encryption,
                show_debug_panel,
                ssh_idle_timeout_seconds,
                ssh_connect_timeout_seconds,
            } => Config {
                enable_telemetry,
                telemetry_uuid,
                last_telemetry_report_at_unix_ms,
                db_encryption,
                show_debug_panel,
                ssh_idle_timeout_seconds: if ssh_idle_timeout_seconds >= 1 {
                    ssh_idle_timeout_seconds
                } else {
                    1
                },
                ssh_connect_timeout_seconds: if ssh_connect_timeout_seconds >= 1 {
                    ssh_connect_timeout_seconds
                } else {
                    1
                },
            },
            _ => {
                assert(false);
                Config::default()
            },
        }
    }
}

/// An upgrade step raises the version by one and keeps what the settings
/// amount to; only the latest version has no step.
pub proof fn config_step_keeps_meaning(c: ConfigAny)
    ensures
        config_step(c) is None <==> c is V6,
        config_step(c) matches Some(n) ==> config_version(n) == config_version(c) + 1
            && config_of(n) == config_of(c),
{
}

/// Upgrades stored settings to the latest version; the flag tells whether
/// any upgrade step was needed.
pub fn migrate_config(config: ConfigAny) -> (r: (Config, bool))
    ensures
        r.0 == config_of(config),
        r.1 == !(config is V6),
{
    let mut current = config;
    let mut changed = false;
    loop
        invariant
            config_of(current) == config_of(config),
            changed == (config_version(current) != config_version(config)),
            config_version(current) >= config_version(config),
        ensures
            current is V6,
            config_of(current) == config_of(config),
            changed == (config_version(current) != config_version(config)),
        decreases 6 - config_version(current),
    {
        match current.upgrade_one() {
            Some(next) => {
                proof {
                    config_step_keeps_meaning(current);
                }
                current = next;
                changed = true;
            },
            None => {
                proof {
                    config_step_keeps_meaning(current);
                }
                break;
            },
        }
    }
    (current.into_latest(), changed)
}

} // verus!

verus! {

/// Host authentication as database versions before 4 stored it.
#[derive(Debug)]
pub enum LegacyHostAuth {
    Key { key_path: String },
    KeyInline { private_key: String },
    Password { password: String },
}

/// A host as database versions before 4 stored it: one endpoint only.
#[derive(Debug)]
pub struct LegacySshHost {
    pub id: u32,
    pub name: String,
    pub host: String,
    pub user: String,
    pub port: u16,
    pub auth: LegacyHostAuth,
}

/// The mathematical value of a `LegacySshHost`, with its authentication
/// already in the current form.
pub struct LegacyHostView {
    pub id: u32,
    pub name: Seq<char>,
    pub host: Seq<char>,
    pub user: Seq<char>,
    pub port: u16,
    pub auth: HostAuthView,
}

impl View for LegacySshHost {
    type V = LegacyHostView;

    open spec fn view(&self) -> LegacyHostView {
        LegacyHostView {
            id: self.id,
            name: self.name@,
            host: self.host@,
            user: self.user@,
            port: self.port,
            auth: match &self.auth {
                LegacyHostAuth::Key { key_path } => HostAuthView::KeyPath { key_path: key_path@ },
                LegacyHostAuth::KeyInline { private_key } => HostAuthView::KeyInline {
                    private_key: private_key@,
                },
                LegacyHostAuth::Password { password } => HostAuthView::Password {
                    password: password@,
                },
            },
        }
    }
}

impl LegacySshHost {
    /// A copy of this host.
    pub fn duplicate(&self) -> (r: LegacySshHost)
        ensures
            r@ == self@,
    {
        LegacySshHost {
            id: self.id,
            name: self.name.clone(),
            host: self.host.clone(),
            user: self.user.clone(),
            port: self.port,
            auth: match &self.auth {
                LegacyHostAuth::Key { key_path } => LegacyHostAuth::Key { key_path: key_path.clone() },
                LegacyHostAuth::KeyInline { private_key } => LegacyHostAuth::KeyInline {
                    private_key: private_key.clone(),
                },
                LegacyHostAuth::Password { password } => LegacyHostAuth::Password {
                    password: password.clone(),
                },
            },
        }
    }
}

/// The views of a sequence of legacy hosts.
pub open spec fn legacy_view(v: Seq<LegacySshHost>) -> Seq<LegacyHostView> {
    v.map_values(|h: LegacySshHost| h@)
}

/// A legacy host in the current form: its one endpoint becomes the endpoint
/// list, in no group.
pub open spec fn host_of_legacy(h: LegacyHostView) -> HostView {
    HostView {
        id: h.id,
        name: h.name,
        user: h.user,
        group: Seq::empty(),
        endpoints: seq![EndpointView { host: h.host, port: h.port }],
        auth: h.auth,
    }
}

/// A list of legacy hosts in the current form.
pub open spec fn hosts_of_legacy(v: Seq<LegacyHostView>) -> Seq<HostView> {
    v.map_values(|h: LegacyHostView| host_of_legacy(h))
}

/// A legacy host in the current form.
pub fn migrate_legacy_host(host: LegacySshHost) -> (r: SshHost)
    ensures
        r@ == host_of_legacy(host@),
{
    let ghost before = host@;
    let auth = match host.auth {
        LegacyHostAuth::Key { key_path } => HostAuth::KeyPath { key_path },
        LegacyHostAuth::KeyInline { private_key } => HostAuth::KeyInline { private_key },
        LegacyHostAuth::Password { password } => HostAuth::Password { password },
    };
    let mut endpoints: Vec<SshEndpoint> = Vec::new();
    endpoints.push(SshEndpoint { host: host.host, port: host.port });
    let r = SshHost {
        id: host.id,
        name: host.name,
        user: host.user,
        group: String::new(),
        endpoints,
        auth,
    };
    assert(endpoints_view(r.endpoints@) =~= seq![EndpointView { host: before.host, port: before.port }]);
    r
}

/// A stored database in any of its format versions.
#[derive(Debug)]
pub enum DatabaseAny {
    V0 { name: Option<String>, index: Option<u32> },
    V1 { index: u32 },
    V2 { hosts: Vec<LegacySshHost>, next_host_id: u32 },
    V3 { hosts: Vec<LegacySshHost>, next_host_id: u32, trusted_host_keys: Vec<TrustedHostKey> },
    V4 { hosts: Vec<SshHost>, next_host_id: u32, trusted_host_keys: Vec<TrustedHostKey> },
}

/// The mathematical value of a `DatabaseAny`.
pub enum DatabaseAnyView {
    V0 { index: Option<u32> },
    V1 { index: u32 },
    V2 { hosts: Seq<LegacyHostView>, next_host_id: u32 },
    V3 { hosts: Seq<LegacyHostView>, next_host_id: u32, trusted_host_keys: Seq<TrustedKeyView> },
    V4 { hosts: Seq<HostView>, next_host_id: u32, trusted_host_keys: Seq<TrustedKeyView> },
}

impl View for DatabaseAny {
    type V = DatabaseAnyView;

    open spec fn view(&self) -> DatabaseAnyView {
        match self {
            DatabaseAny::V0 { index, .. } => DatabaseAnyView::V0 { index: *index },
            DatabaseAny::V1 { index } => DatabaseAnyView::V1 { index: *index },
            DatabaseAny::V2 { hosts, next_host_id } => DatabaseAnyView::V2 {
                hosts: legacy_view(hosts@),
                next_host_id: *next_host_id,
            },
            DatabaseAny::V3 { hosts, next_host_id, trusted_host_keys } => DatabaseAnyView::V3 {
                hosts: legacy_view(hosts@),
                next_host_id: *next_host_id,
                trusted_host_keys: keys_view(trusted_host_keys@),
            },
            DatabaseAny::V4 { hosts, next_host_id, trusted_host_keys } => DatabaseAnyView::V4 {
                hosts: hosts_view(hosts@),
                next_host_id: *next_host_id,
                trusted_host_keys: keys_view(trusted_host_keys@),
            },
        }
    }
}

/// The format version of a stored database.
pub open spec fn db_version(d: DatabaseAnyView) -> nat {
    match d {
        DatabaseAnyView::V0 { .. } => 0,
        DatabaseAnyView::V1 { .. } => 1,
        DatabaseAnyView::V2 { .. } => 2,
        DatabaseAnyView::V3 { .. } => 3,
        DatabaseAnyView::V4 { .. } => 4,
    }
}

/// `v` but at least 1.
pub open spec fn id_at_least_one(v: u32) -> u32 {
    if v >= 1 {
        v
    } else {
        1
    }
}

/// One upgrade step of a stored database; the latest version has none.
/// Version 1 keeps only the index, version 2 turns it into the next host id
/// with no hosts, version 3 adds an empty list of trusted keys, version 4
/// gives each host an endpoint list.
pub open spec fn db_step(d: DatabaseAnyView) -> Option<DatabaseAnyView> {
    match d {
        DatabaseAnyView::V0 { index } => Some(
            DatabaseAnyView::V1 {
                index: match index {
                    Some(i) => i,
                    None => 0,
                },
            },
        ),
        DatabaseAnyView::V1 { index } => Some(
            DatabaseAnyView::V2 { hosts: Seq::empty(), next_host_id: id_at_least_one(index) },
        ),
        DatabaseAnyView::V2 { hosts, next_host_id } => Some(
            DatabaseAnyView::V3 {
                hosts,
                next_host_id: id_at_least_one(next_host_id),
                trusted_host_keys: Seq::empty(),
            },
        ),
        DatabaseAnyView::V3 { hosts, next_host_id, trusted_host_keys } => Some(
            DatabaseAnyView::V4 {
                hosts: hosts_of_legacy(hosts),
                next_host_id: id_at_least_one(next_host_id),
                trusted_host_keys,
            },
        ),
        DatabaseAnyView::V4 { .. } => None,
    }
}

/// The database that a stored database of any version amounts to: old
/// indices become the next host id, legacy hosts get endpoint lists, missing
/// lists are empty, and the next host id is at least 1.
pub open spec fn database_of(d: DatabaseAnyView) -> DatabaseView {
    match d {
        DatabaseAnyView::V0 { index } => DatabaseView {
            hosts: Seq::empty(),
            next_host_id: id_at_least_one(
                match index {
                    Some(i) => i,
                    None => 0,
                },
            ),
            trusted_host_keys: Seq::empty(),
        },
        DatabaseAnyView::V1 { index } => DatabaseView {
            hosts: Seq::empty(),
            next_host_id: id_at_least_one(index),
            trusted_host_keys: Seq::empty(),
        },
        DatabaseAnyView::V2 { hosts, next_host_id } => DatabaseView {
            hosts: hosts_of_legacy(hosts),
            next_host_id: id_at_least_one(next_host_id),
            trusted_host_keys: Seq::empty(),
        },
        DatabaseAnyView::V3 { hosts, next_host_id, trusted_host_keys } => DatabaseView {
            hosts: hosts_of_legacy(hosts),
            next_host_id: id_at_least_one(next_host_id),
            trusted_host_keys,
        },
        DatabaseAnyView::V4 { hosts, next_host_id, trusted_host_keys } => DatabaseView {
            hosts,
            next_host_id: id_at_least_one(next_host_id),
            trusted_host_keys,
        },
    }
}

/// The current form of a list of legacy hosts.
fn migrate_legacy_hosts(v: &Vec<LegacySshHost>) -> (r: Vec<SshHost>)
    ensures
        hosts_view(r@) == hosts_of_legacy(legacy_view(v@)),
{
    let mut r: Vec<SshHost> = Vec::new();
    let mut i: usize = 0;
    while i < v.len()
        invariant
            i <= v@.len(),
            r@.len() == i,
            forall|j: int| 0 <= j < i ==> (#[trigger] r@[j])@ == host_of_legacy(v@[j]@),
        decreases v@.len() - i,
    {
        r.push(migrate_legacy_host(v[i].duplicate()));
        i = i + 1;
    }
    assert(hosts_view(r@) =~= hosts_of_legacy(legacy_view(v@)));
    r
}

/// A copy of a list of legacy hosts.
fn duplicate_legacy_hosts(v: &Vec<LegacySshHost>) -> (r: Vec<LegacySshHost>)
    ensures
        legacy_view(r@) == legacy_view(v@),
{
    let mut r: Vec<LegacySshHost> = Vec::new();
    let mut i: usize = 0;
    while i < v.len()
        invariant
            i <= v@.len(),
            r@.len() == i,
            forall|j: int| 0 <= j < i ==> (#[trigger] r@[j])@ == v@[j]@,
        decreases v@.len() - i,
    {
        r.push(v[i].duplicate());
        i = i + 1;
    }
    assert(legacy_view(r@) =~= legacy_view(v@));
    r
}

impl DatabaseAny {
    /// The next format version of this database, or `None` at the latest.
    pub fn upgrade_one(&self) -> (r: Option<DatabaseAny>)
        ensures
            match r {
                Some(n) => db_step(self@) == Some(n@),
                None => db_step(self@) is None,
            },
    {
        match self {
            DatabaseAny::V0 { index, .. } => Some(
                DatabaseAny::V1 {
                    index: match index {
                        Some(i) => *i,
                        None => 0,
                    },
                },
            ),
            DatabaseAny::V1 { index } => {
                let r = DatabaseAny::V2 {
                    hosts: Vec::new(),
                    next_host_id: if *index >= 1 { *index } else { 1 },
                };
                assert(legacy_view(Seq::<LegacySshHost>::empty()) =~= Seq::empty());
                assert(r@ == DatabaseAnyView::V2 {
                    hosts: Seq::empty(),
                    next_host_id: id_at_least_one(*index),
                });
                Some(r)
            },
            DatabaseAny::V2 { hosts, next_host_id } => {
                let r = DatabaseAny::V3 {
                    hosts: duplicate_legacy_hosts(hosts),
                    next_host_id: if *next_host_id >= 1 { *next_host_id } else { 1 },
                    trusted_host_keys: Vec::new(),
                };
                assert(keys_view(Seq::<TrustedHostKey>::empty()) =~= Seq::empty());
                Some(r)
            },
            DatabaseAny::V3 { hosts, next_host_id, trusted_host_keys } => Some(
                DatabaseAny::V4 {
                    hosts: migrate_legacy_hosts(hosts),
                    next_host_id: if *next_host_id >= 1 { *next_host_id } else { 1 },
                    trusted_host_keys: duplicate_keys(trusted_host_keys),
                },
            ),
            DatabaseAny::V4 { .. } => None,
        }
    }

    /// The database held by a database of the latest format version.
    pub fn into_latest(self) -> (db: Database)
        requires
            self is V4,
        ensures
            db@ == database_of(self@),
    {
        match self {
            DatabaseAny::V4 { hosts, next_host_id, trusted_host_keys } => Database {
                hosts,
                next_host_id: if next_host_id >= 1 { next_host_id } else { 1 },
                trusted_host_keys,
            },
            _ => {
                assert(false);
                Database::default()
            },
        }
    }
}

/// An upgrade step raises the version by one and keeps what the database
/// amounts to; only the latest version has no step.
pub proof fn db_step_keeps_meaning(d: DatabaseAnyView)
    ensures
        db_step(d) is None <==> d is V4,
        db_step(d) matches Some(n) ==> db_version(n) == db_version(d) + 1 && database_of(n)
            == database_of(d),
{
    match d {
        DatabaseAnyView::V2 { hosts, .. } => {
            assert(hosts_of_legacy(Seq::<LegacyHostView>::empty()) =~= Seq::empty());
        },
        DatabaseAnyView::V1 { .. } => {
            assert(hosts_of_legacy(Seq::<LegacyHostView>::empty()) =~= Seq::empty());
        },
        _ => {},
    }
}

/// Upgrades a stored database to the latest version; the flag tells whether
/// any upgrade step was needed.
pub fn migrate_database(db: DatabaseAny) -> (r: (Database, bool))
    ensures
        r.0@ == database_of(db@),
        r.1 == !(db@ is V4),
{
    let ghost start = db@;
    let mut current = db;
    let mut changed = false;
    loop
        invariant
            database_of(current@) == database_of(start),
            changed == (db_version(current@) != db_version(start)),
            db_version(current@) >= db_version(start),
        ensures
            current@ is V4,
            database_of(current@) == database_of(start),
            changed == (db_version(current@) != db_version(start)),
        decreases 4 - db_version(current@),
    {
        match current.upgrade_one() {
            Some(next) => {
                proof {
                    db_step_keeps_meaning(current@);
                }
                current = next;
                changed = true;
            },
            None => {
                proof {
                    db_step_keeps_meaning(current@);
                }
                break;
            },
        }
    }
    (current.into_latest(), changed)
}

} // verus!
