//! The records the application keeps: settings, hosts, their endpoints and
//! authentication, and the host keys the user has trusted.

use vstd::prelude::*;

verus! {

/// How the local database is protected.
#[derive(Clone, Copy, Debug, PartialEq, Eq, Structural)]
pub enum DbEncryption {
    Unencrypted,
    Passphrase,
}

/// What opening the local database found.
#[derive(Clone, Copy, Debug, PartialEq, Eq, Structural)]
pub enum DbOpenStatus {
    Missing,
    Plain,
    PassphraseRequired,
}

/// How a host is authenticated.
#[derive(Clone, Debug)]
pub enum HostAuth {
    KeyPath { key_path: String },
    KeyInline { private_key: String },
    Password { password: String },
}

/// The mathematical value of a `HostAuth`.
pub enum HostAuthView {
    KeyPath { key_path: Seq<char> },
    KeyInline { private_key: Seq<char> },
    Password { password: Seq<char> },
}

impl View for HostAuth {
    type V = HostAuthView;

    open spec fn view(&self) -> HostAuthView {
        match self {
            HostAuth::KeyPath { key_path } => HostAuthView::KeyPath { key_path: key_path@ },
            HostAuth::KeyInline { private_key } => HostAuthView::KeyInline {
                private_key: private_key@,
            },
            HostAuth::Password { password } => HostAuthView::Password { password: password@ },
        }
    }
}

impl HostAuth {
    /// A copy of this value.
    pub fn duplicate(&self) -> (r: HostAuth)
        ensures
            r@ == self@,
    {
        match self {
            HostAuth::KeyPath { key_path } => HostAuth::KeyPath { key_path: key_path.clone() },
            HostAuth::KeyInline { private_key } => HostAuth::KeyInline {
                private_key: private_key.clone(),
            },
            HostAuth::Password { password } => HostAuth::Password { password: password.clone() },
        }
    }
}

/// One address at which a host can be reached.
#[derive(Clone, Debug)]
pub struct SshEndpoint {
    pub host: String,
    pub port: u16,
}

/// The mathematical value of an `SshEndpoint`.
pub struct EndpointView {
    pub host: Seq<char>,
    pub port: u16,
}

impl View for SshEndpoint {
    type V = EndpointView;

    open spec fn view(&self) -> EndpointView {
        EndpointView { host: self.host@, port: self.port }
    }
}

impl SshEndpoint {
    /// A copy of this endpoint.
    pub fn duplicate(&self) -> (r: SshEndpoint)
        ensures
            r@ == self@,
    {
        SshEndpoint { host: self.host.clone(), port: self.port }
    }
}

/// The views of a sequence of endpoints.
pub open spec fn endpoints_view(v: Seq<SshEndpoint>) -> Seq<EndpointView> {
    v.map_values(|e: SshEndpoint| e@)
}

/// A copy of a list of endpoints.
pub fn duplicate_endpoints(v: &Vec<SshEndpoint>) -> (r: Vec<SshEndpoint>)
    ensures
        endpoints_view(r@) == endpoints_view(v@),
{
    let mut r: Vec<SshEndpoint> = Vec::new();
    let mut i: usize = 0;
    while i < v.len()
        invariant
            i <= v@.len(),
            r@.len() == i,
            forall|j: int| 0 <= j < i ==> (#[trigger] r@[j])@ == v@[j]@,
        decreases v@.len() - i,
    {
        r.push(v[i].duplicate());
        i = i + 1;
    }
    assert(endpoints_view(r@) =~= endpoints_view(v@));
    r
}

/// A host the user can connect to.
#[derive(Clone, Debug)]
pub struct SshHost {
    pub id: u32,
    pub name: String,
    pub user: String,
    /// The group under which the dashboard lists the host (blank: none).
    pub group: String,
    pub endpoints: Vec<SshEndpoint>,
    pub auth: HostAuth,
}

/// The mathematical value of an `SshHost`.
pub struct HostView {
    pub id: u32,
    pub name: Seq<char>,
    pub user: Seq<char>,
    pub group: Seq<char>,
    pub endpoints: Seq<EndpointView>,
    pub auth: HostAuthView,
}

impl View for SshHost {
    type V = HostView;

    open spec fn view(&self) -> HostView {
        HostView {
            id: self.id,
            name: self.name@,
            user: self.user@,
            group: self.group@,
            endpoints: endpoints_view(self.endpoints@),
            auth: self.auth@,
        }
    }
}

impl SshHost {
    /// A copy of this host.
    pub fn duplicate(&self) -> (r: SshHost)
        ensures
            r@ == self@,
    {
        SshHost {
            id: self.id,
            name: self.name.clone(),
            user: self.user.clone(),
            group: self.group.clone(),
            endpoints: duplicate_endpoints(&self.endpoints),
            auth: self.auth.duplicate(),
        }
    }
}

/// The views of a sequence of hosts.
pub open spec fn hosts_view(v: Seq<SshHost>) -> Seq<HostView> {
    v.map_values(|h: SshHost| h@)
}

/// A copy of a list of hosts.
pub fn duplicate_hosts(v: &Vec<SshHost>) -> (r: Vec<SshHost>)
    ensures
        hosts_view(r@) == hosts_view(v@),
{
    let mut r: Vec<SshHost> = Vec::new();
    let mut i: usize = 0;
    while i < v.len()
        invariant
            i <= v@.len(),
            r@.len() == i,
            forall|j: int| 0 <= j < i ==> (#[trigger] r@[j])@ == v@[j]@,
        decreases v@.len() - i,
    {
        r.push(v[i].duplicate());
        i = i + 1;
    }
    assert(hosts_view(r@) =~= hosts_view(v@));
    r
}

/// A copy of a list of trusted keys.
pub fn duplicate_keys(v: &Vec<TrustedHostKey>) -> (r: Vec<TrustedHostKey>)
    ensures
        keys_view(r@) == keys_view(v@),
{
    let mut r: Vec<TrustedHostKey> = Vec::new();
    let mut i: usize = 0;
    while i < v.len()
        invariant
            i <= v@.len(),
            r@.len() == i,
            forall|j: int| 0 <= j < i ==> (#[trigger] r@[j])@ == v@[j]@,
        decreases v@.len() - i,
    {
        r.push(v[i].duplicate());
        i = i + 1;
    }
    assert(keys_view(r@) =~= keys_view(v@));
    r
}

/// The mathematical value of a `Database`.
pub struct DatabaseView {
    pub hosts: Seq<HostView>,
    pub next_host_id: u32,
    pub trusted_host_keys: Seq<TrustedKeyView>,
}

impl View for Database {
    type V = DatabaseView;

    open spec fn view(&self) -> DatabaseView {
        DatabaseView {
            hosts: hosts_view(self.hosts@),
            next_host_id: self.next_host_id,
            trusted_host_keys: keys_view(self.trusted_host_keys@),
        }
    }
}

/// A host key the user has accepted for one endpoint.
#[derive(Clone, Debug)]
pub struct TrustedHostKey {
    pub host: String,
    pub port: u16,
    pub algorithm: String,
    pub public_key_base64: String,
    pub fingerprint_sha256: String,
}

/// The mathematical value of a `TrustedHostKey`.
pub struct TrustedKeyView {
    pub host: Seq<char>,
    pub port: u16,
    pub algorithm: Seq<char>,
    pub public_key_base64: Seq<char>,
    pub fingerprint_sha256: Seq<char>,
}

impl View for TrustedHostKey {
    type V = TrustedKeyView;

    open spec fn view(&self) -> TrustedKeyView {
        TrustedKeyView {
            host: self.host@,
            port: self.port,
            algorithm: self.algorithm@,
            public_key_base64: self.public_key_base64@,
            fingerprint_sha256: self.fingerprint_sha256@,
        }
    }
}

impl TrustedHostKey {
    /// A copy of this key record.
    pub fn duplicate(&self) -> (r: TrustedHostKey)
        ensures
            r@ == self@,
    {
        TrustedHostKey {
            host: self.host.clone(),
            port: self.port,
            algorithm: self.algorithm.clone(),
            public_key_base64: self.public_key_base64.clone(),
            fingerprint_sha256: self.fingerprint_sha256.clone(),
        }
    }
}

/// The views of a sequence of trusted keys.
pub open spec fn keys_view(v: Seq<TrustedHostKey>) -> Seq<TrustedKeyView> {
    v.map_values(|k: TrustedHostKey| k@)
}

/// Everything the user stores: hosts, the next free host id and trusted keys.
#[derive(Clone, Debug)]
pub struct Database {
    pub hosts: Vec<SshHost>,
    pub next_host_id: u32,
    pub trusted_host_keys: Vec<TrustedHostKey>,
}

impl Database {
    /// An empty database whose first host gets id 1.
    pub fn default() -> (db: Database)
        ensures
            db.hosts@.len() == 0,
            db.next_host_id == 1,
            db.trusted_host_keys@.len() == 0,
    {
        Database { hosts: Vec::new(), next_host_id: 1, trusted_host_keys: Vec::new() }
    }
}

/// Application settings.
#[derive(Clone, Debug)]
pub struct Config {
    pub enable_telemetry: Option<bool>,
    pub telemetry_uuid: Option<String>,
    pub last_telemetry_report_at_unix_ms: Option<u64>,
    pub db_encryption: Option<DbEncryption>,
    pub show_debug_panel: bool,
    pub ssh_idle_timeout_seconds: u64,
    pub ssh_connect_timeout_seconds: u64,
}

impl Config {
    /// The settings of a fresh installation.
    pub fn default() -> (c: Config)
        ensures
            c.enable_telemetry is None,
            c.telemetry_uuid is None,
            c.last_telemetry_report_at_unix_ms is None,
            c.db_encryption is None,
            !c.show_debug_panel,
            c.ssh_idle_timeout_seconds == 600,
            c.ssh_connect_timeout_seconds == 5,
    {
        Config {
            enable_telemetry: None,
            telemetry_uuid: None,
            last_telemetry_report_at_unix_ms: None,
            db_encryption: None,
            show_debug_panel: false,
            ssh_idle_timeout_seconds: 600,
            ssh_connect_timeout_seconds: 5,
        }
    }
}

} // verus!
