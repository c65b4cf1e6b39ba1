//! How settings and hosts are kept in the local database: the text forms of
//! stored values, the settings row, and the bookkeeping of host ids.

use vstd::prelude::*;
use crate::model::{
    Config, Database, DbEncryption, HostAuth, HostAuthView, SshEndpoint, SshHost,
};
use crate::text::{concat_str, str_contains, str_eq, contains_seq};

verus! {

/// The stored text of an encryption mode.
pub open spec fn encryption_text(e: DbEncryption) -> Seq<char> {
    match e {
        DbEncryption::Unencrypted => "none"@,
        DbEncryption::Passphrase => "passphrase"@,
    }
}

/// The encryption mode a stored text names, if any.
pub open spec fn encryption_of_text(v: Seq<char>) -> Option<DbEncryption> {
    if v == "none"@ {
        Some(DbEncryption::Unencrypted)
    } else if v == "passphrase"@ {
        Some(DbEncryption::Passphrase)
    } else {
        None
    }
}

/// The stored text of an encryption mode.
pub fn db_encryption_to_str(value: &DbEncryption) -> (r: &'static str)
    ensures
        r@ == encryption_text(*value),
{
    match value {
        DbEncryption::Unencrypted => "none",
        DbEncryption::Passphrase => "passphrase",
    }
}

/// Reads a stored encryption mode; any other text is an error that names it.
pub fn parse_db_encryption(value: &str) -> (r: Result<DbEncryption, String>)
    ensures
        match encryption_of_text(value@) {
            Some(e) => r == Ok::<DbEncryption, String>(e),
            None => r matches Err(m) && m@ == "invalid db_encryption value: "@ + value@,
        },
{
    if str_eq(value, "none") {
        Ok(DbEncryption::Unencrypted)
    } else if str_eq(value, "passphrase") {
        Ok(DbEncryption::Passphrase)
    } else {
        Err(concat_str("invalid db_encryption value: ", value))
    }
}

/// A stored encryption mode reads back as itself.
pub proof fn encryption_text_round_trip(e: DbEncryption)
    ensures
        encryption_of_text(encryption_text(e)) == Some(e),
{
    reveal_strlit("none");
    reveal_strlit("passphrase");
    assert("none"@.len() != "passphrase"@.len());
}

/// The stored name of an authentication kind.
pub open spec fn auth_kind_text(a: HostAuthView) -> Seq<char> {
    match a {
        HostAuthView::KeyPath { .. } => "key_path"@,
        HostAuthView::KeyInline { .. } => "key_inline"@,
        HostAuthView::Password { .. } => "password"@,
    }
}

/// The stored name of an authentication kind.
pub fn auth_kind(auth: &HostAuth) -> (r: &'static str)
    ensures
        r@ == auth_kind_text(auth@),
{
    match auth {
        HostAuth::KeyPath { .. } => "key_path",
        HostAuth::KeyInline { .. } => "key_inline",
        HostAuth::Password { .. } => "password",
    }
}

/// `id + 1`, stopping at the largest `u32`.
pub open spec fn id_after(id: u32) -> u32 {
    if id < u32::MAX {
        (id + 1) as u32
    } else {
        u32::MAX
    }
}

/// The largest `id_after` over the ids, and at least 1.
pub open spec fn max_id_after(ids: Seq<u32>) -> u32
    decreases ids.len(),
{
    if ids.len() == 0 {
        1
    } else {
        let a = max_id_after(ids.drop_last());
        let b = id_after(ids.last());
        if a >= b {
            a
        } else {
            b
        }
    }
}

/// The ids of a list of hosts.
pub open spec fn ids_of(hosts: Seq<SshHost>) -> Seq<u32> {
    hosts.map_values(|h: SshHost| h.id)
}

proof fn lemma_max_id_after_bounds(ids: Seq<u32>)
    ensures
        max_id_after(ids) >= 1,
        forall|i: int| 0 <= i < ids.len() ==> id_after(#[trigger] ids[i]) <= max_id_after(ids),
        ids.len() > 0 ==> exists|i: int| 0 <= i < ids.len() && id_after(ids[i]) == max_id_after(ids),
    decreases ids.len(),
{
    if ids.len() > 0 {
        let p = ids.drop_last();
        lemma_max_id_after_bounds(p);
        assert forall|i: int| 0 <= i < ids.len() implies id_after(#[trigger] ids[i]) <= max_id_after(ids) by {
            if i < ids.len() - 1 {
                assert(ids[i] == p[i]);
            }
        }
        if max_id_after(p) >= id_after(ids.last()) && p.len() > 0 {
            let i = choose|i: int| 0 <= i < p.len() && id_after(p[i]) == max_id_after(p);
            assert(ids[i] == p[i]);
        } else {
            assert(id_after(ids[ids.len() - 1]) == max_id_after(ids));
        }
    }
}

/// The smallest id above every host's id (capped at the largest `u32`),
/// and 1 when there are no hosts.
pub fn max_host_id_plus_one(hosts: &[SshHost]) -> (r: u32)
    ensures
        r == max_id_after(ids_of(hosts@)),
        r >= 1,
        forall|i: int| 0 <= i < hosts@.len() ==> id_after((#[trigger] hosts@[i]).id) <= r,
        hosts@.len() > 0 ==> exists|i: int| 0 <= i < hosts@.len() && id_after(hosts@[i].id) == r,
{
    let mut best: u32 = 1;
    let mut i: usize = 0;
    while i < hosts.len()
        invariant
            i <= hosts@.len(),
            best == max_id_after(ids_of(hosts@).subrange(0, i as int)),
        decreases hosts@.len() - i,
    {
        let id = hosts[i].id;
        let next = if id < u32::MAX { id + 1 } else { u32::MAX };
        proof {
            let q = ids_of(hosts@).subrange(0, i as int + 1);
            assert(q.drop_last() =~= ids_of(hosts@).subrange(0, i as int));
        }
        if next > best {
            best = next;
        }
        i = i + 1;
    }
    proof {
        assert(ids_of(hosts@).subrange(0, hosts@.len() as int) =~= ids_of(hosts@));
        lemma_max_id_after_bounds(ids_of(hosts@));
        assert forall|i: int| 0 <= i < hosts@.len() implies id_after((#[trigger] hosts@[i]).id) <= best by {
            assert(ids_of(hosts@)[i] == hosts@[i].id);
        }
        if hosts@.len() > 0 {
            let i = choose|i: int| 0 <= i < ids_of(hosts@).len() && id_after(ids_of(hosts@)[i]) == best;
            assert(ids_of(hosts@)[i] == hosts@[i].id);
        }
    }
    best
}

/// The next host id written with the database: the recorded one, raised
/// above every host's id when it lags behind.
pub fn stored_next_host_id(db: &Database) -> (r: u32)
    ensures
        r == (if db.next_host_id >= max_id_after(ids_of(db.hosts@)) {
            db.next_host_id
        } else {
            max_id_after(ids_of(db.hosts@))
        }),
        forall|i: int| 0 <= i < db.hosts@.len() ==> id_after((#[trigger] db.hosts@[i]).id) <= r,
{
    let floor = max_host_id_plus_one(&db.hosts);
    if db.next_host_id >= floor {
        db.next_host_id
    } else {
        floor
    }
}

/// The larger of two `u64`s, with 1 as the floor.
pub open spec fn at_least_one(v: u64) -> u64 {
    if v >= 1 {
        v
    } else {
        1
    }
}

/// Brings freshly loaded records into shape: the next host id is raised past
/// every stored host id, and both SSH timeouts are at least one second.
pub fn normalize_loaded(db: &mut Database, config: &mut Config)
    ensures
        final(db).next_host_id == (if old(db).next_host_id >= max_id_after(ids_of(old(db).hosts@)) {
            old(db).next_host_id
        } else {
            max_id_after(ids_of(old(db).hosts@))
        }),
        final(db).hosts == old(db).hosts,
        final(db).trusted_host_keys == old(db).trusted_host_keys,
        final(config).ssh_idle_timeout_seconds == at_least_one(old(config).ssh_idle_timeout_seconds),
        final(config).ssh_connect_timeout_seconds == at_least_one(
            old(config).ssh_connect_timeout_seconds,
        ),
        final(config).enable_telemetry == old(config).enable_telemetry,
        final(config).telemetry_uuid == old(config).telemetry_uuid,
        final(config).last_telemetry_report_at_unix_ms == old(config).last_telemetry_report_at_unix_ms,
        final(config).db_encryption == old(config).db_encryption,
        final(config).show_debug_panel == old(config).show_debug_panel,
{
    let floor = max_host_id_plus_one(&db.hosts);
    if floor > db.next_host_id {
        db.next_host_id = floor;
    }
    if config.ssh_idle_timeout_seconds < 1 {
        config.ssh_idle_timeout_seconds = 1;
    }
    if config.ssh_connect_timeout_seconds < 1 {
        config.ssh_connect_timeout_seconds = 1;
    }
}

/// Whether the next id is above every stored host id.
pub open spec fn ids_below_next(db: Database) -> bool {
    forall|i: int| 0 <= i < db.hosts@.len() ==> (#[trigger] db.hosts@[i]).id < db.next_host_id
}

/// After loading, every stored host id is below the next id, unless some
/// host already has the largest possible id.
pub proof fn normalized_ids_are_below_next(before: Database, after: Database)
    requires
        after.hosts == before.hosts,
        after.next_host_id >= max_id_after(ids_of(before.hosts@)),
        forall|i: int| 0 <= i < before.hosts@.len() ==> (#[trigger] before.hosts@[i]).id < u32::MAX,
    ensures
        ids_below_next(after),
{
    lemma_max_id_after_bounds(ids_of(before.hosts@));
    assert forall|i: int| 0 <= i < after.hosts@.len() implies (#[trigger] after.hosts@[i]).id
        < after.next_host_id by {
        assert(ids_of(before.hosts@)[i] == before.hosts@[i].id);
    }
}

impl Database {
    /// Adds a host under a fresh id and returns that id.
    ///
    /// The id is the next id (at least 1); the next id then moves one past it.
    pub fn add_host(
        &mut self,
        name: String,
        user: String,
        group: String,
        endpoints: Vec<SshEndpoint>,
        auth: HostAuth,
    ) -> (id: u32)
        ensures
            id == (if old(self).next_host_id >= 1 { old(self).next_host_id } else { 1 }),
            final(self).next_host_id == id_after(id),
            final(self).hosts@.len() == old(self).hosts@.len() + 1,
            forall|i: int| 0 <= i < old(self).hosts@.len() ==> final(self).hosts@[i] == old(self).hosts@[i],
            final(self).hosts@.last().id == id,
            final(self).hosts@.last().name == name,
            final(self).hosts@.last().user == user,
            final(self).hosts@.last().group == group,
            final(self).hosts@.last().endpoints == endpoints,
            final(self).hosts@.last().auth == auth,
            final(self).trusted_host_keys == old(self).trusted_host_keys,
    {
        let id = if self.next_host_id >= 1 { self.next_host_id } else { 1 };
        self.next_host_id = if id < u32::MAX { id + 1 } else { u32::MAX };
        self.hosts.push(SshHost { id, name, user, group, endpoints, auth });
        id
    }
}

/// A host added to a database whose ids are all below the next id gets an
/// id no other host has, and the ids stay below the next id unless the id
/// space is used up.
pub proof fn added_host_id_is_fresh(before: Database, after: Database, id: u32)
    requires
        ids_below_next(before),
        id == (if before.next_host_id >= 1 { before.next_host_id } else { 1 }),
        after.next_host_id == id_after(id),
        after.hosts@.len() == before.hosts@.len() + 1,
        forall|i: int| 0 <= i < before.hosts@.len() ==> after.hosts@[i] == before.hosts@[i],
        after.hosts@.last().id == id,
    ensures
        forall|i: int| 0 <= i < before.hosts@.len() ==> (#[trigger] before.hosts@[i]).id != id,
        id < u32::MAX ==> ids_below_next(after),
{
    assert forall|i: int| 0 <= i < after.hosts@.len() && id < u32::MAX implies (#[trigger] after.hosts@[i]).id
        < after.next_host_id by {
        if i < before.hosts@.len() {
            assert(after.hosts@[i] == before.hosts@[i]);
        }
    }
}

/// Whether an error message is what the database engine reports for a wrong
/// or missing passphrase.
pub open spec fn is_wrong_passphrase_message(msg: Seq<char>) -> bool {
    contains_seq(msg, "file is not a database"@) || contains_seq(
        msg,
        "file is encrypted or is not a database"@,
    )
}

/// Whether an error message is what the database engine reports for a wrong
/// or missing passphrase.
pub fn is_wrong_passphrase_error(msg: &str) -> (r: bool)
    ensures
        r == is_wrong_passphrase_message(msg@),
{
    str_contains(msg, "file is not a database") || str_contains(
        msg,
        "file is encrypted or is not a database",
    )
}

} // verus!

verus! {

/// The settings as the database row holds them.
pub struct ConfigRow {
    pub enable_telemetry: Option<i64>,
    pub telemetry_uuid: Option<String>,
    pub last_telemetry_report_at_unix_ms: Option<i64>,
    pub db_encryption: Option<String>,
    pub show_debug_panel: i64,
    pub ssh_idle_timeout_seconds: i64,
    pub ssh_connect_timeout_seconds: i64,
}

/// A `u64` as the `i64` with the same bits (what `as i64` gives).
pub open spec fn wrap_to_i64(v: u64) -> i64 {
    if v <= i64::MAX {
        v as i64
    } else {
        (v - 0x1_0000_0000_0000_0000) as i64
    }
}

/// A stored integer column read as a count: negatives become `floor`.
pub open spec fn column_as_u64(v: i64, floor: i64) -> u64 {
    if v >= floor {
        v as u64
    } else {
        floor as u64
    }
}

/// A copy of an optional string.
pub fn duplicate_opt_string(s: &Option<String>) -> (r: Option<String>)
    ensures
        r == *s,
{
    match s {
        Some(v) => Some(v.clone()),
        None => None,
    }
}

fn u64_to_i64_bits(v: u64) -> (r: i64)
    ensures
        r == wrap_to_i64(v),
{
    if v <= 0x7fff_ffff_ffff_ffff {
        v as i64
    } else {
        let rest: u64 = 0xffff_ffff_ffff_ffff - v;
        -(rest as i64) - 1
    }
}

fn column_to_u64(v: i64, floor: i64) -> (r: u64)
    requires
        floor >= 0,
    ensures
        r == column_as_u64(v, floor),
{
    if v >= floor {
        v as u64
    } else {
        floor as u64
    }
}

/// The row that stores `config`.
pub fn config_to_row(config: &Config) -> (row: ConfigRow)
    ensures
        row.enable_telemetry == (match config.enable_telemetry {
            Some(b) => Some(if b { 1i64 } else { 0i64 }),
            None => None,
        }),
        row.telemetry_uuid == config.telemetry_uuid,
        row.last_telemetry_report_at_unix_ms == (match config.last_telemetry_report_at_unix_ms {
            Some(v) => Some(wrap_to_i64(v)),
            None => None,
        }),
        match config.db_encryption {
            Some(e) => row.db_encryption matches Some(t) && t@ == encryption_text(e),
            None => row.db_encryption is None,
        },
        row.show_debug_panel == (if config.show_debug_panel { 1i64 } else { 0i64 }),
        row.ssh_idle_timeout_seconds == wrap_to_i64(config.ssh_idle_timeout_seconds),
        row.ssh_connect_timeout_seconds == wrap_to_i64(config.ssh_connect_timeout_seconds),
{
    ConfigRow {
        enable_telemetry: match config.enable_telemetry {
            Some(b) => Some(if b { 1i64 } else { 0i64 }),
            None => None,
        },
        telemetry_uuid: duplicate_opt_string(&config.telemetry_uuid),
        last_telemetry_report_at_unix_ms: match config.last_telemetry_report_at_unix_ms {
            Some(v) => Some(u64_to_i64_bits(v)),
            None => None,
        },
        db_encryption: match &config.db_encryption {
            Some(e) => Some(String::from_str(db_encryption_to_str(e))),
            None => None,
        },
        show_debug_panel: if config.show_debug_panel { 1 } else { 0 },
        ssh_idle_timeout_seconds: u64_to_i64_bits(config.ssh_idle_timeout_seconds),
        ssh_connect_timeout_seconds: u64_to_i64_bits(config.ssh_connect_timeout_seconds),
    }
}

/// The settings a stored row holds.
///
/// Flags are true when non-zero, a negative report time reads as 0, both
/// timeouts read as at least 1, and an encryption text other than `none`
/// and `passphrase` is an error naming it.
pub fn config_from_row(row: &ConfigRow) -> (r: Result<Config, String>)
    ensures
        match row.db_encryption {
            Some(t) => encryption_of_text(t@) is None ==> (r matches Err(m) && m@
                == "invalid db_encryption value: "@ + t@),
            None => true,
        },
        (match row.db_encryption {
            Some(t) => encryption_of_text(t@) is Some,
            None => true,
        }) ==> (r matches Ok(c) && {
            &&& c.enable_telemetry == (match row.enable_telemetry {
                Some(v) => Some(v != 0),
                None => None,
            })
            &&& c.telemetry_uuid == row.telemetry_uuid
            &&& c.last_telemetry_report_at_unix_ms == (match row.last_telemetry_report_at_unix_ms {
                Some(v) => Some(column_as_u64(v, 0)),
                None => None,
            })
            &&& c.db_encryption == (match row.db_encryption {
                Some(t) => encryption_of_text(t@),
                None => None,
            })
            &&& c.show_debug_panel == (row.show_debug_panel != 0)
            &&& c.ssh_idle_timeout_seconds == column_as_u64(row.ssh_idle_timeout_seconds, 1)
            &&& c.ssh_connect_timeout_seconds == column_as_u64(row.ssh_connect_timeout_seconds, 1)
        }),
{
    let db_encryption = match &row.db_encryption {
        Some(t) => match parse_db_encryption(t.as_str()) {
            Ok(e) => Some(e),
            Err(m) => {
                return Err(m);
            },
        },
        None => None,
    };
    Ok(Config {
        enable_telemetry: match row.enable_telemetry {
            Some(v) => Some(v != 0),
            None => None,
        },
        telemetry_uuid: duplicate_opt_string(&row.telemetry_uuid),
        last_telemetry_report_at_unix_ms: match row.last_telemetry_report_at_unix_ms {
            Some(v) => Some(column_to_u64(v, 0)),
            None => None,
        },
        db_encryption,
        show_debug_panel: row.show_debug_panel != 0,
        ssh_idle_timeout_seconds: column_to_u64(row.ssh_idle_timeout_seconds, 1),
        ssh_connect_timeout_seconds: column_to_u64(row.ssh_connect_timeout_seconds, 1),
    })
}

/// Settings saved to their row read back unchanged, as long as each timeout
/// is at least one second and every number fits in a signed 64-bit column.
pub proof fn saved_config_reads_back(c: Config, row: ConfigRow)
    requires
        row.enable_telemetry == (match c.enable_telemetry {
            Some(b) => Some(if b { 1i64 } else { 0i64 }),
            None => None,
        }),
        row.last_telemetry_report_at_unix_ms == (match c.last_telemetry_report_at_unix_ms {
            Some(v) => Some(wrap_to_i64(v)),
            None => None,
        }),
        match c.db_encryption {
            Some(e) => row.db_encryption matches Some(t) && t@ == encryption_text(e),
            None => row.db_encryption is None,
        },
        row.show_debug_panel == (if c.show_debug_panel { 1i64 } else { 0i64 }),
        row.ssh_idle_timeout_seconds == wrap_to_i64(c.ssh_idle_timeout_seconds),
        row.ssh_connect_timeout_seconds == wrap_to_i64(c.ssh_connect_timeout_seconds),
        1 <= c.ssh_idle_timeout_seconds <= i64::MAX,
        1 <= c.ssh_connect_timeout_seconds <= i64::MAX,
        match c.last_telemetry_report_at_unix_ms {
            Some(v) => v <= i64::MAX,
            None => true,
        },
    ensures
        (match row.db_encryption {
            Some(t) => encryption_of_text(t@) == c.db_encryption,
            None => c.db_encryption is None,
        }),
        (match row.enable_telemetry {
            Some(v) => Some(v != 0),
            None => None,
        }) == c.enable_telemetry,
        (match row.last_telemetry_report_at_unix_ms {
            Some(v) => Some(column_as_u64(v, 0)),
            None => None,
        }) == c.last_telemetry_report_at_unix_ms,
        (row.show_debug_panel != 0) == c.show_debug_panel,
        column_as_u64(row.ssh_idle_timeout_seconds, 1) == c.ssh_idle_timeout_seconds,
        column_as_u64(row.ssh_connect_timeout_seconds, 1) == c.ssh_connect_timeout_seconds,
{
    match c.db_encryption {
        Some(e) => {
            encryption_text_round_trip(e);
        },
        None => {},
    }
}

/// The passphrase to open the database with for writing: none for an
/// unencrypted one; for an encrypted one the passphrase in hand, and an
/// error (nothing is written) when there is none.
pub fn write_passphrase(encryption: DbEncryption, passphrase: Option<&str>) -> (r: Result<Option<String>, String>)
    ensures
        encryption == DbEncryption::Unencrypted ==> r == Ok::<Option<String>, String>(None),
        encryption == DbEncryption::Passphrase ==> match passphrase {
            Some(p) => r matches Ok(Some(q)) && q@ == p@,
            None => r matches Err(e) && e@ == "missing passphrase for encrypted database"@,
        },
{
    match encryption {
        DbEncryption::Unencrypted => Ok(None),
        DbEncryption::Passphrase => match passphrase {
            Some(p) => Ok(Some(String::from_str(p))),
            None => Err(String::from_str("missing passphrase for encrypted database")),
        },
    }
}

} // verus!
