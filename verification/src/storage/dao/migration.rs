//! The version of the database and what it holds.

use vstd::prelude::*;
use crate::error::{ErrorModel, PrivchatSDKError};
use crate::json;
use crate::storage::scripts;
use crate::storage::scripts::{plan_migration, Script, ScriptFile, VersionForm};
use crate::storage::sql;
use crate::storage::sql::{plain, with_params, words, SqlModel, Statement, StatementModel};
use crate::text::same_text;

verus! {

/// The tables that a complete database has.
pub open spec fn required_tables() -> Seq<Seq<char>> {
    seq![
        "message"@,
        "channel"@,
        "channel_member"@,
        "message_extra"@,
        "message_reaction"@,
        "reminder"@,
        "robot"@,
        "robot_menu"@,
        "channel_extra"@,
        "user"@,
        "group"@,
        "group_member"@,
        "friend"@,
        "schema_version"@,
    ]
}

/// Whether a name is among the names.
pub open spec fn is_among(name: Seq<char>, names: Seq<String>) -> bool {
    exists|i: int| 0 <= i < names.len() && (#[trigger] names[i])@ == name
}

fn among(name: &str, names: &Vec<String>) -> (r: bool)
    ensures
        r == is_among(name@, names@),
{
    let length: usize = names.len();
    let mut i: usize = 0;
    while i < length
        invariant
            i <= length == names@.len(),
            forall|j: int| 0 <= j < i ==> (#[trigger] names@[j])@ != name@,
        decreases length - i,
    {
        if same_text(names[i].as_str(), name) {
            return true;
        }
        i = i + 1;
    }
    false
}

/// How much a database holds.
#[derive(Debug, Clone, Copy, PartialEq, Eq)]
pub struct DatabaseStats {
    pub message_count: i64,
    pub channel_count: i64,
    pub total_size: i64,
}

fn or_zero(n: Option<i64>) -> (r: i64)
    ensures
        r == match n {
            Some(n) => n,
            None => 0,
        },
{
    match n {
        Some(n) => n,
        None => 0,
    }
}

/// The statements on the version of the database, and what follows from it.
pub struct MigrationDao;

impl MigrationDao {
    /// Makes the table of versions, where it is not there.
    pub fn version_table() -> (r: Statement)
        ensures
            r@ == (StatementModel {
                sql:
                    "CREATE TABLE IF NOT EXISTS schema_version (version TEXT PRIMARY KEY, applied_at DATETIME DEFAULT CURRENT_TIMESTAMP)"@,
                params: Seq::empty(),
            }),
    {
        plain(
            "CREATE TABLE IF NOT EXISTS schema_version (version TEXT PRIMARY KEY, applied_at DATETIME DEFAULT CURRENT_TIMESTAMP)",
        )
    }

    /// Records that the database has a version.
    pub fn record_migration_version(version: &str) -> (r: Statement)
        ensures
            r@ == (StatementModel {
                sql: "INSERT OR REPLACE INTO schema_version (version) VALUES (?1)"@,
                params: seq![SqlModel::Text(version@)],
            }),
    {
        let s = with_params(
            "INSERT OR REPLACE INTO schema_version (version) VALUES (?1)",
            vec![words(version)],
        );
        assert(s@.params =~= seq![SqlModel::Text(version@)]);
        s
    }

    /// Asks whether a table is there.
    pub fn table_exists(table: &str) -> (r: Statement)
        ensures
            r@ == (StatementModel {
                sql:
                    "SELECT EXISTS(SELECT 1 FROM sqlite_master WHERE type='table' AND name=?1)"@,
                params: seq![SqlModel::Text(table@)],
            }),
    {
        let s = with_params(
            "SELECT EXISTS(SELECT 1 FROM sqlite_master WHERE type='table' AND name=?1)",
            vec![words(table)],
        );
        assert(s@.params =~= seq![SqlModel::Text(table@)]);
        s
    }

    /// Reads the version that was recorded last.
    pub fn latest_version() -> (r: Statement)
        ensures
            r@ == (StatementModel {
                sql: "SELECT version FROM schema_version ORDER BY applied_at DESC LIMIT 1"@,
                params: Seq::empty(),
            }),
    {
        plain("SELECT version FROM schema_version ORDER BY applied_at DESC LIMIT 1")
    }

    /// The version of the database: none without the table of versions, or where nothing can be
    /// read from it.
    pub fn get_current_version(table_exists: bool, recorded: Option<String>) -> (r: Option<String>)
        ensures
            r == if table_exists {
                recorded
            } else {
                None
            },
    {
        if table_exists {
            recorded
        } else {
            None
        }
    }

    /// Whether a database of a version is not yet of the version that this library is made for.
    pub fn needs_migration(current: &Option<String>) -> (r: bool)
        ensures
            r == (json::opt_view(*current) != Some("20240101000001"@)),
    {
        match current {
            Some(version) => !same_text(version.as_str(), "20240101000001"),
            None => true,
        }
    }

    /// Brings a database that has a version up to date; there is nothing to run for that. A new
    /// database needs scripts.
    pub fn migrate(current: &Option<String>) -> (r: Result<(), PrivchatSDKError>)
        ensures
            r is Ok <==> *current is Some,
            r is Err ==> r->Err_0@ == ErrorModel::Database(
                "全新数据库请使用 DbActor 的 Migration 系统或 MigrationDao::migrate_from_assets"@,
            ),
    {
        if !MigrationDao::needs_migration(current) {
            return Ok(());
        }
        match current {
            Some(_) => Ok(()),
            None => Err(
                PrivchatSDKError::Database(
                    "全新数据库请使用 DbActor 的 Migration 系统或 MigrationDao::migrate_from_assets".to_owned(),
                ),
            ),
        }
    }

    /// Whether a file is a script by its name: a date or a time.
    pub fn is_valid_migration_filename(file_name: &str) -> (r: bool)
        ensures
            r == scripts::has_form(
                scripts::without_suffix(file_name@, ".sql"@),
                VersionForm::Dated,
            ),
    {
        let version = scripts::trim_suffix(file_name, ".sql");
        scripts::is_valid_version(version.as_str(), VersionForm::Dated)
    }

    /// The scripts to run out of the files of a directory: all in order on a new database, else
    /// those with a later version.
    pub fn migrate_from_assets(files: &Vec<ScriptFile>, current: &Option<String>) -> (r: Result<
        Vec<Script>,
        PrivchatSDKError,
    >)
        ensures
            match r {
                Ok(plan) => scripts::is_plan(
                    plan@,
                    files@,
                    json::opt_view(*current),
                    VersionForm::Dated,
                ),
                Err(e) => e@ == ErrorModel::Database("未找到有效的迁移文件"@),
            },
            r is Err <==> scripts::scripts_in(files@, VersionForm::Dated) == Map::<
                Seq<char>,
                Seq<char>,
            >::empty(),
    {
        plan_migration(files, current, VersionForm::Dated, "未找到有效的迁移文件")
    }

    /// Whether a database with these tables is complete.
    pub fn validate_schema(tables: &Vec<String>) -> (r: bool)
        ensures
            r == forall|i: int|
                0 <= i < required_tables().len() ==> is_among(
                    #[trigger] required_tables()[i],
                    tables@,
                ),
    {
        let required: Vec<&str> = vec![
            "message",
            "channel",
            "channel_member",
            "message_extra",
            "message_reaction",
            "reminder",
            "robot",
            "robot_menu",
            "channel_extra",
            "user",
            "group",
            "group_member",
            "friend",
            "schema_version",
        ];
        let ghost names = sql::texts_of(required@);
        assert(names =~= required_tables());
        let length: usize = required.len();
        let mut i: usize = 0;
        while i < length
            invariant
                i <= length == required@.len(),
                names == sql::texts_of(required@),
                names == required_tables(),
                forall|j: int| 0 <= j < i ==> is_among(#[trigger] required_tables()[j], tables@),
            decreases length - i,
        {
            proof {
                assert(required_tables()[i as int] == required@[i as int]@);
            }
            if !among(required[i], tables) {
                return false;
            }
            i = i + 1;
        }
        true
    }

    /// Counts the messages, the channels and the bytes of the database.
    pub fn stats_statements() -> (r: (Statement, Statement, Statement))
        ensures
            r.0@ == (StatementModel {
                sql: "SELECT COUNT(*) FROM message WHERE is_deleted = 0"@,
                params: Seq::empty(),
            }),
            r.1@ == (StatementModel {
                sql: "SELECT COUNT(*) FROM channel WHERE is_deleted = 0"@,
                params: Seq::empty(),
            }),
            r.2@ == (StatementModel {
                sql:
                    "SELECT page_count * page_size FROM pragma_page_count(), pragma_page_size()"@,
                params: Seq::empty(),
            }),
    {
        (
            plain("SELECT COUNT(*) FROM message WHERE is_deleted = 0"),
            plain("SELECT COUNT(*) FROM channel WHERE is_deleted = 0"),
            plain("SELECT page_count * page_size FROM pragma_page_count(), pragma_page_size()"),
        )
    }

    /// How much the database holds, by what could be counted; what could not counts as nothing.
    pub fn get_database_stats(
        message_count: Option<i64>,
        channel_count: Option<i64>,
        total_size: Option<i64>,
    ) -> (r: DatabaseStats)
        ensures
            r.message_count == message_count.unwrap_or(0),
            r.channel_count == channel_count.unwrap_or(0),
            r.total_size == total_size.unwrap_or(0),
    {
        DatabaseStats {
            message_count: or_zero(message_count),
            channel_count: or_zero(channel_count),
            total_size: or_zero(total_size),
        }
    }
}

/// A database needs the tables of messages, channels and people, and that of its version.
pub proof fn law_a_database_needs_its_tables()
    ensures
        required_tables().len() == 14,
        required_tables().contains("message"@) && required_tables().contains("channel"@)
            && required_tables().contains("channel_member"@) && required_tables().contains(
            "message_extra"@,
        ) && required_tables().contains("message_reaction"@) && required_tables().contains("user"@)
            && required_tables().contains("group"@) && required_tables().contains("group_member"@)
            && required_tables().contains("friend"@) && required_tables().contains("schema_version"@)
            && required_tables().contains("reminder"@) && required_tables().contains("robot"@)
            && required_tables().contains("robot_menu"@) && required_tables().contains("channel_extra"@),
{
    let t = required_tables();
    assert(t[0] == "message"@ && t[1] == "channel"@ && t[2] == "channel_member"@ && t[3]
        == "message_extra"@ && t[4] == "message_reaction"@ && t[5] == "reminder"@ && t[6] == "robot"@
        && t[7] == "robot_menu"@ && t[8] == "channel_extra"@ && t[9] == "user"@ && t[10] == "group"@ && t[11]
        == "group_member"@ && t[12] == "friend"@ && t[13] == "schema_version"@);
}

} // verus!
