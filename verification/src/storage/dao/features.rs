//! The statements on read receipts, read states and the history of edits, and what their rows hold.

use vstd::prelude::*;
use crate::error::PrivchatSDKError;
use crate::storage::advanced_features::{
    ChannelReadState, MessageEditEvent, MessageEditEventModel, MessageFacts, ReadReceiptEvent,
};
use crate::storage::entities;
use crate::storage::entities::MessageStatus;
use crate::storage::sql;
use crate::storage::sql::{
    expect, fits_i64, id, opt_id, out_of_range_error, plain, with_params, words, ColumnKind,
    Comparison, Expected, FromRow, Row, RowError, RowModel, SqlModel, SqlValue, Statement,
    StatementModel,
};

verus! {

impl View for ReadReceiptEvent {
    type V = ReadReceiptEvent;

    open spec fn view(&self) -> ReadReceiptEvent {
        *self
    }
}

impl View for ChannelReadState {
    type V = ChannelReadState;

    open spec fn view(&self) -> ChannelReadState {
        *self
    }
}

impl View for MessageFacts {
    type V = MessageFacts;

    open spec fn view(&self) -> MessageFacts {
        *self
    }
}

impl FromRow for ReadReceiptEvent {
    open spec fn shape() -> Seq<(Seq<char>, ColumnKind)> {
        seq![
            ("message_id"@, ColumnKind::Unsigned),
            ("channel_id"@, ColumnKind::Unsigned),
            ("channel_type"@, ColumnKind::Int32),
            ("reader_uid"@, ColumnKind::Unsigned),
            ("read_at"@, ColumnKind::Unsigned),
        ]
    }

    open spec fn held_by(row: RowModel) -> ReadReceiptEvent {
        ReadReceiptEvent {
            message_id: row.unsigned_at("message_id"@),
            channel_id: row.unsigned_at("channel_id"@),
            channel_type: row.i32_or("channel_type"@, 0),
            reader_uid: row.unsigned_at("reader_uid"@),
            read_at: row.unsigned_at("read_at"@),
            need_sync: false,
        }
    }

    fn from_row(row: &Row) -> (r: Result<Self, RowError>) {
        let expected: Vec<Expected> = vec![
            expect("message_id", ColumnKind::Unsigned),
            expect("channel_id", ColumnKind::Unsigned),
            expect("channel_type", ColumnKind::Int32),
            expect("reader_uid", ColumnKind::Unsigned),
            expect("read_at", ColumnKind::Unsigned),
        ];
        assert(sql::shape_of(expected@) =~= Self::shape());
        match row.check(&expected) {
            Ok(_) => Ok(
                ReadReceiptEvent {
                    message_id: row.unsigned_at("message_id"),
                    channel_id: row.unsigned_at("channel_id"),
                    channel_type: row.i32_or("channel_type", 0),
                    reader_uid: row.unsigned_at("reader_uid"),
                    read_at: row.unsigned_at("read_at"),
                    need_sync: false,
                },
            ),
            Err(e) => Err(e),
        }
    }
}

impl FromRow for MessageEditEvent {
    open spec fn shape() -> Seq<(Seq<char>, ColumnKind)> {
        seq![
            ("message_id"@, ColumnKind::Unsigned),
            ("channel_id"@, ColumnKind::Unsigned),
            ("channel_type"@, ColumnKind::Int32),
            ("editor_uid"@, ColumnKind::Unsigned),
            ("new_content"@, ColumnKind::Text),
            ("edited_at"@, ColumnKind::Unsigned),
            ("edit_version"@, ColumnKind::Uint32),
        ]
    }

    open spec fn held_by(row: RowModel) -> MessageEditEventModel {
        MessageEditEventModel {
            message_id: row.unsigned_at("message_id"@),
            channel_id: row.unsigned_at("channel_id"@),
            channel_type: row.i32_or("channel_type"@, 0),
            editor_uid: row.unsigned_at("editor_uid"@),
            new_content: row.text_at("new_content"@),
            edited_at: row.unsigned_at("edited_at"@),
            edit_version: row.u32_at("edit_version"@),
        }
    }

    fn from_row(row: &Row) -> (r: Result<Self, RowError>) {
        let expected: Vec<Expected> = vec![
            expect("message_id", ColumnKind::Unsigned),
            expect("channel_id", ColumnKind::Unsigned),
            expect("channel_type", ColumnKind::Int32),
            expect("editor_uid", ColumnKind::Unsigned),
            expect("new_content", ColumnKind::Text),
            expect("edited_at", ColumnKind::Unsigned),
            expect("edit_version", ColumnKind::Uint32),
        ];
        assert(sql::shape_of(expected@) =~= Self::shape());
        match row.check(&expected) {
            Ok(_) => Ok(
                MessageEditEvent {
                    message_id: row.unsigned_at("message_id"),
                    channel_id: row.unsigned_at("channel_id"),
                    channel_type: row.i32_or("channel_type", 0),
                    editor_uid: row.unsigned_at("editor_uid"),
                    new_content: row.text_at("new_content"),
                    edited_at: row.unsigned_at("edited_at"),
                    edit_version: row.u32_at("edit_version"),
                },
            ),
            Err(e) => Err(e),
        }
    }
}

impl FromRow for ChannelReadState {
    open spec fn shape() -> Seq<(Seq<char>, ColumnKind)> {
        seq![
            ("channel_id"@, ColumnKind::Unsigned),
            ("channel_type"@, ColumnKind::Int32),
            ("user_id"@, ColumnKind::Unsigned),
            ("last_read_message_id"@, ColumnKind::MaybeUnsigned),
            ("last_read_seq"@, ColumnKind::Int64),
            ("last_read_at"@, ColumnKind::Unsigned),
            ("unread_count"@, ColumnKind::Int32),
        ]
    }

    open spec fn held_by(row: RowModel) -> ChannelReadState {
        ChannelReadState {
            channel_id: row.unsigned_at("channel_id"@),
            channel_type: row.i32_or("channel_type"@, 0),
            user_id: row.unsigned_at("user_id"@),
            last_read_message_id: row.opt_unsigned("last_read_message_id"@),
            last_read_seq: row.i64_at("last_read_seq"@),
            last_read_at: row.unsigned_at("last_read_at"@),
            unread_count: row.i32_or("unread_count"@, 0),
        }
    }

    fn from_row(row: &Row) -> (r: Result<Self, RowError>) {
        let expected: Vec<Expected> = vec![
            expect("channel_id", ColumnKind::Unsigned),
            expect("channel_type", ColumnKind::Int32),
            expect("user_id", ColumnKind::Unsigned),
            expect("last_read_message_id", ColumnKind::MaybeUnsigned),
            expect("last_read_seq", ColumnKind::Int64),
            expect("last_read_at", ColumnKind::Unsigned),
            expect("unread_count", ColumnKind::Int32),
        ];
        assert(sql::shape_of(expected@) =~= Self::shape());
        match row.check(&expected) {
            Ok(_) => Ok(
                ChannelReadState {
                    channel_id: row.unsigned_at("channel_id"),
                    channel_type: row.i32_or("channel_type", 0),
                    user_id: row.unsigned_at("user_id"),
                    last_read_message_id: row.opt_unsigned("last_read_message_id"),
                    last_read_seq: row.i64_at("last_read_seq"),
                    last_read_at: row.unsigned_at("last_read_at"),
                    unread_count: row.i32_or("unread_count", 0),
                },
            ),
            Err(e) => Err(e),
        }
    }
}

impl FromRow for MessageFacts {
    open spec fn shape() -> Seq<(Seq<char>, ColumnKind)> {
        seq![
            ("channel_id"@, ColumnKind::Id),
            ("channel_type"@, ColumnKind::Int32),
            ("from_uid"@, ColumnKind::Id),
            ("status"@, ColumnKind::Int32),
            ("created_at"@, ColumnKind::Int64),
        ]
    }

    open spec fn held_by(row: RowModel) -> MessageFacts {
        MessageFacts {
            channel_id: row.id_at("channel_id"@),
            channel_type: row.i32_or("channel_type"@, 0),
            from_uid: row.id_at("from_uid"@),
            status: row.i32_or("status"@, 0),
            created_at: row.i64_at("created_at"@),
        }
    }

    fn from_row(row: &Row) -> (r: Result<Self, RowError>) {
        let expected: Vec<Expected> = vec![
            expect("channel_id", ColumnKind::Id),
            expect("channel_type", ColumnKind::Int32),
            expect("from_uid", ColumnKind::Id),
            expect("status", ColumnKind::Int32),
            expect("created_at", ColumnKind::Int64),
        ];
        assert(sql::shape_of(expected@) =~= Self::shape());
        match row.check(&expected) {
            Ok(_) => Ok(
                MessageFacts {
                    channel_id: row.id_at("channel_id"),
                    channel_type: row.i32_or("channel_type", 0),
                    from_uid: row.id_at("from_uid"),
                    status: row.i32_or("status", 0),
                    created_at: row.i64_at("created_at"),
                },
            ),
            Err(e) => Err(e),
        }
    }
}

/// The statement of [`FeaturesDao::read_receipt_table`].
pub open spec fn read_receipt_table_statement() -> StatementModel {
    StatementModel { sql: "CREATE TABLE IF NOT EXISTS read_receipts (id INTEGER PRIMARY KEY AUTOINCREMENT, message_id TEXT NOT NULL, channel_id TEXT NOT NULL, channel_type INTEGER NOT NULL, reader_uid TEXT NOT NULL, read_at INTEGER NOT NULL, created_at DATETIME DEFAULT CURRENT_TIMESTAMP, UNIQUE(message_id, reader_uid))"@, params: Seq::empty() }
}

/// The statement of [`FeaturesDao::read_state_table`].
pub open spec fn read_state_table_statement() -> StatementModel {
    StatementModel { sql: "CREATE TABLE IF NOT EXISTS channel_read_states (id INTEGER PRIMARY KEY AUTOINCREMENT, channel_id TEXT NOT NULL, channel_type INTEGER NOT NULL, user_id TEXT NOT NULL, last_read_message_id TEXT, last_read_seq INTEGER NOT NULL DEFAULT 0, last_read_at INTEGER NOT NULL, unread_count INTEGER NOT NULL DEFAULT 0, updated_at DATETIME DEFAULT CURRENT_TIMESTAMP, UNIQUE(channel_id, channel_type, user_id))"@, params: Seq::empty() }
}

/// The statement of [`FeaturesDao::edit_history_table`].
pub open spec fn edit_history_table_statement() -> StatementModel {
    StatementModel { sql: "CREATE TABLE IF NOT EXISTS message_edit_history (id INTEGER PRIMARY KEY AUTOINCREMENT, message_id TEXT NOT NULL, channel_id TEXT NOT NULL, channel_type INTEGER NOT NULL, editor_uid TEXT NOT NULL, old_content TEXT NOT NULL, new_content TEXT NOT NULL, edit_version INTEGER NOT NULL, edited_at INTEGER NOT NULL, created_at DATETIME DEFAULT CURRENT_TIMESTAMP)"@, params: Seq::empty() }
}

/// The statement of [`FeaturesDao::receipt_message_index`].
pub open spec fn receipt_message_index_statement() -> StatementModel {
    StatementModel { sql: "CREATE INDEX IF NOT EXISTS idx_read_receipts_message ON read_receipts(message_id)"@, params: Seq::empty() }
}

/// The statement of [`FeaturesDao::receipt_channel_index`].
pub open spec fn receipt_channel_index_statement() -> StatementModel {
    StatementModel { sql: "CREATE INDEX IF NOT EXISTS idx_read_receipts_channel ON read_receipts(channel_id, channel_type)"@, params: Seq::empty() }
}

/// The statement of [`FeaturesDao::read_state_index`].
pub open spec fn read_state_index_statement() -> StatementModel {
    StatementModel { sql: "CREATE INDEX IF NOT EXISTS idx_channel_read_states_channel ON channel_read_states(channel_id, channel_type)"@, params: Seq::empty() }
}

/// The statement of [`FeaturesDao::edit_history_index`].
pub open spec fn edit_history_index_statement() -> StatementModel {
    StatementModel { sql: "CREATE INDEX IF NOT EXISTS idx_message_edit_history_message ON message_edit_history(message_id)"@, params: Seq::empty() }
}

/// The statements that make the tables and their indexes, in order.
pub open spec fn initialize_tables_statements() -> Seq<StatementModel> {
    seq![
        read_receipt_table_statement(),
        read_state_table_statement(),
        edit_history_table_statement(),
        receipt_message_index_statement(),
        receipt_channel_index_statement(),
        read_state_index_statement(),
        edit_history_index_statement(),
    ]
}

/// The statement of [`FeaturesDao::store_receipt`].
pub open spec fn store_receipt_statement(
    message_id: u64,
    channel_id: u64,
    channel_type: i32,
    reader_uid: u64,
    read_at: u64,
) -> StatementModel {
    StatementModel {
        sql:
            "INSERT OR REPLACE INTO read_receipts (message_id, channel_id, channel_type, reader_uid, read_at) VALUES (?1, ?2, ?3, ?4, ?5)"@,
        params: seq![
            sql::id_model(message_id),
            sql::id_model(channel_id),
            SqlModel::Integer(channel_type as i64),
            sql::id_model(reader_uid),
            sql::id_model(read_at),
        ],
    }
}

/// The statement of [`FeaturesDao::unread_beyond`].
pub open spec fn unread_beyond_statement(
    channel_id: u64,
    channel_type: i32,
    last_read_seq: i64,
) -> StatementModel {
    StatementModel {
        sql:
            "SELECT COUNT(*) FROM messages WHERE channel_id = ?1 AND channel_type = ?2 AND message_seq > ?3 AND is_deleted = 0"@,
        params: seq![
            sql::id_model(channel_id),
            SqlModel::Integer(channel_type as i64),
            SqlModel::Integer(last_read_seq),
        ],
    }
}

/// The statement of [`FeaturesDao::store_read_state`].
pub open spec fn store_read_state_statement(state: ChannelReadState) -> StatementModel {
    StatementModel {
        sql:
            "INSERT OR REPLACE INTO channel_read_states (channel_id, channel_type, user_id, last_read_message_id, last_read_seq, last_read_at, unread_count) VALUES (?1, ?2, ?3, ?4, ?5, ?6, ?7)"@,
        params: seq![
            sql::id_model(state.channel_id),
            SqlModel::Integer(state.channel_type as i64),
            sql::id_model(state.user_id),
            sql::opt_id_model(state.last_read_message_id),
            SqlModel::Integer(state.last_read_seq),
            sql::id_model(state.last_read_at),
            SqlModel::Integer(state.unread_count as i64),
        ],
    }
}

/// Whether the identifiers of a read state can be stored.
pub open spec fn bindable(state: ChannelReadState) -> bool {
    &&& state.channel_id <= i64::MAX
    &&& state.user_id <= i64::MAX
    &&& state.last_read_at <= i64::MAX
    &&& match state.last_read_message_id {
        Some(m) => m <= i64::MAX,
        None => true,
    }
}

/// The statement of [`FeaturesDao::last_read_seq`].
pub open spec fn last_read_seq_statement(
    channel_id: u64,
    channel_type: i32,
    user_id: u64,
) -> StatementModel {
    StatementModel {
        sql:
            "SELECT COALESCE(last_read_seq, 0) FROM channel_read_states WHERE channel_id = ?1 AND channel_type = ?2 AND user_id = ?3"@,
        params: seq![
            sql::id_model(channel_id),
            SqlModel::Integer(channel_type as i64),
            sql::id_model(user_id),
        ],
    }
}

/// The statement of [`FeaturesDao::get_message_read_receipts`].
pub open spec fn get_message_read_receipts_statement(message_id: u64) -> StatementModel {
    StatementModel {
        sql:
            "SELECT message_id, channel_id, channel_type, reader_uid, read_at FROM read_receipts WHERE message_id = ?1 ORDER BY read_at ASC"@,
        params: seq![
            sql::id_model(message_id),
        ],
    }
}

/// The statement of [`FeaturesDao::message_seq`].
pub open spec fn message_seq_statement(message_id: u64) -> StatementModel {
    StatementModel {
        sql:
            "SELECT message_seq FROM messages WHERE message_id = ?1"@,
        params: seq![
            sql::id_model(message_id),
        ],
    }
}

/// The statement of [`FeaturesDao::message_facts`].
pub open spec fn message_facts_statement(message_id: u64) -> StatementModel {
    StatementModel {
        sql:
            "SELECT channel_id, channel_type, from_uid, status, CAST(strftime('%s', created_at) AS INTEGER) AS created_at FROM messages WHERE message_id = ?1"@,
        params: seq![
            sql::id_model(message_id),
        ],
    }
}

/// The statement of [`FeaturesDao::message_content`].
pub open spec fn message_content_statement(message_id: u64) -> StatementModel {
    StatementModel {
        sql:
            "SELECT content FROM messages WHERE message_id = ?1"@,
        params: seq![
            sql::id_model(message_id),
        ],
    }
}

/// The statement of [`FeaturesDao::mark_revoked`].
pub open spec fn mark_revoked_statement(message_id: u64) -> StatementModel {
    StatementModel {
        sql:
            "UPDATE messages SET status = ?1, updated_at = CURRENT_TIMESTAMP WHERE message_id = ?2"@,
        params: seq![
            SqlModel::Integer(entities::status_number(MessageStatus::Revoked) as i64),
            sql::id_model(message_id),
        ],
    }
}

/// The statement of [`FeaturesDao::record_revocation`].
pub open spec fn record_revocation_statement(
    message_id: u64,
    channel_id: u64,
    channel_type: i32,
    revoker_uid: u64,
    now: u64,
) -> StatementModel {
    StatementModel {
        sql:
            "INSERT OR REPLACE INTO message_extra (message_id, channel_id, channel_type, revoke, revoker, extra_version) VALUES (?1, ?2, ?3, 1, ?4, ?5)"@,
        params: seq![
            sql::id_model(message_id),
            sql::id_model(channel_id),
            SqlModel::Integer(channel_type as i64),
            sql::id_model(revoker_uid),
            sql::id_model(now),
        ],
    }
}

/// The statement of [`FeaturesDao::edit_version`].
pub open spec fn edit_version_statement(message_id: u64) -> StatementModel {
    StatementModel {
        sql:
            "SELECT COALESCE(MAX(edit_version), 0) FROM message_edit_history WHERE message_id = ?1"@,
        params: seq![
            sql::id_model(message_id),
        ],
    }
}

/// The statement of [`FeaturesDao::keep_edit`].
pub open spec fn keep_edit_statement(
    message_id: u64,
    channel_id: u64,
    channel_type: i32,
    editor_uid: u64,
    old_content: Seq<char>,
    new_content: Seq<char>,
    edit_version: u32,
    now: u64,
) -> StatementModel {
    StatementModel {
        sql:
            "INSERT INTO message_edit_history (message_id, channel_id, channel_type, editor_uid, old_content, new_content, edit_version, edited_at) VALUES (?1, ?2, ?3, ?4, ?5, ?6, ?7, ?8)"@,
        params: seq![
            sql::id_model(message_id),
            sql::id_model(channel_id),
            SqlModel::Integer(channel_type as i64),
            sql::id_model(editor_uid),
            SqlModel::Text(old_content),
            SqlModel::Text(new_content),
            SqlModel::Integer(edit_version as i64),
            sql::id_model(now),
        ],
    }
}

/// The statement of [`FeaturesDao::replace_content`].
pub open spec fn replace_content_statement(
    message_id: u64,
    new_content: Seq<char>,
) -> StatementModel {
    StatementModel {
        sql:
            "UPDATE messages SET content = ?1, updated_at = CURRENT_TIMESTAMP WHERE message_id = ?2"@,
        params: seq![
            SqlModel::Text(new_content),
            sql::id_model(message_id),
        ],
    }
}

/// The statement of [`FeaturesDao::record_edit`].
pub open spec fn record_edit_statement(
    message_id: u64,
    channel_id: u64,
    channel_type: i32,
    new_content: Seq<char>,
    now: u64,
) -> StatementModel {
    StatementModel {
        sql:
            "INSERT OR REPLACE INTO message_extra (message_id, channel_id, channel_type, content_edit, edited_at, extra_version) VALUES (?1, ?2, ?3, ?4, ?5, ?6)"@,
        params: seq![
            sql::id_model(message_id),
            sql::id_model(channel_id),
            SqlModel::Integer(channel_type as i64),
            SqlModel::Text(new_content),
            SqlModel::Integer((now as i32) as i64),
            sql::id_model(now),
        ],
    }
}

/// The statement of [`FeaturesDao::get_message_edit_history`].
pub open spec fn get_message_edit_history_statement(message_id: u64) -> StatementModel {
    StatementModel {
        sql:
            "SELECT message_id, channel_id, channel_type, editor_uid, new_content, edit_version, edited_at FROM message_edit_history WHERE message_id = ?1 ORDER BY edit_version ASC"@,
        params: seq![
            sql::id_model(message_id),
        ],
    }
}

/// The statement of [`FeaturesDao::get_channel_read_states`].
pub open spec fn get_channel_read_states_statement(
    channel_id: u64,
    channel_type: i32,
) -> StatementModel {
    StatementModel {
        sql:
            "SELECT channel_id, channel_type, user_id, last_read_message_id, last_read_seq, last_read_at, unread_count FROM channel_read_states WHERE channel_id = ?1 AND channel_type = ?2"@,
        params: seq![
            sql::id_model(channel_id),
            SqlModel::Integer(channel_type as i64),
        ],
    }
}

/// The statement of [`FeaturesDao::cleanup_old_read_receipts`].
pub open spec fn cleanup_old_read_receipts_statement(cutoff: u64) -> StatementModel {
    StatementModel {
        sql:
            "DELETE FROM read_receipts WHERE read_at < ?1"@,
        params: seq![
            sql::id_model(cutoff),
        ],
    }
}

/// The statement of [`FeaturesDao::cleanup_old_edit_history`].
pub open spec fn cleanup_old_edit_history_statement(cutoff: u64) -> StatementModel {
    StatementModel {
        sql:
            "DELETE FROM message_edit_history WHERE edited_at < ?1"@,
        params: seq![
            sql::id_model(cutoff),
        ],
    }
}

/// The statements on read receipts, read states and the history of edits.
pub struct FeaturesDao;

impl FeaturesDao {
    /// Makes the table of read receipts, where it is not there.
    pub fn read_receipt_table() -> (r: Statement)
        ensures
            r@ == read_receipt_table_statement(),
    {
        let s = plain("CREATE TABLE IF NOT EXISTS read_receipts (id INTEGER PRIMARY KEY AUTOINCREMENT, message_id TEXT NOT NULL, channel_id TEXT NOT NULL, channel_type INTEGER NOT NULL, reader_uid TEXT NOT NULL, read_at INTEGER NOT NULL, created_at DATETIME DEFAULT CURRENT_TIMESTAMP, UNIQUE(message_id, reader_uid))");
        s
    }

    /// Makes the table of read states, where it is not there.
    pub fn read_state_table() -> (r: Statement)
        ensures
            r@ == read_state_table_statement(),
    {
        let s = plain("CREATE TABLE IF NOT EXISTS channel_read_states (id INTEGER PRIMARY KEY AUTOINCREMENT, channel_id TEXT NOT NULL, channel_type INTEGER NOT NULL, user_id TEXT NOT NULL, last_read_message_id TEXT, last_read_seq INTEGER NOT NULL DEFAULT 0, last_read_at INTEGER NOT NULL, unread_count INTEGER NOT NULL DEFAULT 0, updated_at DATETIME DEFAULT CURRENT_TIMESTAMP, UNIQUE(channel_id, channel_type, user_id))");
        s
    }

    /// Makes the table of edits, where it is not there.
    pub fn edit_history_table() -> (r: Statement)
        ensures
            r@ == edit_history_table_statement(),
    {
        let s = plain("CREATE TABLE IF NOT EXISTS message_edit_history (id INTEGER PRIMARY KEY AUTOINCREMENT, message_id TEXT NOT NULL, channel_id TEXT NOT NULL, channel_type INTEGER NOT NULL, editor_uid TEXT NOT NULL, old_content TEXT NOT NULL, new_content TEXT NOT NULL, edit_version INTEGER NOT NULL, edited_at INTEGER NOT NULL, created_at DATETIME DEFAULT CURRENT_TIMESTAMP)");
        s
    }

    /// Makes the index of receipts by message.
    pub fn receipt_message_index() -> (r: Statement)
        ensures
            r@ == receipt_message_index_statement(),
    {
        let s = plain("CREATE INDEX IF NOT EXISTS idx_read_receipts_message ON read_receipts(message_id)");
        s
    }

    /// Makes the index of receipts by channel.
    pub fn receipt_channel_index() -> (r: Statement)
        ensures
            r@ == receipt_channel_index_statement(),
    {
        let s = plain("CREATE INDEX IF NOT EXISTS idx_read_receipts_channel ON read_receipts(channel_id, channel_type)");
        s
    }

    /// Makes the index of read states by channel.
    pub fn read_state_index() -> (r: Statement)
        ensures
            r@ == read_state_index_statement(),
    {
        let s = plain("CREATE INDEX IF NOT EXISTS idx_channel_read_states_channel ON channel_read_states(channel_id, channel_type)");
        s
    }

    /// Makes the index of edits by message.
    pub fn edit_history_index() -> (r: Statement)
        ensures
            r@ == edit_history_index_statement(),
    {
        let s = plain("CREATE INDEX IF NOT EXISTS idx_message_edit_history_message ON message_edit_history(message_id)");
        s
    }

    /// Makes the tables and their indexes, where they are not there.
    pub fn initialize_tables() -> (r: Vec<Statement>)
        ensures
            Seq::new(r@.len(), |i: int| r@[i]@) == initialize_tables_statements(),
    {
        let r: Vec<Statement> = vec![
            FeaturesDao::read_receipt_table(),
            FeaturesDao::read_state_table(),
            FeaturesDao::edit_history_table(),
            FeaturesDao::receipt_message_index(),
            FeaturesDao::receipt_channel_index(),
            FeaturesDao::read_state_index(),
            FeaturesDao::edit_history_index(),
        ];
        assert(Seq::new(r@.len(), |i: int| r@[i]@) =~= initialize_tables_statements());
        r
    }

    /// Stores a read receipt, in place of an earlier one of the same reader for the same message.
    pub fn store_receipt(
        message_id: u64,
        channel_id: u64,
        channel_type: i32,
        reader_uid: u64,
        read_at: u64,
    ) -> (r: Result<Statement, PrivchatSDKError>)
        ensures
            match r {
                Ok(s) => {
                    &&& message_id <= i64::MAX
                    &&& channel_id <= i64::MAX
                    &&& reader_uid <= i64::MAX
                    &&& read_at <= i64::MAX
                    &&& s@ == store_receipt_statement(
                        message_id,
                        channel_id,
                        channel_type,
                        reader_uid,
                        read_at,
                    )
                },
                Err(e) => {
                    &&& !(
                        message_id <= i64::MAX
                            && channel_id <= i64::MAX
                            && reader_uid <= i64::MAX
                            && read_at <= i64::MAX
                    )
                    &&& e@ == sql::out_of_range()
                },
            },
    {
        if !fits_i64(message_id) || !fits_i64(channel_id) || !fits_i64(reader_uid) || !fits_i64(read_at) {
            return Err(out_of_range_error());
        }
        let s = with_params(
            "INSERT OR REPLACE INTO read_receipts (message_id, channel_id, channel_type, reader_uid, read_at) VALUES (?1, ?2, ?3, ?4, ?5)",
            vec![
                id(message_id),
                id(channel_id),
                SqlValue::Integer(channel_type as i64),
                id(reader_uid),
                id(read_at),
            ],
        );
        assert(
            s@.params =~= store_receipt_statement(
                message_id,
                channel_id,
                channel_type,
                reader_uid,
                read_at,
            ).params
        );
        Ok(s)
    }

    /// Counts the messages of a channel beyond a position.
    pub fn unread_beyond(
        channel_id: u64,
        channel_type: i32,
        last_read_seq: i64,
    ) -> (r: Result<Statement, PrivchatSDKError>)
        ensures
            match r {
                Ok(s) => {
                    &&& channel_id <= i64::MAX
                    &&& s@ == unread_beyond_statement(channel_id, channel_type, last_read_seq)
                },
                Err(e) => !(channel_id <= i64::MAX) && e@ == sql::out_of_range(),
            },
    {
        if !fits_i64(channel_id) {
            return Err(out_of_range_error());
        }
        let s = with_params(
            "SELECT COUNT(*) FROM messages WHERE channel_id = ?1 AND channel_type = ?2 AND message_seq > ?3 AND is_deleted = 0",
            vec![
                id(channel_id),
                SqlValue::Integer(channel_type as i64),
                SqlValue::Integer(last_read_seq),
            ],
        );
        assert(
            s@.params =~= unread_beyond_statement(channel_id, channel_type, last_read_seq).params
        );
        Ok(s)
    }

    /// Stores how far a user has read a channel.
    pub fn store_read_state(state: &ChannelReadState) -> (r: Result<Statement, PrivchatSDKError>)
        ensures
            match r {
                Ok(s) => bindable(*state) && s@ == store_read_state_statement(*state),
                Err(e) => !bindable(*state) && e@ == sql::out_of_range(),
            },
    {
        let last_fits = match state.last_read_message_id {
            Some(m) => fits_i64(m),
            None => true,
        };
        if !last_fits || !fits_i64(state.channel_id) || !fits_i64(state.user_id) || !fits_i64(
            state.last_read_at,
        ) {
            return Err(out_of_range_error());
        }
        let s = with_params(
            "INSERT OR REPLACE INTO channel_read_states (channel_id, channel_type, user_id, last_read_message_id, last_read_seq, last_read_at, unread_count) VALUES (?1, ?2, ?3, ?4, ?5, ?6, ?7)",
            vec![
                id(state.channel_id),
                SqlValue::Integer(state.channel_type as i64),
                id(state.user_id),
                opt_id(state.last_read_message_id),
                SqlValue::Integer(state.last_read_seq),
                id(state.last_read_at),
                SqlValue::Integer(state.unread_count as i64),
            ],
        );
        assert(s@.params =~= store_read_state_statement(*state).params);
        Ok(s)
    }

    /// Reads how far a user has read a channel.
    pub fn last_read_seq(
        channel_id: u64,
        channel_type: i32,
        user_id: u64,
    ) -> (r: Result<Statement, PrivchatSDKError>)
        ensures
            match r {
                Ok(s) => {
                    &&& channel_id <= i64::MAX
                    &&& user_id <= i64::MAX
                    &&& s@ == last_read_seq_statement(channel_id, channel_type, user_id)
                },
                Err(e) => {
                    &&& !(channel_id <= i64::MAX && user_id <= i64::MAX)
                    &&& e@ == sql::out_of_range()
                },
            },
    {
        if !fits_i64(channel_id) || !fits_i64(user_id) {
            return Err(out_of_range_error());
        }
        let s = with_params(
            "SELECT COALESCE(last_read_seq, 0) FROM channel_read_states WHERE channel_id = ?1 AND channel_type = ?2 AND user_id = ?3",
            vec![
                id(channel_id),
                SqlValue::Integer(channel_type as i64),
                id(user_id),
            ],
        );
        assert(s@.params =~= last_read_seq_statement(channel_id, channel_type, user_id).params);
        Ok(s)
    }

    /// Reads the receipts of a message, the earliest first.
    pub fn get_message_read_receipts(message_id: u64) -> (r: Result<Statement, PrivchatSDKError>)
        ensures
            match r {
                Ok(s) => {
                    &&& message_id <= i64::MAX
                    &&& s@ == get_message_read_receipts_statement(message_id)
                },
                Err(e) => !(message_id <= i64::MAX) && e@ == sql::out_of_range(),
            },
    {
        if !fits_i64(message_id) {
            return Err(out_of_range_error());
        }
        let s = with_params(
            "SELECT message_id, channel_id, channel_type, reader_uid, read_at FROM read_receipts WHERE message_id = ?1 ORDER BY read_at ASC",
            vec![
                id(message_id),
            ],
        );
        assert(s@.params =~= get_message_read_receipts_statement(message_id).params);
        Ok(s)
    }

    /// Reads the position of a message.
    pub fn message_seq(message_id: u64) -> (r: Statement)
        ensures
            r@ == message_seq_statement(message_id),
    {
        let s = with_params(
            "SELECT message_seq FROM messages WHERE message_id = ?1",
            vec![
                id(message_id),
            ],
        );
        assert(s@.params =~= message_seq_statement(message_id).params);
        s
    }

    /// Reads what decides whether a message may be revoked or edited.
    pub fn message_facts(message_id: u64) -> (r: Statement)
        ensures
            r@ == message_facts_statement(message_id),
    {
        let s = with_params(
            "SELECT channel_id, channel_type, from_uid, status, CAST(strftime('%s', created_at) AS INTEGER) AS created_at FROM messages WHERE message_id = ?1",
            vec![
                id(message_id),
            ],
        );
        assert(s@.params =~= message_facts_statement(message_id).params);
        s
    }

    /// Reads what a message says, before it is edited.
    pub fn message_content(message_id: u64) -> (r: Result<Statement, PrivchatSDKError>)
        ensures
            match r {
                Ok(s) => message_id <= i64::MAX && s@ == message_content_statement(message_id),
                Err(e) => !(message_id <= i64::MAX) && e@ == sql::out_of_range(),
            },
    {
        if !fits_i64(message_id) {
            return Err(out_of_range_error());
        }
        let s = with_params(
            "SELECT content FROM messages WHERE message_id = ?1",
            vec![
                id(message_id),
            ],
        );
        assert(s@.params =~= message_content_statement(message_id).params);
        Ok(s)
    }

    /// Sets the status of a message to revoked.
    pub fn mark_revoked(message_id: u64) -> (r: Result<Statement, PrivchatSDKError>)
        ensures
            match r {
                Ok(s) => message_id <= i64::MAX && s@ == mark_revoked_statement(message_id),
                Err(e) => !(message_id <= i64::MAX) && e@ == sql::out_of_range(),
            },
    {
        if !fits_i64(message_id) {
            return Err(out_of_range_error());
        }
        let s = with_params(
            "UPDATE messages SET status = ?1, updated_at = CURRENT_TIMESTAMP WHERE message_id = ?2",
            vec![
                SqlValue::Integer(MessageStatus::Revoked.to_i32() as i64),
                id(message_id),
            ],
        );
        assert(s@.params =~= mark_revoked_statement(message_id).params);
        Ok(s)
    }

    /// Records the revocation of a message.
    pub fn record_revocation(
        message_id: u64,
        channel_id: u64,
        channel_type: i32,
        revoker_uid: u64,
        now: u64,
    ) -> (r: Result<Statement, PrivchatSDKError>)
        ensures
            match r {
                Ok(s) => {
                    &&& message_id <= i64::MAX
                    &&& channel_id <= i64::MAX
                    &&& revoker_uid <= i64::MAX
                    &&& now <= i64::MAX
                    &&& s@ == record_revocation_statement(
                        message_id,
                        channel_id,
                        channel_type,
                        revoker_uid,
                        now,
                    )
                },
                Err(e) => {
                    &&& !(
                        message_id <= i64::MAX
                            && channel_id <= i64::MAX
                            && revoker_uid <= i64::MAX
                            && now <= i64::MAX
                    )
                    &&& e@ == sql::out_of_range()
                },
            },
    {
        if !fits_i64(message_id) || !fits_i64(channel_id) || !fits_i64(revoker_uid) || !fits_i64(now) {
            return Err(out_of_range_error());
        }
        let s = with_params(
            "INSERT OR REPLACE INTO message_extra (message_id, channel_id, channel_type, revoke, revoker, extra_version) VALUES (?1, ?2, ?3, 1, ?4, ?5)",
            vec![
                id(message_id),
                id(channel_id),
                SqlValue::Integer(channel_type as i64),
                id(revoker_uid),
                id(now),
            ],
        );
        assert(
            s@.params =~= record_revocation_statement(
                message_id,
                channel_id,
                channel_type,
                revoker_uid,
                now,
            ).params
        );
        Ok(s)
    }

    /// Reads how often a message was edited.
    pub fn edit_version(message_id: u64) -> (r: Result<Statement, PrivchatSDKError>)
        ensures
            match r {
                Ok(s) => message_id <= i64::MAX && s@ == edit_version_statement(message_id),
                Err(e) => !(message_id <= i64::MAX) && e@ == sql::out_of_range(),
            },
    {
        if !fits_i64(message_id) {
            return Err(out_of_range_error());
        }
        let s = with_params(
            "SELECT COALESCE(MAX(edit_version), 0) FROM message_edit_history WHERE message_id = ?1",
            vec![
                id(message_id),
            ],
        );
        assert(s@.params =~= edit_version_statement(message_id).params);
        Ok(s)
    }

    /// Keeps an edit in the history.
    pub fn keep_edit(
        message_id: u64,
        channel_id: u64,
        channel_type: i32,
        editor_uid: u64,
        old_content: &str,
        new_content: &str,
        edit_version: u32,
        now: u64,
    ) -> (r: Result<Statement, PrivchatSDKError>)
        ensures
            match r {
                Ok(s) => {
                    &&& message_id <= i64::MAX
                    &&& channel_id <= i64::MAX
                    &&& editor_uid <= i64::MAX
                    &&& now <= i64::MAX
                    &&& s@ == keep_edit_statement(
                        message_id,
                        channel_id,
                        channel_type,
                        editor_uid,
                        old_content@,
                        new_content@,
                        edit_version,
                        now,
                    )
                },
                Err(e) => {
                    &&& !(
                        message_id <= i64::MAX
                            && channel_id <= i64::MAX
                            && editor_uid <= i64::MAX
                            && now <= i64::MAX
                    )
                    &&& e@ == sql::out_of_range()
                },
            },
    {
        if !fits_i64(message_id) || !fits_i64(channel_id) || !fits_i64(editor_uid) || !fits_i64(now) {
            return Err(out_of_range_error());
        }
        let s = with_params(
            "INSERT INTO message_edit_history (message_id, channel_id, channel_type, editor_uid, old_content, new_content, edit_version, edited_at) VALUES (?1, ?2, ?3, ?4, ?5, ?6, ?7, ?8)",
            vec![
                id(message_id),
                id(channel_id),
                SqlValue::Integer(channel_type as i64),
                id(editor_uid),
                words(old_content),
                words(new_content),
                SqlValue::Integer(edit_version as i64),
                id(now),
            ],
        );
        assert(
            s@.params =~= keep_edit_statement(
                message_id,
                channel_id,
                channel_type,
                editor_uid,
                old_content@,
                new_content@,
                edit_version,
                now,
            ).params
        );
        Ok(s)
    }

    /// Replaces the content of a message.
    pub fn replace_content(
        message_id: u64,
        new_content: &str,
    ) -> (r: Result<Statement, PrivchatSDKError>)
        ensures
            match r {
                Ok(s) => {
                    &&& message_id <= i64::MAX
                    &&& s@ == replace_content_statement(message_id, new_content@)
                },
                Err(e) => !(message_id <= i64::MAX) && e@ == sql::out_of_range(),
            },
    {
        if !fits_i64(message_id) {
            return Err(out_of_range_error());
        }
        let s = with_params(
            "UPDATE messages SET content = ?1, updated_at = CURRENT_TIMESTAMP WHERE message_id = ?2",
            vec![
                words(new_content),
                id(message_id),
            ],
        );
        assert(s@.params =~= replace_content_statement(message_id, new_content@).params);
        Ok(s)
    }

    /// Records the new content of a message.
    pub fn record_edit(
        message_id: u64,
        channel_id: u64,
        channel_type: i32,
        new_content: &str,
        now: u64,
    ) -> (r: Result<Statement, PrivchatSDKError>)
        ensures
            match r {
                Ok(s) => {
                    &&& message_id <= i64::MAX
                    &&& channel_id <= i64::MAX
                    &&& now <= i64::MAX
                    &&& s@ == record_edit_statement(
                        message_id,
                        channel_id,
                        channel_type,
                        new_content@,
                        now,
                    )
                },
                Err(e) => {
                    &&& !(message_id <= i64::MAX && channel_id <= i64::MAX && now <= i64::MAX)
                    &&& e@ == sql::out_of_range()
                },
            },
    {
        if !fits_i64(message_id) || !fits_i64(channel_id) || !fits_i64(now) {
            return Err(out_of_range_error());
        }
        let s = with_params(
            "INSERT OR REPLACE INTO message_extra (message_id, channel_id, channel_type, content_edit, edited_at, extra_version) VALUES (?1, ?2, ?3, ?4, ?5, ?6)",
            vec![
                id(message_id),
                id(channel_id),
                SqlValue::Integer(channel_type as i64),
                words(new_content),
                SqlValue::Integer((#[verifier::truncate] (now as i32)) as i64),
                id(now),
            ],
        );
        assert(
            s@.params =~= record_edit_statement(
                message_id,
                channel_id,
                channel_type,
                new_content@,
                now,
            ).params
        );
        Ok(s)
    }

    /// Reads the edits of a message, in order.
    pub fn get_message_edit_history(message_id: u64) -> (r: Result<Statement, PrivchatSDKError>)
        ensures
            match r {
                Ok(s) => {
                    &&& message_id <= i64::MAX
                    &&& s@ == get_message_edit_history_statement(message_id)
                },
                Err(e) => !(message_id <= i64::MAX) && e@ == sql::out_of_range(),
            },
    {
        if !fits_i64(message_id) {
            return Err(out_of_range_error());
        }
        let s = with_params(
            "SELECT message_id, channel_id, channel_type, editor_uid, new_content, edit_version, edited_at FROM message_edit_history WHERE message_id = ?1 ORDER BY edit_version ASC",
            vec![
                id(message_id),
            ],
        );
        assert(s@.params =~= get_message_edit_history_statement(message_id).params);
        Ok(s)
    }

    /// Reads how far the users have read a channel.
    pub fn get_channel_read_states(
        channel_id: u64,
        channel_type: i32,
    ) -> (r: Result<Statement, PrivchatSDKError>)
        ensures
            match r {
                Ok(s) => {
                    &&& channel_id <= i64::MAX
                    &&& s@ == get_channel_read_states_statement(channel_id, channel_type)
                },
                Err(e) => !(channel_id <= i64::MAX) && e@ == sql::out_of_range(),
            },
    {
        if !fits_i64(channel_id) {
            return Err(out_of_range_error());
        }
        let s = with_params(
            "SELECT channel_id, channel_type, user_id, last_read_message_id, last_read_seq, last_read_at, unread_count FROM channel_read_states WHERE channel_id = ?1 AND channel_type = ?2",
            vec![
                id(channel_id),
                SqlValue::Integer(channel_type as i64),
            ],
        );
        assert(s@.params =~= get_channel_read_states_statement(channel_id, channel_type).params);
        Ok(s)
    }

    /// Removes the receipts before a time.
    pub fn cleanup_old_read_receipts(cutoff: u64) -> (r: Result<Statement, PrivchatSDKError>)
        ensures
            match r {
                Ok(s) => cutoff <= i64::MAX && s@ == cleanup_old_read_receipts_statement(cutoff),
                Err(e) => !(cutoff <= i64::MAX) && e@ == sql::out_of_range(),
            },
    {
        if !fits_i64(cutoff) {
            return Err(out_of_range_error());
        }
        let s = with_params(
            "DELETE FROM read_receipts WHERE read_at < ?1",
            vec![
                id(cutoff),
            ],
        );
        assert(s@.params =~= cleanup_old_read_receipts_statement(cutoff).params);
        Ok(s)
    }

    /// Removes the edits before a time.
    pub fn cleanup_old_edit_history(cutoff: u64) -> (r: Result<Statement, PrivchatSDKError>)
        ensures
            match r {
                Ok(s) => cutoff <= i64::MAX && s@ == cleanup_old_edit_history_statement(cutoff),
                Err(e) => !(cutoff <= i64::MAX) && e@ == sql::out_of_range(),
            },
    {
        if !fits_i64(cutoff) {
            return Err(out_of_range_error());
        }
        let s = with_params(
            "DELETE FROM message_edit_history WHERE edited_at < ?1",
            vec![
                id(cutoff),
            ],
        );
        assert(s@.params =~= cleanup_old_edit_history_statement(cutoff).params);
        Ok(s)
    }
}

// What the statements do.

/// A receipt names its message, channel and reader and has the time of reading; a later one of the
/// reader replaces it.
pub proof fn law_a_receipt_is_stored_once(
    message_id: u64,
    channel_id: u64,
    channel_type: i32,
    reader_uid: u64,
    read_at: u64,
)
    ensures
        ({
            let s = store_receipt_statement(message_id, channel_id, channel_type, reader_uid, read_at);
            let sets = seq![
                sql::bound("message_id"@, 1),
                sql::bound("channel_id"@, 2),
                sql::bound("channel_type"@, 3),
                sql::bound("reader_uid"@, 4),
                sql::bound("read_at"@, 5),
            ];
            &&& sql::is_insertion(s, "INSERT OR REPLACE INTO "@, "read_receipts"@, sets)
            &&& sql::given_values(sets, s.params) == seq![
                ("message_id"@, Some(sql::id_model(message_id))),
                ("channel_id"@, Some(sql::id_model(channel_id))),
                ("channel_type"@, Some(SqlModel::Integer(channel_type as i64))),
                ("reader_uid"@, Some(sql::id_model(reader_uid))),
                ("read_at"@, Some(sql::id_model(read_at))),
            ]
        }),
{
    let s = store_receipt_statement(message_id, channel_id, channel_type, reader_uid, read_at);
    let sets = seq![
        sql::bound("message_id"@, 1),
        sql::bound("channel_id"@, 2),
        sql::bound("channel_type"@, 3),
        sql::bound("reader_uid"@, 4),
        sql::bound("read_at"@, 5),
    ];
    let names = Seq::new(sets.len(), |i: int| sets[i].0);
    assert(names =~= seq!["message_id"@, "channel_id"@, "channel_type"@, "reader_uid"@, "read_at"@]);
    assert(sql::column_list(names) == "message_id"@ + ", "@ + "channel_id"@ + ", "@ + "channel_type"@ + ", "@ + "reader_uid"@ + ", "@ + "read_at"@) by {
        reveal_with_fuel(sql::column_list, 6);
        assert(names.last() == "read_at"@);
        assert(names.drop_last().last() == "reader_uid"@);
        assert(names.drop_last().drop_last().last() == "channel_type"@);
        assert(names.drop_last().drop_last().drop_last().last() == "channel_id"@);
        assert(names.drop_last().drop_last().drop_last().drop_last().last() == "message_id"@);
    }
    assert(sql::value_words(sets) == sql::operand_words(sql::Operand::Parameter(1)) + ", "@ + sql::operand_words(sql::Operand::Parameter(2)) + ", "@ + sql::operand_words(sql::Operand::Parameter(3)) + ", "@ + sql::operand_words(sql::Operand::Parameter(4)) + ", "@ + sql::operand_words(sql::Operand::Parameter(5))) by {
        reveal_with_fuel(sql::value_words, 6);
        assert(sets.last().1 == sql::Operand::Parameter(5));
        assert(sets.drop_last().last().1 == sql::Operand::Parameter(4));
        assert(sets.drop_last().drop_last().last().1 == sql::Operand::Parameter(3));
        assert(sets.drop_last().drop_last().drop_last().last().1 == sql::Operand::Parameter(2));
        assert(sets.drop_last().drop_last().drop_last().drop_last().last().1 == sql::Operand::Parameter(1));
    }
    assert(s.sql =~= "INSERT OR REPLACE INTO "@ + "read_receipts"@ + " ("@ + sql::column_list(names) + ") VALUES ("@ + sql::value_words(sets) + ")"@) by {
        reveal_strlit("INSERT OR REPLACE INTO read_receipts (message_id, channel_id, channel_type, reader_uid, read_at) VALUES (?1, ?2, ?3, ?4, ?5)");
        reveal_strlit("INSERT OR REPLACE INTO ");
        reveal_strlit("read_receipts");
        reveal_strlit(" (");
        reveal_strlit(") VALUES (");
        reveal_strlit(")");
        reveal_strlit("message_id");
        reveal_strlit("?");
        reveal_strlit("channel_id");
        reveal_strlit("channel_type");
        reveal_strlit("reader_uid");
        reveal_strlit("read_at");
        reveal_strlit(", ");
    }
    assert(sql::given_values(sets, s.params) =~= seq![("message_id"@, Some(sql::id_model(message_id))), ("channel_id"@, Some(sql::id_model(channel_id))), ("channel_type"@, Some(SqlModel::Integer(channel_type as i64))), ("reader_uid"@, Some(sql::id_model(reader_uid))), ("read_at"@, Some(sql::id_model(read_at)))]);
}

/// The messages beyond a place are those of the channel with a later position that are not deleted.
pub proof fn law_messages_beyond_a_place_are_counted(
    channel_id: u64,
    channel_type: i32,
    last_read_seq: i64,
    row: RowModel,
    channel: u64,
    kind: i32,
    place: i64,
    deleted: i64,
)
    requires
        row.get("channel_id"@) == Some(sql::id_model(channel)),
        row.get("channel_type"@) == Some(SqlModel::Integer(kind as i64)),
        row.get("message_seq"@) == Some(SqlModel::Integer(place)),
        row.get("is_deleted"@) == Some(SqlModel::Integer(deleted)),
    ensures
        ({
            let s = unread_beyond_statement(channel_id, channel_type, last_read_seq);
            let tests = seq![
                sql::against("channel_id"@, Comparison::Equal, 1),
                sql::against("channel_type"@, Comparison::Equal, 2),
                sql::against("message_seq"@, Comparison::Above, 3),
                sql::against_number("is_deleted"@, Comparison::Equal, 0),
            ];
            &&& sql::is_selection(s, "COUNT(*)"@, "messages"@, tests, ""@)
            &&& sql::meets_all(
                row,
                tests,
                s.params,
            ) <==> channel == channel_id && kind == channel_type && place > last_read_seq && deleted == 0
        }),
{
    let s = unread_beyond_statement(channel_id, channel_type, last_read_seq);
    let tests = seq![
        sql::against("channel_id"@, Comparison::Equal, 1),
        sql::against("channel_type"@, Comparison::Equal, 2),
        sql::against("message_seq"@, Comparison::Above, 3),
        sql::against_number("is_deleted"@, Comparison::Equal, 0),
    ];
    sql::lemma_tests_four(
        sql::against("channel_id"@, Comparison::Equal, 1),
        sql::against("channel_type"@, Comparison::Equal, 2),
        sql::against("message_seq"@, Comparison::Above, 3),
        sql::against_number("is_deleted"@, Comparison::Equal, 0),
        row,
        s.params,
    );
    sql::lemma_stored_ids(channel, channel_id);
    assert(s.sql =~= "SELECT "@ + "COUNT(*)"@ + " FROM "@ + "messages"@ + " WHERE "@ + sql::where_words(tests) + ""@) by {
        reveal_strlit("SELECT COUNT(*) FROM messages WHERE channel_id = ?1 AND channel_type = ?2 AND message_seq > ?3 AND is_deleted = 0");
        reveal_strlit("SELECT ");
        reveal_strlit("COUNT(*)");
        reveal_strlit(" FROM ");
        reveal_strlit("messages");
        reveal_strlit(" WHERE ");
        reveal_strlit("channel_id");
        reveal_strlit(" ");
        reveal_strlit("=");
        reveal_strlit("?");
        reveal_strlit("channel_type");
        reveal_strlit("message_seq");
        reveal_strlit(">");
        reveal_strlit("is_deleted");
        reveal_strlit(" AND ");
        reveal_strlit("");
    }
}

/// A read state is stored with its channel and user, the message and place read up to, the time and the
/// count.
pub proof fn law_a_read_state_is_stored_in_full(state: ChannelReadState)
    ensures
        ({
            let s = store_read_state_statement(state);
            let sets = seq![
                sql::bound("channel_id"@, 1),
                sql::bound("channel_type"@, 2),
                sql::bound("user_id"@, 3),
                sql::bound("last_read_message_id"@, 4),
                sql::bound("last_read_seq"@, 5),
                sql::bound("last_read_at"@, 6),
                sql::bound("unread_count"@, 7),
            ];
            &&& sql::is_insertion(s, "INSERT OR REPLACE INTO "@, "channel_read_states"@, sets)
            &&& sql::given_values(sets, s.params) == seq![
                ("channel_id"@, Some(sql::id_model(state.channel_id))),
                ("channel_type"@, Some(SqlModel::Integer(state.channel_type as i64))),
                ("user_id"@, Some(sql::id_model(state.user_id))),
                ("last_read_message_id"@, Some(sql::opt_id_model(state.last_read_message_id))),
                ("last_read_seq"@, Some(SqlModel::Integer(state.last_read_seq))),
                ("last_read_at"@, Some(sql::id_model(state.last_read_at))),
                ("unread_count"@, Some(SqlModel::Integer(state.unread_count as i64))),
            ]
        }),
{
    let s = store_read_state_statement(state);
    let sets = seq![
        sql::bound("channel_id"@, 1),
        sql::bound("channel_type"@, 2),
        sql::bound("user_id"@, 3),
        sql::bound("last_read_message_id"@, 4),
        sql::bound("last_read_seq"@, 5),
        sql::bound("last_read_at"@, 6),
        sql::bound("unread_count"@, 7),
    ];
    let names = Seq::new(sets.len(), |i: int| sets[i].0);
    assert(names =~= seq!["channel_id"@, "channel_type"@, "user_id"@, "last_read_message_id"@, "last_read_seq"@, "last_read_at"@, "unread_count"@]);
    assert(sql::column_list(names) == "channel_id"@ + ", "@ + "channel_type"@ + ", "@ + "user_id"@ + ", "@ + "last_read_message_id"@ + ", "@ + "last_read_seq"@ + ", "@ + "last_read_at"@ + ", "@ + "unread_count"@) by {
        reveal_with_fuel(sql::column_list, 8);
        assert(names.last() == "unread_count"@);
        assert(names.drop_last().last() == "last_read_at"@);
        assert(names.drop_last().drop_last().last() == "last_read_seq"@);
        assert(names.drop_last().drop_last().drop_last().last() == "last_read_message_id"@);
        assert(names.drop_last().drop_last().drop_last().drop_last().last() == "user_id"@);
        assert(names.drop_last().drop_last().drop_last().drop_last().drop_last().last() == "channel_type"@);
        assert(names.drop_last().drop_last().drop_last().drop_last().drop_last().drop_last().last() == "channel_id"@);
    }
    assert(sql::value_words(sets) == sql::operand_words(sql::Operand::Parameter(1)) + ", "@ + sql::operand_words(sql::Operand::Parameter(2)) + ", "@ + sql::operand_words(sql::Operand::Parameter(3)) + ", "@ + sql::operand_words(sql::Operand::Parameter(4)) + ", "@ + sql::operand_words(sql::Operand::Parameter(5)) + ", "@ + sql::operand_words(sql::Operand::Parameter(6)) + ", "@ + sql::operand_words(sql::Operand::Parameter(7))) by {
        reveal_with_fuel(sql::value_words, 8);
        assert(sets.last().1 == sql::Operand::Parameter(7));
        assert(sets.drop_last().last().1 == sql::Operand::Parameter(6));
        assert(sets.drop_last().drop_last().last().1 == sql::Operand::Parameter(5));
        assert(sets.drop_last().drop_last().drop_last().last().1 == sql::Operand::Parameter(4));
        assert(sets.drop_last().drop_last().drop_last().drop_last().last().1 == sql::Operand::Parameter(3));
        assert(sets.drop_last().drop_last().drop_last().drop_last().drop_last().last().1 == sql::Operand::Parameter(2));
        assert(sets.drop_last().drop_last().drop_last().drop_last().drop_last().drop_last().last().1 == sql::Operand::Parameter(1));
    }
    assert(s.sql =~= "INSERT OR REPLACE INTO "@ + "channel_read_states"@ + " ("@ + sql::column_list(names) + ") VALUES ("@ + sql::value_words(sets) + ")"@) by {
        reveal_strlit("INSERT OR REPLACE INTO channel_read_states (channel_id, channel_type, user_id, last_read_message_id, last_read_seq, last_read_at, unread_count) VALUES (?1, ?2, ?3, ?4, ?5, ?6, ?7)");
        reveal_strlit("INSERT OR REPLACE INTO ");
        reveal_strlit("channel_read_states");
        reveal_strlit(" (");
        reveal_strlit(") VALUES (");
        reveal_strlit(")");
        reveal_strlit("channel_id");
        reveal_strlit("?");
        reveal_strlit("channel_type");
        reveal_strlit("user_id");
        reveal_strlit("last_read_message_id");
        reveal_strlit("last_read_seq");
        reveal_strlit("last_read_at");
        reveal_strlit("unread_count");
        reveal_strlit(", ");
    }
    assert(sql::given_values(sets, s.params) =~= seq![("channel_id"@, Some(sql::id_model(state.channel_id))), ("channel_type"@, Some(SqlModel::Integer(state.channel_type as i64))), ("user_id"@, Some(sql::id_model(state.user_id))), ("last_read_message_id"@, Some(sql::opt_id_model(state.last_read_message_id))), ("last_read_seq"@, Some(SqlModel::Integer(state.last_read_seq))), ("last_read_at"@, Some(sql::id_model(state.last_read_at))), ("unread_count"@, Some(SqlModel::Integer(state.unread_count as i64)))]);
}

/// The place read up to is that of the user in the channel.
pub proof fn law_the_place_read_up_to_is_the_users_own(
    channel_id: u64,
    channel_type: i32,
    user_id: u64,
    row: RowModel,
    channel: u64,
    kind: i32,
    user: u64,
)
    requires
        row.get("channel_id"@) == Some(sql::id_model(channel)),
        row.get("channel_type"@) == Some(SqlModel::Integer(kind as i64)),
        row.get("user_id"@) == Some(sql::id_model(user)),
    ensures
        ({
            let s = last_read_seq_statement(channel_id, channel_type, user_id);
            let tests = seq![
                sql::against("channel_id"@, Comparison::Equal, 1),
                sql::against("channel_type"@, Comparison::Equal, 2),
                sql::against("user_id"@, Comparison::Equal, 3),
            ];
            &&& sql::is_selection(s, "COALESCE(last_read_seq, 0)"@, "channel_read_states"@, tests, ""@)
            &&& sql::meets_all(
                row,
                tests,
                s.params,
            ) <==> channel == channel_id && kind == channel_type && user == user_id
        }),
{
    let s = last_read_seq_statement(channel_id, channel_type, user_id);
    let tests = seq![
        sql::against("channel_id"@, Comparison::Equal, 1),
        sql::against("channel_type"@, Comparison::Equal, 2),
        sql::against("user_id"@, Comparison::Equal, 3),
    ];
    sql::lemma_tests_three(
        sql::against("channel_id"@, Comparison::Equal, 1),
        sql::against("channel_type"@, Comparison::Equal, 2),
        sql::against("user_id"@, Comparison::Equal, 3),
        row,
        s.params,
    );
    sql::lemma_stored_ids(channel, channel_id);
    sql::lemma_stored_ids(user, user_id);
    assert(s.sql =~= "SELECT "@ + "COALESCE(last_read_seq, 0)"@ + " FROM "@ + "channel_read_states"@ + " WHERE "@ + sql::where_words(tests) + ""@) by {
        reveal_strlit("SELECT COALESCE(last_read_seq, 0) FROM channel_read_states WHERE channel_id = ?1 AND channel_type = ?2 AND user_id = ?3");
        reveal_strlit("SELECT ");
        reveal_strlit("COALESCE(last_read_seq, 0)");
        reveal_strlit(" FROM ");
        reveal_strlit("channel_read_states");
        reveal_strlit(" WHERE ");
        reveal_strlit("channel_id");
        reveal_strlit(" ");
        reveal_strlit("=");
        reveal_strlit("?");
        reveal_strlit("channel_type");
        reveal_strlit("user_id");
        reveal_strlit(" AND ");
        reveal_strlit("");
    }
}

/// The receipts of a message are listed, the earliest first.
pub proof fn law_receipts_of_a_message_are_listed(message_id: u64, row: RowModel, message: u64)
    requires
        row.get("message_id"@) == Some(sql::id_model(message)),
    ensures
        ({
            let s = get_message_read_receipts_statement(message_id);
            let tests = seq![sql::against("message_id"@, Comparison::Equal, 1)];
            &&& sql::is_selection(
                s,
                "message_id, channel_id, channel_type, reader_uid, read_at"@,
                "read_receipts"@,
                tests,
                " ORDER BY read_at ASC"@,
            )
            &&& sql::meets_all(row, tests, s.params) <==> message == message_id
        }),
{
    let s = get_message_read_receipts_statement(message_id);
    let tests = seq![sql::against("message_id"@, Comparison::Equal, 1)];
    sql::lemma_tests_one(sql::against("message_id"@, Comparison::Equal, 1), row, s.params);
    sql::lemma_stored_ids(message, message_id);
    assert(s.sql =~= "SELECT "@ + "message_id, channel_id, channel_type, reader_uid, read_at"@ + " FROM "@ + "read_receipts"@ + " WHERE "@ + sql::where_words(tests) + " ORDER BY read_at ASC"@) by {
        reveal_strlit("SELECT message_id, channel_id, channel_type, reader_uid, read_at FROM read_receipts WHERE message_id = ?1 ORDER BY read_at ASC");
        reveal_strlit("SELECT ");
        reveal_strlit("message_id, channel_id, channel_type, reader_uid, read_at");
        reveal_strlit(" FROM ");
        reveal_strlit("read_receipts");
        reveal_strlit(" WHERE ");
        reveal_strlit("message_id");
        reveal_strlit(" ");
        reveal_strlit("=");
        reveal_strlit("?");
        reveal_strlit(" ORDER BY read_at ASC");
    }
}

/// The place of a message is found by its number.
pub proof fn law_the_place_of_a_message_is_found(message_id: u64, row: RowModel, message: u64)
    requires
        row.get("message_id"@) == Some(sql::id_model(message)),
    ensures
        ({
            let s = message_seq_statement(message_id);
            let tests = seq![sql::against("message_id"@, Comparison::Equal, 1)];
            &&& sql::is_selection(s, "message_seq"@, "messages"@, tests, ""@)
            &&& sql::meets_all(row, tests, s.params) <==> message == message_id
        }),
{
    let s = message_seq_statement(message_id);
    let tests = seq![sql::against("message_id"@, Comparison::Equal, 1)];
    sql::lemma_tests_one(sql::against("message_id"@, Comparison::Equal, 1), row, s.params);
    sql::lemma_stored_ids(message, message_id);
    assert(s.sql =~= "SELECT "@ + "message_seq"@ + " FROM "@ + "messages"@ + " WHERE "@ + sql::where_words(tests) + ""@) by {
        reveal_strlit("SELECT message_seq FROM messages WHERE message_id = ?1");
        reveal_strlit("SELECT ");
        reveal_strlit("message_seq");
        reveal_strlit(" FROM ");
        reveal_strlit("messages");
        reveal_strlit(" WHERE ");
        reveal_strlit("message_id");
        reveal_strlit(" ");
        reveal_strlit("=");
        reveal_strlit("?");
        reveal_strlit("");
    }
}

/// The content of a message is found by its number.
pub proof fn law_the_content_of_a_message_is_found(message_id: u64, row: RowModel, message: u64)
    requires
        row.get("message_id"@) == Some(sql::id_model(message)),
    ensures
        ({
            let s = message_content_statement(message_id);
            let tests = seq![sql::against("message_id"@, Comparison::Equal, 1)];
            &&& sql::is_selection(s, "content"@, "messages"@, tests, ""@)
            &&& sql::meets_all(row, tests, s.params) <==> message == message_id
        }),
{
    let s = message_content_statement(message_id);
    let tests = seq![sql::against("message_id"@, Comparison::Equal, 1)];
    sql::lemma_tests_one(sql::against("message_id"@, Comparison::Equal, 1), row, s.params);
    sql::lemma_stored_ids(message, message_id);
    assert(s.sql =~= "SELECT "@ + "content"@ + " FROM "@ + "messages"@ + " WHERE "@ + sql::where_words(tests) + ""@) by {
        reveal_strlit("SELECT content FROM messages WHERE message_id = ?1");
        reveal_strlit("SELECT ");
        reveal_strlit("content");
        reveal_strlit(" FROM ");
        reveal_strlit("messages");
        reveal_strlit(" WHERE ");
        reveal_strlit("message_id");
        reveal_strlit(" ");
        reveal_strlit("=");
        reveal_strlit("?");
        reveal_strlit("");
    }
}

/// Revoking sets the status of the one message to revoked, and its time of change.
pub proof fn law_one_stored_message_is_marked_revoked(message_id: u64, row: RowModel, message: u64)
    requires
        row.get("message_id"@) == Some(sql::id_model(message)),
    ensures
        ({
            let s = mark_revoked_statement(message_id);
            let sets = seq![
                sql::bound("status"@, 1),
                ("updated_at"@, sql::Operand::Words("CURRENT_TIMESTAMP"@)),
            ];
            let tests = seq![sql::against("message_id"@, Comparison::Equal, 2)];
            &&& sql::is_update(s, "messages"@, sets, tests)
            &&& sql::given_values(sets, s.params) == seq![
                ("status"@, Some(SqlModel::Integer(6))),
                ("updated_at"@, None),
            ]
            &&& sql::meets_all(row, tests, s.params) <==> message == message_id
        }),
{
    let s = mark_revoked_statement(message_id);
    let sets = seq![
        sql::bound("status"@, 1),
        ("updated_at"@, sql::Operand::Words("CURRENT_TIMESTAMP"@)),
    ];
    let tests = seq![sql::against("message_id"@, Comparison::Equal, 2)];
    sql::lemma_tests_one(sql::against("message_id"@, Comparison::Equal, 2), row, s.params);
    sql::lemma_sets_two(
        sql::bound("status"@, 1),
        ("updated_at"@, sql::Operand::Words("CURRENT_TIMESTAMP"@)),
        s.params,
    );
    sql::lemma_stored_ids(message, message_id);
    assert(s.sql =~= "UPDATE "@ + "messages"@ + " SET "@ + sql::set_words(sets) + " WHERE "@ + sql::where_words(tests)) by {
        reveal_strlit("UPDATE messages SET status = ?1, updated_at = CURRENT_TIMESTAMP WHERE message_id = ?2");
        reveal_strlit("UPDATE ");
        reveal_strlit("messages");
        reveal_strlit(" SET ");
        reveal_strlit(" = ");
        reveal_strlit(" WHERE ");
        reveal_strlit("status");
        reveal_strlit("?");
        reveal_strlit("updated_at");
        reveal_strlit("CURRENT_TIMESTAMP");
        reveal_strlit(", ");
        reveal_strlit("message_id");
        reveal_strlit(" ");
        reveal_strlit("=");
    }
}

/// The record of a revocation names the message, its channel and who revoked it, and has the time as
/// its version.
pub proof fn law_a_revocation_names_its_channel(
    message_id: u64,
    channel_id: u64,
    channel_type: i32,
    revoker_uid: u64,
    now: u64,
)
    ensures
        ({
            let s = record_revocation_statement(message_id, channel_id, channel_type, revoker_uid, now);
            let sets = seq![
                sql::bound("message_id"@, 1),
                sql::bound("channel_id"@, 2),
                sql::bound("channel_type"@, 3),
                sql::fixed("revoke"@, 1),
                sql::bound("revoker"@, 4),
                sql::bound("extra_version"@, 5),
            ];
            &&& sql::is_insertion(s, "INSERT OR REPLACE INTO "@, "message_extra"@, sets)
            &&& sql::given_values(sets, s.params) == seq![
                ("message_id"@, Some(sql::id_model(message_id))),
                ("channel_id"@, Some(sql::id_model(channel_id))),
                ("channel_type"@, Some(SqlModel::Integer(channel_type as i64))),
                ("revoke"@, Some(SqlModel::Integer(1))),
                ("revoker"@, Some(sql::id_model(revoker_uid))),
                ("extra_version"@, Some(sql::id_model(now))),
            ]
        }),
{
    let s = record_revocation_statement(message_id, channel_id, channel_type, revoker_uid, now);
    let sets = seq![
        sql::bound("message_id"@, 1),
        sql::bound("channel_id"@, 2),
        sql::bound("channel_type"@, 3),
        sql::fixed("revoke"@, 1),
        sql::bound("revoker"@, 4),
        sql::bound("extra_version"@, 5),
    ];
    let names = Seq::new(sets.len(), |i: int| sets[i].0);
    assert(names =~= seq!["message_id"@, "channel_id"@, "channel_type"@, "revoke"@, "revoker"@, "extra_version"@]);
    assert(sql::column_list(names) == "message_id"@ + ", "@ + "channel_id"@ + ", "@ + "channel_type"@ + ", "@ + "revoke"@ + ", "@ + "revoker"@ + ", "@ + "extra_version"@) by {
        reveal_with_fuel(sql::column_list, 7);
        assert(names.last() == "extra_version"@);
        assert(names.drop_last().last() == "revoker"@);
        assert(names.drop_last().drop_last().last() == "revoke"@);
        assert(names.drop_last().drop_last().drop_last().last() == "channel_type"@);
        assert(names.drop_last().drop_last().drop_last().drop_last().last() == "channel_id"@);
        assert(names.drop_last().drop_last().drop_last().drop_last().drop_last().last() == "message_id"@);
    }
    assert(sql::value_words(sets) == sql::operand_words(sql::Operand::Parameter(1)) + ", "@ + sql::operand_words(sql::Operand::Parameter(2)) + ", "@ + sql::operand_words(sql::Operand::Parameter(3)) + ", "@ + sql::operand_words(sql::Operand::Number(1)) + ", "@ + sql::operand_words(sql::Operand::Parameter(4)) + ", "@ + sql::operand_words(sql::Operand::Parameter(5))) by {
        reveal_with_fuel(sql::value_words, 7);
        assert(sets.last().1 == sql::Operand::Parameter(5));
        assert(sets.drop_last().last().1 == sql::Operand::Parameter(4));
        assert(sets.drop_last().drop_last().last().1 == sql::Operand::Number(1));
        assert(sets.drop_last().drop_last().drop_last().last().1 == sql::Operand::Parameter(3));
        assert(sets.drop_last().drop_last().drop_last().drop_last().last().1 == sql::Operand::Parameter(2));
        assert(sets.drop_last().drop_last().drop_last().drop_last().drop_last().last().1 == sql::Operand::Parameter(1));
    }
    assert(s.sql =~= "INSERT OR REPLACE INTO "@ + "message_extra"@ + " ("@ + sql::column_list(names) + ") VALUES ("@ + sql::value_words(sets) + ")"@) by {
        reveal_strlit("INSERT OR REPLACE INTO message_extra (message_id, channel_id, channel_type, revoke, revoker, extra_version) VALUES (?1, ?2, ?3, 1, ?4, ?5)");
        reveal_strlit("INSERT OR REPLACE INTO ");
        reveal_strlit("message_extra");
        reveal_strlit(" (");
        reveal_strlit(") VALUES (");
        reveal_strlit(")");
        reveal_strlit("message_id");
        reveal_strlit("?");
        reveal_strlit("channel_id");
        reveal_strlit("channel_type");
        reveal_strlit("revoke");
        reveal_strlit("revoker");
        reveal_strlit("extra_version");
        reveal_strlit(", ");
    }
    assert(sql::given_values(sets, s.params) =~= seq![("message_id"@, Some(sql::id_model(message_id))), ("channel_id"@, Some(sql::id_model(channel_id))), ("channel_type"@, Some(SqlModel::Integer(channel_type as i64))), ("revoke"@, Some(SqlModel::Integer(1))), ("revoker"@, Some(sql::id_model(revoker_uid))), ("extra_version"@, Some(sql::id_model(now)))]);
}

/// The version of a message is the highest of its own edits, or 0.
pub proof fn law_the_version_of_a_message_is_found(message_id: u64, row: RowModel, message: u64)
    requires
        row.get("message_id"@) == Some(sql::id_model(message)),
    ensures
        ({
            let s = edit_version_statement(message_id);
            let tests = seq![sql::against("message_id"@, Comparison::Equal, 1)];
            &&& sql::is_selection(
                s,
                "COALESCE(MAX(edit_version), 0)"@,
                "message_edit_history"@,
                tests,
                ""@,
            )
            &&& sql::meets_all(row, tests, s.params) <==> message == message_id
        }),
{
    let s = edit_version_statement(message_id);
    let tests = seq![sql::against("message_id"@, Comparison::Equal, 1)];
    sql::lemma_tests_one(sql::against("message_id"@, Comparison::Equal, 1), row, s.params);
    sql::lemma_stored_ids(message, message_id);
    assert(s.sql =~= "SELECT "@ + "COALESCE(MAX(edit_version), 0)"@ + " FROM "@ + "message_edit_history"@ + " WHERE "@ + sql::where_words(tests) + ""@) by {
        reveal_strlit("SELECT COALESCE(MAX(edit_version), 0) FROM message_edit_history WHERE message_id = ?1");
        reveal_strlit("SELECT ");
        reveal_strlit("COALESCE(MAX(edit_version), 0)");
        reveal_strlit(" FROM ");
        reveal_strlit("message_edit_history");
        reveal_strlit(" WHERE ");
        reveal_strlit("message_id");
        reveal_strlit(" ");
        reveal_strlit("=");
        reveal_strlit("?");
        reveal_strlit("");
    }
}

/// An edit is kept with its message, channel and editor, both contents, its version and its time.
pub proof fn law_an_edit_is_kept_in_full(
    message_id: u64,
    channel_id: u64,
    channel_type: i32,
    editor_uid: u64,
    old_content: Seq<char>,
    new_content: Seq<char>,
    edit_version: u32,
    now: u64,
)
    ensures
        ({
            let s = keep_edit_statement(
                message_id,
                channel_id,
                channel_type,
                editor_uid,
                old_content,
                new_content,
                edit_version,
                now,
            );
            let sets = seq![
                sql::bound("message_id"@, 1),
                sql::bound("channel_id"@, 2),
                sql::bound("channel_type"@, 3),
                sql::bound("editor_uid"@, 4),
                sql::bound("old_content"@, 5),
                sql::bound("new_content"@, 6),
                sql::bound("edit_version"@, 7),
                sql::bound("edited_at"@, 8),
            ];
            &&& sql::is_insertion(s, "INSERT INTO "@, "message_edit_history"@, sets)
            &&& sql::given_values(sets, s.params) == seq![
                ("message_id"@, Some(sql::id_model(message_id))),
                ("channel_id"@, Some(sql::id_model(channel_id))),
                ("channel_type"@, Some(SqlModel::Integer(channel_type as i64))),
                ("editor_uid"@, Some(sql::id_model(editor_uid))),
                ("old_content"@, Some(SqlModel::Text(old_content))),
                ("new_content"@, Some(SqlModel::Text(new_content))),
                ("edit_version"@, Some(SqlModel::Integer(edit_version as i64))),
                ("edited_at"@, Some(sql::id_model(now))),
            ]
        }),
{
    let s = keep_edit_statement(
        message_id,
        channel_id,
        channel_type,
        editor_uid,
        old_content,
        new_content,
        edit_version,
        now,
    );
    let sets = seq![
        sql::bound("message_id"@, 1),
        sql::bound("channel_id"@, 2),
        sql::bound("channel_type"@, 3),
        sql::bound("editor_uid"@, 4),
        sql::bound("old_content"@, 5),
        sql::bound("new_content"@, 6),
        sql::bound("edit_version"@, 7),
        sql::bound("edited_at"@, 8),
    ];
    let names = Seq::new(sets.len(), |i: int| sets[i].0);
    assert(names =~= seq!["message_id"@, "channel_id"@, "channel_type"@, "editor_uid"@, "old_content"@, "new_content"@, "edit_version"@, "edited_at"@]);
    assert(sql::column_list(names) == "message_id"@ + ", "@ + "channel_id"@ + ", "@ + "channel_type"@ + ", "@ + "editor_uid"@ + ", "@ + "old_content"@ + ", "@ + "new_content"@ + ", "@ + "edit_version"@ + ", "@ + "edited_at"@) by {
        reveal_with_fuel(sql::column_list, 9);
        assert(names.last() == "edited_at"@);
        assert(names.drop_last().last() == "edit_version"@);
        assert(names.drop_last().drop_last().last() == "new_content"@);
        assert(names.drop_last().drop_last().drop_last().last() == "old_content"@);
        assert(names.drop_last().drop_last().drop_last().drop_last().last() == "editor_uid"@);
        assert(names.drop_last().drop_last().drop_last().drop_last().drop_last().last() == "channel_type"@);
        assert(names.drop_last().drop_last().drop_last().drop_last().drop_last().drop_last().last() == "channel_id"@);
        assert(names.drop_last().drop_last().drop_last().drop_last().drop_last().drop_last().drop_last().last() == "message_id"@);
    }
    assert(sql::value_words(sets) == sql::operand_words(sql::Operand::Parameter(1)) + ", "@ + sql::operand_words(sql::Operand::Parameter(2)) + ", "@ + sql::operand_words(sql::Operand::Parameter(3)) + ", "@ + sql::operand_words(sql::Operand::Parameter(4)) + ", "@ + sql::operand_words(sql::Operand::Parameter(5)) + ", "@ + sql::operand_words(sql::Operand::Parameter(6)) + ", "@ + sql::operand_words(sql::Operand::Parameter(7)) + ", "@ + sql::operand_words(sql::Operand::Parameter(8))) by {
        reveal_with_fuel(sql::value_words, 9);
        assert(sets.last().1 == sql::Operand::Parameter(8));
        assert(sets.drop_last().last().1 == sql::Operand::Parameter(7));
        assert(sets.drop_last().drop_last().last().1 == sql::Operand::Parameter(6));
        assert(sets.drop_last().drop_last().drop_last().last().1 == sql::Operand::Parameter(5));
        assert(sets.drop_last().drop_last().drop_last().drop_last().last().1 == sql::Operand::Parameter(4));
        assert(sets.drop_last().drop_last().drop_last().drop_last().drop_last().last().1 == sql::Operand::Parameter(3));
        assert(sets.drop_last().drop_last().drop_last().drop_last().drop_last().drop_last().last().1 == sql::Operand::Parameter(2));
        assert(sets.drop_last().drop_last().drop_last().drop_last().drop_last().drop_last().drop_last().last().1 == sql::Operand::Parameter(1));
    }
    assert(s.sql =~= "INSERT INTO "@ + "message_edit_history"@ + " ("@ + sql::column_list(names) + ") VALUES ("@ + sql::value_words(sets) + ")"@) by {
        reveal_strlit("INSERT INTO message_edit_history (message_id, channel_id, channel_type, editor_uid, old_content, new_content, edit_version, edited_at) VALUES (?1, ?2, ?3, ?4, ?5, ?6, ?7, ?8)");
        reveal_strlit("INSERT INTO ");
        reveal_strlit("message_edit_history");
        reveal_strlit(" (");
        reveal_strlit(") VALUES (");
        reveal_strlit(")");
        reveal_strlit("message_id");
        reveal_strlit("?");
        reveal_strlit("channel_id");
        reveal_strlit("channel_type");
        reveal_strlit("editor_uid");
        reveal_strlit("old_content");
        reveal_strlit("new_content");
        reveal_strlit("edit_version");
        reveal_strlit("edited_at");
        reveal_strlit(", ");
    }
    assert(sql::given_values(sets, s.params) =~= seq![("message_id"@, Some(sql::id_model(message_id))), ("channel_id"@, Some(sql::id_model(channel_id))), ("channel_type"@, Some(SqlModel::Integer(channel_type as i64))), ("editor_uid"@, Some(sql::id_model(editor_uid))), ("old_content"@, Some(SqlModel::Text(old_content))), ("new_content"@, Some(SqlModel::Text(new_content))), ("edit_version"@, Some(SqlModel::Integer(edit_version as i64))), ("edited_at"@, Some(sql::id_model(now)))]);
}

/// An edit replaces the content of the one message, and its time of change.
pub proof fn law_the_content_of_one_message_is_replaced(
    message_id: u64,
    new_content: Seq<char>,
    row: RowModel,
    message: u64,
)
    requires
        row.get("message_id"@) == Some(sql::id_model(message)),
    ensures
        ({
            let s = replace_content_statement(message_id, new_content);
            let sets = seq![
                sql::bound("content"@, 1),
                ("updated_at"@, sql::Operand::Words("CURRENT_TIMESTAMP"@)),
            ];
            let tests = seq![sql::against("message_id"@, Comparison::Equal, 2)];
            &&& sql::is_update(s, "messages"@, sets, tests)
            &&& sql::given_values(sets, s.params) == seq![
                ("content"@, Some(SqlModel::Text(new_content))),
                ("updated_at"@, None),
            ]
            &&& sql::meets_all(row, tests, s.params) <==> message == message_id
        }),
{
    let s = replace_content_statement(message_id, new_content);
    let sets = seq![
        sql::bound("content"@, 1),
        ("updated_at"@, sql::Operand::Words("CURRENT_TIMESTAMP"@)),
    ];
    let tests = seq![sql::against("message_id"@, Comparison::Equal, 2)];
    sql::lemma_tests_one(sql::against("message_id"@, Comparison::Equal, 2), row, s.params);
    sql::lemma_sets_two(
        sql::bound("content"@, 1),
        ("updated_at"@, sql::Operand::Words("CURRENT_TIMESTAMP"@)),
        s.params,
    );
    sql::lemma_stored_ids(message, message_id);
    assert(s.sql =~= "UPDATE "@ + "messages"@ + " SET "@ + sql::set_words(sets) + " WHERE "@ + sql::where_words(tests)) by {
        reveal_strlit("UPDATE messages SET content = ?1, updated_at = CURRENT_TIMESTAMP WHERE message_id = ?2");
        reveal_strlit("UPDATE ");
        reveal_strlit("messages");
        reveal_strlit(" SET ");
        reveal_strlit(" = ");
        reveal_strlit(" WHERE ");
        reveal_strlit("content");
        reveal_strlit("?");
        reveal_strlit("updated_at");
        reveal_strlit("CURRENT_TIMESTAMP");
        reveal_strlit(", ");
        reveal_strlit("message_id");
        reveal_strlit(" ");
        reveal_strlit("=");
    }
}

/// The record of an edit names the message and its channel, holds the new content, and has the time of
/// the edit, also as its version.
pub proof fn law_an_edit_names_its_channel(
    message_id: u64,
    channel_id: u64,
    channel_type: i32,
    new_content: Seq<char>,
    now: u64,
)
    ensures
        ({
            let s = record_edit_statement(message_id, channel_id, channel_type, new_content, now);
            let sets = seq![
                sql::bound("message_id"@, 1),
                sql::bound("channel_id"@, 2),
                sql::bound("channel_type"@, 3),
                sql::bound("content_edit"@, 4),
                sql::bound("edited_at"@, 5),
                sql::bound("extra_version"@, 6),
            ];
            &&& sql::is_insertion(s, "INSERT OR REPLACE INTO "@, "message_extra"@, sets)
            &&& sql::given_values(sets, s.params) == seq![
                ("message_id"@, Some(sql::id_model(message_id))),
                ("channel_id"@, Some(sql::id_model(channel_id))),
                ("channel_type"@, Some(SqlModel::Integer(channel_type as i64))),
                ("content_edit"@, Some(SqlModel::Text(new_content))),
                ("edited_at"@, Some(SqlModel::Integer((now as i32) as i64))),
                ("extra_version"@, Some(sql::id_model(now))),
            ]
        }),
{
    let s = record_edit_statement(message_id, channel_id, channel_type, new_content, now);
    let sets = seq![
        sql::bound("message_id"@, 1),
        sql::bound("channel_id"@, 2),
        sql::bound("channel_type"@, 3),
        sql::bound("content_edit"@, 4),
        sql::bound("edited_at"@, 5),
        sql::bound("extra_version"@, 6),
    ];
    let names = Seq::new(sets.len(), |i: int| sets[i].0);
    assert(names =~= seq!["message_id"@, "channel_id"@, "channel_type"@, "content_edit"@, "edited_at"@, "extra_version"@]);
    assert(sql::column_list(names) == "message_id"@ + ", "@ + "channel_id"@ + ", "@ + "channel_type"@ + ", "@ + "content_edit"@ + ", "@ + "edited_at"@ + ", "@ + "extra_version"@) by {
        reveal_with_fuel(sql::column_list, 7);
        assert(names.last() == "extra_version"@);
        assert(names.drop_last().last() == "edited_at"@);
        assert(names.drop_last().drop_last().last() == "content_edit"@);
        assert(names.drop_last().drop_last().drop_last().last() == "channel_type"@);
        assert(names.drop_last().drop_last().drop_last().drop_last().last() == "channel_id"@);
        assert(names.drop_last().drop_last().drop_last().drop_last().drop_last().last() == "message_id"@);
    }
    assert(sql::value_words(sets) == sql::operand_words(sql::Operand::Parameter(1)) + ", "@ + sql::operand_words(sql::Operand::Parameter(2)) + ", "@ + sql::operand_words(sql::Operand::Parameter(3)) + ", "@ + sql::operand_words(sql::Operand::Parameter(4)) + ", "@ + sql::operand_words(sql::Operand::Parameter(5)) + ", "@ + sql::operand_words(sql::Operand::Parameter(6))) by {
        reveal_with_fuel(sql::value_words, 7);
        assert(sets.last().1 == sql::Operand::Parameter(6));
        assert(sets.drop_last().last().1 == sql::Operand::Parameter(5));
        assert(sets.drop_last().drop_last().last().1 == sql::Operand::Parameter(4));
        assert(sets.drop_last().drop_last().drop_last().last().1 == sql::Operand::Parameter(3));
        assert(sets.drop_last().drop_last().drop_last().drop_last().last().1 == sql::Operand::Parameter(2));
        assert(sets.drop_last().drop_last().drop_last().drop_last().drop_last().last().1 == sql::Operand::Parameter(1));
    }
    assert(s.sql =~= "INSERT OR REPLACE INTO "@ + "message_extra"@ + " ("@ + sql::column_list(names) + ") VALUES ("@ + sql::value_words(sets) + ")"@) by {
        reveal_strlit("INSERT OR REPLACE INTO message_extra (message_id, channel_id, channel_type, content_edit, edited_at, extra_version) VALUES (?1, ?2, ?3, ?4, ?5, ?6)");
        reveal_strlit("INSERT OR REPLACE INTO ");
        reveal_strlit("message_extra");
        reveal_strlit(" (");
        reveal_strlit(") VALUES (");
        reveal_strlit(")");
        reveal_strlit("message_id");
        reveal_strlit("?");
        reveal_strlit("channel_id");
        reveal_strlit("channel_type");
        reveal_strlit("content_edit");
        reveal_strlit("edited_at");
        reveal_strlit("extra_version");
        reveal_strlit(", ");
    }
    assert(sql::given_values(sets, s.params) =~= seq![("message_id"@, Some(sql::id_model(message_id))), ("channel_id"@, Some(sql::id_model(channel_id))), ("channel_type"@, Some(SqlModel::Integer(channel_type as i64))), ("content_edit"@, Some(SqlModel::Text(new_content))), ("edited_at"@, Some(SqlModel::Integer((now as i32) as i64))), ("extra_version"@, Some(sql::id_model(now)))]);
}

/// The edits of a message are listed by their versions.
pub proof fn law_edits_of_a_message_are_listed(message_id: u64, row: RowModel, message: u64)
    requires
        row.get("message_id"@) == Some(sql::id_model(message)),
    ensures
        ({
            let s = get_message_edit_history_statement(message_id);
            let tests = seq![sql::against("message_id"@, Comparison::Equal, 1)];
            &&& sql::is_selection(
                s,
                "message_id, channel_id, channel_type, editor_uid, new_content, edit_version, edited_at"@,
                "message_edit_history"@,
                tests,
                " ORDER BY edit_version ASC"@,
            )
            &&& sql::meets_all(row, tests, s.params) <==> message == message_id
        }),
{
    let s = get_message_edit_history_statement(message_id);
    let tests = seq![sql::against("message_id"@, Comparison::Equal, 1)];
    sql::lemma_tests_one(sql::against("message_id"@, Comparison::Equal, 1), row, s.params);
    sql::lemma_stored_ids(message, message_id);
    assert(s.sql =~= "SELECT "@ + "message_id, channel_id, channel_type, editor_uid, new_content, edit_version, edited_at"@ + " FROM "@ + "message_edit_history"@ + " WHERE "@ + sql::where_words(tests) + " ORDER BY edit_version ASC"@) by {
        reveal_strlit("SELECT message_id, channel_id, channel_type, editor_uid, new_content, edit_version, edited_at FROM message_edit_history WHERE message_id = ?1 ORDER BY edit_version ASC");
        reveal_strlit("SELECT ");
        reveal_strlit("message_id, channel_id, channel_type, editor_uid, new_content, edit_version, edited_at");
        reveal_strlit(" FROM ");
        reveal_strlit("message_edit_history");
        reveal_strlit(" WHERE ");
        reveal_strlit("message_id");
        reveal_strlit(" ");
        reveal_strlit("=");
        reveal_strlit("?");
        reveal_strlit(" ORDER BY edit_version ASC");
    }
}

/// The read states that are listed are those of the channel's id and type.
pub proof fn law_read_states_of_a_channel_are_listed(
    channel_id: u64,
    channel_type: i32,
    row: RowModel,
    channel: u64,
    kind: i32,
)
    requires
        row.get("channel_id"@) == Some(sql::id_model(channel)),
        row.get("channel_type"@) == Some(SqlModel::Integer(kind as i64)),
    ensures
        ({
            let s = get_channel_read_states_statement(channel_id, channel_type);
            let tests = seq![
                sql::against("channel_id"@, Comparison::Equal, 1),
                sql::against("channel_type"@, Comparison::Equal, 2),
            ];
            &&& sql::is_selection(
                s,
                "channel_id, channel_type, user_id, last_read_message_id, last_read_seq, last_read_at, unread_count"@,
                "channel_read_states"@,
                tests,
                ""@,
            )
            &&& sql::meets_all(row, tests, s.params) <==> channel == channel_id && kind == channel_type
        }),
{
    let s = get_channel_read_states_statement(channel_id, channel_type);
    let tests = seq![
        sql::against("channel_id"@, Comparison::Equal, 1),
        sql::against("channel_type"@, Comparison::Equal, 2),
    ];
    sql::lemma_tests_two(
        sql::against("channel_id"@, Comparison::Equal, 1),
        sql::against("channel_type"@, Comparison::Equal, 2),
        row,
        s.params,
    );
    sql::lemma_stored_ids(channel, channel_id);
    assert(s.sql =~= "SELECT "@ + "channel_id, channel_type, user_id, last_read_message_id, last_read_seq, last_read_at, unread_count"@ + " FROM "@ + "channel_read_states"@ + " WHERE "@ + sql::where_words(tests) + ""@) by {
        reveal_strlit("SELECT channel_id, channel_type, user_id, last_read_message_id, last_read_seq, last_read_at, unread_count FROM channel_read_states WHERE channel_id = ?1 AND channel_type = ?2");
        reveal_strlit("SELECT ");
        reveal_strlit("channel_id, channel_type, user_id, last_read_message_id, last_read_seq, last_read_at, unread_count");
        reveal_strlit(" FROM ");
        reveal_strlit("channel_read_states");
        reveal_strlit(" WHERE ");
        reveal_strlit("channel_id");
        reveal_strlit(" ");
        reveal_strlit("=");
        reveal_strlit("?");
        reveal_strlit("channel_type");
        reveal_strlit(" AND ");
        reveal_strlit("");
    }
}

/// The receipts that are cleaned up are those from before the given time.
pub proof fn law_only_old_receipts_are_cleaned_up(cutoff: u64, row: RowModel, at: u64)
    requires
        at <= i64::MAX,
        cutoff <= i64::MAX,
        row.get("read_at"@) == Some(sql::id_model(at)),
    ensures
        ({
            let s = cleanup_old_read_receipts_statement(cutoff);
            let tests = seq![sql::against("read_at"@, Comparison::Below, 1)];
            &&& sql::is_removal(s, "read_receipts"@, tests)
            &&& sql::meets_all(row, tests, s.params) <==> at < cutoff
        }),
{
    let s = cleanup_old_read_receipts_statement(cutoff);
    let tests = seq![sql::against("read_at"@, Comparison::Below, 1)];
    sql::lemma_tests_one(sql::against("read_at"@, Comparison::Below, 1), row, s.params);
    assert(s.sql =~= "DELETE FROM "@ + "read_receipts"@ + " WHERE "@ + sql::where_words(tests)) by {
        reveal_strlit("DELETE FROM read_receipts WHERE read_at < ?1");
        reveal_strlit("DELETE FROM ");
        reveal_strlit("read_receipts");
        reveal_strlit(" WHERE ");
        reveal_strlit("read_at");
        reveal_strlit(" ");
        reveal_strlit("<");
        reveal_strlit("?");
    }
}

/// The edits that are cleaned up are those from before the given time.
pub proof fn law_only_old_edits_are_cleaned_up(cutoff: u64, row: RowModel, at: u64)
    requires
        at <= i64::MAX,
        cutoff <= i64::MAX,
        row.get("edited_at"@) == Some(sql::id_model(at)),
    ensures
        ({
            let s = cleanup_old_edit_history_statement(cutoff);
            let tests = seq![sql::against("edited_at"@, Comparison::Below, 1)];
            &&& sql::is_removal(s, "message_edit_history"@, tests)
            &&& sql::meets_all(row, tests, s.params) <==> at < cutoff
        }),
{
    let s = cleanup_old_edit_history_statement(cutoff);
    let tests = seq![sql::against("edited_at"@, Comparison::Below, 1)];
    sql::lemma_tests_one(sql::against("edited_at"@, Comparison::Below, 1), row, s.params);
    assert(s.sql =~= "DELETE FROM "@ + "message_edit_history"@ + " WHERE "@ + sql::where_words(tests)) by {
        reveal_strlit("DELETE FROM message_edit_history WHERE edited_at < ?1");
        reveal_strlit("DELETE FROM ");
        reveal_strlit("message_edit_history");
        reveal_strlit(" WHERE ");
        reveal_strlit("edited_at");
        reveal_strlit(" ");
        reveal_strlit("<");
        reveal_strlit("?");
    }
}

/// A row that holds the parts of a receipt in the columns of their names is read as it.
pub proof fn law_a_stored_receipt_reads_back(row: RowModel, r: ReadReceiptEvent)
    requires
        r.message_id <= i64::MAX,
        row.get("message_id"@) == Some(SqlModel::Integer(r.message_id as i64)),
        r.channel_id <= i64::MAX,
        row.get("channel_id"@) == Some(SqlModel::Integer(r.channel_id as i64)),
        row.get("channel_type"@) == Some(SqlModel::Integer(r.channel_type as i64)),
        r.reader_uid <= i64::MAX,
        row.get("reader_uid"@) == Some(SqlModel::Integer(r.reader_uid as i64)),
        r.read_at <= i64::MAX,
        row.get("read_at"@) == Some(SqlModel::Integer(r.read_at as i64)),
    ensures
        <ReadReceiptEvent as FromRow>::held_by(row) == (ReadReceiptEvent { need_sync: false, ..r }),
        row.first_fault(<ReadReceiptEvent as FromRow>::shape()) is None,
{
    let shape = <ReadReceiptEvent as FromRow>::shape();
    assert(shape.len() == 5);
    assert(shape[0].0 == "message_id"@);
    assert(shape[1].0 == "channel_id"@);
    assert(shape[2].0 == "channel_type"@);
    assert(shape[3].0 == "reader_uid"@);
    assert(shape[4].0 == "read_at"@);
    assert forall|i: int| 0 <= i < shape.len() implies row.fault((#[trigger] shape[i]).0, shape[i].1) is None by {
    }
    sql::lemma_no_fault(row, shape);
}

/// A row that holds the parts of an edit in the columns of their names is read as it.
pub proof fn law_a_stored_edit_reads_back(row: RowModel, r: MessageEditEventModel)
    requires
        r.message_id <= i64::MAX,
        row.get("message_id"@) == Some(SqlModel::Integer(r.message_id as i64)),
        r.channel_id <= i64::MAX,
        row.get("channel_id"@) == Some(SqlModel::Integer(r.channel_id as i64)),
        row.get("channel_type"@) == Some(SqlModel::Integer(r.channel_type as i64)),
        r.editor_uid <= i64::MAX,
        row.get("editor_uid"@) == Some(SqlModel::Integer(r.editor_uid as i64)),
        row.get("new_content"@) == Some(SqlModel::Text(r.new_content)),
        r.edited_at <= i64::MAX,
        row.get("edited_at"@) == Some(SqlModel::Integer(r.edited_at as i64)),
        row.get("edit_version"@) == Some(SqlModel::Integer(r.edit_version as i64)),
    ensures
        <MessageEditEvent as FromRow>::held_by(row) == (r),
        row.first_fault(<MessageEditEvent as FromRow>::shape()) is None,
{
    let shape = <MessageEditEvent as FromRow>::shape();
    assert(shape.len() == 7);
    assert(shape[0].0 == "message_id"@);
    assert(shape[1].0 == "channel_id"@);
    assert(shape[2].0 == "channel_type"@);
    assert(shape[3].0 == "editor_uid"@);
    assert(shape[4].0 == "new_content"@);
    assert(shape[5].0 == "edited_at"@);
    assert(shape[6].0 == "edit_version"@);
    assert forall|i: int| 0 <= i < shape.len() implies row.fault((#[trigger] shape[i]).0, shape[i].1) is None by {
    }
    sql::lemma_no_fault(row, shape);
}

/// A row that holds the parts of a read state in the columns of their names is read as it.
pub proof fn law_a_stored_read_state_reads_back(row: RowModel, r: ChannelReadState)
    requires
        r.channel_id <= i64::MAX,
        row.get("channel_id"@) == Some(SqlModel::Integer(r.channel_id as i64)),
        row.get("channel_type"@) == Some(SqlModel::Integer(r.channel_type as i64)),
        r.user_id <= i64::MAX,
        row.get("user_id"@) == Some(SqlModel::Integer(r.user_id as i64)),
        r.last_read_message_id matches Some(n) ==> n <= i64::MAX && row.get("last_read_message_id"@) == Some(
            SqlModel::Integer(n as i64),
        ),
        r.last_read_message_id is None ==> row.get("last_read_message_id"@) == Some(SqlModel::Null),
        row.get("last_read_seq"@) == Some(SqlModel::Integer(r.last_read_seq)),
        r.last_read_at <= i64::MAX,
        row.get("last_read_at"@) == Some(SqlModel::Integer(r.last_read_at as i64)),
        row.get("unread_count"@) == Some(SqlModel::Integer(r.unread_count as i64)),
    ensures
        <ChannelReadState as FromRow>::held_by(row) == (r),
        row.first_fault(<ChannelReadState as FromRow>::shape()) is None,
{
    let shape = <ChannelReadState as FromRow>::shape();
    assert(shape.len() == 7);
    assert(shape[0].0 == "channel_id"@);
    assert(shape[1].0 == "channel_type"@);
    assert(shape[2].0 == "user_id"@);
    assert(shape[3].0 == "last_read_message_id"@);
    assert(shape[4].0 == "last_read_seq"@);
    assert(shape[5].0 == "last_read_at"@);
    assert(shape[6].0 == "unread_count"@);
    assert forall|i: int| 0 <= i < shape.len() implies row.fault((#[trigger] shape[i]).0, shape[i].1) is None by {
    }
    sql::lemma_no_fault(row, shape);
}

/// A row that holds the parts of the facts of a message in the columns of their names is read as it.
pub proof fn law_stored_facts_read_back(row: RowModel, r: MessageFacts)
    requires
        row.get("channel_id"@) == Some(sql::id_model(r.channel_id)),
        row.get("channel_type"@) == Some(SqlModel::Integer(r.channel_type as i64)),
        row.get("from_uid"@) == Some(sql::id_model(r.from_uid)),
        row.get("status"@) == Some(SqlModel::Integer(r.status as i64)),
        row.get("created_at"@) == Some(SqlModel::Integer(r.created_at)),
    ensures
        <MessageFacts as FromRow>::held_by(row) == (r),
        row.first_fault(<MessageFacts as FromRow>::shape()) is None,
{
    sql::law_identifier_round_trip(r.channel_id);
    sql::law_identifier_round_trip(r.from_uid);
    let shape = <MessageFacts as FromRow>::shape();
    assert(shape.len() == 5);
    assert(shape[0].0 == "channel_id"@);
    assert(shape[1].0 == "channel_type"@);
    assert(shape[2].0 == "from_uid"@);
    assert(shape[3].0 == "status"@);
    assert(shape[4].0 == "created_at"@);
    assert forall|i: int| 0 <= i < shape.len() implies row.fault((#[trigger] shape[i]).0, shape[i].1) is None by {
    }
    sql::lemma_no_fault(row, shape);
}

/// The facts of a message are found by its number, its time of writing in seconds.
pub proof fn law_the_facts_of_a_message_are_found(message_id: u64)
    ensures
        sql::is_selection(
            message_facts_statement(message_id),
            "channel_id, channel_type, from_uid, status, CAST(strftime('%s', created_at) AS INTEGER) AS created_at"@,
            "messages"@,
            seq![sql::against("message_id"@, Comparison::Equal, 1)],
            ""@,
        ),
        message_facts_statement(message_id).params == seq![sql::id_model(message_id)],
{
    let test = sql::against("message_id"@, Comparison::Equal, 1);
    let s = message_facts_statement(message_id);
    sql::lemma_tests_one(test, RowModel { cells: Seq::empty() }, s.params);
    assert(s.sql =~= "SELECT "@
        + "channel_id, channel_type, from_uid, status, CAST(strftime('%s', created_at) AS INTEGER) AS created_at"@
        + " FROM "@ + "messages"@ + " WHERE "@ + sql::where_words(seq![test]) + ""@) by {
        reveal_strlit(
            "SELECT channel_id, channel_type, from_uid, status, CAST(strftime('%s', created_at) AS INTEGER) AS created_at FROM messages WHERE message_id = ?1",
        );
        reveal_strlit("SELECT ");
        reveal_strlit(
            "channel_id, channel_type, from_uid, status, CAST(strftime('%s', created_at) AS INTEGER) AS created_at",
        );
        reveal_strlit(" FROM ");
        reveal_strlit("messages");
        reveal_strlit(" WHERE ");
        reveal_strlit("message_id");
        reveal_strlit(" ");
        reveal_strlit("=");
        reveal_strlit("?");
        reveal_strlit("");
    }
}

} // verus!
