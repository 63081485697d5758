//! The statements on the message table, and the messages that its rows hold.

use vstd::prelude::*;
use crate::clock;
use crate::clock::write_time;
use crate::error::{ErrorModel, PrivchatSDKError};
use crate::storage::entities;
use crate::storage::entities::{Message, MessageModel, MessageQuery, MessageStatus, PageResult};
use crate::storage::sql;
use crate::storage::sql::{
    bind, expect, fits_i64, id, insert, opt_id, opt_int, out_of_range_error, with_params, words,
    Binding, ColumnKind, Comparison, Expected, FromRow, Row, RowError, RowModel, SqlModel, SqlValue,
    Statement, StatementModel,
};
use crate::text;
use crate::text::u64_text;

verus! {

/// A time, or `now` where none was set.
pub open spec fn time_or(time: i64, now: i64) -> i64 {
    if time == 0 {
        now
    } else {
        time
    }
}

fn stored_time(time: i64, now: i64) -> (r: i64)
    ensures
        r == time_or(time, now),
{
    if time == 0 {
        now
    } else {
        time
    }
}

/// The columns of a new message and what goes into them. A message that was not revoked leaves
/// the column of its revoker alone.
pub open spec fn message_bindings(m: MessageModel, now: i64) -> Seq<(Seq<char>, SqlModel)> {
    seq![
        ("message_id"@, sql::opt_id_model(m.server_message_id)),
        ("pts"@, SqlModel::Integer(m.pts)),
        ("channel_id"@, sql::id_model(m.channel_id)),
        ("channel_type"@, SqlModel::Integer(m.channel_type as i64)),
        ("timestamp"@, sql::opt_int_model(m.timestamp)),
        ("from_uid"@, sql::id_model(m.from_uid)),
        ("type"@, SqlModel::Integer(m.message_type as i64)),
        ("content"@, SqlModel::Text(m.content)),
        ("status"@, SqlModel::Integer(m.status as i64)),
        ("voice_status"@, SqlModel::Integer(m.voice_status as i64)),
        ("created_at"@, SqlModel::Integer(time_or(m.created_at, now))),
        ("updated_at"@, SqlModel::Integer(time_or(m.updated_at, now))),
        ("searchable_word"@, SqlModel::Text(m.searchable_word)),
        ("local_message_id"@, sql::id_model(m.local_message_id)),
        ("is_deleted"@, SqlModel::Integer(m.is_deleted as i64)),
        ("setting"@, SqlModel::Integer(m.setting as i64)),
        ("order_seq"@, SqlModel::Integer(m.order_seq)),
        ("extra"@, SqlModel::Text(m.extra)),
        ("flame"@, SqlModel::Integer(m.flame as i64)),
        ("flame_second"@, SqlModel::Integer(m.flame_second as i64)),
        ("viewed"@, SqlModel::Integer(m.viewed as i64)),
        ("viewed_at"@, SqlModel::Integer(m.viewed_at)),
        ("topic_id"@, SqlModel::Text(m.topic_id)),
        ("expire_time"@, sql::opt_int_model(m.expire_time)),
        ("expire_timestamp"@, sql::opt_int_model(m.expire_timestamp)),
        ("revoked"@, SqlModel::Integer(m.revoked as i64)),
        ("revoked_at"@, SqlModel::Integer(m.revoked_at)),
    ] + match m.revoked_by {
        Some(by) => seq![("revoked_by"@, sql::id_model(by))],
        None => Seq::empty(),
    }
}

/// The columns that a message is read from, in the order in which they are read.
pub open spec fn message_shape() -> Seq<(Seq<char>, ColumnKind)> {
    seq![
        ("id"@, ColumnKind::MaybeInt64),
        ("message_id"@, ColumnKind::MaybeId),
        ("pts"@, ColumnKind::Int64),
        ("channel_id"@, ColumnKind::Id),
        ("channel_type"@, ColumnKind::Int32),
        ("timestamp"@, ColumnKind::MaybeInt64),
        ("from_uid"@, ColumnKind::Id),
        ("type"@, ColumnKind::Int32),
        ("content"@, ColumnKind::Text),
        ("status"@, ColumnKind::Int32),
        ("voice_status"@, ColumnKind::Int32),
        ("searchable_word"@, ColumnKind::Text),
        ("local_message_id"@, ColumnKind::Unsigned),
        ("is_deleted"@, ColumnKind::Int32),
        ("setting"@, ColumnKind::Int32),
        ("order_seq"@, ColumnKind::Int64),
        ("extra"@, ColumnKind::Text),
        ("flame"@, ColumnKind::Int16),
        ("flame_second"@, ColumnKind::Int32),
        ("viewed"@, ColumnKind::Int16),
        ("viewed_at"@, ColumnKind::Int64),
        ("topic_id"@, ColumnKind::Text),
        ("expire_time"@, ColumnKind::MaybeInt64),
        ("expire_timestamp"@, ColumnKind::MaybeInt64),
        ("revoked_by"@, ColumnKind::MaybeId),
    ]
}

/// The message that a row holds.
pub open spec fn message_in(row: RowModel) -> MessageModel {
    MessageModel {
        id: row.opt_i64("id"@),
        server_message_id: row.opt_id("message_id"@),
        pts: row.i64_at("pts"@),
        channel_id: row.id_at("channel_id"@),
        channel_type: row.i32_or("channel_type"@, 0),
        timestamp: row.opt_i64("timestamp"@),
        from_uid: row.id_at("from_uid"@),
        message_type: row.i32_or("type"@, 0),
        content: row.text_at("content"@),
        status: row.i32_or("status"@, 0),
        voice_status: row.i32_or("voice_status"@, 0),
        created_at: row.i64_at("created_at"@),
        updated_at: row.i64_at("updated_at"@),
        searchable_word: row.text_at("searchable_word"@),
        local_message_id: row.unsigned_at("local_message_id"@),
        is_deleted: row.i32_or("is_deleted"@, 0),
        setting: row.i32_or("setting"@, 0),
        order_seq: row.i64_at("order_seq"@),
        extra: row.text_at("extra"@),
        flame: row.i16_or("flame"@, 0),
        flame_second: row.i32_or("flame_second"@, 0),
        viewed: row.i16_or("viewed"@, 0),
        viewed_at: row.i64_at("viewed_at"@),
        topic_id: row.text_at("topic_id"@),
        expire_time: row.opt_i64("expire_time"@),
        expire_timestamp: row.opt_i64("expire_timestamp"@),
        revoked: row.i16_or("revoked"@, 0),
        revoked_at: row.i64_at("revoked_at"@),
        revoked_by: row.opt_id("revoked_by"@),
    }
}

/// The conditions of a message query, in order, each with the value it is bound to.
pub open spec fn conditions(q: MessageQuery) -> Seq<(Seq<char>, SqlModel)> {
    condition(" AND channel_id = ?"@, q.channel_id, |v: u64| sql::id_model(v))
        + condition(" AND channel_type = ?"@, q.channel_type, |v: i32| SqlModel::Integer(v as i64))
        + condition(" AND from_uid = ?"@, q.from_uid, |v: u64| sql::id_model(v))
        + condition(" AND type = ?"@, q.message_type, |v: i32| SqlModel::Integer(v as i64))
        + condition(" AND timestamp >= ?"@, q.start_time, |v: i64| SqlModel::Integer(v))
        + condition(" AND timestamp <= ?"@, q.end_time, |v: i64| SqlModel::Integer(v))
        + condition(" AND is_deleted = ?"@, q.is_deleted, |v: i32| SqlModel::Integer(v as i64))
}

/// One condition: nothing where the query does not ask for it.
pub open spec fn condition<T>(
    words: Seq<char>,
    wanted: Option<T>,
    bound: spec_fn(T) -> SqlModel,
) -> Seq<(Seq<char>, SqlModel)> {
    match wanted {
        Some(v) => seq![(words, bound(v))],
        None => Seq::empty(),
    }
}

/// Texts in a row.
pub open spec fn joined(parts: Seq<(Seq<char>, SqlModel)>) -> Seq<char>
    decreases parts.len(),
{
    if parts.len() == 0 {
        Seq::empty()
    } else {
        joined(parts.drop_last()) + parts.last().0
    }
}

/// What a message query selects: the conditions, and the messages that were not deleted where the
/// query does not say.
pub open spec fn selection(q: MessageQuery) -> Seq<char> {
    " FROM message WHERE 1=1"@ + joined(conditions(q)) + if q.is_deleted is Some {
        Seq::empty()
    } else {
        " AND is_deleted = 0"@
    }
}

/// How many messages a page holds.
pub open spec fn page_size(q: MessageQuery) -> u32 {
    match q.limit {
        Some(n) => n,
        None => 20,
    }
}

/// How many messages come before the page.
pub open spec fn page_start(q: MessageQuery) -> u32 {
    match q.offset {
        Some(n) => n,
        None => 0,
    }
}

/// The order of the messages.
pub open spec fn order_of(q: MessageQuery) -> Seq<char> {
    match q.order_by {
        Some(order) => order@,
        None => "timestamp DESC"@,
    }
}

/// The statement that reads a page of messages.
pub open spec fn page_statement(q: MessageQuery) -> StatementModel {
    StatementModel {
        sql: "SELECT *"@ + selection(q) + " ORDER BY "@ + order_of(q) + " LIMIT "@ + text::decimal(
            page_size(q) as nat,
        ) + " OFFSET "@ + text::decimal(page_start(q) as nat),
        params: sql::params_of(conditions(q)),
    }
}

/// The statement that counts all the messages that a query selects.
pub open spec fn count_statement(q: MessageQuery) -> StatementModel {
    StatementModel {
        sql: "SELECT COUNT(*)"@ + selection(q),
        params: sql::params_of(conditions(q)),
    }
}

/// A query being built: its conditions so far.
struct Conditions {
    sql: String,
    params: Vec<SqlValue>,
    built: Ghost<Seq<(Seq<char>, SqlModel)>>,
}

impl Conditions {
    spec fn valid(self, head: Seq<char>) -> bool {
        &&& self.sql@ == head + joined(self.built@)
        &&& sql::values_of(self.params@) == sql::params_of(self.built@)
    }

    fn add(&mut self, words: &str, value: Option<SqlValue>, Ghost(head): Ghost<Seq<char>>)
        requires
            old(self).valid(head),
        ensures
            final(self).valid(head),
            final(self).built@ == old(self).built@ + match value {
                Some(v) => seq![(words@, v@)],
                None => Seq::empty(),
            },
    {
        match value {
            Some(v) => {
                let ghost before = self.built@;
                let ghost bound = self.params@;
                let ghost piece = (words@, v@);
                self.sql.append(words);
                self.params.push(v);
                proof {
                    self.built@ = before.push(piece);
                    assert(before.push(piece) =~= before + seq![piece]);
                    assert(before.push(piece).drop_last() =~= before);
                    assert(self.sql@ =~= head + joined(self.built@));
                    assert(sql::values_of(bound).len() == sql::params_of(before).len());
                    assert forall|i: int| 0 <= i < self.params@.len() implies sql::values_of(
                        self.params@,
                    )[i] == sql::params_of(self.built@)[i] by {
                        if i < bound.len() {
                            assert(sql::values_of(bound)[i] == sql::params_of(before)[i]);
                        }
                    }
                    assert(sql::values_of(self.params@) =~= sql::params_of(self.built@));
                }
            },
            None => {
                proof {
                    assert(self.built@ =~= self.built@ + Seq::<(Seq<char>, SqlModel)>::empty());
                }
            },
        }
    }
}

fn narrow(v: Option<i32>) -> (r: Option<SqlValue>)
    ensures
        match v {
            Some(v) => r is Some && r->0@ == SqlModel::Integer(v as i64),
            None => r is None,
        },
{
    match v {
        Some(v) => Some(SqlValue::Integer(v as i64)),
        None => None,
    }
}

fn wide(v: Option<i64>) -> (r: Option<SqlValue>)
    ensures
        match v {
            Some(v) => r is Some && r->0@ == SqlModel::Integer(v),
            None => r is None,
        },
{
    match v {
        Some(v) => Some(SqlValue::Integer(v)),
        None => None,
    }
}

fn identifier(v: Option<u64>) -> (r: Option<SqlValue>)
    ensures
        match v {
            Some(v) => r is Some && r->0@ == sql::id_model(v),
            None => r is None,
        },
{
    match v {
        Some(v) => Some(id(v)),
        None => None,
    }
}

/// The selected columns and the conditions of a query, with their values.
fn selecting(columns: &str, q: &MessageQuery) -> (r: Statement)
    ensures
        r@ == (StatementModel {
            sql: columns@ + selection(*q),
            params: sql::params_of(conditions(*q)),
        }),
{
    let mut head = columns.to_owned();
    head.append(" FROM message WHERE 1=1");
    let ghost h = head@;
    let mut c = Conditions { sql: head, params: Vec::new(), built: Ghost(Seq::empty()) };
    proof {
        assert(h + joined(Seq::empty()) =~= h);
        assert(sql::values_of(c.params@) =~= sql::params_of(Seq::empty()));
    }
    c.add(" AND channel_id = ?", identifier(q.channel_id), Ghost(h));
    c.add(" AND channel_type = ?", narrow(q.channel_type), Ghost(h));
    c.add(" AND from_uid = ?", identifier(q.from_uid), Ghost(h));
    c.add(" AND type = ?", narrow(q.message_type), Ghost(h));
    c.add(" AND timestamp >= ?", wide(q.start_time), Ghost(h));
    c.add(" AND timestamp <= ?", wide(q.end_time), Ghost(h));
    c.add(" AND is_deleted = ?", narrow(q.is_deleted), Ghost(h));
    assert(c.built@ =~= conditions(*q));
    let Conditions { mut sql, params, built: _ } = c;
    match q.is_deleted {
        Some(_) => {},
        None => {
            sql.append(" AND is_deleted = 0");
        },
    }
    let r = Statement { sql, params };
    assert(r@.sql =~= columns@ + selection(*q));
    r
}

/// The id before which a page ends; the largest asks for the latest page.
pub open spec fn cursor(before_id: u64) -> i64 {
    if before_id == u64::MAX {
        i64::MAX
    } else {
        before_id as i64
    }
}

fn page_cursor(before_id: u64) -> (r: i64)
    ensures
        r == cursor(before_id),
{
    if before_id == u64::MAX {
        i64::MAX
    } else {
        #[verifier::truncate] (before_id as i64)
    }
}

/// The texts `%keyword%` that a search looks for.
pub open spec fn pattern(keyword: Seq<char>) -> Seq<char> {
    "%"@ + keyword + "%"@
}

/// Whether every message can be stored.
pub open spec fn storable(messages: Seq<Message>) -> bool {
    forall|i: int| 0 <= i < messages.len() ==> (#[trigger] messages[i]).local_message_id <= i64::MAX
}

/// The statement of [`MessageDao::get_id_by_channel_and_server_message_id`].
pub open spec fn get_id_by_channel_and_server_message_id_statement(
    channel_id: u64,
    server_message_id: u64,
) -> StatementModel {
    StatementModel {
        sql:
            "SELECT id FROM message WHERE channel_id = ?1 AND message_id = ?2 AND is_deleted = 0"@,
        params: seq![
            sql::id_model(channel_id),
            sql::id_model(server_message_id),
        ],
    }
}

/// The statement of [`MessageDao::get_by_message_id`].
pub open spec fn get_by_message_id_statement(message_id: u64) -> StatementModel {
    StatementModel {
        sql:
            "SELECT * FROM message WHERE message_id = ?1 AND is_deleted = 0"@,
        params: seq![
            sql::id_model(message_id),
        ],
    }
}

/// The statement of [`MessageDao::get_by_id`].
pub open spec fn get_by_id_statement(message: i64) -> StatementModel {
    StatementModel {
        sql:
            "SELECT * FROM message WHERE id = ?1 AND is_deleted = 0"@,
        params: seq![
            SqlModel::Integer(message),
        ],
    }
}

/// The statement of [`MessageDao::get_channel_id`].
pub open spec fn get_channel_id_statement(message: i64) -> StatementModel {
    StatementModel {
        sql:
            "SELECT channel_id FROM message WHERE id = ?1"@,
        params: seq![
            SqlModel::Integer(message),
        ],
    }
}

/// The statement of [`MessageDao::update_status`].
pub open spec fn update_status_statement(
    message: i64,
    status: MessageStatus,
    now: i64,
) -> StatementModel {
    StatementModel {
        sql:
            "UPDATE message SET status = ?1, updated_at = ?2 WHERE id = ?3"@,
        params: seq![
            SqlModel::Integer(entities::status_number(status) as i64),
            SqlModel::Integer(now),
            SqlModel::Integer(message),
        ],
    }
}

/// The statement of [`MessageDao::update_status_number`].
pub open spec fn update_status_number_statement(
    message: i64,
    status: i32,
    now: i64,
) -> StatementModel {
    StatementModel {
        sql:
            "UPDATE message SET status = ?1, updated_at = ?2 WHERE id = ?3"@,
        params: seq![
            SqlModel::Integer(status as i64),
            SqlModel::Integer(now),
            SqlModel::Integer(message),
        ],
    }
}

/// The statement of [`MessageDao::update_server_message_id`].
pub open spec fn update_server_message_id_statement(
    message: i64,
    server_message_id: u64,
    now: i64,
) -> StatementModel {
    StatementModel {
        sql:
            "UPDATE message SET message_id = ?1, updated_at = ?2 WHERE id = ?3"@,
        params: seq![
            sql::id_model(server_message_id),
            SqlModel::Integer(now),
            SqlModel::Integer(message),
        ],
    }
}

/// The statement of [`MessageDao::update_content`].
pub open spec fn update_content_statement(
    message: i64,
    content: Seq<char>,
    now: i64,
) -> StatementModel {
    StatementModel {
        sql:
            "UPDATE message SET content = ?1, updated_at = ?2 WHERE id = ?3"@,
        params: seq![
            SqlModel::Text(content),
            SqlModel::Integer(now),
            SqlModel::Integer(message),
        ],
    }
}

/// The statement of [`MessageDao::mark_revoked`].
pub open spec fn mark_revoked_statement(message: i64, revoker_id: u64, now: i64) -> StatementModel {
    StatementModel {
        sql:
            "UPDATE message SET revoked = 1, revoked_at = ?1, revoked_by = ?2, updated_at = ?3 WHERE id = ?4"@,
        params: seq![
            SqlModel::Integer(now),
            sql::id_model(revoker_id),
            SqlModel::Integer(now),
            SqlModel::Integer(message),
        ],
    }
}

/// The statement of [`MessageDao::record_revocation`].
pub open spec fn record_revocation_statement(
    message: i64,
    revoker_id: u64,
    now_seconds: i64,
) -> StatementModel {
    StatementModel {
        sql:
            "INSERT OR REPLACE INTO message_extra (message_id, revoke, revoker, extra_version) VALUES (?1, 1, ?2, ?3)"@,
        params: seq![
            SqlModel::Integer(message),
            sql::id_model(revoker_id),
            SqlModel::Integer(now_seconds),
        ],
    }
}

/// The statement of [`MessageDao::record_edit`].
pub open spec fn record_edit_statement(
    message: i64,
    new_content: Seq<char>,
    now_seconds: i64,
) -> StatementModel {
    StatementModel {
        sql:
            "INSERT OR REPLACE INTO message_extra (message_id, content_edit, edited_at, extra_version) VALUES (?1, ?2, ?3, ?4)"@,
        params: seq![
            SqlModel::Integer(message),
            SqlModel::Text(new_content),
            SqlModel::Integer(now_seconds),
            SqlModel::Integer(now_seconds),
        ],
    }
}

/// The statement of [`MessageDao::mark_as_read`].
pub open spec fn mark_as_read_statement(message: i64, now: i64) -> StatementModel {
    StatementModel {
        sql:
            "UPDATE message SET viewed = 1, viewed_at = ?1, updated_at = ?2 WHERE id = ?3"@,
        params: seq![
            SqlModel::Integer(now),
            SqlModel::Integer(now),
            SqlModel::Integer(message),
        ],
    }
}

/// The statement of [`MessageDao::delete_expired_before`].
pub open spec fn delete_expired_before_statement(written: Seq<char>, now: i64) -> StatementModel {
    StatementModel {
        sql:
            "UPDATE message SET is_deleted = 1, updated_at = ?1 WHERE expire_timestamp > 0 AND expire_timestamp < ?2 AND is_deleted = 0"@,
        params: seq![
            SqlModel::Text(written),
            SqlModel::Integer(now),
        ],
    }
}

/// The statement of [`MessageDao::count_by_channel`].
pub open spec fn count_by_channel_statement(channel_id: u64, channel_type: i32) -> StatementModel {
    StatementModel {
        sql:
            "SELECT COUNT(*) FROM message WHERE channel_id = ?1 AND channel_type = ?2 AND is_deleted = 0"@,
        params: seq![
            sql::id_model(channel_id),
            SqlModel::Integer(channel_type as i64),
        ],
    }
}

/// The statement of [`MessageDao::count_by_user`].
pub open spec fn count_by_user_statement(from_uid: u64) -> StatementModel {
    StatementModel {
        sql:
            "SELECT COUNT(*) FROM message WHERE from_uid = ?1 AND is_deleted = 0"@,
        params: seq![
            sql::id_model(from_uid),
        ],
    }
}

/// The statement of [`MessageDao::soft_delete`].
pub open spec fn soft_delete_statement(message: i64, now: i64) -> StatementModel {
    StatementModel {
        sql:
            "UPDATE message SET is_deleted = 1, updated_at = ?1 WHERE id = ?2"@,
        params: seq![
            SqlModel::Integer(now),
            SqlModel::Integer(message),
        ],
    }
}

/// The statement of [`MessageDao::restore`].
pub open spec fn restore_statement(message: i64, now: i64) -> StatementModel {
    StatementModel {
        sql:
            "UPDATE message SET is_deleted = 0, updated_at = ?1 WHERE id = ?2"@,
        params: seq![
            SqlModel::Integer(now),
            SqlModel::Integer(message),
        ],
    }
}

/// The statement of [`MessageDao::messages_after`].
pub open spec fn messages_after_statement(
    channel_id: u64,
    after_id: u64,
    limit: u32,
) -> StatementModel {
    StatementModel {
        sql:
            "SELECT * FROM message WHERE channel_id = ?1 AND is_deleted = 0 AND id > ?2 ORDER BY id ASC LIMIT ?3"@,
        params: seq![
            sql::id_model(channel_id),
            sql::id_model(after_id),
            SqlModel::Integer(limit as i64),
        ],
    }
}

/// The statement of [`MessageDao::messages_before`].
pub open spec fn messages_before_statement(
    channel_id: u64,
    before_id: u64,
    limit: u32,
) -> StatementModel {
    StatementModel {
        sql:
            "SELECT * FROM message WHERE channel_id = ?1 AND is_deleted = 0 AND id < ?2 ORDER BY id DESC LIMIT ?3"@,
        params: seq![
            sql::id_model(channel_id),
            SqlModel::Integer(cursor(before_id)),
            SqlModel::Integer(limit as i64),
        ],
    }
}

/// The statement of [`MessageDao::earliest_id`].
pub open spec fn earliest_id_statement(channel_id: u64) -> StatementModel {
    StatementModel {
        sql:
            "SELECT MIN(id) FROM message WHERE channel_id = ?1 AND is_deleted = 0"@,
        params: seq![
            sql::id_model(channel_id),
        ],
    }
}

/// The statement of [`MessageDao::add_reaction`].
pub open spec fn add_reaction_statement(
    message: i64,
    user_id: u64,
    reaction: Seq<char>,
    now: i64,
) -> StatementModel {
    StatementModel {
        sql:
            "INSERT OR REPLACE INTO message_reaction (channel_id, channel_type, uid, name, emoji, message_id, created_at) VALUES (0, 0, ?1, '', ?2, ?3, ?4)"@,
        params: seq![
            sql::id_model(user_id),
            SqlModel::Text(reaction),
            SqlModel::Integer(message),
            SqlModel::Integer(now),
        ],
    }
}

/// The statements on the message table.
pub struct MessageDao;

impl MessageDao {
    /// Looks a message up by its channel and server id, among those that were not deleted.
    pub fn get_id_by_channel_and_server_message_id(
        channel_id: u64,
        server_message_id: u64,
    ) -> (r: Statement)
        ensures
            r@ == get_id_by_channel_and_server_message_id_statement(channel_id, server_message_id),
    {
        let s = with_params(
            "SELECT id FROM message WHERE channel_id = ?1 AND message_id = ?2 AND is_deleted = 0",
            vec![
                id(channel_id),
                id(server_message_id),
            ],
        );
        assert(
            s@.params =~= get_id_by_channel_and_server_message_id_statement(
                channel_id,
                server_message_id,
            ).params
        );
        s
    }

    /// Reads a message by its server id.
    pub fn get_by_message_id(message_id: u64) -> (r: Statement)
        ensures
            r@ == get_by_message_id_statement(message_id),
    {
        let s = with_params(
            "SELECT * FROM message WHERE message_id = ?1 AND is_deleted = 0",
            vec![
                id(message_id),
            ],
        );
        assert(s@.params =~= get_by_message_id_statement(message_id).params);
        s
    }

    /// Reads a message by its local id.
    pub fn get_by_id(message: i64) -> (r: Statement)
        ensures
            r@ == get_by_id_statement(message),
    {
        let s = with_params(
            "SELECT * FROM message WHERE id = ?1 AND is_deleted = 0",
            vec![
                SqlValue::Integer(message),
            ],
        );
        assert(s@.params =~= get_by_id_statement(message).params);
        s
    }

    /// Reads the channel of a message.
    pub fn get_channel_id(message: i64) -> (r: Statement)
        ensures
            r@ == get_channel_id_statement(message),
    {
        let s = with_params(
            "SELECT channel_id FROM message WHERE id = ?1",
            vec![
                SqlValue::Integer(message),
            ],
        );
        assert(s@.params =~= get_channel_id_statement(message).params);
        s
    }

    /// Sets the status of a message.
    pub fn update_status(message: i64, status: MessageStatus, now: i64) -> (r: Statement)
        ensures
            r@ == update_status_statement(message, status, now),
    {
        let s = with_params(
            "UPDATE message SET status = ?1, updated_at = ?2 WHERE id = ?3",
            vec![
                SqlValue::Integer(status.to_i32() as i64),
                SqlValue::Integer(now),
                SqlValue::Integer(message),
            ],
        );
        assert(s@.params =~= update_status_statement(message, status, now).params);
        s
    }

    /// Sets the status of a message by its number.
    pub fn update_status_number(message: i64, status: i32, now: i64) -> (r: Statement)
        ensures
            r@ == update_status_number_statement(message, status, now),
    {
        let s = with_params(
            "UPDATE message SET status = ?1, updated_at = ?2 WHERE id = ?3",
            vec![
                SqlValue::Integer(status as i64),
                SqlValue::Integer(now),
                SqlValue::Integer(message),
            ],
        );
        assert(s@.params =~= update_status_number_statement(message, status, now).params);
        s
    }

    /// Sets the id that the server gave a message.
    pub fn update_server_message_id(
        message: i64,
        server_message_id: u64,
        now: i64,
    ) -> (r: Statement)
        ensures
            r@ == update_server_message_id_statement(message, server_message_id, now),
    {
        let s = with_params(
            "UPDATE message SET message_id = ?1, updated_at = ?2 WHERE id = ?3",
            vec![
                id(server_message_id),
                SqlValue::Integer(now),
                SqlValue::Integer(message),
            ],
        );
        assert(
            s@.params =~= update_server_message_id_statement(message, server_message_id, now).params
        );
        s
    }

    /// Replaces the content of a message.
    pub fn update_content(message: i64, content: &str, now: i64) -> (r: Statement)
        ensures
            r@ == update_content_statement(message, content@, now),
    {
        let s = with_params(
            "UPDATE message SET content = ?1, updated_at = ?2 WHERE id = ?3",
            vec![
                words(content),
                SqlValue::Integer(now),
                SqlValue::Integer(message),
            ],
        );
        assert(s@.params =~= update_content_statement(message, content@, now).params);
        s
    }

    /// Marks a message as revoked.
    pub fn mark_revoked(message: i64, revoker_id: u64, now: i64) -> (r: Statement)
        ensures
            r@ == mark_revoked_statement(message, revoker_id, now),
    {
        let s = with_params(
            "UPDATE message SET revoked = 1, revoked_at = ?1, revoked_by = ?2, updated_at = ?3 WHERE id = ?4",
            vec![
                SqlValue::Integer(now),
                id(revoker_id),
                SqlValue::Integer(now),
                SqlValue::Integer(message),
            ],
        );
        assert(s@.params =~= mark_revoked_statement(message, revoker_id, now).params);
        s
    }

    /// Records the revocation of a message in its extra record.
    pub fn record_revocation(message: i64, revoker_id: u64, now_seconds: i64) -> (r: Statement)
        ensures
            r@ == record_revocation_statement(message, revoker_id, now_seconds),
    {
        let s = with_params(
            "INSERT OR REPLACE INTO message_extra (message_id, revoke, revoker, extra_version) VALUES (?1, 1, ?2, ?3)",
            vec![
                SqlValue::Integer(message),
                id(revoker_id),
                SqlValue::Integer(now_seconds),
            ],
        );
        assert(s@.params =~= record_revocation_statement(message, revoker_id, now_seconds).params);
        s
    }

    /// Records the new content of a message in its extra record.
    pub fn record_edit(message: i64, new_content: &str, now_seconds: i64) -> (r: Statement)
        ensures
            r@ == record_edit_statement(message, new_content@, now_seconds),
    {
        let s = with_params(
            "INSERT OR REPLACE INTO message_extra (message_id, content_edit, edited_at, extra_version) VALUES (?1, ?2, ?3, ?4)",
            vec![
                SqlValue::Integer(message),
                words(new_content),
                SqlValue::Integer(now_seconds),
                SqlValue::Integer(now_seconds),
            ],
        );
        assert(s@.params =~= record_edit_statement(message, new_content@, now_seconds).params);
        s
    }

    /// Marks a message as seen.
    pub fn mark_as_read(message: i64, now: i64) -> (r: Statement)
        ensures
            r@ == mark_as_read_statement(message, now),
    {
        let s = with_params(
            "UPDATE message SET viewed = 1, viewed_at = ?1, updated_at = ?2 WHERE id = ?3",
            vec![
                SqlValue::Integer(now),
                SqlValue::Integer(now),
                SqlValue::Integer(message),
            ],
        );
        assert(s@.params =~= mark_as_read_statement(message, now).params);
        s
    }

    /// Deletes the messages whose time ran out before `now`; `written` is the time of the deletion.
    pub fn delete_expired_before(written: &str, now: i64) -> (r: Statement)
        ensures
            r@ == delete_expired_before_statement(written@, now),
    {
        let s = with_params(
            "UPDATE message SET is_deleted = 1, updated_at = ?1 WHERE expire_timestamp > 0 AND expire_timestamp < ?2 AND is_deleted = 0",
            vec![
                words(written),
                SqlValue::Integer(now),
            ],
        );
        assert(s@.params =~= delete_expired_before_statement(written@, now).params);
        s
    }

    /// Counts the messages of a channel.
    pub fn count_by_channel(channel_id: u64, channel_type: i32) -> (r: Statement)
        ensures
            r@ == count_by_channel_statement(channel_id, channel_type),
    {
        let s = with_params(
            "SELECT COUNT(*) FROM message WHERE channel_id = ?1 AND channel_type = ?2 AND is_deleted = 0",
            vec![
                id(channel_id),
                SqlValue::Integer(channel_type as i64),
            ],
        );
        assert(s@.params =~= count_by_channel_statement(channel_id, channel_type).params);
        s
    }

    /// Counts the messages that a user sent.
    pub fn count_by_user(from_uid: u64) -> (r: Statement)
        ensures
            r@ == count_by_user_statement(from_uid),
    {
        let s = with_params(
            "SELECT COUNT(*) FROM message WHERE from_uid = ?1 AND is_deleted = 0",
            vec![
                id(from_uid),
            ],
        );
        assert(s@.params =~= count_by_user_statement(from_uid).params);
        s
    }

    /// Deletes a message, keeping its row.
    pub fn soft_delete(message: i64, now: i64) -> (r: Statement)
        ensures
            r@ == soft_delete_statement(message, now),
    {
        let s = with_params(
            "UPDATE message SET is_deleted = 1, updated_at = ?1 WHERE id = ?2",
            vec![
                SqlValue::Integer(now),
                SqlValue::Integer(message),
            ],
        );
        assert(s@.params =~= soft_delete_statement(message, now).params);
        s
    }

    /// Takes the deletion of a message back.
    pub fn restore(message: i64, now: i64) -> (r: Statement)
        ensures
            r@ == restore_statement(message, now),
    {
        let s = with_params(
            "UPDATE message SET is_deleted = 0, updated_at = ?1 WHERE id = ?2",
            vec![
                SqlValue::Integer(now),
                SqlValue::Integer(message),
            ],
        );
        assert(s@.params =~= restore_statement(message, now).params);
        s
    }

    /// Reads a page of a channel's messages after a local id, the earliest first.
    pub fn messages_after(channel_id: u64, after_id: u64, limit: u32) -> (r: Statement)
        ensures
            r@ == messages_after_statement(channel_id, after_id, limit),
    {
        let s = with_params(
            "SELECT * FROM message WHERE channel_id = ?1 AND is_deleted = 0 AND id > ?2 ORDER BY id ASC LIMIT ?3",
            vec![
                id(channel_id),
                id(after_id),
                SqlValue::Integer(limit as i64),
            ],
        );
        assert(s@.params =~= messages_after_statement(channel_id, after_id, limit).params);
        s
    }

    /// Reads a page of a channel's messages before a local id, the latest first. The largest id
    /// asks for the latest page.
    pub fn messages_before(channel_id: u64, before_id: u64, limit: u32) -> (r: Statement)
        ensures
            r@ == messages_before_statement(channel_id, before_id, limit),
    {
        let s = with_params(
            "SELECT * FROM message WHERE channel_id = ?1 AND is_deleted = 0 AND id < ?2 ORDER BY id DESC LIMIT ?3",
            vec![
                id(channel_id),
                SqlValue::Integer(page_cursor(before_id)),
                SqlValue::Integer(limit as i64),
            ],
        );
        assert(s@.params =~= messages_before_statement(channel_id, before_id, limit).params);
        s
    }

    /// Reads the least local id of a channel's messages.
    pub fn earliest_id(channel_id: u64) -> (r: Statement)
        ensures
            r@ == earliest_id_statement(channel_id),
    {
        let s = with_params(
            "SELECT MIN(id) FROM message WHERE channel_id = ?1 AND is_deleted = 0",
            vec![
                id(channel_id),
            ],
        );
        assert(s@.params =~= earliest_id_statement(channel_id).params);
        s
    }

    /// Records a reaction to a message.
    pub fn add_reaction(message: i64, user_id: u64, reaction: &str, now: i64) -> (r: Statement)
        ensures
            r@ == add_reaction_statement(message, user_id, reaction@, now),
    {
        let s = with_params(
            "INSERT OR REPLACE INTO message_reaction (channel_id, channel_type, uid, name, emoji, message_id, created_at) VALUES (0, 0, ?1, '', ?2, ?3, ?4)",
            vec![
                id(user_id),
                words(reaction),
                SqlValue::Integer(message),
                SqlValue::Integer(now),
            ],
        );
        assert(s@.params =~= add_reaction_statement(message, user_id, reaction@, now).params);
        s
    }

    /// Stores a new message. A message without creation or update time gets the present one.
    pub fn insert(m: &Message, now: i64) -> (r: Result<Statement, PrivchatSDKError>)
        ensures
            match r {
                Ok(s) => m.local_message_id <= i64::MAX && s@ == sql::insertion(
                    "INSERT INTO "@,
                    "message"@,
                    message_bindings(m@, now),
                ),
                Err(e) => m.local_message_id > i64::MAX && e@ == sql::out_of_range(),
            },
    {
        if !fits_i64(m.local_message_id) {
            return Err(out_of_range_error());
        }
        let mut bindings: Vec<Binding> = vec![
            bind("message_id", opt_id(m.server_message_id)),
            bind("pts", SqlValue::Integer(m.pts)),
            bind("channel_id", id(m.channel_id)),
            bind("channel_type", SqlValue::Integer(m.channel_type as i64)),
            bind("timestamp", opt_int(m.timestamp)),
            bind("from_uid", id(m.from_uid)),
            bind("type", SqlValue::Integer(m.message_type as i64)),
            bind("content", words(m.content.as_str())),
            bind("status", SqlValue::Integer(m.status as i64)),
            bind("voice_status", SqlValue::Integer(m.voice_status as i64)),
            bind("created_at", SqlValue::Integer(stored_time(m.created_at, now))),
            bind("updated_at", SqlValue::Integer(stored_time(m.updated_at, now))),
            bind("searchable_word", words(m.searchable_word.as_str())),
            bind("local_message_id", id(m.local_message_id)),
            bind("is_deleted", SqlValue::Integer(m.is_deleted as i64)),
            bind("setting", SqlValue::Integer(m.setting as i64)),
            bind("order_seq", SqlValue::Integer(m.order_seq)),
            bind("extra", words(m.extra.as_str())),
            bind("flame", SqlValue::Integer(m.flame as i64)),
            bind("flame_second", SqlValue::Integer(m.flame_second as i64)),
            bind("viewed", SqlValue::Integer(m.viewed as i64)),
            bind("viewed_at", SqlValue::Integer(m.viewed_at)),
            bind("topic_id", words(m.topic_id.as_str())),
            bind("expire_time", opt_int(m.expire_time)),
            bind("expire_timestamp", opt_int(m.expire_timestamp)),
            bind("revoked", SqlValue::Integer(m.revoked as i64)),
            bind("revoked_at", SqlValue::Integer(m.revoked_at)),
        ];
        match m.revoked_by {
            Some(by) => {
                bindings.push(bind("revoked_by", id(by)));
            },
            None => {},
        }
        proof {
            assert(sql::bindings_of(bindings@) =~= message_bindings(m@, now));
        }
        Ok(insert("INSERT INTO ", "message", bindings))
    }

    /// Stores new messages, one statement each, to be run in one transaction.
    pub fn batch_insert(messages: &Vec<Message>, now: i64) -> (r: Result<
        Vec<Statement>,
        PrivchatSDKError,
    >)
        ensures
            match r {
                Ok(s) => storable(messages@) && s@.len() == messages@.len() && forall|i: int|
                    0 <= i < messages@.len() ==> (#[trigger] s@[i])@ == sql::insertion(
                        "INSERT INTO "@,
                        "message"@,
                        message_bindings(messages@[i]@, now),
                    ),
                Err(e) => !storable(messages@) && e@ == sql::out_of_range(),
            },
    {
        let mut out: Vec<Statement> = Vec::new();
        let length: usize = messages.len();
        let mut i: usize = 0;
        while i < length
            invariant
                i <= length == messages@.len(),
                out@.len() == i,
                forall|j: int|
                    0 <= j < i ==> (#[trigger] messages@[j]).local_message_id <= i64::MAX,
                forall|j: int|
                    0 <= j < i ==> (#[trigger] out@[j])@ == sql::insertion(
                        "INSERT INTO "@,
                        "message"@,
                        message_bindings(messages@[j]@, now),
                    ),
            decreases length - i,
        {
            match MessageDao::insert(&messages[i], now) {
                Ok(s) => {
                    out.push(s);
                },
                Err(e) => {
                    assert(messages@[i as int].local_message_id > i64::MAX);
                    return Err(e);
                },
            }
            i = i + 1;
        }
        Ok(out)
    }

    /// The id that the look-up found, if it found a row.
    pub fn found_id(row: &Option<Row>) -> (r: Result<Option<i64>, PrivchatSDKError>)
        ensures
            match *row {
                None => r == Ok::<Option<i64>, PrivchatSDKError>(None),
                Some(row) => match row@.first_fault(seq![("id"@, ColumnKind::Int64)]) {
                    None => r == Ok::<Option<i64>, PrivchatSDKError>(Some(row@.i64_at("id"@))),
                    Some(fault) => r is Err && r->Err_0@ == ErrorModel::Database(
                        "查重失败: "@ + RowError::words(fault),
                    ),
                },
            },
    {
        match row {
            None => Ok(None),
            Some(row) => {
                let expected: Vec<Expected> = vec![expect("id", ColumnKind::Int64)];
                assert(sql::shape_of(expected@) =~= seq![("id"@, ColumnKind::Int64)]);
                match row.check(&expected) {
                    Ok(_) => Ok(Some(row.i64_at("id"))),
                    Err(e) => Err(e.within("查重失败: ")),
                }
            },
        }
    }

    /// Reads a page of messages, and counts all of them.
    pub fn query(q: &MessageQuery) -> (r: (Statement, Statement))
        ensures
            r.0@ == page_statement(*q),
            r.1@ == count_statement(*q),
    {
        let count = selecting("SELECT COUNT(*)", q);
        let Statement { mut sql, params } = selecting("SELECT *", q);
        sql.append(" ORDER BY ");
        match &q.order_by {
            Some(order) => {
                sql.append(order.as_str());
            },
            None => {
                sql.append("timestamp DESC");
            },
        }
        let limit: u32 = match q.limit {
            Some(n) => n,
            None => 20,
        };
        let offset: u32 = match q.offset {
            Some(n) => n,
            None => 0,
        };
        sql.append(" LIMIT ");
        sql.append(u64_text(limit as u64).as_str());
        sql.append(" OFFSET ");
        sql.append(u64_text(offset as u64).as_str());
        (Statement { sql, params }, count)
    }

    /// The page that a query gives, made of what it read and counted.
    pub fn page(q: &MessageQuery, messages: Vec<Message>, total: i64) -> (r: PageResult<Message>)
        requires
            page_size(*q) > 0,
            (page_start(*q) / page_size(*q) + 1) * page_size(*q) <= u32::MAX,
        ensures
            r.data == messages,
            r.total == total,
            r.page == page_start(*q) / page_size(*q) + 1,
            r.page_size == page_size(*q),
            r.has_more == (r.page * r.page_size < total as u32),
    {
        let limit: u32 = match q.limit {
            Some(n) => n,
            None => 20,
        };
        let offset: u32 = match q.offset {
            Some(n) => n,
            None => 0,
        };
        let whole: u32 = offset / limit;
        proof {
            assert(whole + 1 <= (whole + 1) * limit) by (nonlinear_arith)
                requires
                    limit > 0,
            ;
        }
        PageResult::new(messages, total, whole + 1, limit)
    }

    /// Looks for a keyword in the content and the searchable words of a channel's messages, the
    /// latest first.
    pub fn search(channel_id: u64, channel_type: i32, keyword: &str, limit: Option<u32>) -> (r:
        Statement)
        ensures
            r@ == (StatementModel {
                sql:
                    "SELECT m.* FROM message m WHERE m.channel_id = ?1 AND m.channel_type = ?2 AND m.is_deleted = 0 AND (m.content LIKE ?3 OR m.searchable_word LIKE ?3) ORDER BY m.timestamp DESC LIMIT ?4"@,
                params: seq![
                    sql::id_model(channel_id),
                    SqlModel::Integer(channel_type as i64),
                    SqlModel::Text(pattern(keyword@)),
                    SqlModel::Integer(
                        match limit {
                            Some(n) => n as i64,
                            None => 20,
                        },
                    ),
                ],
            }),
    {
        let most: i64 = match limit {
            Some(n) => n as i64,
            None => 20,
        };
        let mut wanted = "%".to_owned();
        wanted.append(keyword);
        wanted.append("%");
        let r = with_params(
            "SELECT m.* FROM message m WHERE m.channel_id = ?1 AND m.channel_type = ?2 AND m.is_deleted = 0 AND (m.content LIKE ?3 OR m.searchable_word LIKE ?3) ORDER BY m.timestamp DESC LIMIT ?4",
            vec![
                id(channel_id),
                SqlValue::Integer(channel_type as i64),
                SqlValue::Text(wanted),
                SqlValue::Integer(most),
            ],
        );
        assert(r@.params =~= seq![
            sql::id_model(channel_id),
            SqlModel::Integer(channel_type as i64),
            SqlModel::Text(pattern(keyword@)),
            SqlModel::Integer(
                match limit {
                    Some(n) => n as i64,
                    None => 20,
                },
            ),
        ]);
        r
    }

    /// Whether a statement on one message met it.
    pub fn must_exist(affected: usize) -> (r: Result<(), PrivchatSDKError>)
        ensures
            r is Ok <==> affected > 0,
            r is Err ==> r->Err_0@ == ErrorModel::Database("消息不存在"@),
    {
        if affected == 0 {
            Err(PrivchatSDKError::Database("消息不存在".to_owned()))
        } else {
            Ok(())
        }
    }

    /// Marks a message as revoked, in the message and in its extra record; both in one
    /// transaction. `now_seconds` is the same time as `now`, in seconds.
    pub fn revoke(message: i64, revoker_id: u64, now: i64, now_seconds: i64) -> (r: (
        Statement,
        Statement,
    ))
        ensures
            r.0@ == mark_revoked_statement(message, revoker_id, now),
            r.1@ == record_revocation_statement(message, revoker_id, now_seconds),
    {
        (
            MessageDao::mark_revoked(message, revoker_id, now),
            MessageDao::record_revocation(message, revoker_id, now_seconds),
        )
    }

    /// Replaces the content of a message, in the message and in its extra record; both in one
    /// transaction. `now_seconds` is the same time as `now`, in seconds.
    pub fn edit(message: i64, new_content: &str, now: i64, now_seconds: i64) -> (r: (
        Statement,
        Statement,
    ))
        ensures
            r.0@ == update_content_statement(message, new_content@, now),
            r.1@ == record_edit_statement(message, new_content@, now_seconds),
    {
        (
            MessageDao::update_content(message, new_content, now),
            MessageDao::record_edit(message, new_content, now_seconds),
        )
    }

    /// Deletes the messages whose time has run out. There is no statement where the time cannot
    /// be written.
    pub fn delete_expired(now: i64) -> (r: Option<Statement>)
        ensures
            match clock::written_time(now, "%Y-%m-%d %H:%M:%S%.3f"@) {
                Some(written) => r is Some && r->0@ == delete_expired_before_statement(written, now),
                None => r is None,
            },
    {
        match write_time(now, "%Y-%m-%d %H:%M:%S%.3f") {
            Some(written) => Some(MessageDao::delete_expired_before(written.as_str(), now)),
            None => None,
        }
    }

}

impl FromRow for Message {
    open spec fn shape() -> Seq<(Seq<char>, ColumnKind)> {
        message_shape()
    }

    open spec fn held_by(row: RowModel) -> MessageModel {
        message_in(row)
    }

    fn from_row(row: &Row) -> (r: Result<Self, RowError>) {
        let expected: Vec<Expected> = vec![
            expect("id", ColumnKind::MaybeInt64),
            expect("message_id", ColumnKind::MaybeId),
            expect("pts", ColumnKind::Int64),
            expect("channel_id", ColumnKind::Id),
            expect("channel_type", ColumnKind::Int32),
            expect("timestamp", ColumnKind::MaybeInt64),
            expect("from_uid", ColumnKind::Id),
            expect("type", ColumnKind::Int32),
            expect("content", ColumnKind::Text),
            expect("status", ColumnKind::Int32),
            expect("voice_status", ColumnKind::Int32),
            expect("searchable_word", ColumnKind::Text),
            expect("local_message_id", ColumnKind::Unsigned),
            expect("is_deleted", ColumnKind::Int32),
            expect("setting", ColumnKind::Int32),
            expect("order_seq", ColumnKind::Int64),
            expect("extra", ColumnKind::Text),
            expect("flame", ColumnKind::Int16),
            expect("flame_second", ColumnKind::Int32),
            expect("viewed", ColumnKind::Int16),
            expect("viewed_at", ColumnKind::Int64),
            expect("topic_id", ColumnKind::Text),
            expect("expire_time", ColumnKind::MaybeInt64),
            expect("expire_timestamp", ColumnKind::MaybeInt64),
            expect("revoked_by", ColumnKind::MaybeId),
        ];
        assert(sql::shape_of(expected@) =~= message_shape());
        match row.check(&expected) {
            Ok(_) => {
                let m = Message {
                    id: row.opt_i64("id"),
                    server_message_id: row.opt_id("message_id"),
                    pts: row.i64_at("pts"),
                    channel_id: row.id_at("channel_id"),
                    channel_type: row.i32_or("channel_type", 0),
                    timestamp: row.opt_i64("timestamp"),
                    from_uid: row.id_at("from_uid"),
                    message_type: row.i32_or("type", 0),
                    content: row.text_at("content"),
                    status: row.i32_or("status", 0),
                    voice_status: row.i32_or("voice_status", 0),
                    created_at: row.i64_at("created_at"),
                    updated_at: row.i64_at("updated_at"),
                    searchable_word: row.text_at("searchable_word"),
                    local_message_id: row.unsigned_at("local_message_id"),
                    is_deleted: row.i32_or("is_deleted", 0),
                    setting: row.i32_or("setting", 0),
                    order_seq: row.i64_at("order_seq"),
                    extra: row.text_at("extra"),
                    flame: row.i16_or("flame", 0),
                    flame_second: row.i32_or("flame_second", 0),
                    viewed: row.i16_or("viewed", 0),
                    viewed_at: row.i64_at("viewed_at"),
                    topic_id: row.text_at("topic_id"),
                    expire_time: row.opt_i64("expire_time"),
                    expire_timestamp: row.opt_i64("expire_timestamp"),
                    revoked: row.i16_or("revoked", 0),
                    revoked_at: row.i64_at("revoked_at"),
                    revoked_by: row.opt_id("revoked_by"),
                };
                Ok(m)
            },
            Err(e) => Err(e),
        }
    }
}

/// What reads a message back: a row that holds what storing the message bound, and the local id
/// that the database gave it, holds the message, with the time of storing where it had none.
pub proof fn law_a_stored_message_reads_back(m: MessageModel, now: i64, given: i64, row: RowModel)
    requires
        m.local_message_id <= i64::MAX,
        row.holds(message_bindings(m, now)),
        row.get("id"@) == Some(SqlModel::Integer(given)),
        m.revoked_by is None ==> row.get("revoked_by"@) == Some(SqlModel::Null),
    ensures
        row.first_fault(message_shape()) is None,
        message_in(row) == (MessageModel {
            id: Some(given),
            created_at: time_or(m.created_at, now),
            updated_at: time_or(m.updated_at, now),
            ..m
        }),
{
    let b = message_bindings(m, now);
    assert(b[0] == ("message_id"@, sql::opt_id_model(m.server_message_id)));
    assert(b[1] == ("pts"@, SqlModel::Integer(m.pts)));
    assert(b[2] == ("channel_id"@, sql::id_model(m.channel_id)));
    assert(b[3] == ("channel_type"@, SqlModel::Integer(m.channel_type as i64)));
    assert(b[4] == ("timestamp"@, sql::opt_int_model(m.timestamp)));
    assert(b[5] == ("from_uid"@, sql::id_model(m.from_uid)));
    assert(b[6] == ("type"@, SqlModel::Integer(m.message_type as i64)));
    assert(b[7] == ("content"@, SqlModel::Text(m.content)));
    assert(b[8] == ("status"@, SqlModel::Integer(m.status as i64)));
    assert(b[9] == ("voice_status"@, SqlModel::Integer(m.voice_status as i64)));
    assert(b[10] == ("created_at"@, SqlModel::Integer(time_or(m.created_at, now))));
    assert(b[11] == ("updated_at"@, SqlModel::Integer(time_or(m.updated_at, now))));
    assert(b[12] == ("searchable_word"@, SqlModel::Text(m.searchable_word)));
    assert(b[13] == ("local_message_id"@, sql::id_model(m.local_message_id)));
    assert(b[14] == ("is_deleted"@, SqlModel::Integer(m.is_deleted as i64)));
    assert(b[15] == ("setting"@, SqlModel::Integer(m.setting as i64)));
    assert(b[16] == ("order_seq"@, SqlModel::Integer(m.order_seq)));
    assert(b[17] == ("extra"@, SqlModel::Text(m.extra)));
    assert(b[18] == ("flame"@, SqlModel::Integer(m.flame as i64)));
    assert(b[19] == ("flame_second"@, SqlModel::Integer(m.flame_second as i64)));
    assert(b[20] == ("viewed"@, SqlModel::Integer(m.viewed as i64)));
    assert(b[21] == ("viewed_at"@, SqlModel::Integer(m.viewed_at)));
    assert(b[22] == ("topic_id"@, SqlModel::Text(m.topic_id)));
    assert(b[23] == ("expire_time"@, sql::opt_int_model(m.expire_time)));
    assert(b[24] == ("expire_timestamp"@, sql::opt_int_model(m.expire_timestamp)));
    assert(b[25] == ("revoked"@, SqlModel::Integer(m.revoked as i64)));
    assert(b[26] == ("revoked_at"@, SqlModel::Integer(m.revoked_at)));
    match m.revoked_by {
        Some(by) => {
            assert(b[27] == ("revoked_by"@, sql::id_model(by)));
            sql::law_identifier_round_trip(by);
        },
        None => {},
    }
    match m.server_message_id {
        Some(id) => {
            sql::law_identifier_round_trip(id);
        },
        None => {},
    }
    sql::law_identifier_round_trip(m.channel_id);
    sql::law_identifier_round_trip(m.from_uid);
    sql::law_identifier_round_trip(m.local_message_id);
    let shape = message_shape();
    assert(shape[0] == ("id"@, ColumnKind::MaybeInt64));
    assert(shape[1] == ("message_id"@, ColumnKind::MaybeId));
    assert(shape[2] == ("pts"@, ColumnKind::Int64));
    assert(shape[3] == ("channel_id"@, ColumnKind::Id));
    assert(shape[4] == ("channel_type"@, ColumnKind::Int32));
    assert(shape[5] == ("timestamp"@, ColumnKind::MaybeInt64));
    assert(shape[6] == ("from_uid"@, ColumnKind::Id));
    assert(shape[7] == ("type"@, ColumnKind::Int32));
    assert(shape[8] == ("content"@, ColumnKind::Text));
    assert(shape[9] == ("status"@, ColumnKind::Int32));
    assert(shape[10] == ("voice_status"@, ColumnKind::Int32));
    assert(shape[11] == ("searchable_word"@, ColumnKind::Text));
    assert(shape[12] == ("local_message_id"@, ColumnKind::Unsigned));
    assert(shape[13] == ("is_deleted"@, ColumnKind::Int32));
    assert(shape[14] == ("setting"@, ColumnKind::Int32));
    assert(shape[15] == ("order_seq"@, ColumnKind::Int64));
    assert(shape[16] == ("extra"@, ColumnKind::Text));
    assert(shape[17] == ("flame"@, ColumnKind::Int16));
    assert(shape[18] == ("flame_second"@, ColumnKind::Int32));
    assert(shape[19] == ("viewed"@, ColumnKind::Int16));
    assert(shape[20] == ("viewed_at"@, ColumnKind::Int64));
    assert(shape[21] == ("topic_id"@, ColumnKind::Text));
    assert(shape[22] == ("expire_time"@, ColumnKind::MaybeInt64));
    assert(shape[23] == ("expire_timestamp"@, ColumnKind::MaybeInt64));
    assert(shape[24] == ("revoked_by"@, ColumnKind::MaybeId));
    sql::lemma_shape_met(row, shape);
}

/// The column that the words of a condition test: ` AND column sign ?`.
pub open spec fn tested_column(words: Seq<char>) -> Seq<char> {
    match text::first_index_of(words.skip(5), ' ') {
        Some(i) => words.subrange(5, 5 + i),
        None => Seq::empty(),
    }
}

/// The sign in the words of a condition.
pub open spec fn tested_sign(words: Seq<char>) -> Seq<char> {
    words.subrange(6 + tested_column(words).len() as int, words.len() - 2)
}

/// Whether a row meets a condition, by what its words say.
pub open spec fn meets_condition(row: RowModel, c: (Seq<char>, SqlModel)) -> bool {
    &&& text::begins_with(c.0, " AND "@)
    &&& text::ends_with(c.0, " ?"@)
    &&& row.get(tested_column(c.0)) matches Some(value)
    &&& exists|sign: Comparison|
        #![trigger sql::comparison_sign(sign)]
        tested_sign(c.0) == sql::comparison_sign(sign) && sql::compares(value, sign, c.1)
}

/// Whether a row meets every condition.
pub open spec fn meets_each(row: RowModel, conditions: Seq<(Seq<char>, SqlModel)>) -> bool {
    forall|i: int| 0 <= i < conditions.len() ==> meets_condition(row, #[trigger] conditions[i])
}

/// Whether a row is among those that a query selects, by the words of its conditions.
pub open spec fn is_selected(row: RowModel, q: MessageQuery) -> bool {
    &&& meets_each(row, conditions(q))
    &&& q.is_deleted is None ==> sql::meets(
        row,
        sql::against_number("is_deleted"@, Comparison::Equal, 0),
        Seq::empty(),
    )
}

proof fn lemma_condition(words: Seq<char>, column: Seq<char>, sign: Comparison)
    requires
        words == " AND "@ + column + " "@ + sql::comparison_sign(sign) + " ?"@,
        !column.contains(' '),
    ensures
        text::begins_with(words, " AND "@),
        text::ends_with(words, " ?"@),
        tested_column(words) == column,
        tested_sign(words) == sql::comparison_sign(sign),
{
    reveal_strlit(" AND ");
    reveal_strlit(" ");
    reveal_strlit(" ?");
    let n = column.len() as int;
    let rest = words.skip(5);
    assert(rest[n] == ' ');
    assert forall|j: int| 0 <= j < n implies rest[j] != ' ' by {
        assert(rest[j] == column[j]);
        assert(column.contains(column[j]));
    }
    text::lemma_first_index_is(rest, ' ', n);
    assert(words.subrange(5, 5 + n) =~= column);
    assert(words.subrange(n + 6, words.len() - 2) =~= sql::comparison_sign(sign));
    assert(words.take(5) =~= " AND "@);
    assert(words.skip(words.len() - 2) =~= " ?"@);
}

proof fn lemma_signs(a: Comparison, b: Comparison)
    ensures
        sql::comparison_sign(a) == sql::comparison_sign(b) <==> a == b,
{
    reveal_strlit("=");
    reveal_strlit(">=");
    reveal_strlit("<=");
    reveal_strlit(">");
    reveal_strlit("<");
    let x = sql::comparison_sign(a);
    let y = sql::comparison_sign(b);
    if x == y {
        assert(x[0] == y[0]);
        assert(x.len() == y.len());
    }
}

proof fn lemma_meets(
    row: RowModel,
    column: Seq<char>,
    sign: Comparison,
    words: Seq<char>,
    with: SqlModel,
)
    requires
        words == " AND "@ + column + " "@ + sql::comparison_sign(sign) + " ?"@,
        !column.contains(' '),
    ensures
        meets_condition(row, (words, with)) <==> (row.get(column) matches Some(value)
            && sql::compares(value, sign, with)),
{
    lemma_condition(words, column, sign);
    if meets_condition(row, (words, with)) {
        let value = row.get(column)->0;
        let found = choose|found: Comparison|
            #![trigger sql::comparison_sign(found)]
            tested_sign(words) == sql::comparison_sign(found) && sql::compares(value, found, with);
        lemma_signs(found, sign);
    }
}

proof fn lemma_meets_both(row: RowModel, a: Seq<(Seq<char>, SqlModel)>, b: Seq<(Seq<char>, SqlModel)>)
    ensures
        meets_each(row, a + b) <==> meets_each(row, a) && meets_each(row, b),
{
    let both = a + b;
    if meets_each(row, both) {
        assert forall|i: int| 0 <= i < a.len() implies meets_condition(row, #[trigger] a[i]) by {
            assert(both[i] == a[i]);
        }
        assert forall|i: int| 0 <= i < b.len() implies meets_condition(row, #[trigger] b[i]) by {
            assert(both[i + a.len()] == b[i]);
        }
    }
}

proof fn lemma_meets_one<T>(
    row: RowModel,
    words: Seq<char>,
    column: Seq<char>,
    sign: Comparison,
    wanted: Option<T>,
    bound: spec_fn(T) -> SqlModel,
)
    requires
        words == " AND "@ + column + " "@ + sql::comparison_sign(sign) + " ?"@,
        !column.contains(' '),
    ensures
        meets_each(row, condition(words, wanted, bound)) <==> (wanted matches Some(v) ==> (row.get(
            column,
        ) matches Some(value) && sql::compares(value, sign, bound(v)))),
{
    if let Some(v) = wanted {
        lemma_meets(row, column, sign, words, bound(v));
        let one = condition(words, wanted, bound);
        assert(one[0] == (words, bound(v)));
        assert(one.len() == 1);
    }
}

proof fn lemma_condition_words()
    ensures
        " AND channel_id = ?"@ == " AND "@ + "channel_id"@ + " "@ + "="@ + " ?"@,
        " AND channel_type = ?"@ == " AND "@ + "channel_type"@ + " "@ + "="@ + " ?"@,
        " AND from_uid = ?"@ == " AND "@ + "from_uid"@ + " "@ + "="@ + " ?"@,
        " AND type = ?"@ == " AND "@ + "type"@ + " "@ + "="@ + " ?"@,
        " AND timestamp >= ?"@ == " AND "@ + "timestamp"@ + " "@ + ">="@ + " ?"@,
        " AND timestamp <= ?"@ == " AND "@ + "timestamp"@ + " "@ + "<="@ + " ?"@,
        " AND is_deleted = ?"@ == " AND "@ + "is_deleted"@ + " "@ + "="@ + " ?"@,
        " AND is_deleted = 0"@ == " AND "@ + sql::test_words(
            sql::against_number("is_deleted"@, Comparison::Equal, 0),
        ),
        !"channel_id"@.contains(' '),
        !"channel_type"@.contains(' '),
        !"from_uid"@.contains(' '),
        !"type"@.contains(' '),
        !"timestamp"@.contains(' '),
        !"is_deleted"@.contains(' '),
{
    reveal_strlit(" AND ");
    reveal_strlit(" ");
    reveal_strlit(" ?");
    reveal_strlit("=");
    reveal_strlit(">=");
    reveal_strlit("<=");
    reveal_strlit("channel_id");
    reveal_strlit("channel_type");
    reveal_strlit("from_uid");
    reveal_strlit("type");
    reveal_strlit("timestamp");
    reveal_strlit("is_deleted");
    reveal_strlit(" AND channel_id = ?");
    reveal_strlit(" AND channel_type = ?");
    reveal_strlit(" AND from_uid = ?");
    reveal_strlit(" AND type = ?");
    reveal_strlit(" AND timestamp >= ?");
    reveal_strlit(" AND timestamp <= ?");
    reveal_strlit(" AND is_deleted = ?");
    reveal_strlit(" AND is_deleted = 0");
}

/// A query selects exactly the messages that match every field that it states, and that lie between the
/// two times, each where it states one: none before the start, none after the end, and all between. A
/// message without a time is in no span of time. Where the query does not say, deleted messages are
/// left out. The page and the count select the same messages; a page has twenty of them, from the
/// newest on, where the query does not say.
pub proof fn law_a_query_selects_what_it_asks_for(
    q: MessageQuery,
    m: MessageModel,
    now: i64,
    row: RowModel,
)
    requires
        row.holds(message_bindings(m, now)),
    ensures
        is_selected(row, q) <==> {
            &&& q.channel_id matches Some(id) ==> m.channel_id == id
            &&& q.channel_type matches Some(t) ==> m.channel_type == t
            &&& q.from_uid matches Some(uid) ==> m.from_uid == uid
            &&& q.message_type matches Some(t) ==> m.message_type == t
            &&& q.start_time matches Some(start) ==> (m.timestamp matches Some(at) && start <= at)
            &&& q.end_time matches Some(end) ==> (m.timestamp matches Some(at) && at <= end)
            &&& match q.is_deleted {
                Some(d) => m.is_deleted == d,
                None => m.is_deleted == 0,
            }
        },
        count_statement(q).params == page_statement(q).params,
        count_statement(q).params == sql::params_of(conditions(q)),
        ({
            let chosen = " FROM message WHERE 1=1"@ + joined(conditions(q)) + (if q.is_deleted is Some {
                Seq::empty()
            } else {
                " AND "@ + sql::test_words(
                    sql::against_number("is_deleted"@, Comparison::Equal, 0),
                )
            });
            &&& count_statement(q).sql == "SELECT COUNT(*)"@ + chosen
            &&& page_statement(q).sql == "SELECT *"@ + chosen + " ORDER BY "@ + (match q.order_by {
                Some(order) => order@,
                None => "timestamp DESC"@,
            }) + " LIMIT "@ + text::decimal(
                if q.limit is Some {
                    q.limit->0 as nat
                } else {
                    20
                },
            ) + " OFFSET "@ + text::decimal(
                if q.offset is Some {
                    q.offset->0 as nat
                } else {
                    0
                },
            )
        }),
{
    let b = message_bindings(m, now);
    assert(b[2] == ("channel_id"@, sql::id_model(m.channel_id)));
    assert(b[3] == ("channel_type"@, SqlModel::Integer(m.channel_type as i64)));
    assert(b[4] == ("timestamp"@, sql::opt_int_model(m.timestamp)));
    assert(b[5] == ("from_uid"@, sql::id_model(m.from_uid)));
    assert(b[6] == ("type"@, SqlModel::Integer(m.message_type as i64)));
    assert(b[14] == ("is_deleted"@, SqlModel::Integer(m.is_deleted as i64)));
    lemma_condition_words();
    let by_id = |v: u64| sql::id_model(v);
    let by_kind = |v: i32| SqlModel::Integer(v as i64);
    let by_time = |v: i64| SqlModel::Integer(v);
    let c1 = condition(" AND channel_id = ?"@, q.channel_id, by_id);
    let c2 = condition(" AND channel_type = ?"@, q.channel_type, by_kind);
    let c3 = condition(" AND from_uid = ?"@, q.from_uid, by_id);
    let c4 = condition(" AND type = ?"@, q.message_type, by_kind);
    let c5 = condition(" AND timestamp >= ?"@, q.start_time, by_time);
    let c6 = condition(" AND timestamp <= ?"@, q.end_time, by_time);
    let c7 = condition(" AND is_deleted = ?"@, q.is_deleted, by_kind);
    assert(conditions(q) =~= c1 + c2 + c3 + c4 + c5 + c6 + c7);
    lemma_meets_both(row, c1 + c2 + c3 + c4 + c5 + c6, c7);
    lemma_meets_both(row, c1 + c2 + c3 + c4 + c5, c6);
    lemma_meets_both(row, c1 + c2 + c3 + c4, c5);
    lemma_meets_both(row, c1 + c2 + c3, c4);
    lemma_meets_both(row, c1 + c2, c3);
    lemma_meets_both(row, c1, c2);
    let equal = Comparison::Equal;
    lemma_meets_one(row, " AND channel_id = ?"@, "channel_id"@, equal, q.channel_id, by_id);
    lemma_meets_one(row, " AND channel_type = ?"@, "channel_type"@, equal, q.channel_type, by_kind);
    lemma_meets_one(row, " AND from_uid = ?"@, "from_uid"@, equal, q.from_uid, by_id);
    lemma_meets_one(row, " AND type = ?"@, "type"@, equal, q.message_type, by_kind);
    lemma_meets_one(
        row,
        " AND timestamp >= ?"@,
        "timestamp"@,
        Comparison::AtLeast,
        q.start_time,
        by_time,
    );
    lemma_meets_one(row, " AND timestamp <= ?"@, "timestamp"@, Comparison::AtMost, q.end_time, by_time);
    lemma_meets_one(row, " AND is_deleted = ?"@, "is_deleted"@, equal, q.is_deleted, by_kind);
    if let Some(id) = q.channel_id {
        sql::lemma_stored_ids(m.channel_id, id);
    }
    if let Some(uid) = q.from_uid {
        sql::lemma_stored_ids(m.from_uid, uid);
    }
}

// What the statements do.

/// The row of a message is looked for in its channel, by the server's number, among those that are not
/// deleted.
pub proof fn law_a_row_is_found_by_channel_and_number(
    channel_id: u64,
    server_message_id: u64,
    row: RowModel,
    channel: u64,
    number: u64,
    deleted: i64,
)
    requires
        row.get("channel_id"@) == Some(sql::id_model(channel)),
        row.get("message_id"@) == Some(sql::id_model(number)),
        row.get("is_deleted"@) == Some(SqlModel::Integer(deleted)),
    ensures
        ({
            let s = get_id_by_channel_and_server_message_id_statement(channel_id, server_message_id);
            let tests = seq![
                sql::against("channel_id"@, Comparison::Equal, 1),
                sql::against("message_id"@, Comparison::Equal, 2),
                sql::against_number("is_deleted"@, Comparison::Equal, 0),
            ];
            &&& sql::is_selection(s, "id"@, "message"@, tests, ""@)
            &&& sql::meets_all(
                row,
                tests,
                s.params,
            ) <==> channel == channel_id && number == server_message_id && deleted == 0
        }),
{
    let s = get_id_by_channel_and_server_message_id_statement(channel_id, server_message_id);
    let tests = seq![
        sql::against("channel_id"@, Comparison::Equal, 1),
        sql::against("message_id"@, Comparison::Equal, 2),
        sql::against_number("is_deleted"@, Comparison::Equal, 0),
    ];
    sql::lemma_tests_three(
        sql::against("channel_id"@, Comparison::Equal, 1),
        sql::against("message_id"@, Comparison::Equal, 2),
        sql::against_number("is_deleted"@, Comparison::Equal, 0),
        row,
        s.params,
    );
    sql::lemma_stored_ids(channel, channel_id);
    sql::lemma_stored_ids(number, server_message_id);
    assert(s.sql =~= "SELECT "@ + "id"@ + " FROM "@ + "message"@ + " WHERE "@ + sql::where_words(tests) + ""@) by {
        reveal_strlit("SELECT id FROM message WHERE channel_id = ?1 AND message_id = ?2 AND is_deleted = 0");
        reveal_strlit("SELECT ");
        reveal_strlit("id");
        reveal_strlit(" FROM ");
        reveal_strlit("message");
        reveal_strlit(" WHERE ");
        reveal_strlit("channel_id");
        reveal_strlit(" ");
        reveal_strlit("=");
        reveal_strlit("?");
        reveal_strlit("message_id");
        reveal_strlit("is_deleted");
        reveal_strlit(" AND ");
        reveal_strlit("");
    }
}

/// A message is found by the server's number, unless it is deleted.
pub proof fn law_a_message_is_found_by_its_number(
    message_id: u64,
    row: RowModel,
    number: u64,
    deleted: i64,
)
    requires
        row.get("message_id"@) == Some(sql::id_model(number)),
        row.get("is_deleted"@) == Some(SqlModel::Integer(deleted)),
    ensures
        ({
            let s = get_by_message_id_statement(message_id);
            let tests = seq![
                sql::against("message_id"@, Comparison::Equal, 1),
                sql::against_number("is_deleted"@, Comparison::Equal, 0),
            ];
            &&& sql::is_selection(s, "*"@, "message"@, tests, ""@)
            &&& sql::meets_all(row, tests, s.params) <==> number == message_id && deleted == 0
        }),
{
    let s = get_by_message_id_statement(message_id);
    let tests = seq![
        sql::against("message_id"@, Comparison::Equal, 1),
        sql::against_number("is_deleted"@, Comparison::Equal, 0),
    ];
    sql::lemma_tests_two(
        sql::against("message_id"@, Comparison::Equal, 1),
        sql::against_number("is_deleted"@, Comparison::Equal, 0),
        row,
        s.params,
    );
    sql::lemma_stored_ids(number, message_id);
    assert(s.sql =~= "SELECT "@ + "*"@ + " FROM "@ + "message"@ + " WHERE "@ + sql::where_words(tests) + ""@) by {
        reveal_strlit("SELECT * FROM message WHERE message_id = ?1 AND is_deleted = 0");
        reveal_strlit("SELECT ");
        reveal_strlit("*");
        reveal_strlit(" FROM ");
        reveal_strlit("message");
        reveal_strlit(" WHERE ");
        reveal_strlit("message_id");
        reveal_strlit(" ");
        reveal_strlit("=");
        reveal_strlit("?");
        reveal_strlit("is_deleted");
        reveal_strlit(" AND ");
        reveal_strlit("");
    }
}

/// A message is found by its row, unless it is deleted.
pub proof fn law_a_message_is_found_by_its_row(message: i64, row: RowModel, id: i64, deleted: i64)
    requires
        row.get("id"@) == Some(SqlModel::Integer(id)),
        row.get("is_deleted"@) == Some(SqlModel::Integer(deleted)),
    ensures
        ({
            let s = get_by_id_statement(message);
            let tests = seq![
                sql::against("id"@, Comparison::Equal, 1),
                sql::against_number("is_deleted"@, Comparison::Equal, 0),
            ];
            &&& sql::is_selection(s, "*"@, "message"@, tests, ""@)
            &&& sql::meets_all(row, tests, s.params) <==> id == message && deleted == 0
        }),
{
    let s = get_by_id_statement(message);
    let tests = seq![
        sql::against("id"@, Comparison::Equal, 1),
        sql::against_number("is_deleted"@, Comparison::Equal, 0),
    ];
    sql::lemma_tests_two(
        sql::against("id"@, Comparison::Equal, 1),
        sql::against_number("is_deleted"@, Comparison::Equal, 0),
        row,
        s.params,
    );
    assert(s.sql =~= "SELECT "@ + "*"@ + " FROM "@ + "message"@ + " WHERE "@ + sql::where_words(tests) + ""@) by {
        reveal_strlit("SELECT * FROM message WHERE id = ?1 AND is_deleted = 0");
        reveal_strlit("SELECT ");
        reveal_strlit("*");
        reveal_strlit(" FROM ");
        reveal_strlit("message");
        reveal_strlit(" WHERE ");
        reveal_strlit("id");
        reveal_strlit(" ");
        reveal_strlit("=");
        reveal_strlit("?");
        reveal_strlit("is_deleted");
        reveal_strlit(" AND ");
        reveal_strlit("");
    }
}

/// The channel of a message is found by the message's row, also of a deleted one.
pub proof fn law_the_channel_of_a_message_is_found(message: i64, row: RowModel, id: i64)
    requires
        row.get("id"@) == Some(SqlModel::Integer(id)),
    ensures
        ({
            let s = get_channel_id_statement(message);
            let tests = seq![sql::against("id"@, Comparison::Equal, 1)];
            &&& sql::is_selection(s, "channel_id"@, "message"@, tests, ""@)
            &&& sql::meets_all(row, tests, s.params) <==> id == message
        }),
{
    let s = get_channel_id_statement(message);
    let tests = seq![sql::against("id"@, Comparison::Equal, 1)];
    sql::lemma_tests_one(sql::against("id"@, Comparison::Equal, 1), row, s.params);
    assert(s.sql =~= "SELECT "@ + "channel_id"@ + " FROM "@ + "message"@ + " WHERE "@ + sql::where_words(tests) + ""@) by {
        reveal_strlit("SELECT channel_id FROM message WHERE id = ?1");
        reveal_strlit("SELECT ");
        reveal_strlit("channel_id");
        reveal_strlit(" FROM ");
        reveal_strlit("message");
        reveal_strlit(" WHERE ");
        reveal_strlit("id");
        reveal_strlit(" ");
        reveal_strlit("=");
        reveal_strlit("?");
        reveal_strlit("");
    }
}

/// A change of status sets the status and the time of change of the one message.
pub proof fn law_a_status_is_set_in_one_message(
    message: i64,
    status: MessageStatus,
    now: i64,
    row: RowModel,
    id: i64,
)
    requires
        row.get("id"@) == Some(SqlModel::Integer(id)),
    ensures
        ({
            let s = update_status_statement(message, status, now);
            let sets = seq![sql::bound("status"@, 1), sql::bound("updated_at"@, 2)];
            let tests = seq![sql::against("id"@, Comparison::Equal, 3)];
            &&& sql::is_update(s, "message"@, sets, tests)
            &&& sql::given_values(sets, s.params) == seq![
                ("status"@, Some(SqlModel::Integer(entities::status_number(status) as i64))),
                ("updated_at"@, Some(SqlModel::Integer(now))),
            ]
            &&& sql::meets_all(row, tests, s.params) <==> id == message
        }),
{
    let s = update_status_statement(message, status, now);
    let sets = seq![sql::bound("status"@, 1), sql::bound("updated_at"@, 2)];
    let tests = seq![sql::against("id"@, Comparison::Equal, 3)];
    sql::lemma_tests_one(sql::against("id"@, Comparison::Equal, 3), row, s.params);
    sql::lemma_sets_two(sql::bound("status"@, 1), sql::bound("updated_at"@, 2), s.params);
    assert(s.sql =~= "UPDATE "@ + "message"@ + " SET "@ + sql::set_words(sets) + " WHERE "@ + sql::where_words(tests)) by {
        reveal_strlit("UPDATE message SET status = ?1, updated_at = ?2 WHERE id = ?3");
        reveal_strlit("UPDATE ");
        reveal_strlit("message");
        reveal_strlit(" SET ");
        reveal_strlit(" = ");
        reveal_strlit(" WHERE ");
        reveal_strlit("status");
        reveal_strlit("?");
        reveal_strlit("updated_at");
        reveal_strlit(", ");
        reveal_strlit("id");
        reveal_strlit(" ");
        reveal_strlit("=");
    }
}

/// A change of status by its number sets the number and the time of change of the one message.
pub proof fn law_a_status_number_is_set_in_one_message(
    message: i64,
    status: i32,
    now: i64,
    row: RowModel,
    id: i64,
)
    requires
        row.get("id"@) == Some(SqlModel::Integer(id)),
    ensures
        ({
            let s = update_status_number_statement(message, status, now);
            let sets = seq![sql::bound("status"@, 1), sql::bound("updated_at"@, 2)];
            let tests = seq![sql::against("id"@, Comparison::Equal, 3)];
            &&& sql::is_update(s, "message"@, sets, tests)
            &&& sql::given_values(sets, s.params) == seq![
                ("status"@, Some(SqlModel::Integer(status as i64))),
                ("updated_at"@, Some(SqlModel::Integer(now))),
            ]
            &&& sql::meets_all(row, tests, s.params) <==> id == message
        }),
{
    let s = update_status_number_statement(message, status, now);
    let sets = seq![sql::bound("status"@, 1), sql::bound("updated_at"@, 2)];
    let tests = seq![sql::against("id"@, Comparison::Equal, 3)];
    sql::lemma_tests_one(sql::against("id"@, Comparison::Equal, 3), row, s.params);
    sql::lemma_sets_two(sql::bound("status"@, 1), sql::bound("updated_at"@, 2), s.params);
    assert(s.sql =~= "UPDATE "@ + "message"@ + " SET "@ + sql::set_words(sets) + " WHERE "@ + sql::where_words(tests)) by {
        reveal_strlit("UPDATE message SET status = ?1, updated_at = ?2 WHERE id = ?3");
        reveal_strlit("UPDATE ");
        reveal_strlit("message");
        reveal_strlit(" SET ");
        reveal_strlit(" = ");
        reveal_strlit(" WHERE ");
        reveal_strlit("status");
        reveal_strlit("?");
        reveal_strlit("updated_at");
        reveal_strlit(", ");
        reveal_strlit("id");
        reveal_strlit(" ");
        reveal_strlit("=");
    }
}

/// The server's number is noted for the one message, with the time of change.
pub proof fn law_the_servers_number_is_set_in_one_message(
    message: i64,
    server_message_id: u64,
    now: i64,
    row: RowModel,
    id: i64,
)
    requires
        row.get("id"@) == Some(SqlModel::Integer(id)),
    ensures
        ({
            let s = update_server_message_id_statement(message, server_message_id, now);
            let sets = seq![sql::bound("message_id"@, 1), sql::bound("updated_at"@, 2)];
            let tests = seq![sql::against("id"@, Comparison::Equal, 3)];
            &&& sql::is_update(s, "message"@, sets, tests)
            &&& sql::given_values(sets, s.params) == seq![
                ("message_id"@, Some(sql::id_model(server_message_id))),
                ("updated_at"@, Some(SqlModel::Integer(now))),
            ]
            &&& sql::meets_all(row, tests, s.params) <==> id == message
        }),
{
    let s = update_server_message_id_statement(message, server_message_id, now);
    let sets = seq![sql::bound("message_id"@, 1), sql::bound("updated_at"@, 2)];
    let tests = seq![sql::against("id"@, Comparison::Equal, 3)];
    sql::lemma_tests_one(sql::against("id"@, Comparison::Equal, 3), row, s.params);
    sql::lemma_sets_two(sql::bound("message_id"@, 1), sql::bound("updated_at"@, 2), s.params);
    assert(s.sql =~= "UPDATE "@ + "message"@ + " SET "@ + sql::set_words(sets) + " WHERE "@ + sql::where_words(tests)) by {
        reveal_strlit("UPDATE message SET message_id = ?1, updated_at = ?2 WHERE id = ?3");
        reveal_strlit("UPDATE ");
        reveal_strlit("message");
        reveal_strlit(" SET ");
        reveal_strlit(" = ");
        reveal_strlit(" WHERE ");
        reveal_strlit("message_id");
        reveal_strlit("?");
        reveal_strlit("updated_at");
        reveal_strlit(", ");
        reveal_strlit("id");
        reveal_strlit(" ");
        reveal_strlit("=");
    }
}

/// New content replaces that of the one message, with the time of change.
pub proof fn law_content_is_set_in_one_message(
    message: i64,
    content: Seq<char>,
    now: i64,
    row: RowModel,
    id: i64,
)
    requires
        row.get("id"@) == Some(SqlModel::Integer(id)),
    ensures
        ({
            let s = update_content_statement(message, content, now);
            let sets = seq![sql::bound("content"@, 1), sql::bound("updated_at"@, 2)];
            let tests = seq![sql::against("id"@, Comparison::Equal, 3)];
            &&& sql::is_update(s, "message"@, sets, tests)
            &&& sql::given_values(sets, s.params) == seq![
                ("content"@, Some(SqlModel::Text(content))),
                ("updated_at"@, Some(SqlModel::Integer(now))),
            ]
            &&& sql::meets_all(row, tests, s.params) <==> id == message
        }),
{
    let s = update_content_statement(message, content, now);
    let sets = seq![sql::bound("content"@, 1), sql::bound("updated_at"@, 2)];
    let tests = seq![sql::against("id"@, Comparison::Equal, 3)];
    sql::lemma_tests_one(sql::against("id"@, Comparison::Equal, 3), row, s.params);
    sql::lemma_sets_two(sql::bound("content"@, 1), sql::bound("updated_at"@, 2), s.params);
    assert(s.sql =~= "UPDATE "@ + "message"@ + " SET "@ + sql::set_words(sets) + " WHERE "@ + sql::where_words(tests)) by {
        reveal_strlit("UPDATE message SET content = ?1, updated_at = ?2 WHERE id = ?3");
        reveal_strlit("UPDATE ");
        reveal_strlit("message");
        reveal_strlit(" SET ");
        reveal_strlit(" = ");
        reveal_strlit(" WHERE ");
        reveal_strlit("content");
        reveal_strlit("?");
        reveal_strlit("updated_at");
        reveal_strlit(", ");
        reveal_strlit("id");
        reveal_strlit(" ");
        reveal_strlit("=");
    }
}

/// Revoking marks the one message as revoked, by whom and when.
pub proof fn law_one_message_is_revoked(message: i64, revoker_id: u64, now: i64, row: RowModel, id: i64)
    requires
        row.get("id"@) == Some(SqlModel::Integer(id)),
    ensures
        ({
            let s = mark_revoked_statement(message, revoker_id, now);
            let sets = seq![
                sql::fixed("revoked"@, 1),
                sql::bound("revoked_at"@, 1),
                sql::bound("revoked_by"@, 2),
                sql::bound("updated_at"@, 3),
            ];
            let tests = seq![sql::against("id"@, Comparison::Equal, 4)];
            &&& sql::is_update(s, "message"@, sets, tests)
            &&& sql::given_values(sets, s.params) == seq![
                ("revoked"@, Some(SqlModel::Integer(1))),
                ("revoked_at"@, Some(SqlModel::Integer(now))),
                ("revoked_by"@, Some(sql::id_model(revoker_id))),
                ("updated_at"@, Some(SqlModel::Integer(now))),
            ]
            &&& sql::meets_all(row, tests, s.params) <==> id == message
        }),
{
    let s = mark_revoked_statement(message, revoker_id, now);
    let sets = seq![
        sql::fixed("revoked"@, 1),
        sql::bound("revoked_at"@, 1),
        sql::bound("revoked_by"@, 2),
        sql::bound("updated_at"@, 3),
    ];
    let tests = seq![sql::against("id"@, Comparison::Equal, 4)];
    sql::lemma_tests_one(sql::against("id"@, Comparison::Equal, 4), row, s.params);
    sql::lemma_sets_four(
        sql::fixed("revoked"@, 1),
        sql::bound("revoked_at"@, 1),
        sql::bound("revoked_by"@, 2),
        sql::bound("updated_at"@, 3),
        s.params,
    );
    assert(s.sql =~= "UPDATE "@ + "message"@ + " SET "@ + sql::set_words(sets) + " WHERE "@ + sql::where_words(tests)) by {
        reveal_strlit("UPDATE message SET revoked = 1, revoked_at = ?1, revoked_by = ?2, updated_at = ?3 WHERE id = ?4");
        reveal_strlit("UPDATE ");
        reveal_strlit("message");
        reveal_strlit(" SET ");
        reveal_strlit(" = ");
        reveal_strlit(" WHERE ");
        reveal_strlit("revoked");
        reveal_strlit("revoked_at");
        reveal_strlit("?");
        reveal_strlit("revoked_by");
        reveal_strlit("updated_at");
        reveal_strlit(", ");
        reveal_strlit("id");
        reveal_strlit(" ");
        reveal_strlit("=");
    }
}

/// The record of a revocation names the message and who revoked it, and has the time as its version.
pub proof fn law_a_revocation_is_recorded(message: i64, revoker_id: u64, now_seconds: i64)
    ensures
        ({
            let s = record_revocation_statement(message, revoker_id, now_seconds);
            let sets = seq![
                sql::bound("message_id"@, 1),
                sql::fixed("revoke"@, 1),
                sql::bound("revoker"@, 2),
                sql::bound("extra_version"@, 3),
            ];
            &&& sql::is_insertion(s, "INSERT OR REPLACE INTO "@, "message_extra"@, sets)
            &&& sql::given_values(sets, s.params) == seq![
                ("message_id"@, Some(SqlModel::Integer(message))),
                ("revoke"@, Some(SqlModel::Integer(1))),
                ("revoker"@, Some(sql::id_model(revoker_id))),
                ("extra_version"@, Some(SqlModel::Integer(now_seconds))),
            ]
        }),
{
    let s = record_revocation_statement(message, revoker_id, now_seconds);
    let sets = seq![
        sql::bound("message_id"@, 1),
        sql::fixed("revoke"@, 1),
        sql::bound("revoker"@, 2),
        sql::bound("extra_version"@, 3),
    ];
    let names = Seq::new(sets.len(), |i: int| sets[i].0);
    assert(names =~= seq!["message_id"@, "revoke"@, "revoker"@, "extra_version"@]);
    assert(sql::column_list(names) == "message_id"@ + ", "@ + "revoke"@ + ", "@ + "revoker"@ + ", "@ + "extra_version"@) by {
        reveal_with_fuel(sql::column_list, 5);
        assert(names.last() == "extra_version"@);
        assert(names.drop_last().last() == "revoker"@);
        assert(names.drop_last().drop_last().last() == "revoke"@);
        assert(names.drop_last().drop_last().drop_last().last() == "message_id"@);
    }
    assert(sql::value_words(sets) == sql::operand_words(sql::Operand::Parameter(1)) + ", "@ + sql::operand_words(sql::Operand::Number(1)) + ", "@ + sql::operand_words(sql::Operand::Parameter(2)) + ", "@ + sql::operand_words(sql::Operand::Parameter(3))) by {
        reveal_with_fuel(sql::value_words, 5);
        assert(sets.last().1 == sql::Operand::Parameter(3));
        assert(sets.drop_last().last().1 == sql::Operand::Parameter(2));
        assert(sets.drop_last().drop_last().last().1 == sql::Operand::Number(1));
        assert(sets.drop_last().drop_last().drop_last().last().1 == sql::Operand::Parameter(1));
    }
    assert(s.sql =~= "INSERT OR REPLACE INTO "@ + "message_extra"@ + " ("@ + sql::column_list(names) + ") VALUES ("@ + sql::value_words(sets) + ")"@) by {
        reveal_strlit("INSERT OR REPLACE INTO message_extra (message_id, revoke, revoker, extra_version) VALUES (?1, 1, ?2, ?3)");
        reveal_strlit("INSERT OR REPLACE INTO ");
        reveal_strlit("message_extra");
        reveal_strlit(" (");
        reveal_strlit(") VALUES (");
        reveal_strlit(")");
        reveal_strlit("message_id");
        reveal_strlit("?");
        reveal_strlit("revoke");
        reveal_strlit("revoker");
        reveal_strlit("extra_version");
        reveal_strlit(", ");
    }
    assert(sql::given_values(sets, s.params) =~= seq![("message_id"@, Some(SqlModel::Integer(message))), ("revoke"@, Some(SqlModel::Integer(1))), ("revoker"@, Some(sql::id_model(revoker_id))), ("extra_version"@, Some(SqlModel::Integer(now_seconds)))]);
}

/// The record of an edit names the message, holds the new content, and has the time of the edit, also
/// as its version.
pub proof fn law_an_edit_is_recorded(message: i64, new_content: Seq<char>, now_seconds: i64)
    ensures
        ({
            let s = record_edit_statement(message, new_content, now_seconds);
            let sets = seq![
                sql::bound("message_id"@, 1),
                sql::bound("content_edit"@, 2),
                sql::bound("edited_at"@, 3),
                sql::bound("extra_version"@, 4),
            ];
            &&& sql::is_insertion(s, "INSERT OR REPLACE INTO "@, "message_extra"@, sets)
            &&& sql::given_values(sets, s.params) == seq![
                ("message_id"@, Some(SqlModel::Integer(message))),
                ("content_edit"@, Some(SqlModel::Text(new_content))),
                ("edited_at"@, Some(SqlModel::Integer(now_seconds))),
                ("extra_version"@, Some(SqlModel::Integer(now_seconds))),
            ]
        }),
{
    let s = record_edit_statement(message, new_content, now_seconds);
    let sets = seq![
        sql::bound("message_id"@, 1),
        sql::bound("content_edit"@, 2),
        sql::bound("edited_at"@, 3),
        sql::bound("extra_version"@, 4),
    ];
    let names = Seq::new(sets.len(), |i: int| sets[i].0);
    assert(names =~= seq!["message_id"@, "content_edit"@, "edited_at"@, "extra_version"@]);
    assert(sql::column_list(names) == "message_id"@ + ", "@ + "content_edit"@ + ", "@ + "edited_at"@ + ", "@ + "extra_version"@) by {
        reveal_with_fuel(sql::column_list, 5);
        assert(names.last() == "extra_version"@);
        assert(names.drop_last().last() == "edited_at"@);
        assert(names.drop_last().drop_last().last() == "content_edit"@);
        assert(names.drop_last().drop_last().drop_last().last() == "message_id"@);
    }
    assert(sql::value_words(sets) == sql::operand_words(sql::Operand::Parameter(1)) + ", "@ + sql::operand_words(sql::Operand::Parameter(2)) + ", "@ + sql::operand_words(sql::Operand::Parameter(3)) + ", "@ + sql::operand_words(sql::Operand::Parameter(4))) by {
        reveal_with_fuel(sql::value_words, 5);
        assert(sets.last().1 == sql::Operand::Parameter(4));
        assert(sets.drop_last().last().1 == sql::Operand::Parameter(3));
        assert(sets.drop_last().drop_last().last().1 == sql::Operand::Parameter(2));
        assert(sets.drop_last().drop_last().drop_last().last().1 == sql::Operand::Parameter(1));
    }
    assert(s.sql =~= "INSERT OR REPLACE INTO "@ + "message_extra"@ + " ("@ + sql::column_list(names) + ") VALUES ("@ + sql::value_words(sets) + ")"@) by {
        reveal_strlit("INSERT OR REPLACE INTO message_extra (message_id, content_edit, edited_at, extra_version) VALUES (?1, ?2, ?3, ?4)");
        reveal_strlit("INSERT OR REPLACE INTO ");
        reveal_strlit("message_extra");
        reveal_strlit(" (");
        reveal_strlit(") VALUES (");
        reveal_strlit(")");
        reveal_strlit("message_id");
        reveal_strlit("?");
        reveal_strlit("content_edit");
        reveal_strlit("edited_at");
        reveal_strlit("extra_version");
        reveal_strlit(", ");
    }
    assert(sql::given_values(sets, s.params) =~= seq![("message_id"@, Some(SqlModel::Integer(message))), ("content_edit"@, Some(SqlModel::Text(new_content))), ("edited_at"@, Some(SqlModel::Integer(now_seconds))), ("extra_version"@, Some(SqlModel::Integer(now_seconds)))]);
}

/// Reading marks the one message as seen, and when.
pub proof fn law_one_message_is_marked_as_read(message: i64, now: i64, row: RowModel, id: i64)
    requires
        row.get("id"@) == Some(SqlModel::Integer(id)),
    ensures
        ({
            let s = mark_as_read_statement(message, now);
            let sets = seq![
                sql::fixed("viewed"@, 1),
                sql::bound("viewed_at"@, 1),
                sql::bound("updated_at"@, 2),
            ];
            let tests = seq![sql::against("id"@, Comparison::Equal, 3)];
            &&& sql::is_update(s, "message"@, sets, tests)
            &&& sql::given_values(sets, s.params) == seq![
                ("viewed"@, Some(SqlModel::Integer(1))),
                ("viewed_at"@, Some(SqlModel::Integer(now))),
                ("updated_at"@, Some(SqlModel::Integer(now))),
            ]
            &&& sql::meets_all(row, tests, s.params) <==> id == message
        }),
{
    let s = mark_as_read_statement(message, now);
    let sets = seq![
        sql::fixed("viewed"@, 1),
        sql::bound("viewed_at"@, 1),
        sql::bound("updated_at"@, 2),
    ];
    let tests = seq![sql::against("id"@, Comparison::Equal, 3)];
    sql::lemma_tests_one(sql::against("id"@, Comparison::Equal, 3), row, s.params);
    sql::lemma_sets_three(
        sql::fixed("viewed"@, 1),
        sql::bound("viewed_at"@, 1),
        sql::bound("updated_at"@, 2),
        s.params,
    );
    assert(s.sql =~= "UPDATE "@ + "message"@ + " SET "@ + sql::set_words(sets) + " WHERE "@ + sql::where_words(tests)) by {
        reveal_strlit("UPDATE message SET viewed = 1, viewed_at = ?1, updated_at = ?2 WHERE id = ?3");
        reveal_strlit("UPDATE ");
        reveal_strlit("message");
        reveal_strlit(" SET ");
        reveal_strlit(" = ");
        reveal_strlit(" WHERE ");
        reveal_strlit("viewed");
        reveal_strlit("viewed_at");
        reveal_strlit("?");
        reveal_strlit("updated_at");
        reveal_strlit(", ");
        reveal_strlit("id");
        reveal_strlit(" ");
        reveal_strlit("=");
    }
}

/// The messages that are deleted when they expire are just those that expire at all, whose end has
/// come, and that are not deleted yet.
pub proof fn law_only_expired_messages_are_deleted(
    written: Seq<char>,
    now: i64,
    row: RowModel,
    end: i64,
    deleted: i64,
)
    requires
        row.get("expire_timestamp"@) == Some(SqlModel::Integer(end)),
        row.get("is_deleted"@) == Some(SqlModel::Integer(deleted)),
    ensures
        ({
            let s = delete_expired_before_statement(written, now);
            let sets = seq![sql::fixed("is_deleted"@, 1), sql::bound("updated_at"@, 1)];
            let tests = seq![
                sql::against_number("expire_timestamp"@, Comparison::Above, 0),
                sql::against("expire_timestamp"@, Comparison::Below, 2),
                sql::against_number("is_deleted"@, Comparison::Equal, 0),
            ];
            &&& sql::is_update(s, "message"@, sets, tests)
            &&& sql::given_values(sets, s.params) == seq![
                ("is_deleted"@, Some(SqlModel::Integer(1))),
                ("updated_at"@, Some(SqlModel::Text(written))),
            ]
            &&& sql::meets_all(row, tests, s.params) <==> end > 0 && end < now && deleted == 0
        }),
{
    let s = delete_expired_before_statement(written, now);
    let sets = seq![sql::fixed("is_deleted"@, 1), sql::bound("updated_at"@, 1)];
    let tests = seq![
        sql::against_number("expire_timestamp"@, Comparison::Above, 0),
        sql::against("expire_timestamp"@, Comparison::Below, 2),
        sql::against_number("is_deleted"@, Comparison::Equal, 0),
    ];
    sql::lemma_tests_three(
        sql::against_number("expire_timestamp"@, Comparison::Above, 0),
        sql::against("expire_timestamp"@, Comparison::Below, 2),
        sql::against_number("is_deleted"@, Comparison::Equal, 0),
        row,
        s.params,
    );
    sql::lemma_sets_two(sql::fixed("is_deleted"@, 1), sql::bound("updated_at"@, 1), s.params);
    assert(s.sql =~= "UPDATE "@ + "message"@ + " SET "@ + sql::set_words(sets) + " WHERE "@ + sql::where_words(tests)) by {
        reveal_strlit("UPDATE message SET is_deleted = 1, updated_at = ?1 WHERE expire_timestamp > 0 AND expire_timestamp < ?2 AND is_deleted = 0");
        reveal_strlit("UPDATE ");
        reveal_strlit("message");
        reveal_strlit(" SET ");
        reveal_strlit(" = ");
        reveal_strlit(" WHERE ");
        reveal_strlit("is_deleted");
        reveal_strlit("updated_at");
        reveal_strlit("?");
        reveal_strlit(", ");
        reveal_strlit("expire_timestamp");
        reveal_strlit(" ");
        reveal_strlit(">");
        reveal_strlit("<");
        reveal_strlit("=");
        reveal_strlit(" AND ");
    }
}

/// The count of a channel's messages is that of its id and type, without the deleted ones.
pub proof fn law_messages_of_a_channel_are_counted(
    channel_id: u64,
    channel_type: i32,
    row: RowModel,
    channel: u64,
    kind: i32,
    deleted: i64,
)
    requires
        row.get("channel_id"@) == Some(sql::id_model(channel)),
        row.get("channel_type"@) == Some(SqlModel::Integer(kind as i64)),
        row.get("is_deleted"@) == Some(SqlModel::Integer(deleted)),
    ensures
        ({
            let s = count_by_channel_statement(channel_id, channel_type);
            let tests = seq![
                sql::against("channel_id"@, Comparison::Equal, 1),
                sql::against("channel_type"@, Comparison::Equal, 2),
                sql::against_number("is_deleted"@, Comparison::Equal, 0),
            ];
            &&& sql::is_selection(s, "COUNT(*)"@, "message"@, tests, ""@)
            &&& sql::meets_all(
                row,
                tests,
                s.params,
            ) <==> channel == channel_id && kind == channel_type && deleted == 0
        }),
{
    let s = count_by_channel_statement(channel_id, channel_type);
    let tests = seq![
        sql::against("channel_id"@, Comparison::Equal, 1),
        sql::against("channel_type"@, Comparison::Equal, 2),
        sql::against_number("is_deleted"@, Comparison::Equal, 0),
    ];
    sql::lemma_tests_three(
        sql::against("channel_id"@, Comparison::Equal, 1),
        sql::against("channel_type"@, Comparison::Equal, 2),
        sql::against_number("is_deleted"@, Comparison::Equal, 0),
        row,
        s.params,
    );
    sql::lemma_stored_ids(channel, channel_id);
    assert(s.sql =~= "SELECT "@ + "COUNT(*)"@ + " FROM "@ + "message"@ + " WHERE "@ + sql::where_words(tests) + ""@) by {
        reveal_strlit("SELECT COUNT(*) FROM message WHERE channel_id = ?1 AND channel_type = ?2 AND is_deleted = 0");
        reveal_strlit("SELECT ");
        reveal_strlit("COUNT(*)");
        reveal_strlit(" FROM ");
        reveal_strlit("message");
        reveal_strlit(" WHERE ");
        reveal_strlit("channel_id");
        reveal_strlit(" ");
        reveal_strlit("=");
        reveal_strlit("?");
        reveal_strlit("channel_type");
        reveal_strlit("is_deleted");
        reveal_strlit(" AND ");
        reveal_strlit("");
    }
}

/// The count of a user's messages is that of those that the user sent, without the deleted ones.
pub proof fn law_messages_of_a_user_are_counted(from_uid: u64, row: RowModel, sender: u64, deleted: i64)
    requires
        row.get("from_uid"@) == Some(sql::id_model(sender)),
        row.get("is_deleted"@) == Some(SqlModel::Integer(deleted)),
    ensures
        ({
            let s = count_by_user_statement(from_uid);
            let tests = seq![
                sql::against("from_uid"@, Comparison::Equal, 1),
                sql::against_number("is_deleted"@, Comparison::Equal, 0),
            ];
            &&& sql::is_selection(s, "COUNT(*)"@, "message"@, tests, ""@)
            &&& sql::meets_all(row, tests, s.params) <==> sender == from_uid && deleted == 0
        }),
{
    let s = count_by_user_statement(from_uid);
    let tests = seq![
        sql::against("from_uid"@, Comparison::Equal, 1),
        sql::against_number("is_deleted"@, Comparison::Equal, 0),
    ];
    sql::lemma_tests_two(
        sql::against("from_uid"@, Comparison::Equal, 1),
        sql::against_number("is_deleted"@, Comparison::Equal, 0),
        row,
        s.params,
    );
    sql::lemma_stored_ids(sender, from_uid);
    assert(s.sql =~= "SELECT "@ + "COUNT(*)"@ + " FROM "@ + "message"@ + " WHERE "@ + sql::where_words(tests) + ""@) by {
        reveal_strlit("SELECT COUNT(*) FROM message WHERE from_uid = ?1 AND is_deleted = 0");
        reveal_strlit("SELECT ");
        reveal_strlit("COUNT(*)");
        reveal_strlit(" FROM ");
        reveal_strlit("message");
        reveal_strlit(" WHERE ");
        reveal_strlit("from_uid");
        reveal_strlit(" ");
        reveal_strlit("=");
        reveal_strlit("?");
        reveal_strlit("is_deleted");
        reveal_strlit(" AND ");
        reveal_strlit("");
    }
}

/// Deleting marks the one message as deleted, with the time of change.
pub proof fn law_one_message_is_deleted(message: i64, now: i64, row: RowModel, id: i64)
    requires
        row.get("id"@) == Some(SqlModel::Integer(id)),
    ensures
        ({
            let s = soft_delete_statement(message, now);
            let sets = seq![sql::fixed("is_deleted"@, 1), sql::bound("updated_at"@, 1)];
            let tests = seq![sql::against("id"@, Comparison::Equal, 2)];
            &&& sql::is_update(s, "message"@, sets, tests)
            &&& sql::given_values(sets, s.params) == seq![
                ("is_deleted"@, Some(SqlModel::Integer(1))),
                ("updated_at"@, Some(SqlModel::Integer(now))),
            ]
            &&& sql::meets_all(row, tests, s.params) <==> id == message
        }),
{
    let s = soft_delete_statement(message, now);
    let sets = seq![sql::fixed("is_deleted"@, 1), sql::bound("updated_at"@, 1)];
    let tests = seq![sql::against("id"@, Comparison::Equal, 2)];
    sql::lemma_tests_one(sql::against("id"@, Comparison::Equal, 2), row, s.params);
    sql::lemma_sets_two(sql::fixed("is_deleted"@, 1), sql::bound("updated_at"@, 1), s.params);
    assert(s.sql =~= "UPDATE "@ + "message"@ + " SET "@ + sql::set_words(sets) + " WHERE "@ + sql::where_words(tests)) by {
        reveal_strlit("UPDATE message SET is_deleted = 1, updated_at = ?1 WHERE id = ?2");
        reveal_strlit("UPDATE ");
        reveal_strlit("message");
        reveal_strlit(" SET ");
        reveal_strlit(" = ");
        reveal_strlit(" WHERE ");
        reveal_strlit("is_deleted");
        reveal_strlit("updated_at");
        reveal_strlit("?");
        reveal_strlit(", ");
        reveal_strlit("id");
        reveal_strlit(" ");
        reveal_strlit("=");
    }
}

/// Restoring takes the mark of deletion from the one message, with the time of change.
pub proof fn law_one_message_is_restored(message: i64, now: i64, row: RowModel, id: i64)
    requires
        row.get("id"@) == Some(SqlModel::Integer(id)),
    ensures
        ({
            let s = restore_statement(message, now);
            let sets = seq![sql::fixed("is_deleted"@, 0), sql::bound("updated_at"@, 1)];
            let tests = seq![sql::against("id"@, Comparison::Equal, 2)];
            &&& sql::is_update(s, "message"@, sets, tests)
            &&& sql::given_values(sets, s.params) == seq![
                ("is_deleted"@, Some(SqlModel::Integer(0))),
                ("updated_at"@, Some(SqlModel::Integer(now))),
            ]
            &&& sql::meets_all(row, tests, s.params) <==> id == message
        }),
{
    let s = restore_statement(message, now);
    let sets = seq![sql::fixed("is_deleted"@, 0), sql::bound("updated_at"@, 1)];
    let tests = seq![sql::against("id"@, Comparison::Equal, 2)];
    sql::lemma_tests_one(sql::against("id"@, Comparison::Equal, 2), row, s.params);
    sql::lemma_sets_two(sql::fixed("is_deleted"@, 0), sql::bound("updated_at"@, 1), s.params);
    assert(s.sql =~= "UPDATE "@ + "message"@ + " SET "@ + sql::set_words(sets) + " WHERE "@ + sql::where_words(tests)) by {
        reveal_strlit("UPDATE message SET is_deleted = 0, updated_at = ?1 WHERE id = ?2");
        reveal_strlit("UPDATE ");
        reveal_strlit("message");
        reveal_strlit(" SET ");
        reveal_strlit(" = ");
        reveal_strlit(" WHERE ");
        reveal_strlit("is_deleted");
        reveal_strlit("updated_at");
        reveal_strlit("?");
        reveal_strlit(", ");
        reveal_strlit("id");
        reveal_strlit(" ");
        reveal_strlit("=");
    }
}

/// The page after a message has the channel's messages of later rows, not deleted, the earliest first,
/// and as many as asked for.
pub proof fn law_a_page_after_a_message_goes_on_from_it(
    channel_id: u64,
    after_id: u64,
    limit: u32,
    row: RowModel,
    channel: u64,
    deleted: i64,
    id: i64,
)
    requires
        after_id <= i64::MAX,
        row.get("channel_id"@) == Some(sql::id_model(channel)),
        row.get("is_deleted"@) == Some(SqlModel::Integer(deleted)),
        row.get("id"@) == Some(SqlModel::Integer(id)),
    ensures
        ({
            let s = messages_after_statement(channel_id, after_id, limit);
            let tests = seq![
                sql::against("channel_id"@, Comparison::Equal, 1),
                sql::against_number("is_deleted"@, Comparison::Equal, 0),
                sql::against("id"@, Comparison::Above, 2),
            ];
            &&& sql::is_selection(s, "*"@, "message"@, tests, " ORDER BY id ASC LIMIT ?3"@)
            &&& sql::meets_all(
                row,
                tests,
                s.params,
            ) <==> channel == channel_id && deleted == 0 && id > after_id
            &&& s.params.len() == 3 && s.params[2] == SqlModel::Integer(limit as i64)
        }),
{
    let s = messages_after_statement(channel_id, after_id, limit);
    let tests = seq![
        sql::against("channel_id"@, Comparison::Equal, 1),
        sql::against_number("is_deleted"@, Comparison::Equal, 0),
        sql::against("id"@, Comparison::Above, 2),
    ];
    sql::lemma_tests_three(
        sql::against("channel_id"@, Comparison::Equal, 1),
        sql::against_number("is_deleted"@, Comparison::Equal, 0),
        sql::against("id"@, Comparison::Above, 2),
        row,
        s.params,
    );
    sql::lemma_stored_ids(channel, channel_id);
    assert(s.sql =~= "SELECT "@ + "*"@ + " FROM "@ + "message"@ + " WHERE "@ + sql::where_words(tests) + " ORDER BY id ASC LIMIT ?3"@) by {
        reveal_strlit("SELECT * FROM message WHERE channel_id = ?1 AND is_deleted = 0 AND id > ?2 ORDER BY id ASC LIMIT ?3");
        reveal_strlit("SELECT ");
        reveal_strlit("*");
        reveal_strlit(" FROM ");
        reveal_strlit("message");
        reveal_strlit(" WHERE ");
        reveal_strlit("channel_id");
        reveal_strlit(" ");
        reveal_strlit("=");
        reveal_strlit("?");
        reveal_strlit("is_deleted");
        reveal_strlit("id");
        reveal_strlit(">");
        reveal_strlit(" AND ");
        reveal_strlit(" ORDER BY id ASC LIMIT ?3");
    }
}

/// The page before a message has the channel's messages of earlier rows, not deleted, the latest first,
/// and as many as asked for; the largest number asks for the latest page.
pub proof fn law_a_page_before_a_message_ends_at_it(
    channel_id: u64,
    before_id: u64,
    limit: u32,
    row: RowModel,
    channel: u64,
    deleted: i64,
    id: i64,
)
    requires
        before_id <= i64::MAX || (before_id == u64::MAX && id < i64::MAX),
        row.get("channel_id"@) == Some(sql::id_model(channel)),
        row.get("is_deleted"@) == Some(SqlModel::Integer(deleted)),
        row.get("id"@) == Some(SqlModel::Integer(id)),
    ensures
        ({
            let s = messages_before_statement(channel_id, before_id, limit);
            let tests = seq![
                sql::against("channel_id"@, Comparison::Equal, 1),
                sql::against_number("is_deleted"@, Comparison::Equal, 0),
                sql::against("id"@, Comparison::Below, 2),
            ];
            &&& sql::is_selection(s, "*"@, "message"@, tests, " ORDER BY id DESC LIMIT ?3"@)
            &&& sql::meets_all(
                row,
                tests,
                s.params,
            ) <==> channel == channel_id && deleted == 0 && id < before_id
            &&& s.params.len() == 3 && s.params[2] == SqlModel::Integer(limit as i64)
        }),
{
    let s = messages_before_statement(channel_id, before_id, limit);
    let tests = seq![
        sql::against("channel_id"@, Comparison::Equal, 1),
        sql::against_number("is_deleted"@, Comparison::Equal, 0),
        sql::against("id"@, Comparison::Below, 2),
    ];
    sql::lemma_tests_three(
        sql::against("channel_id"@, Comparison::Equal, 1),
        sql::against_number("is_deleted"@, Comparison::Equal, 0),
        sql::against("id"@, Comparison::Below, 2),
        row,
        s.params,
    );
    sql::lemma_stored_ids(channel, channel_id);
    assert(s.sql =~= "SELECT "@ + "*"@ + " FROM "@ + "message"@ + " WHERE "@ + sql::where_words(tests) + " ORDER BY id DESC LIMIT ?3"@) by {
        reveal_strlit("SELECT * FROM message WHERE channel_id = ?1 AND is_deleted = 0 AND id < ?2 ORDER BY id DESC LIMIT ?3");
        reveal_strlit("SELECT ");
        reveal_strlit("*");
        reveal_strlit(" FROM ");
        reveal_strlit("message");
        reveal_strlit(" WHERE ");
        reveal_strlit("channel_id");
        reveal_strlit(" ");
        reveal_strlit("=");
        reveal_strlit("?");
        reveal_strlit("is_deleted");
        reveal_strlit("id");
        reveal_strlit("<");
        reveal_strlit(" AND ");
        reveal_strlit(" ORDER BY id DESC LIMIT ?3");
    }
}

/// The earliest row is the least of the channel's messages that are not deleted.
pub proof fn law_the_earliest_row_of_a_channel(
    channel_id: u64,
    row: RowModel,
    channel: u64,
    deleted: i64,
)
    requires
        row.get("channel_id"@) == Some(sql::id_model(channel)),
        row.get("is_deleted"@) == Some(SqlModel::Integer(deleted)),
    ensures
        ({
            let s = earliest_id_statement(channel_id);
            let tests = seq![
                sql::against("channel_id"@, Comparison::Equal, 1),
                sql::against_number("is_deleted"@, Comparison::Equal, 0),
            ];
            &&& sql::is_selection(s, "MIN(id)"@, "message"@, tests, ""@)
            &&& sql::meets_all(row, tests, s.params) <==> channel == channel_id && deleted == 0
        }),
{
    let s = earliest_id_statement(channel_id);
    let tests = seq![
        sql::against("channel_id"@, Comparison::Equal, 1),
        sql::against_number("is_deleted"@, Comparison::Equal, 0),
    ];
    sql::lemma_tests_two(
        sql::against("channel_id"@, Comparison::Equal, 1),
        sql::against_number("is_deleted"@, Comparison::Equal, 0),
        row,
        s.params,
    );
    sql::lemma_stored_ids(channel, channel_id);
    assert(s.sql =~= "SELECT "@ + "MIN(id)"@ + " FROM "@ + "message"@ + " WHERE "@ + sql::where_words(tests) + ""@) by {
        reveal_strlit("SELECT MIN(id) FROM message WHERE channel_id = ?1 AND is_deleted = 0");
        reveal_strlit("SELECT ");
        reveal_strlit("MIN(id)");
        reveal_strlit(" FROM ");
        reveal_strlit("message");
        reveal_strlit(" WHERE ");
        reveal_strlit("channel_id");
        reveal_strlit(" ");
        reveal_strlit("=");
        reveal_strlit("?");
        reveal_strlit("is_deleted");
        reveal_strlit(" AND ");
        reveal_strlit("");
    }
}

/// A reaction names its message, its user, the emoji and the time.
pub proof fn law_a_reaction_is_added(message: i64, user_id: u64, reaction: Seq<char>, now: i64)
    ensures
        ({
            let s = add_reaction_statement(message, user_id, reaction, now);
            let sets = seq![
                sql::fixed("channel_id"@, 0),
                sql::fixed("channel_type"@, 0),
                sql::bound("uid"@, 1),
                ("name"@, sql::Operand::Words("''"@)),
                sql::bound("emoji"@, 2),
                sql::bound("message_id"@, 3),
                sql::bound("created_at"@, 4),
            ];
            &&& sql::is_insertion(s, "INSERT OR REPLACE INTO "@, "message_reaction"@, sets)
            &&& sql::given_values(sets, s.params) == seq![
                ("channel_id"@, Some(SqlModel::Integer(0))),
                ("channel_type"@, Some(SqlModel::Integer(0))),
                ("uid"@, Some(sql::id_model(user_id))),
                ("name"@, None),
                ("emoji"@, Some(SqlModel::Text(reaction))),
                ("message_id"@, Some(SqlModel::Integer(message))),
                ("created_at"@, Some(SqlModel::Integer(now))),
            ]
        }),
{
    let s = add_reaction_statement(message, user_id, reaction, now);
    let sets = seq![
        sql::fixed("channel_id"@, 0),
        sql::fixed("channel_type"@, 0),
        sql::bound("uid"@, 1),
        ("name"@, sql::Operand::Words("''"@)),
        sql::bound("emoji"@, 2),
        sql::bound("message_id"@, 3),
        sql::bound("created_at"@, 4),
    ];
    let names = Seq::new(sets.len(), |i: int| sets[i].0);
    assert(names =~= seq!["channel_id"@, "channel_type"@, "uid"@, "name"@, "emoji"@, "message_id"@, "created_at"@]);
    assert(sql::column_list(names) == "channel_id"@ + ", "@ + "channel_type"@ + ", "@ + "uid"@ + ", "@ + "name"@ + ", "@ + "emoji"@ + ", "@ + "message_id"@ + ", "@ + "created_at"@) by {
        reveal_with_fuel(sql::column_list, 8);
        assert(names.last() == "created_at"@);
        assert(names.drop_last().last() == "message_id"@);
        assert(names.drop_last().drop_last().last() == "emoji"@);
        assert(names.drop_last().drop_last().drop_last().last() == "name"@);
        assert(names.drop_last().drop_last().drop_last().drop_last().last() == "uid"@);
        assert(names.drop_last().drop_last().drop_last().drop_last().drop_last().last() == "channel_type"@);
        assert(names.drop_last().drop_last().drop_last().drop_last().drop_last().drop_last().last() == "channel_id"@);
    }
    assert(sql::value_words(sets) == sql::operand_words(sql::Operand::Number(0)) + ", "@ + sql::operand_words(sql::Operand::Number(0)) + ", "@ + sql::operand_words(sql::Operand::Parameter(1)) + ", "@ + sql::operand_words(sql::Operand::Words("''"@)) + ", "@ + sql::operand_words(sql::Operand::Parameter(2)) + ", "@ + sql::operand_words(sql::Operand::Parameter(3)) + ", "@ + sql::operand_words(sql::Operand::Parameter(4))) by {
        reveal_with_fuel(sql::value_words, 8);
        assert(sets.last().1 == sql::Operand::Parameter(4));
        assert(sets.drop_last().last().1 == sql::Operand::Parameter(3));
        assert(sets.drop_last().drop_last().last().1 == sql::Operand::Parameter(2));
        assert(sets.drop_last().drop_last().drop_last().last().1 == sql::Operand::Words("''"@));
        assert(sets.drop_last().drop_last().drop_last().drop_last().last().1 == sql::Operand::Parameter(1));
        assert(sets.drop_last().drop_last().drop_last().drop_last().drop_last().last().1 == sql::Operand::Number(0));
        assert(sets.drop_last().drop_last().drop_last().drop_last().drop_last().drop_last().last().1 == sql::Operand::Number(0));
    }
    assert(s.sql =~= "INSERT OR REPLACE INTO "@ + "message_reaction"@ + " ("@ + sql::column_list(names) + ") VALUES ("@ + sql::value_words(sets) + ")"@) by {
        reveal_strlit("INSERT OR REPLACE INTO message_reaction (channel_id, channel_type, uid, name, emoji, message_id, created_at) VALUES (0, 0, ?1, '', ?2, ?3, ?4)");
        reveal_strlit("INSERT OR REPLACE INTO ");
        reveal_strlit("message_reaction");
        reveal_strlit(" (");
        reveal_strlit(") VALUES (");
        reveal_strlit(")");
        reveal_strlit("channel_id");
        reveal_strlit("channel_type");
        reveal_strlit("uid");
        reveal_strlit("?");
        reveal_strlit("name");
        reveal_strlit("''");
        reveal_strlit("emoji");
        reveal_strlit("message_id");
        reveal_strlit("created_at");
        reveal_strlit(", ");
    }
    assert(sql::given_values(sets, s.params) =~= seq![("channel_id"@, Some(SqlModel::Integer(0))), ("channel_type"@, Some(SqlModel::Integer(0))), ("uid"@, Some(sql::id_model(user_id))), ("name"@, None), ("emoji"@, Some(SqlModel::Text(reaction))), ("message_id"@, Some(SqlModel::Integer(message))), ("created_at"@, Some(SqlModel::Integer(now)))]);
}

/// A stored message has each of its parts in the column of that name.
pub proof fn law_each_part_of_a_message_has_its_column(m: MessageModel, now: i64, row: RowModel)
    requires
        row.holds(message_bindings(m, now)),
    ensures
        row.get("message_id"@) == Some(sql::opt_id_model(m.server_message_id)),
        row.get("pts"@) == Some(SqlModel::Integer(m.pts)),
        row.get("channel_id"@) == Some(sql::id_model(m.channel_id)),
        row.get("channel_type"@) == Some(SqlModel::Integer(m.channel_type as i64)),
        row.get("timestamp"@) == Some(sql::opt_int_model(m.timestamp)),
        row.get("from_uid"@) == Some(sql::id_model(m.from_uid)),
        row.get("type"@) == Some(SqlModel::Integer(m.message_type as i64)),
        row.get("content"@) == Some(SqlModel::Text(m.content)),
        row.get("status"@) == Some(SqlModel::Integer(m.status as i64)),
        row.get("voice_status"@) == Some(SqlModel::Integer(m.voice_status as i64)),
        row.get("created_at"@) == Some(SqlModel::Integer(time_or(m.created_at, now))),
        row.get("updated_at"@) == Some(SqlModel::Integer(time_or(m.updated_at, now))),
        row.get("searchable_word"@) == Some(SqlModel::Text(m.searchable_word)),
        row.get("local_message_id"@) == Some(sql::id_model(m.local_message_id)),
        row.get("is_deleted"@) == Some(SqlModel::Integer(m.is_deleted as i64)),
        row.get("setting"@) == Some(SqlModel::Integer(m.setting as i64)),
        row.get("order_seq"@) == Some(SqlModel::Integer(m.order_seq)),
        row.get("extra"@) == Some(SqlModel::Text(m.extra)),
        row.get("flame"@) == Some(SqlModel::Integer(m.flame as i64)),
        row.get("flame_second"@) == Some(SqlModel::Integer(m.flame_second as i64)),
        row.get("viewed"@) == Some(SqlModel::Integer(m.viewed as i64)),
        row.get("viewed_at"@) == Some(SqlModel::Integer(m.viewed_at)),
        row.get("topic_id"@) == Some(SqlModel::Text(m.topic_id)),
        row.get("expire_time"@) == Some(sql::opt_int_model(m.expire_time)),
        row.get("expire_timestamp"@) == Some(sql::opt_int_model(m.expire_timestamp)),
        row.get("revoked"@) == Some(SqlModel::Integer(m.revoked as i64)),
        row.get("revoked_at"@) == Some(SqlModel::Integer(m.revoked_at)),
{
    let b = message_bindings(m, now);
    assert(b[0].0 == "message_id"@);
    assert(b[1].0 == "pts"@);
    assert(b[2].0 == "channel_id"@);
    assert(b[3].0 == "channel_type"@);
    assert(b[4].0 == "timestamp"@);
    assert(b[5].0 == "from_uid"@);
    assert(b[6].0 == "type"@);
    assert(b[7].0 == "content"@);
    assert(b[8].0 == "status"@);
    assert(b[9].0 == "voice_status"@);
    assert(b[10].0 == "created_at"@);
    assert(b[11].0 == "updated_at"@);
    assert(b[12].0 == "searchable_word"@);
    assert(b[13].0 == "local_message_id"@);
    assert(b[14].0 == "is_deleted"@);
    assert(b[15].0 == "setting"@);
    assert(b[16].0 == "order_seq"@);
    assert(b[17].0 == "extra"@);
    assert(b[18].0 == "flame"@);
    assert(b[19].0 == "flame_second"@);
    assert(b[20].0 == "viewed"@);
    assert(b[21].0 == "viewed_at"@);
    assert(b[22].0 == "topic_id"@);
    assert(b[23].0 == "expire_time"@);
    assert(b[24].0 == "expire_timestamp"@);
    assert(b[25].0 == "revoked"@);
    assert(b[26].0 == "revoked_at"@);
}

/// A search looks for the keyword anywhere: it may stand between any other words.
pub proof fn law_a_keyword_may_stand_anywhere(keyword: Seq<char>)
    ensures
        ({
            let p = pattern(keyword);
            &&& p.len() == keyword.len() + 2
            &&& p[0] == '%' && p[p.len() - 1] == '%'
            &&& p.subrange(1, p.len() - 1) == keyword
        }),
{
    reveal_strlit("%");
    assert(pattern(keyword).subrange(1, pattern(keyword).len() - 1) =~= keyword);
}

/// A message that states its times is stored with them; one that does not is stored as of now.
pub proof fn law_a_message_without_times_is_of_now(m: MessageModel, now: i64, row: RowModel)
    requires
        row.holds(message_bindings(m, now)),
    ensures
        m.created_at != 0 ==> row.get("created_at"@) == Some(SqlModel::Integer(m.created_at)),
        m.created_at == 0 ==> row.get("created_at"@) == Some(SqlModel::Integer(now)),
        m.updated_at != 0 ==> row.get("updated_at"@) == Some(SqlModel::Integer(m.updated_at)),
        m.updated_at == 0 ==> row.get("updated_at"@) == Some(SqlModel::Integer(now)),
{
    law_each_part_of_a_message_has_its_column(m, now, row);
}

/// Messages are stored together just where the database can number each of them.
pub proof fn law_messages_with_small_numbers_are_stored(messages: Seq<Message>, m: Message)
    ensures
        storable(Seq::empty()),
        storable(messages.push(m)) <==> storable(messages) && m.local_message_id <= i64::MAX,
{
    let more = messages.push(m);
    assert(more[messages.len() as int] == m);
    if storable(more) {
        assert forall|i: int| 0 <= i < messages.len() implies (
        #[trigger] messages[i]).local_message_id <= i64::MAX by {
            assert(more[i] == messages[i]);
        }
    }
}

} // verus!
