//! The statements on the columns of the channel table that the conversation list needs, and the
//! conversations that its rows hold.

use vstd::prelude::*;
use crate::error::{ErrorModel, PrivchatSDKError};
use crate::storage::entities::{Channel, ChannelModel};
use crate::storage::sql;
use crate::storage::sql::{
    bind, expect, fits_i64, id, insert, opt_int, out_of_range_error, plain, with_params, words, Binding,
    ColumnKind, Comparison, Expected, Row, RowError, RowModel, SqlModel, SqlValue, Statement, StatementModel,
};

verus! {

/// The columns of a conversation and what goes into them. The column of the last content is left
/// alone where there is none.
pub open spec fn conversation_bindings(m: ChannelModel) -> Seq<(Seq<char>, SqlModel)> {
    seq![
        ("channel_id"@, sql::id_model(m.channel_id)),
        ("channel_type"@, SqlModel::Integer(m.channel_type as i64)),
        ("last_local_message_id"@, sql::id_model(m.last_local_message_id)),
        ("last_msg_timestamp"@, sql::opt_int_model(m.last_msg_timestamp)),
        ("unread_count"@, SqlModel::Integer(m.unread_count as i64)),
        ("is_deleted"@, SqlModel::Integer(m.is_deleted as i64)),
        ("version"@, SqlModel::Integer(m.version)),
        ("extra"@, SqlModel::Text(m.extra)),
        ("last_msg_pts"@, SqlModel::Integer(m.last_msg_pts)),
        ("parent_channel_id"@, sql::id_model(m.parent_channel_id)),
        ("parent_channel_type"@, SqlModel::Integer(m.parent_channel_type as i64)),
    ] + if m.last_msg_content.len() > 0 {
        seq![("last_msg_content"@, SqlModel::Text(m.last_msg_content))]
    } else {
        Seq::empty()
    }
}

/// The columns that a conversation is read from, in the order in which they are read.
pub open spec fn conversation_shape() -> Seq<(Seq<char>, ColumnKind)> {
    seq![
        ("channel_id"@, ColumnKind::Id),
        ("channel_type"@, ColumnKind::Int32),
        ("last_local_message_id"@, ColumnKind::Unsigned),
        ("last_msg_timestamp"@, ColumnKind::MaybeInt64),
        ("unread_count"@, ColumnKind::Int32),
        ("is_deleted"@, ColumnKind::Int32),
        ("version"@, ColumnKind::Int64),
        ("extra"@, ColumnKind::Text),
        ("last_msg_pts"@, ColumnKind::Int64),
        ("parent_channel_id"@, ColumnKind::Unsigned),
        ("parent_channel_type"@, ColumnKind::Int32),
    ]
}

/// The conversation that a row holds. What the conversation list does not need is empty.
pub open spec fn conversation_in(row: RowModel) -> ChannelModel {
    ChannelModel {
        id: row.opt_stored_id("channel_id"@),
        channel_id: row.id_at("channel_id"@),
        channel_type: row.i32_or("channel_type"@, 0),
        last_local_message_id: row.unsigned_at("last_local_message_id"@),
        last_msg_timestamp: row.opt_i64("last_msg_timestamp"@),
        last_msg_content: row.text_at("last_msg_content"@),
        unread_count: row.i32_or("unread_count"@, 0),
        last_msg_pts: row.i64_at("last_msg_pts"@),
        show_nick: 0,
        username: Seq::empty(),
        channel_name: Seq::empty(),
        channel_remark: Seq::empty(),
        top: 0,
        mute: 0,
        save: 0,
        forbidden: 0,
        follow: 0,
        is_deleted: row.i32_or("is_deleted"@, 0),
        receipt: 0,
        status: 0,
        invite: 0,
        robot: 0,
        version: row.i64_at("version"@),
        online: 0,
        last_offline: 0,
        avatar: Seq::empty(),
        category: Seq::empty(),
        extra: row.text_at("extra"@),
        created_at: 0,
        updated_at: 0,
        avatar_cache_key: Seq::empty(),
        remote_extra: None,
        flame: 0,
        flame_second: 0,
        device_flag: 0,
        parent_channel_id: row.unsigned_at("parent_channel_id"@),
        parent_channel_type: row.i32_or("parent_channel_type"@, 0),
    }
}

/// Whether the identifiers can be stored.
pub open spec fn bindable(m: ChannelModel) -> bool {
    &&& m.channel_id <= i64::MAX
    &&& m.last_local_message_id <= i64::MAX
    &&& m.parent_channel_id <= i64::MAX
}

/// The statement of [`ConversationDao::get_by_channel`].
pub open spec fn get_by_channel_statement(channel_id: u64) -> StatementModel {
    StatementModel {
        sql:
            "SELECT * FROM channel WHERE channel_id = ?1 AND is_deleted = 0"@,
        params: seq![
            sql::id_model(channel_id),
        ],
    }
}

/// The statement of [`ConversationDao::get_total_unread_count`].
pub open spec fn get_total_unread_count_statement() -> StatementModel {
    StatementModel {
        sql: "SELECT SUM(unread_count) FROM channel WHERE is_deleted = 0"@,
        params: Seq::empty(),
    }
}

/// The statement of [`ConversationDao::get_total_unread_count_exclude_muted`].
pub open spec fn get_total_unread_count_exclude_muted_statement() -> StatementModel {
    StatementModel { sql: "SELECT SUM(unread_count) FROM channel WHERE is_deleted = 0 AND (extra IS NULL OR extra = '{}' OR json_extract(extra, '$.muted') IS NULL OR json_extract(extra, '$.muted') = 0)"@, params: Seq::empty() }
}

/// The statement of [`ConversationDao::list_all`].
pub open spec fn list_all_statement() -> StatementModel {
    StatementModel { sql: "SELECT * FROM channel WHERE is_deleted = 0 ORDER BY last_msg_timestamp DESC"@, params: Seq::empty() }
}

/// The statements on the conversations of the channel table.
pub struct ConversationDao;

impl ConversationDao {
    /// Stores a conversation in place of the one with the same id.
    pub fn upsert(m: &Channel) -> (r: Result<Statement, PrivchatSDKError>)
        ensures
            match r {
                Ok(s) => bindable(m@) && s@ == sql::insertion(
                    "INSERT OR REPLACE INTO "@,
                    "channel"@,
                    conversation_bindings(m@),
                ),
                Err(e) => !bindable(m@) && e@ == sql::out_of_range(),
            },
    {
        if !fits_i64(m.channel_id) || !fits_i64(m.last_local_message_id) || !fits_i64(m.parent_channel_id) {
            return Err(out_of_range_error());
        }
        let mut bindings: Vec<Binding> = vec![
            bind("channel_id", id(m.channel_id)),
            bind("channel_type", SqlValue::Integer(m.channel_type as i64)),
            bind("last_local_message_id", id(m.last_local_message_id)),
            bind("last_msg_timestamp", opt_int(m.last_msg_timestamp)),
            bind("unread_count", SqlValue::Integer(m.unread_count as i64)),
            bind("is_deleted", SqlValue::Integer(m.is_deleted as i64)),
            bind("version", SqlValue::Integer(m.version)),
            bind("extra", words(m.extra.as_str())),
            bind("last_msg_pts", SqlValue::Integer(m.last_msg_pts)),
            bind("parent_channel_id", id(m.parent_channel_id)),
            bind("parent_channel_type", SqlValue::Integer(m.parent_channel_type as i64)),
        ];
        if !m.last_msg_content.as_str().is_empty() {
            bindings.push(bind("last_msg_content", words(m.last_msg_content.as_str())));
        }
        proof {
            assert(sql::bindings_of(bindings@) =~= conversation_bindings(m@));
        }
        Ok(insert("INSERT OR REPLACE INTO ", "channel", bindings))
    }

    /// Reads a conversation; the type is not asked for, since the id alone tells it.
    pub fn get_by_channel(channel_id: u64, _channel_type: i32) -> (r: Statement)
        ensures
            r@ == get_by_channel_statement(channel_id),
    {
        let s = with_params(
            "SELECT * FROM channel WHERE channel_id = ?1 AND is_deleted = 0",
            vec![
                id(channel_id),
            ],
        );
        assert(s@.params =~= get_by_channel_statement(channel_id).params);
        s
    }

    /// Sums the unread messages of all conversations.
    pub fn get_total_unread_count() -> (r: Statement)
        ensures
            r@ == get_total_unread_count_statement(),
    {
        let s = plain("SELECT SUM(unread_count) FROM channel WHERE is_deleted = 0");
        s
    }

    /// Sums the unread messages of the conversations whose extra record does not mute them.
    pub fn get_total_unread_count_exclude_muted() -> (r: Statement)
        ensures
            r@ == get_total_unread_count_exclude_muted_statement(),
    {
        let s = plain("SELECT SUM(unread_count) FROM channel WHERE is_deleted = 0 AND (extra IS NULL OR extra = '{}' OR json_extract(extra, '$.muted') IS NULL OR json_extract(extra, '$.muted') = 0)");
        s
    }

    /// Reads all conversations, the latest first.
    pub fn list_all() -> (r: Statement)
        ensures
            r@ == list_all_statement(),
    {
        let s = plain("SELECT * FROM channel WHERE is_deleted = 0 ORDER BY last_msg_timestamp DESC");
        s
    }

    /// The conversation that a look-up found, if it found a row.
    pub fn found_channel(row: &Option<Row>) -> (r: Result<Option<Channel>, PrivchatSDKError>)
        ensures
            match *row {
                None => r is Ok && r->Ok_0 is None,
                Some(row) => match row@.first_fault(conversation_shape()) {
                    None => r is Ok && (r->Ok_0 matches Some(m) && m@ == conversation_in(row@)),
                    Some(fault) => r is Err && r->Err_0@ == ErrorModel::Database(
                        "查询会话失败: "@ + RowError::words(fault),
                    ),
                },
            },
    {
        match row {
            None => Ok(None),
            Some(row) => match ConversationDao::row_to_channel(row) {
                Ok(m) => Ok(Some(m)),
                Err(e) => Err(e.within("查询会话失败: ")),
            },
        }
    }

    /// The conversation that a row holds.
    pub fn row_to_channel(row: &Row) -> (r: Result<Channel, RowError>)
        ensures
            match r {
                Ok(m) => row@.first_fault(conversation_shape()) is None && m@ == conversation_in(
                    row@,
                ),
                Err(e) => row@.first_fault(conversation_shape()) == Some(e@),
            },
    {
        let expected: Vec<Expected> = vec![
            expect("channel_id", ColumnKind::Id),
            expect("channel_type", ColumnKind::Int32),
            expect("last_local_message_id", ColumnKind::Unsigned),
            expect("last_msg_timestamp", ColumnKind::MaybeInt64),
            expect("unread_count", ColumnKind::Int32),
            expect("is_deleted", ColumnKind::Int32),
            expect("version", ColumnKind::Int64),
            expect("extra", ColumnKind::Text),
            expect("last_msg_pts", ColumnKind::Int64),
            expect("parent_channel_id", ColumnKind::Unsigned),
            expect("parent_channel_type", ColumnKind::Int32),
        ];
        assert(sql::shape_of(expected@) =~= conversation_shape());
        match row.check(&expected) {
            Ok(_) => {
                let m = Channel {
                    id: row.opt_stored_id("channel_id"),
                    channel_id: row.id_at("channel_id"),
                    channel_type: row.i32_or("channel_type", 0),
                    last_local_message_id: row.unsigned_at("last_local_message_id"),
                    last_msg_timestamp: row.opt_i64("last_msg_timestamp"),
                    last_msg_content: row.text_at("last_msg_content"),
                    unread_count: row.i32_or("unread_count", 0),
                    last_msg_pts: row.i64_at("last_msg_pts"),
                    show_nick: 0,
                    username: String::new(),
                    channel_name: String::new(),
                    channel_remark: String::new(),
                    top: 0,
                    mute: 0,
                    save: 0,
                    forbidden: 0,
                    follow: 0,
                    is_deleted: row.i32_or("is_deleted", 0),
                    receipt: 0,
                    status: 0,
                    invite: 0,
                    robot: 0,
                    version: row.i64_at("version"),
                    online: 0,
                    last_offline: 0,
                    avatar: String::new(),
                    category: String::new(),
                    extra: row.text_at("extra"),
                    created_at: 0,
                    updated_at: 0,
                    avatar_cache_key: String::new(),
                    remote_extra: None,
                    flame: 0,
                    flame_second: 0,
                    device_flag: 0,
                    parent_channel_id: row.unsigned_at("parent_channel_id"),
                    parent_channel_type: row.i32_or("parent_channel_type", 0),
                };
                proof {
                    assert(m@.username =~= Seq::<char>::empty());
                }
                Ok(m)
            },
            Err(e) => Err(e),
        }
    }
}

/// What the conversation list needs of a channel.
pub open spec fn conversation_part(m: ChannelModel) -> ChannelModel {
    ChannelModel {
        id: Some(m.channel_id as i64),
        channel_id: m.channel_id,
        channel_type: m.channel_type,
        last_local_message_id: m.last_local_message_id,
        last_msg_timestamp: m.last_msg_timestamp,
        last_msg_content: m.last_msg_content,
        unread_count: m.unread_count,
        last_msg_pts: m.last_msg_pts,
        show_nick: 0,
        username: Seq::empty(),
        channel_name: Seq::empty(),
        channel_remark: Seq::empty(),
        top: 0,
        mute: 0,
        save: 0,
        forbidden: 0,
        follow: 0,
        is_deleted: m.is_deleted,
        receipt: 0,
        status: 0,
        invite: 0,
        robot: 0,
        version: m.version,
        online: 0,
        last_offline: 0,
        avatar: Seq::empty(),
        category: Seq::empty(),
        extra: m.extra,
        created_at: 0,
        updated_at: 0,
        avatar_cache_key: Seq::empty(),
        remote_extra: None,
        flame: 0,
        flame_second: 0,
        device_flag: 0,
        parent_channel_id: m.parent_channel_id,
        parent_channel_type: m.parent_channel_type,
    }
}

/// A row that holds what storing a conversation bound holds the conversation, as far as the
/// conversation list needs it.
pub proof fn law_a_stored_conversation_reads_back(m: ChannelModel, row: RowModel)
    requires
        bindable(m),
        row.holds(conversation_bindings(m)),
        m.last_msg_content.len() == 0 ==> row.opt_text("last_msg_content"@) is None,
    ensures
        row.first_fault(conversation_shape()) is None,
        conversation_in(row) == conversation_part(m),
{
    let b = conversation_bindings(m);
    assert(b[0] == ("channel_id"@, sql::id_model(m.channel_id)));
    assert(b[1] == ("channel_type"@, SqlModel::Integer(m.channel_type as i64)));
    assert(b[2] == ("last_local_message_id"@, sql::id_model(m.last_local_message_id)));
    assert(b[3] == ("last_msg_timestamp"@, sql::opt_int_model(m.last_msg_timestamp)));
    assert(b[4] == ("unread_count"@, SqlModel::Integer(m.unread_count as i64)));
    assert(b[5] == ("is_deleted"@, SqlModel::Integer(m.is_deleted as i64)));
    assert(b[6] == ("version"@, SqlModel::Integer(m.version)));
    assert(b[7] == ("extra"@, SqlModel::Text(m.extra)));
    assert(b[8] == ("last_msg_pts"@, SqlModel::Integer(m.last_msg_pts)));
    assert(b[9] == ("parent_channel_id"@, sql::id_model(m.parent_channel_id)));
    assert(b[10] == ("parent_channel_type"@, SqlModel::Integer(m.parent_channel_type as i64)));
    if m.last_msg_content.len() > 0 {
        assert(b[11] == ("last_msg_content"@, SqlModel::Text(m.last_msg_content)));
    } else {
        assert(m.last_msg_content =~= Seq::empty());
    }
    sql::law_identifier_round_trip(m.channel_id);
    sql::law_identifier_round_trip(m.last_local_message_id);
    sql::law_identifier_round_trip(m.parent_channel_id);
    let shape = conversation_shape();
    assert(shape[0] == ("channel_id"@, ColumnKind::Id));
    assert(shape[1] == ("channel_type"@, ColumnKind::Int32));
    assert(shape[2] == ("last_local_message_id"@, ColumnKind::Unsigned));
    assert(shape[3] == ("last_msg_timestamp"@, ColumnKind::MaybeInt64));
    assert(shape[4] == ("unread_count"@, ColumnKind::Int32));
    assert(shape[5] == ("is_deleted"@, ColumnKind::Int32));
    assert(shape[6] == ("version"@, ColumnKind::Int64));
    assert(shape[7] == ("extra"@, ColumnKind::Text));
    assert(shape[8] == ("last_msg_pts"@, ColumnKind::Int64));
    assert(shape[9] == ("parent_channel_id"@, ColumnKind::Unsigned));
    assert(shape[10] == ("parent_channel_type"@, ColumnKind::Int32));
    sql::lemma_shape_met(row, shape);
}

// What the statements do.

/// A conversation is found by its channel, unless it is deleted.
pub proof fn law_a_conversation_is_found_by_its_channel(
    channel_id: u64,
    row: RowModel,
    channel: u64,
    deleted: i64,
)
    requires
        row.get("channel_id"@) == Some(sql::id_model(channel)),
        row.get("is_deleted"@) == Some(SqlModel::Integer(deleted)),
    ensures
        ({
            let s = get_by_channel_statement(channel_id);
            let tests = seq![
                sql::against("channel_id"@, Comparison::Equal, 1),
                sql::against_number("is_deleted"@, Comparison::Equal, 0),
            ];
            &&& sql::is_selection(s, "*"@, "channel"@, tests, ""@)
            &&& sql::meets_all(row, tests, s.params) <==> channel == channel_id && deleted == 0
        }),
{
    let s = get_by_channel_statement(channel_id);
    let tests = seq![
        sql::against("channel_id"@, Comparison::Equal, 1),
        sql::against_number("is_deleted"@, Comparison::Equal, 0),
    ];
    sql::lemma_tests_two(
        sql::against("channel_id"@, Comparison::Equal, 1),
        sql::against_number("is_deleted"@, Comparison::Equal, 0),
        row,
        s.params,
    );
    sql::lemma_stored_ids(channel, channel_id);
    assert(s.sql =~= "SELECT "@ + "*"@ + " FROM "@ + "channel"@ + " WHERE "@ + sql::where_words(tests) + ""@) by {
        reveal_strlit("SELECT * FROM channel WHERE channel_id = ?1 AND is_deleted = 0");
        reveal_strlit("SELECT ");
        reveal_strlit("*");
        reveal_strlit(" FROM ");
        reveal_strlit("channel");
        reveal_strlit(" WHERE ");
        reveal_strlit("channel_id");
        reveal_strlit(" ");
        reveal_strlit("=");
        reveal_strlit("?");
        reveal_strlit("is_deleted");
        reveal_strlit(" AND ");
        reveal_strlit("");
    }
}

/// The unread messages are summed over the conversations that are not deleted.
pub proof fn law_deleted_conversations_have_no_unread_messages(row: RowModel, deleted: i64)
    requires
        row.get("is_deleted"@) == Some(SqlModel::Integer(deleted)),
    ensures
        ({
            let s = get_total_unread_count_statement();
            let tests = seq![sql::against_number("is_deleted"@, Comparison::Equal, 0)];
            &&& sql::is_selection(s, "SUM(unread_count)"@, "channel"@, tests, ""@)
            &&& sql::meets_all(row, tests, s.params) <==> deleted == 0
        }),
{
    let s = get_total_unread_count_statement();
    let tests = seq![sql::against_number("is_deleted"@, Comparison::Equal, 0)];
    sql::lemma_tests_one(sql::against_number("is_deleted"@, Comparison::Equal, 0), row, s.params);
    assert(s.sql =~= "SELECT "@ + "SUM(unread_count)"@ + " FROM "@ + "channel"@ + " WHERE "@ + sql::where_words(tests) + ""@) by {
        reveal_strlit("SELECT SUM(unread_count) FROM channel WHERE is_deleted = 0");
        reveal_strlit("SELECT ");
        reveal_strlit("SUM(unread_count)");
        reveal_strlit(" FROM ");
        reveal_strlit("channel");
        reveal_strlit(" WHERE ");
        reveal_strlit("is_deleted");
        reveal_strlit(" ");
        reveal_strlit("=");
        reveal_strlit("");
    }
}

/// Where muted conversations do not count, the unread messages are summed over those that are neither
/// deleted nor muted by their extra data.
pub proof fn law_muted_conversations_are_left_out_of_the_sum(row: RowModel, deleted: i64)
    requires
        row.get("is_deleted"@) == Some(SqlModel::Integer(deleted)),
    ensures
        ({
            let s = get_total_unread_count_exclude_muted_statement();
            let tests = seq![sql::against_number("is_deleted"@, Comparison::Equal, 0)];
            &&& sql::is_selection(
                s,
                "SUM(unread_count)"@,
                "channel"@,
                tests,
                " AND (extra IS NULL OR extra = '{}' OR json_extract(extra, '$.muted') IS NULL OR json_extract(extra, '$.muted') = 0)"@,
            )
            &&& sql::meets_all(row, tests, s.params) <==> deleted == 0
        }),
{
    let s = get_total_unread_count_exclude_muted_statement();
    let tests = seq![sql::against_number("is_deleted"@, Comparison::Equal, 0)];
    sql::lemma_tests_one(sql::against_number("is_deleted"@, Comparison::Equal, 0), row, s.params);
    assert(s.sql =~= "SELECT "@ + "SUM(unread_count)"@ + " FROM "@ + "channel"@ + " WHERE "@ + sql::where_words(tests) + " AND (extra IS NULL OR extra = '{}' OR json_extract(extra, '$.muted') IS NULL OR json_extract(extra, '$.muted') = 0)"@) by {
        reveal_strlit("SELECT SUM(unread_count) FROM channel WHERE is_deleted = 0 AND (extra IS NULL OR extra = '{}' OR json_extract(extra, '$.muted') IS NULL OR json_extract(extra, '$.muted') = 0)");
        reveal_strlit("SELECT ");
        reveal_strlit("SUM(unread_count)");
        reveal_strlit(" FROM ");
        reveal_strlit("channel");
        reveal_strlit(" WHERE ");
        reveal_strlit("is_deleted");
        reveal_strlit(" ");
        reveal_strlit("=");
        reveal_strlit(" AND (extra IS NULL OR extra = '{}' OR json_extract(extra, '$.muted') IS NULL OR json_extract(extra, '$.muted') = 0)");
    }
}

/// The conversations that are not deleted are listed, those with the latest message first.
pub proof fn law_conversations_are_listed_by_their_last_message(row: RowModel, deleted: i64)
    requires
        row.get("is_deleted"@) == Some(SqlModel::Integer(deleted)),
    ensures
        ({
            let s = list_all_statement();
            let tests = seq![sql::against_number("is_deleted"@, Comparison::Equal, 0)];
            &&& sql::is_selection(s, "*"@, "channel"@, tests, " ORDER BY last_msg_timestamp DESC"@)
            &&& sql::meets_all(row, tests, s.params) <==> deleted == 0
        }),
{
    let s = list_all_statement();
    let tests = seq![sql::against_number("is_deleted"@, Comparison::Equal, 0)];
    sql::lemma_tests_one(sql::against_number("is_deleted"@, Comparison::Equal, 0), row, s.params);
    assert(s.sql =~= "SELECT "@ + "*"@ + " FROM "@ + "channel"@ + " WHERE "@ + sql::where_words(tests) + " ORDER BY last_msg_timestamp DESC"@) by {
        reveal_strlit("SELECT * FROM channel WHERE is_deleted = 0 ORDER BY last_msg_timestamp DESC");
        reveal_strlit("SELECT ");
        reveal_strlit("*");
        reveal_strlit(" FROM ");
        reveal_strlit("channel");
        reveal_strlit(" WHERE ");
        reveal_strlit("is_deleted");
        reveal_strlit(" ");
        reveal_strlit("=");
        reveal_strlit(" ORDER BY last_msg_timestamp DESC");
    }
}

/// A stored conversation has each of its parts in the column of that name.
pub proof fn law_each_part_of_a_conversation_has_its_column(m: ChannelModel, row: RowModel)
    requires
        row.holds(conversation_bindings(m)),
    ensures
        row.get("channel_id"@) == Some(sql::id_model(m.channel_id)),
        row.get("channel_type"@) == Some(SqlModel::Integer(m.channel_type as i64)),
        row.get("last_local_message_id"@) == Some(sql::id_model(m.last_local_message_id)),
        row.get("last_msg_timestamp"@) == Some(sql::opt_int_model(m.last_msg_timestamp)),
        row.get("unread_count"@) == Some(SqlModel::Integer(m.unread_count as i64)),
        row.get("is_deleted"@) == Some(SqlModel::Integer(m.is_deleted as i64)),
        row.get("version"@) == Some(SqlModel::Integer(m.version)),
        row.get("extra"@) == Some(SqlModel::Text(m.extra)),
        row.get("last_msg_pts"@) == Some(SqlModel::Integer(m.last_msg_pts)),
        row.get("parent_channel_id"@) == Some(sql::id_model(m.parent_channel_id)),
        row.get("parent_channel_type"@) == Some(SqlModel::Integer(m.parent_channel_type as i64)),
{
    let b = conversation_bindings(m);
    assert(b[0].0 == "channel_id"@);
    assert(b[1].0 == "channel_type"@);
    assert(b[2].0 == "last_local_message_id"@);
    assert(b[3].0 == "last_msg_timestamp"@);
    assert(b[4].0 == "unread_count"@);
    assert(b[5].0 == "is_deleted"@);
    assert(b[6].0 == "version"@);
    assert(b[7].0 == "extra"@);
    assert(b[8].0 == "last_msg_pts"@);
    assert(b[9].0 == "parent_channel_id"@);
    assert(b[10].0 == "parent_channel_type"@);
}

/// A conversation can be stored just where the database can number all that it names.
pub proof fn law_a_conversation_with_small_numbers_is_stored(m: ChannelModel)
    ensures
        bindable(m) <==> m.channel_id <= i64::MAX && m.last_local_message_id <= i64::MAX && m.parent_channel_id <= i64::MAX,
{
}

} // verus!
