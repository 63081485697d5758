//! The statements on the channel table, and the channels that its rows hold.

use vstd::prelude::*;
use crate::error::{ErrorModel, PrivchatSDKError};
use crate::storage::entities::{Channel, ChannelModel};
use crate::storage::sql;
use crate::storage::sql::{
    bind, expect, fits_i64, id, opt_int, opt_words, out_of_range_error, plain, with_params, words,
    Binding, ColumnKind, Comparison, Expected, FromRow, Row, RowError, RowFault, RowModel, SqlModel, SqlValue,
    Statement, StatementModel,
};

verus! {

/// The columns of a channel and what goes into them.
pub open spec fn channel_bindings(m: ChannelModel) -> Seq<(Seq<char>, SqlModel)> {
    seq![
        ("channel_id"@, sql::id_model(m.channel_id)),
        ("channel_type"@, SqlModel::Integer(m.channel_type as i64)),
        ("last_local_message_id"@, sql::id_model(m.last_local_message_id)),
        ("last_msg_timestamp"@, sql::opt_int_model(m.last_msg_timestamp)),
        ("unread_count"@, SqlModel::Integer(m.unread_count as i64)),
        ("last_msg_pts"@, SqlModel::Integer(m.last_msg_pts)),
        ("show_nick"@, SqlModel::Integer(m.show_nick as i64)),
        ("username"@, SqlModel::Text(m.username)),
        ("channel_name"@, SqlModel::Text(m.channel_name)),
        ("channel_remark"@, SqlModel::Text(m.channel_remark)),
        ("top"@, SqlModel::Integer(m.top as i64)),
        ("mute"@, SqlModel::Integer(m.mute as i64)),
        ("save"@, SqlModel::Integer(m.save as i64)),
        ("forbidden"@, SqlModel::Integer(m.forbidden as i64)),
        ("follow"@, SqlModel::Integer(m.follow as i64)),
        ("is_deleted"@, SqlModel::Integer(m.is_deleted as i64)),
        ("receipt"@, SqlModel::Integer(m.receipt as i64)),
        ("status"@, SqlModel::Integer(m.status as i64)),
        ("invite"@, SqlModel::Integer(m.invite as i64)),
        ("robot"@, SqlModel::Integer(m.robot as i64)),
        ("version"@, SqlModel::Integer(m.version)),
        ("online"@, SqlModel::Integer(m.online as i64)),
        ("last_offline"@, SqlModel::Integer(m.last_offline)),
        ("avatar"@, SqlModel::Text(m.avatar)),
        ("category"@, SqlModel::Text(m.category)),
        ("extra"@, SqlModel::Text(m.extra)),
        ("created_at"@, SqlModel::Integer(m.created_at)),
        ("updated_at"@, SqlModel::Integer(m.updated_at)),
        ("avatar_cache_key"@, SqlModel::Text(m.avatar_cache_key)),
        ("remote_extra"@, sql::opt_text_model(m.remote_extra)),
        ("flame"@, SqlModel::Integer(m.flame as i64)),
        ("flame_second"@, SqlModel::Integer(m.flame_second as i64)),
        ("device_flag"@, SqlModel::Integer(m.device_flag as i64)),
        ("parent_channel_id"@, sql::id_model(m.parent_channel_id)),
        ("parent_channel_type"@, SqlModel::Integer(m.parent_channel_type as i64)),
    ]
}

/// The columns that a channel must have to be read, in the order in which they are read. The other
/// columns may be missing.
pub open spec fn channel_shape() -> Seq<(Seq<char>, ColumnKind)> {
    seq![
        ("channel_id"@, ColumnKind::Id),
        ("channel_type"@, ColumnKind::Int32),
        ("is_deleted"@, ColumnKind::Int32),
        ("version"@, ColumnKind::Int64),
    ]
}

/// The channel that a row holds. The id of the channel is the key of the table.
pub open spec fn channel_in(row: RowModel) -> ChannelModel {
    ChannelModel {
        id: row.opt_stored_id("channel_id"@),
        channel_id: row.id_at("channel_id"@),
        channel_type: row.i32_or("channel_type"@, 0),
        last_local_message_id: row.unsigned_at("last_local_message_id"@),
        last_msg_timestamp: row.opt_i64("last_msg_timestamp"@),
        last_msg_content: row.text_at("last_msg_content"@),
        unread_count: row.i32_or("unread_count"@, 0),
        last_msg_pts: row.i64_at("last_msg_pts"@),
        show_nick: row.i32_or("show_nick"@, 0),
        username: row.text_at("username"@),
        channel_name: row.text_at("channel_name"@),
        channel_remark: row.text_at("channel_remark"@),
        top: row.i32_or("top"@, 0),
        mute: row.i32_or("mute"@, 0),
        save: row.i32_or("save"@, 0),
        forbidden: row.i32_or("forbidden"@, 0),
        follow: row.i32_or("follow"@, 0),
        is_deleted: row.i32_or("is_deleted"@, 0),
        receipt: row.i32_or("receipt"@, 0),
        status: row.i32_or("status"@, 1),
        invite: row.i32_or("invite"@, 0),
        robot: row.i32_or("robot"@, 0),
        version: row.i64_at("version"@),
        online: row.i16_or("online"@, 0),
        last_offline: row.i64_at("last_offline"@),
        avatar: row.text_at("avatar"@),
        category: row.text_at("category"@),
        extra: row.text_at("extra"@),
        created_at: row.i64_at("created_at"@),
        updated_at: row.i64_at("updated_at"@),
        avatar_cache_key: row.text_at("avatar_cache_key"@),
        remote_extra: row.opt_text("remote_extra"@),
        flame: row.i16_or("flame"@, 0),
        flame_second: row.i32_or("flame_second"@, 0),
        device_flag: row.i32_or("device_flag"@, 0),
        parent_channel_id: row.unsigned_at("parent_channel_id"@),
        parent_channel_type: row.i32_or("parent_channel_type"@, 0),
    }
}

/// Whether the identifiers can be stored.
pub open spec fn bindable(m: ChannelModel) -> bool {
    &&& m.channel_id <= i64::MAX
    &&& m.last_local_message_id <= i64::MAX
    &&& m.parent_channel_id <= i64::MAX
}

/// The columns that may change when the row is there already.
pub open spec fn channel_updated() -> Seq<Seq<char>> {
    seq![
        "last_local_message_id"@,
        "last_msg_timestamp"@,
        "unread_count"@,
        "last_msg_pts"@,
        "show_nick"@,
        "username"@,
        "channel_name"@,
        "channel_remark"@,
        "top"@,
        "mute"@,
        "save"@,
        "forbidden"@,
        "follow"@,
        "is_deleted"@,
        "receipt"@,
        "status"@,
        "invite"@,
        "robot"@,
        "version"@,
        "online"@,
        "last_offline"@,
        "avatar"@,
        "category"@,
        "extra"@,
        "updated_at"@,
        "avatar_cache_key"@,
        "remote_extra"@,
        "flame"@,
        "flame_second"@,
        "device_flag"@,
        "parent_channel_id"@,
        "parent_channel_type"@,
    ]
}

/// The sum that a row without a name holds: no sum is 0.
pub open spec fn total_in(value: SqlModel) -> Result<i32, RowFault> {
    match value {
        SqlModel::Null => Ok(0),
        SqlModel::Integer(i) => if i32::MIN <= i <= i32::MAX {
            Ok(i as i32)
        } else {
            Err(RowFault::OutOfRange { index: 0, value: i })
        },
        _ => Err(RowFault::WrongType { index: 0, found: sql::type_of(value) }),
    }
}

/// The sum of unread messages that the database gave.
pub fn unread_total(value: &SqlValue) -> (r: Result<i32, PrivchatSDKError>)
    ensures
        match total_in(value@) {
            Ok(n) => r is Ok && r->Ok_0 == n,
            Err(fault) => r is Err && r->Err_0@ == ErrorModel::Database(
                RowError::words(("SUM(unread_count)"@, fault)),
            ),
        },
{
    let fault = match value {
        SqlValue::Null => {
            return Ok(0);
        },
        SqlValue::Integer(i) => {
            if i32::MIN as i64 <= *i && *i <= i32::MAX as i64 {
                return Ok(*i as i32);
            }
            RowFault::OutOfRange { index: 0, value: *i }
        },
        _ => RowFault::WrongType { index: 0, found: value.cell_type() },
    };
    let e = RowError { column: "SUM(unread_count)".to_owned(), fault };
    Err(PrivchatSDKError::Database(e.message()))
}

/// The statement of [`ChannelDao::get_by_id`].
pub open spec fn get_by_id_statement(channel_id: u64) -> StatementModel {
    StatementModel {
        sql:
            "SELECT * FROM channel WHERE channel_id = ?1 AND is_deleted = 0"@,
        params: seq![
            sql::id_model(channel_id),
        ],
    }
}

/// The statement of [`ChannelDao::get_by_channel`].
pub open spec fn get_by_channel_statement(channel_id: u64) -> StatementModel {
    StatementModel {
        sql:
            "SELECT * FROM channel WHERE channel_id = ?1 AND is_deleted = 0"@,
        params: seq![
            sql::id_model(channel_id),
        ],
    }
}

/// The statement of [`ChannelDao::get_direct_channel_by_id`].
pub open spec fn get_direct_channel_by_id_statement(channel_id: u64) -> StatementModel {
    StatementModel {
        sql:
            "SELECT * FROM channel WHERE channel_id = ?1 AND is_deleted = 0 LIMIT 1"@,
        params: seq![
            sql::id_model(channel_id),
        ],
    }
}

/// The statement of [`ChannelDao::find_by_username`].
pub open spec fn find_by_username_statement(username: Seq<char>) -> StatementModel {
    StatementModel {
        sql:
            "SELECT * FROM channel WHERE username = ?1 AND channel_type = 1 AND is_deleted = 0 LIMIT 1"@,
        params: seq![
            SqlModel::Text(username),
        ],
    }
}

/// The statement of [`ChannelDao::update_save`].
pub open spec fn update_save_statement(channel_id: u64, save: i32, now: i64) -> StatementModel {
    StatementModel {
        sql:
            "UPDATE channel SET save = ?1, updated_at = ?2 WHERE channel_id = ?3"@,
        params: seq![
            SqlModel::Integer(save as i64),
            SqlModel::Integer(now),
            sql::id_model(channel_id),
        ],
    }
}

/// The statement of [`ChannelDao::update_mute`].
pub open spec fn update_mute_statement(channel_id: u64, mute: i32, now: i64) -> StatementModel {
    StatementModel {
        sql:
            "UPDATE channel SET mute = ?1, updated_at = ?2 WHERE channel_id = ?3"@,
        params: seq![
            SqlModel::Integer(mute as i64),
            SqlModel::Integer(now),
            sql::id_model(channel_id),
        ],
    }
}

/// The statement of [`ChannelDao::update_unread_count`].
pub open spec fn update_unread_count_statement(channel_id: u64, count: i32) -> StatementModel {
    StatementModel {
        sql:
            "UPDATE channel SET unread_count = ?1 WHERE channel_id = ?2"@,
        params: seq![
            SqlModel::Integer(count as i64),
            sql::id_model(channel_id),
        ],
    }
}

/// The statement of [`ChannelDao::update_pts`].
pub open spec fn update_pts_statement(channel_id: u64, new_pts: u64) -> StatementModel {
    StatementModel {
        sql:
            "UPDATE channel SET last_msg_pts = ?1 WHERE channel_id = ?2"@,
        params: seq![
            sql::id_model(new_pts),
            sql::id_model(channel_id),
        ],
    }
}

/// The statement of [`ChannelDao::update_extra`].
pub open spec fn update_extra_statement(channel_id: u64, extra: Seq<char>) -> StatementModel {
    StatementModel {
        sql:
            "UPDATE channel SET extra = ?1, version = version + 1 WHERE channel_id = ?2"@,
        params: seq![
            SqlModel::Text(extra),
            sql::id_model(channel_id),
        ],
    }
}

/// The statement of [`ChannelDao::get_total_unread_count`].
pub open spec fn get_total_unread_count_statement() -> StatementModel {
    StatementModel {
        sql: "SELECT SUM(unread_count) FROM channel WHERE is_deleted = 0"@,
        params: Seq::empty(),
    }
}

/// The statement of [`ChannelDao::get_total_unread_count_exclude_muted`].
pub open spec fn get_total_unread_count_exclude_muted_statement() -> StatementModel {
    StatementModel { sql: "SELECT SUM(unread_count) FROM channel WHERE is_deleted = 0 AND (mute IS NULL OR mute = 0) AND (extra IS NULL OR extra = '{}' OR json_extract(extra, '$.muted') IS NULL OR json_extract(extra, '$.muted') = 0)"@, params: Seq::empty() }
}

/// The statement of [`ChannelDao::list_all`].
pub open spec fn list_all_statement() -> StatementModel {
    StatementModel { sql: "SELECT * FROM channel WHERE is_deleted = 0 ORDER BY COALESCE(last_msg_timestamp, updated_at) DESC"@, params: Seq::empty() }
}

/// The statement of [`ChannelDao::list`].
pub open spec fn list_statement() -> StatementModel {
    StatementModel { sql: "SELECT * FROM channel WHERE is_deleted = 0 ORDER BY last_msg_timestamp DESC"@, params: Seq::empty() }
}

/// The statements on the channel table.
pub struct ChannelDao;

impl ChannelDao {
    /// Stores a channel, or replaces what is stored of it but for its type and its creation.
    pub fn upsert(m: &Channel) -> (r: Result<Statement, PrivchatSDKError>)
        ensures
            match r {
                Ok(s) => bindable(m@) && s@ == sql::upsertion(
                    "channel"@,
                    channel_bindings(m@),
                    "channel_id"@,
                    channel_updated(),
                ),
                Err(e) => !bindable(m@) && e@ == sql::out_of_range(),
            },
    {
        if !fits_i64(m.channel_id) || !fits_i64(m.last_local_message_id) || !fits_i64(m.parent_channel_id) {
            return Err(out_of_range_error());
        }
        let bindings: Vec<Binding> = vec![
            bind("channel_id", id(m.channel_id)),
            bind("channel_type", SqlValue::Integer(m.channel_type as i64)),
            bind("last_local_message_id", id(m.last_local_message_id)),
            bind("last_msg_timestamp", opt_int(m.last_msg_timestamp)),
            bind("unread_count", SqlValue::Integer(m.unread_count as i64)),
            bind("last_msg_pts", SqlValue::Integer(m.last_msg_pts)),
            bind("show_nick", SqlValue::Integer(m.show_nick as i64)),
            bind("username", words(m.username.as_str())),
            bind("channel_name", words(m.channel_name.as_str())),
            bind("channel_remark", words(m.channel_remark.as_str())),
            bind("top", SqlValue::Integer(m.top as i64)),
            bind("mute", SqlValue::Integer(m.mute as i64)),
            bind("save", SqlValue::Integer(m.save as i64)),
            bind("forbidden", SqlValue::Integer(m.forbidden as i64)),
            bind("follow", SqlValue::Integer(m.follow as i64)),
            bind("is_deleted", SqlValue::Integer(m.is_deleted as i64)),
            bind("receipt", SqlValue::Integer(m.receipt as i64)),
            bind("status", SqlValue::Integer(m.status as i64)),
            bind("invite", SqlValue::Integer(m.invite as i64)),
            bind("robot", SqlValue::Integer(m.robot as i64)),
            bind("version", SqlValue::Integer(m.version)),
            bind("online", SqlValue::Integer(m.online as i64)),
            bind("last_offline", SqlValue::Integer(m.last_offline)),
            bind("avatar", words(m.avatar.as_str())),
            bind("category", words(m.category.as_str())),
            bind("extra", words(m.extra.as_str())),
            bind("created_at", SqlValue::Integer(m.created_at)),
            bind("updated_at", SqlValue::Integer(m.updated_at)),
            bind("avatar_cache_key", words(m.avatar_cache_key.as_str())),
            bind("remote_extra", opt_words(&m.remote_extra)),
            bind("flame", SqlValue::Integer(m.flame as i64)),
            bind("flame_second", SqlValue::Integer(m.flame_second as i64)),
            bind("device_flag", SqlValue::Integer(m.device_flag as i64)),
            bind("parent_channel_id", id(m.parent_channel_id)),
            bind("parent_channel_type", SqlValue::Integer(m.parent_channel_type as i64)),
        ];
        let updated: Vec<&str> = vec![
            "last_local_message_id",
            "last_msg_timestamp",
            "unread_count",
            "last_msg_pts",
            "show_nick",
            "username",
            "channel_name",
            "channel_remark",
            "top",
            "mute",
            "save",
            "forbidden",
            "follow",
            "is_deleted",
            "receipt",
            "status",
            "invite",
            "robot",
            "version",
            "online",
            "last_offline",
            "avatar",
            "category",
            "extra",
            "updated_at",
            "avatar_cache_key",
            "remote_extra",
            "flame",
            "flame_second",
            "device_flag",
            "parent_channel_id",
            "parent_channel_type",
        ];
        proof {
            assert(sql::bindings_of(bindings@) =~= channel_bindings(m@));
            assert(sql::texts_of(updated@) =~= channel_updated());
        }
        Ok(sql::upsert("channel", bindings, "channel_id", &updated))
    }

    /// Reads a channel; its id alone tells it.
    pub fn get_by_id(
        channel_id: u64,
        _channel_type: i32,
    ) -> (r: Result<Statement, PrivchatSDKError>)
        ensures
            match r {
                Ok(s) => channel_id <= i64::MAX && s@ == get_by_id_statement(channel_id),
                Err(e) => !(channel_id <= i64::MAX) && e@ == sql::out_of_range(),
            },
    {
        if !fits_i64(channel_id) {
            return Err(out_of_range_error());
        }
        let s = with_params(
            "SELECT * FROM channel WHERE channel_id = ?1 AND is_deleted = 0",
            vec![
                id(channel_id),
            ],
        );
        assert(s@.params =~= get_by_id_statement(channel_id).params);
        Ok(s)
    }

    /// Reads a channel; the type is not asked for, since the id alone tells it.
    pub fn get_by_channel(
        channel_id: u64,
        _channel_type: i32,
    ) -> (r: Result<Statement, PrivchatSDKError>)
        ensures
            match r {
                Ok(s) => channel_id <= i64::MAX && s@ == get_by_channel_statement(channel_id),
                Err(e) => !(channel_id <= i64::MAX) && e@ == sql::out_of_range(),
            },
    {
        if !fits_i64(channel_id) {
            return Err(out_of_range_error());
        }
        let s = with_params(
            "SELECT * FROM channel WHERE channel_id = ?1 AND is_deleted = 0",
            vec![
                id(channel_id),
            ],
        );
        assert(s@.params =~= get_by_channel_statement(channel_id).params);
        Ok(s)
    }

    /// Reads a direct channel.
    pub fn get_direct_channel_by_id(channel_id: u64) -> (r: Result<Statement, PrivchatSDKError>)
        ensures
            match r {
                Ok(s) => {
                    &&& channel_id <= i64::MAX
                    &&& s@ == get_direct_channel_by_id_statement(channel_id)
                },
                Err(e) => !(channel_id <= i64::MAX) && e@ == sql::out_of_range(),
            },
    {
        if !fits_i64(channel_id) {
            return Err(out_of_range_error());
        }
        let s = with_params(
            "SELECT * FROM channel WHERE channel_id = ?1 AND is_deleted = 0 LIMIT 1",
            vec![
                id(channel_id),
            ],
        );
        assert(s@.params =~= get_direct_channel_by_id_statement(channel_id).params);
        Ok(s)
    }

    /// Reads the direct channel of a user; its user name is the user's id.
    pub fn find_by_username(username: &str) -> (r: Statement)
        ensures
            r@ == find_by_username_statement(username@),
    {
        let s = with_params(
            "SELECT * FROM channel WHERE username = ?1 AND channel_type = 1 AND is_deleted = 0 LIMIT 1",
            vec![
                words(username),
            ],
        );
        assert(s@.params =~= find_by_username_statement(username@).params);
        s
    }

    /// Sets whether a channel is a favourite.
    pub fn update_save(
        channel_id: u64,
        _channel_type: i32,
        save: i32,
        now: i64,
    ) -> (r: Result<Statement, PrivchatSDKError>)
        ensures
            match r {
                Ok(s) => {
                    &&& channel_id <= i64::MAX
                    &&& s@ == update_save_statement(channel_id, save, now)
                },
                Err(e) => !(channel_id <= i64::MAX) && e@ == sql::out_of_range(),
            },
    {
        if !fits_i64(channel_id) {
            return Err(out_of_range_error());
        }
        let s = with_params(
            "UPDATE channel SET save = ?1, updated_at = ?2 WHERE channel_id = ?3",
            vec![
                SqlValue::Integer(save as i64),
                SqlValue::Integer(now),
                id(channel_id),
            ],
        );
        assert(s@.params =~= update_save_statement(channel_id, save, now).params);
        Ok(s)
    }

    /// Sets the notification mode of a channel.
    pub fn update_mute(
        channel_id: u64,
        _channel_type: i32,
        mute: i32,
        now: i64,
    ) -> (r: Result<Statement, PrivchatSDKError>)
        ensures
            match r {
                Ok(s) => {
                    &&& channel_id <= i64::MAX
                    &&& s@ == update_mute_statement(channel_id, mute, now)
                },
                Err(e) => !(channel_id <= i64::MAX) && e@ == sql::out_of_range(),
            },
    {
        if !fits_i64(channel_id) {
            return Err(out_of_range_error());
        }
        let s = with_params(
            "UPDATE channel SET mute = ?1, updated_at = ?2 WHERE channel_id = ?3",
            vec![
                SqlValue::Integer(mute as i64),
                SqlValue::Integer(now),
                id(channel_id),
            ],
        );
        assert(s@.params =~= update_mute_statement(channel_id, mute, now).params);
        Ok(s)
    }

    /// Sets how many messages of a channel are unread.
    pub fn update_unread_count(channel_id: u64, _channel_type: i32, count: i32) -> (r: Statement)
        ensures
            r@ == update_unread_count_statement(channel_id, count),
    {
        let s = with_params(
            "UPDATE channel SET unread_count = ?1 WHERE channel_id = ?2",
            vec![
                SqlValue::Integer(count as i64),
                id(channel_id),
            ],
        );
        assert(s@.params =~= update_unread_count_statement(channel_id, count).params);
        s
    }

    /// Sets the position up to which a channel is known.
    pub fn update_pts(channel_id: u64, _channel_type: i32, new_pts: u64) -> (r: Statement)
        ensures
            r@ == update_pts_statement(channel_id, new_pts),
    {
        let s = with_params(
            "UPDATE channel SET last_msg_pts = ?1 WHERE channel_id = ?2",
            vec![
                id(new_pts),
                id(channel_id),
            ],
        );
        assert(s@.params =~= update_pts_statement(channel_id, new_pts).params);
        s
    }

    /// Sets the extra record of a channel, as its next version.
    pub fn update_extra(channel_id: u64, _channel_type: i32, extra: &str) -> (r: Statement)
        ensures
            r@ == update_extra_statement(channel_id, extra@),
    {
        let s = with_params(
            "UPDATE channel SET extra = ?1, version = version + 1 WHERE channel_id = ?2",
            vec![
                words(extra),
                id(channel_id),
            ],
        );
        assert(s@.params =~= update_extra_statement(channel_id, extra@).params);
        s
    }

    /// Sums the unread messages of all channels.
    pub fn get_total_unread_count() -> (r: Statement)
        ensures
            r@ == get_total_unread_count_statement(),
    {
        let s = plain("SELECT SUM(unread_count) FROM channel WHERE is_deleted = 0");
        s
    }

    /// Sums the unread messages of the channels that are not muted.
    pub fn get_total_unread_count_exclude_muted() -> (r: Statement)
        ensures
            r@ == get_total_unread_count_exclude_muted_statement(),
    {
        let s = plain("SELECT SUM(unread_count) FROM channel WHERE is_deleted = 0 AND (mute IS NULL OR mute = 0) AND (extra IS NULL OR extra = '{}' OR json_extract(extra, '$.muted') IS NULL OR json_extract(extra, '$.muted') = 0)");
        s
    }

    /// Reads all channels, the latest first.
    pub fn list_all() -> (r: Statement)
        ensures
            r@ == list_all_statement(),
    {
        let s = plain("SELECT * FROM channel WHERE is_deleted = 0 ORDER BY COALESCE(last_msg_timestamp, updated_at) DESC");
        s
    }

    /// Reads all channels by their last message, the latest first.
    pub fn list() -> (r: Statement)
        ensures
            r@ == list_statement(),
    {
        let s = plain("SELECT * FROM channel WHERE is_deleted = 0 ORDER BY last_msg_timestamp DESC");
        s
    }
}

impl FromRow for Channel {
    open spec fn shape() -> Seq<(Seq<char>, ColumnKind)> {
        channel_shape()
    }

    open spec fn held_by(row: RowModel) -> ChannelModel {
        channel_in(row)
    }

    fn from_row(row: &Row) -> (r: Result<Self, RowError>) {
        let expected: Vec<Expected> = vec![
            expect("channel_id", ColumnKind::Id),
            expect("channel_type", ColumnKind::Int32),
            expect("is_deleted", ColumnKind::Int32),
            expect("version", ColumnKind::Int64),
        ];
        assert(sql::shape_of(expected@) =~= channel_shape());
        match row.check(&expected) {
            Ok(_) => {
                let m = Channel {
                    id: row.opt_stored_id("channel_id"),
                    channel_id: row.id_at("channel_id"),
                    channel_type: row.i32_or("channel_type", 0),
                    last_local_message_id: row.unsigned_at("last_local_message_id"),
                    last_msg_timestamp: row.opt_i64("last_msg_timestamp"),
                    last_msg_content: row.text_at("last_msg_content"),
                    unread_count: row.i32_or("unread_count", 0),
                    last_msg_pts: row.i64_at("last_msg_pts"),
                    show_nick: row.i32_or("show_nick", 0),
                    username: row.text_at("username"),
                    channel_name: row.text_at("channel_name"),
                    channel_remark: row.text_at("channel_remark"),
                    top: row.i32_or("top", 0),
                    mute: row.i32_or("mute", 0),
                    save: row.i32_or("save", 0),
                    forbidden: row.i32_or("forbidden", 0),
                    follow: row.i32_or("follow", 0),
                    is_deleted: row.i32_or("is_deleted", 0),
                    receipt: row.i32_or("receipt", 0),
                    status: row.i32_or("status", 1),
                    invite: row.i32_or("invite", 0),
                    robot: row.i32_or("robot", 0),
                    version: row.i64_at("version"),
                    online: row.i16_or("online", 0),
                    last_offline: row.i64_at("last_offline"),
                    avatar: row.text_at("avatar"),
                    category: row.text_at("category"),
                    extra: row.text_at("extra"),
                    created_at: row.i64_at("created_at"),
                    updated_at: row.i64_at("updated_at"),
                    avatar_cache_key: row.text_at("avatar_cache_key"),
                    remote_extra: row.opt_text("remote_extra"),
                    flame: row.i16_or("flame", 0),
                    flame_second: row.i32_or("flame_second", 0),
                    device_flag: row.i32_or("device_flag", 0),
                    parent_channel_id: row.unsigned_at("parent_channel_id"),
                    parent_channel_type: row.i32_or("parent_channel_type", 0),
                };
                Ok(m)
            },
            Err(e) => Err(e),
        }
    }
}

/// A row that holds what storing a channel bound holds the channel, but for its key and its last
/// content, which storing does not touch.
pub proof fn law_a_stored_channel_reads_back(m: ChannelModel, row: RowModel)
    requires
        bindable(m),
        row.holds(channel_bindings(m)),
    ensures
        row.first_fault(channel_shape()) is None,
        channel_in(row) == (ChannelModel {
            id: Some(m.channel_id as i64),
            last_msg_content: row.text_at("last_msg_content"@),
            ..m
        }),
{
    let b = channel_bindings(m);
    assert(b[0] == ("channel_id"@, sql::id_model(m.channel_id)));
    assert(b[1] == ("channel_type"@, SqlModel::Integer(m.channel_type as i64)));
    assert(b[2] == ("last_local_message_id"@, sql::id_model(m.last_local_message_id)));
    assert(b[3] == ("last_msg_timestamp"@, sql::opt_int_model(m.last_msg_timestamp)));
    assert(b[4] == ("unread_count"@, SqlModel::Integer(m.unread_count as i64)));
    assert(b[5] == ("last_msg_pts"@, SqlModel::Integer(m.last_msg_pts)));
    assert(b[6] == ("show_nick"@, SqlModel::Integer(m.show_nick as i64)));
    assert(b[7] == ("username"@, SqlModel::Text(m.username)));
    assert(b[8] == ("channel_name"@, SqlModel::Text(m.channel_name)));
    assert(b[9] == ("channel_remark"@, SqlModel::Text(m.channel_remark)));
    assert(b[10] == ("top"@, SqlModel::Integer(m.top as i64)));
    assert(b[11] == ("mute"@, SqlModel::Integer(m.mute as i64)));
    assert(b[12] == ("save"@, SqlModel::Integer(m.save as i64)));
    assert(b[13] == ("forbidden"@, SqlModel::Integer(m.forbidden as i64)));
    assert(b[14] == ("follow"@, SqlModel::Integer(m.follow as i64)));
    assert(b[15] == ("is_deleted"@, SqlModel::Integer(m.is_deleted as i64)));
    assert(b[16] == ("receipt"@, SqlModel::Integer(m.receipt as i64)));
    assert(b[17] == ("status"@, SqlModel::Integer(m.status as i64)));
    assert(b[18] == ("invite"@, SqlModel::Integer(m.invite as i64)));
    assert(b[19] == ("robot"@, SqlModel::Integer(m.robot as i64)));
    assert(b[20] == ("version"@, SqlModel::Integer(m.version)));
    assert(b[21] == ("online"@, SqlModel::Integer(m.online as i64)));
    assert(b[22] == ("last_offline"@, SqlModel::Integer(m.last_offline)));
    assert(b[23] == ("avatar"@, SqlModel::Text(m.avatar)));
    assert(b[24] == ("category"@, SqlModel::Text(m.category)));
    assert(b[25] == ("extra"@, SqlModel::Text(m.extra)));
    assert(b[26] == ("created_at"@, SqlModel::Integer(m.created_at)));
    assert(b[27] == ("updated_at"@, SqlModel::Integer(m.updated_at)));
    assert(b[28] == ("avatar_cache_key"@, SqlModel::Text(m.avatar_cache_key)));
    assert(b[29] == ("remote_extra"@, sql::opt_text_model(m.remote_extra)));
    assert(b[30] == ("flame"@, SqlModel::Integer(m.flame as i64)));
    assert(b[31] == ("flame_second"@, SqlModel::Integer(m.flame_second as i64)));
    assert(b[32] == ("device_flag"@, SqlModel::Integer(m.device_flag as i64)));
    assert(b[33] == ("parent_channel_id"@, sql::id_model(m.parent_channel_id)));
    assert(b[34] == ("parent_channel_type"@, SqlModel::Integer(m.parent_channel_type as i64)));
    sql::law_identifier_round_trip(m.channel_id);
    sql::law_identifier_round_trip(m.last_local_message_id);
    sql::law_identifier_round_trip(m.parent_channel_id);
    let shape = channel_shape();
    assert(shape[0] == ("channel_id"@, ColumnKind::Id));
    assert(shape[1] == ("channel_type"@, ColumnKind::Int32));
    assert(shape[2] == ("is_deleted"@, ColumnKind::Int32));
    assert(shape[3] == ("version"@, ColumnKind::Int64));
    sql::lemma_shape_met(row, shape);
}

// What the statements do.

/// A channel is found by its id, unless it is deleted.
pub proof fn law_a_channel_is_found_by_its_id(
    channel_id: u64,
    row: RowModel,
    channel: u64,
    deleted: i64,
)
    requires
        row.get("channel_id"@) == Some(sql::id_model(channel)),
        row.get("is_deleted"@) == Some(SqlModel::Integer(deleted)),
    ensures
        ({
            let s = get_by_id_statement(channel_id);
            let tests = seq![
                sql::against("channel_id"@, Comparison::Equal, 1),
                sql::against_number("is_deleted"@, Comparison::Equal, 0),
            ];
            &&& sql::is_selection(s, "*"@, "channel"@, tests, ""@)
            &&& sql::meets_all(row, tests, s.params) <==> channel == channel_id && deleted == 0
            &&& s == get_by_channel_statement(channel_id)
        }),
{
    let s = get_by_id_statement(channel_id);
    let tests = seq![
        sql::against("channel_id"@, Comparison::Equal, 1),
        sql::against_number("is_deleted"@, Comparison::Equal, 0),
    ];
    sql::lemma_tests_two(
        sql::against("channel_id"@, Comparison::Equal, 1),
        sql::against_number("is_deleted"@, Comparison::Equal, 0),
        row,
        s.params,
    );
    sql::lemma_stored_ids(channel, channel_id);
    assert(s.sql =~= "SELECT "@ + "*"@ + " FROM "@ + "channel"@ + " WHERE "@ + sql::where_words(tests) + ""@) by {
        reveal_strlit("SELECT * FROM channel WHERE channel_id = ?1 AND is_deleted = 0");
        reveal_strlit("SELECT ");
        reveal_strlit("*");
        reveal_strlit(" FROM ");
        reveal_strlit("channel");
        reveal_strlit(" WHERE ");
        reveal_strlit("channel_id");
        reveal_strlit(" ");
        reveal_strlit("=");
        reveal_strlit("?");
        reveal_strlit("is_deleted");
        reveal_strlit(" AND ");
        reveal_strlit("");
    }
}

/// A direct conversation is found by its id, unless it is deleted, and is one.
pub proof fn law_a_direct_channel_is_found_by_its_id(
    channel_id: u64,
    row: RowModel,
    channel: u64,
    deleted: i64,
)
    requires
        row.get("channel_id"@) == Some(sql::id_model(channel)),
        row.get("is_deleted"@) == Some(SqlModel::Integer(deleted)),
    ensures
        ({
            let s = get_direct_channel_by_id_statement(channel_id);
            let tests = seq![
                sql::against("channel_id"@, Comparison::Equal, 1),
                sql::against_number("is_deleted"@, Comparison::Equal, 0),
            ];
            &&& sql::is_selection(s, "*"@, "channel"@, tests, " LIMIT 1"@)
            &&& sql::meets_all(row, tests, s.params) <==> channel == channel_id && deleted == 0
        }),
{
    let s = get_direct_channel_by_id_statement(channel_id);
    let tests = seq![
        sql::against("channel_id"@, Comparison::Equal, 1),
        sql::against_number("is_deleted"@, Comparison::Equal, 0),
    ];
    sql::lemma_tests_two(
        sql::against("channel_id"@, Comparison::Equal, 1),
        sql::against_number("is_deleted"@, Comparison::Equal, 0),
        row,
        s.params,
    );
    sql::lemma_stored_ids(channel, channel_id);
    assert(s.sql =~= "SELECT "@ + "*"@ + " FROM "@ + "channel"@ + " WHERE "@ + sql::where_words(tests) + " LIMIT 1"@) by {
        reveal_strlit("SELECT * FROM channel WHERE channel_id = ?1 AND is_deleted = 0 LIMIT 1");
        reveal_strlit("SELECT ");
        reveal_strlit("*");
        reveal_strlit(" FROM ");
        reveal_strlit("channel");
        reveal_strlit(" WHERE ");
        reveal_strlit("channel_id");
        reveal_strlit(" ");
        reveal_strlit("=");
        reveal_strlit("?");
        reveal_strlit("is_deleted");
        reveal_strlit(" AND ");
        reveal_strlit(" LIMIT 1");
    }
}

/// A conversation with a user is a direct one that goes by the user's name and is not deleted.
pub proof fn law_a_conversation_is_found_by_its_user(
    username: Seq<char>,
    row: RowModel,
    name: Seq<char>,
    kind: i32,
    deleted: i64,
)
    requires
        row.get("username"@) == Some(SqlModel::Text(name)),
        row.get("channel_type"@) == Some(SqlModel::Integer(kind as i64)),
        row.get("is_deleted"@) == Some(SqlModel::Integer(deleted)),
    ensures
        ({
            let s = find_by_username_statement(username);
            let tests = seq![
                sql::against("username"@, Comparison::Equal, 1),
                sql::against_number("channel_type"@, Comparison::Equal, 1),
                sql::against_number("is_deleted"@, Comparison::Equal, 0),
            ];
            &&& sql::is_selection(s, "*"@, "channel"@, tests, " LIMIT 1"@)
            &&& sql::meets_all(row, tests, s.params) <==> name == username && kind == 1 && deleted == 0
        }),
{
    let s = find_by_username_statement(username);
    let tests = seq![
        sql::against("username"@, Comparison::Equal, 1),
        sql::against_number("channel_type"@, Comparison::Equal, 1),
        sql::against_number("is_deleted"@, Comparison::Equal, 0),
    ];
    sql::lemma_tests_three(
        sql::against("username"@, Comparison::Equal, 1),
        sql::against_number("channel_type"@, Comparison::Equal, 1),
        sql::against_number("is_deleted"@, Comparison::Equal, 0),
        row,
        s.params,
    );
    assert(s.sql =~= "SELECT "@ + "*"@ + " FROM "@ + "channel"@ + " WHERE "@ + sql::where_words(tests) + " LIMIT 1"@) by {
        reveal_strlit("SELECT * FROM channel WHERE username = ?1 AND channel_type = 1 AND is_deleted = 0 LIMIT 1");
        reveal_strlit("SELECT ");
        reveal_strlit("*");
        reveal_strlit(" FROM ");
        reveal_strlit("channel");
        reveal_strlit(" WHERE ");
        reveal_strlit("username");
        reveal_strlit(" ");
        reveal_strlit("=");
        reveal_strlit("?");
        reveal_strlit("channel_type");
        reveal_strlit("is_deleted");
        reveal_strlit(" AND ");
        reveal_strlit(" LIMIT 1");
    }
}

/// Keeping a channel sets its mark and the time of change, in that channel.
pub proof fn law_one_channel_is_kept(channel_id: u64, save: i32, now: i64, row: RowModel, channel: u64)
    requires
        row.get("channel_id"@) == Some(sql::id_model(channel)),
    ensures
        ({
            let s = update_save_statement(channel_id, save, now);
            let sets = seq![sql::bound("save"@, 1), sql::bound("updated_at"@, 2)];
            let tests = seq![sql::against("channel_id"@, Comparison::Equal, 3)];
            &&& sql::is_update(s, "channel"@, sets, tests)
            &&& sql::given_values(sets, s.params) == seq![
                ("save"@, Some(SqlModel::Integer(save as i64))),
                ("updated_at"@, Some(SqlModel::Integer(now))),
            ]
            &&& sql::meets_all(row, tests, s.params) <==> channel == channel_id
        }),
{
    let s = update_save_statement(channel_id, save, now);
    let sets = seq![sql::bound("save"@, 1), sql::bound("updated_at"@, 2)];
    let tests = seq![sql::against("channel_id"@, Comparison::Equal, 3)];
    sql::lemma_tests_one(sql::against("channel_id"@, Comparison::Equal, 3), row, s.params);
    sql::lemma_sets_two(sql::bound("save"@, 1), sql::bound("updated_at"@, 2), s.params);
    sql::lemma_stored_ids(channel, channel_id);
    assert(s.sql =~= "UPDATE "@ + "channel"@ + " SET "@ + sql::set_words(sets) + " WHERE "@ + sql::where_words(tests)) by {
        reveal_strlit("UPDATE channel SET save = ?1, updated_at = ?2 WHERE channel_id = ?3");
        reveal_strlit("UPDATE ");
        reveal_strlit("channel");
        reveal_strlit(" SET ");
        reveal_strlit(" = ");
        reveal_strlit(" WHERE ");
        reveal_strlit("save");
        reveal_strlit("?");
        reveal_strlit("updated_at");
        reveal_strlit(", ");
        reveal_strlit("channel_id");
        reveal_strlit(" ");
        reveal_strlit("=");
    }
}

/// Muting a channel sets its mark and the time of change, in that channel.
pub proof fn law_one_channel_is_muted(channel_id: u64, mute: i32, now: i64, row: RowModel, channel: u64)
    requires
        row.get("channel_id"@) == Some(sql::id_model(channel)),
    ensures
        ({
            let s = update_mute_statement(channel_id, mute, now);
            let sets = seq![sql::bound("mute"@, 1), sql::bound("updated_at"@, 2)];
            let tests = seq![sql::against("channel_id"@, Comparison::Equal, 3)];
            &&& sql::is_update(s, "channel"@, sets, tests)
            &&& sql::given_values(sets, s.params) == seq![
                ("mute"@, Some(SqlModel::Integer(mute as i64))),
                ("updated_at"@, Some(SqlModel::Integer(now))),
            ]
            &&& sql::meets_all(row, tests, s.params) <==> channel == channel_id
        }),
{
    let s = update_mute_statement(channel_id, mute, now);
    let sets = seq![sql::bound("mute"@, 1), sql::bound("updated_at"@, 2)];
    let tests = seq![sql::against("channel_id"@, Comparison::Equal, 3)];
    sql::lemma_tests_one(sql::against("channel_id"@, Comparison::Equal, 3), row, s.params);
    sql::lemma_sets_two(sql::bound("mute"@, 1), sql::bound("updated_at"@, 2), s.params);
    sql::lemma_stored_ids(channel, channel_id);
    assert(s.sql =~= "UPDATE "@ + "channel"@ + " SET "@ + sql::set_words(sets) + " WHERE "@ + sql::where_words(tests)) by {
        reveal_strlit("UPDATE channel SET mute = ?1, updated_at = ?2 WHERE channel_id = ?3");
        reveal_strlit("UPDATE ");
        reveal_strlit("channel");
        reveal_strlit(" SET ");
        reveal_strlit(" = ");
        reveal_strlit(" WHERE ");
        reveal_strlit("mute");
        reveal_strlit("?");
        reveal_strlit("updated_at");
        reveal_strlit(", ");
        reveal_strlit("channel_id");
        reveal_strlit(" ");
        reveal_strlit("=");
    }
}

/// A new count of unread messages is that of the one channel.
pub proof fn law_the_unread_count_of_one_channel_is_set(
    channel_id: u64,
    count: i32,
    row: RowModel,
    channel: u64,
)
    requires
        row.get("channel_id"@) == Some(sql::id_model(channel)),
    ensures
        ({
            let s = update_unread_count_statement(channel_id, count);
            let sets = seq![sql::bound("unread_count"@, 1)];
            let tests = seq![sql::against("channel_id"@, Comparison::Equal, 2)];
            &&& sql::is_update(s, "channel"@, sets, tests)
            &&& sql::given_values(sets, s.params) == seq![
                ("unread_count"@, Some(SqlModel::Integer(count as i64))),
            ]
            &&& sql::meets_all(row, tests, s.params) <==> channel == channel_id
        }),
{
    let s = update_unread_count_statement(channel_id, count);
    let sets = seq![sql::bound("unread_count"@, 1)];
    let tests = seq![sql::against("channel_id"@, Comparison::Equal, 2)];
    sql::lemma_tests_one(sql::against("channel_id"@, Comparison::Equal, 2), row, s.params);
    sql::lemma_sets_one(sql::bound("unread_count"@, 1), s.params);
    sql::lemma_stored_ids(channel, channel_id);
    assert(s.sql =~= "UPDATE "@ + "channel"@ + " SET "@ + sql::set_words(sets) + " WHERE "@ + sql::where_words(tests)) by {
        reveal_strlit("UPDATE channel SET unread_count = ?1 WHERE channel_id = ?2");
        reveal_strlit("UPDATE ");
        reveal_strlit("channel");
        reveal_strlit(" SET ");
        reveal_strlit(" = ");
        reveal_strlit(" WHERE ");
        reveal_strlit("unread_count");
        reveal_strlit("?");
        reveal_strlit("channel_id");
        reveal_strlit(" ");
        reveal_strlit("=");
    }
}

/// A new position is that of the one channel.
pub proof fn law_the_position_of_one_channel_is_set(
    channel_id: u64,
    new_pts: u64,
    row: RowModel,
    channel: u64,
)
    requires
        row.get("channel_id"@) == Some(sql::id_model(channel)),
    ensures
        ({
            let s = update_pts_statement(channel_id, new_pts);
            let sets = seq![sql::bound("last_msg_pts"@, 1)];
            let tests = seq![sql::against("channel_id"@, Comparison::Equal, 2)];
            &&& sql::is_update(s, "channel"@, sets, tests)
            &&& sql::given_values(sets, s.params) == seq![
                ("last_msg_pts"@, Some(sql::id_model(new_pts))),
            ]
            &&& sql::meets_all(row, tests, s.params) <==> channel == channel_id
        }),
{
    let s = update_pts_statement(channel_id, new_pts);
    let sets = seq![sql::bound("last_msg_pts"@, 1)];
    let tests = seq![sql::against("channel_id"@, Comparison::Equal, 2)];
    sql::lemma_tests_one(sql::against("channel_id"@, Comparison::Equal, 2), row, s.params);
    sql::lemma_sets_one(sql::bound("last_msg_pts"@, 1), s.params);
    sql::lemma_stored_ids(channel, channel_id);
    assert(s.sql =~= "UPDATE "@ + "channel"@ + " SET "@ + sql::set_words(sets) + " WHERE "@ + sql::where_words(tests)) by {
        reveal_strlit("UPDATE channel SET last_msg_pts = ?1 WHERE channel_id = ?2");
        reveal_strlit("UPDATE ");
        reveal_strlit("channel");
        reveal_strlit(" SET ");
        reveal_strlit(" = ");
        reveal_strlit(" WHERE ");
        reveal_strlit("last_msg_pts");
        reveal_strlit("?");
        reveal_strlit("channel_id");
        reveal_strlit(" ");
        reveal_strlit("=");
    }
}

/// New extra data is that of the one channel, whose version goes up.
pub proof fn law_the_extra_data_of_one_channel_is_set(
    channel_id: u64,
    extra: Seq<char>,
    row: RowModel,
    channel: u64,
)
    requires
        row.get("channel_id"@) == Some(sql::id_model(channel)),
    ensures
        ({
            let s = update_extra_statement(channel_id, extra);
            let sets = seq![sql::bound("extra"@, 1), ("version"@, sql::Operand::Words("version + 1"@))];
            let tests = seq![sql::against("channel_id"@, Comparison::Equal, 2)];
            &&& sql::is_update(s, "channel"@, sets, tests)
            &&& sql::given_values(sets, s.params) == seq![
                ("extra"@, Some(SqlModel::Text(extra))),
                ("version"@, None),
            ]
            &&& sql::meets_all(row, tests, s.params) <==> channel == channel_id
        }),
{
    let s = update_extra_statement(channel_id, extra);
    let sets = seq![sql::bound("extra"@, 1), ("version"@, sql::Operand::Words("version + 1"@))];
    let tests = seq![sql::against("channel_id"@, Comparison::Equal, 2)];
    sql::lemma_tests_one(sql::against("channel_id"@, Comparison::Equal, 2), row, s.params);
    sql::lemma_sets_two(
        sql::bound("extra"@, 1),
        ("version"@, sql::Operand::Words("version + 1"@)),
        s.params,
    );
    sql::lemma_stored_ids(channel, channel_id);
    assert(s.sql =~= "UPDATE "@ + "channel"@ + " SET "@ + sql::set_words(sets) + " WHERE "@ + sql::where_words(tests)) by {
        reveal_strlit("UPDATE channel SET extra = ?1, version = version + 1 WHERE channel_id = ?2");
        reveal_strlit("UPDATE ");
        reveal_strlit("channel");
        reveal_strlit(" SET ");
        reveal_strlit(" = ");
        reveal_strlit(" WHERE ");
        reveal_strlit("extra");
        reveal_strlit("?");
        reveal_strlit("version");
        reveal_strlit("version + 1");
        reveal_strlit(", ");
        reveal_strlit("channel_id");
        reveal_strlit(" ");
        reveal_strlit("=");
    }
}

/// The unread messages are summed over the channels that are not deleted.
pub proof fn law_deleted_channels_have_no_unread_messages(row: RowModel, deleted: i64)
    requires
        row.get("is_deleted"@) == Some(SqlModel::Integer(deleted)),
    ensures
        ({
            let s = get_total_unread_count_statement();
            let tests = seq![sql::against_number("is_deleted"@, Comparison::Equal, 0)];
            &&& sql::is_selection(s, "SUM(unread_count)"@, "channel"@, tests, ""@)
            &&& sql::meets_all(row, tests, s.params) <==> deleted == 0
        }),
{
    let s = get_total_unread_count_statement();
    let tests = seq![sql::against_number("is_deleted"@, Comparison::Equal, 0)];
    sql::lemma_tests_one(sql::against_number("is_deleted"@, Comparison::Equal, 0), row, s.params);
    assert(s.sql =~= "SELECT "@ + "SUM(unread_count)"@ + " FROM "@ + "channel"@ + " WHERE "@ + sql::where_words(tests) + ""@) by {
        reveal_strlit("SELECT SUM(unread_count) FROM channel WHERE is_deleted = 0");
        reveal_strlit("SELECT ");
        reveal_strlit("SUM(unread_count)");
        reveal_strlit(" FROM ");
        reveal_strlit("channel");
        reveal_strlit(" WHERE ");
        reveal_strlit("is_deleted");
        reveal_strlit(" ");
        reveal_strlit("=");
        reveal_strlit("");
    }
}

/// Where muted channels do not count, the unread messages are summed over the channels that are neither
/// deleted nor muted, by their mark or by their extra data.
pub proof fn law_muted_channels_are_left_out_of_the_sum(row: RowModel, deleted: i64)
    requires
        row.get("is_deleted"@) == Some(SqlModel::Integer(deleted)),
    ensures
        ({
            let s = get_total_unread_count_exclude_muted_statement();
            let tests = seq![sql::against_number("is_deleted"@, Comparison::Equal, 0)];
            &&& sql::is_selection(
                s,
                "SUM(unread_count)"@,
                "channel"@,
                tests,
                " AND (mute IS NULL OR mute = 0) AND (extra IS NULL OR extra = '{}' OR json_extract(extra, '$.muted') IS NULL OR json_extract(extra, '$.muted') = 0)"@,
            )
            &&& sql::meets_all(row, tests, s.params) <==> deleted == 0
        }),
{
    let s = get_total_unread_count_exclude_muted_statement();
    let tests = seq![sql::against_number("is_deleted"@, Comparison::Equal, 0)];
    sql::lemma_tests_one(sql::against_number("is_deleted"@, Comparison::Equal, 0), row, s.params);
    assert(s.sql =~= "SELECT "@ + "SUM(unread_count)"@ + " FROM "@ + "channel"@ + " WHERE "@ + sql::where_words(tests) + " AND (mute IS NULL OR mute = 0) AND (extra IS NULL OR extra = '{}' OR json_extract(extra, '$.muted') IS NULL OR json_extract(extra, '$.muted') = 0)"@) by {
        reveal_strlit("SELECT SUM(unread_count) FROM channel WHERE is_deleted = 0 AND (mute IS NULL OR mute = 0) AND (extra IS NULL OR extra = '{}' OR json_extract(extra, '$.muted') IS NULL OR json_extract(extra, '$.muted') = 0)");
        reveal_strlit("SELECT ");
        reveal_strlit("SUM(unread_count)");
        reveal_strlit(" FROM ");
        reveal_strlit("channel");
        reveal_strlit(" WHERE ");
        reveal_strlit("is_deleted");
        reveal_strlit(" ");
        reveal_strlit("=");
        reveal_strlit(" AND (mute IS NULL OR mute = 0) AND (extra IS NULL OR extra = '{}' OR json_extract(extra, '$.muted') IS NULL OR json_extract(extra, '$.muted') = 0)");
    }
}

/// All channels that are not deleted are listed, those with the latest message or change first.
pub proof fn law_all_channels_are_listed_by_their_last_message(row: RowModel, deleted: i64)
    requires
        row.get("is_deleted"@) == Some(SqlModel::Integer(deleted)),
    ensures
        ({
            let s = list_all_statement();
            let tests = seq![sql::against_number("is_deleted"@, Comparison::Equal, 0)];
            &&& sql::is_selection(
                s,
                "*"@,
                "channel"@,
                tests,
                " ORDER BY COALESCE(last_msg_timestamp, updated_at) DESC"@,
            )
            &&& sql::meets_all(row, tests, s.params) <==> deleted == 0
        }),
{
    let s = list_all_statement();
    let tests = seq![sql::against_number("is_deleted"@, Comparison::Equal, 0)];
    sql::lemma_tests_one(sql::against_number("is_deleted"@, Comparison::Equal, 0), row, s.params);
    assert(s.sql =~= "SELECT "@ + "*"@ + " FROM "@ + "channel"@ + " WHERE "@ + sql::where_words(tests) + " ORDER BY COALESCE(last_msg_timestamp, updated_at) DESC"@) by {
        reveal_strlit("SELECT * FROM channel WHERE is_deleted = 0 ORDER BY COALESCE(last_msg_timestamp, updated_at) DESC");
        reveal_strlit("SELECT ");
        reveal_strlit("*");
        reveal_strlit(" FROM ");
        reveal_strlit("channel");
        reveal_strlit(" WHERE ");
        reveal_strlit("is_deleted");
        reveal_strlit(" ");
        reveal_strlit("=");
        reveal_strlit(" ORDER BY COALESCE(last_msg_timestamp, updated_at) DESC");
    }
}

/// The channels that are not deleted are listed, those with the latest message first.
pub proof fn law_channels_are_listed_by_their_last_message(row: RowModel, deleted: i64)
    requires
        row.get("is_deleted"@) == Some(SqlModel::Integer(deleted)),
    ensures
        ({
            let s = list_statement();
            let tests = seq![sql::against_number("is_deleted"@, Comparison::Equal, 0)];
            &&& sql::is_selection(s, "*"@, "channel"@, tests, " ORDER BY last_msg_timestamp DESC"@)
            &&& sql::meets_all(row, tests, s.params) <==> deleted == 0
        }),
{
    let s = list_statement();
    let tests = seq![sql::against_number("is_deleted"@, Comparison::Equal, 0)];
    sql::lemma_tests_one(sql::against_number("is_deleted"@, Comparison::Equal, 0), row, s.params);
    assert(s.sql =~= "SELECT "@ + "*"@ + " FROM "@ + "channel"@ + " WHERE "@ + sql::where_words(tests) + " ORDER BY last_msg_timestamp DESC"@) by {
        reveal_strlit("SELECT * FROM channel WHERE is_deleted = 0 ORDER BY last_msg_timestamp DESC");
        reveal_strlit("SELECT ");
        reveal_strlit("*");
        reveal_strlit(" FROM ");
        reveal_strlit("channel");
        reveal_strlit(" WHERE ");
        reveal_strlit("is_deleted");
        reveal_strlit(" ");
        reveal_strlit("=");
        reveal_strlit(" ORDER BY last_msg_timestamp DESC");
    }
}

/// A stored channel has each of its parts in the column of that name.
pub proof fn law_each_part_of_a_channel_has_its_column(m: ChannelModel, row: RowModel)
    requires
        row.holds(channel_bindings(m)),
    ensures
        row.get("channel_id"@) == Some(sql::id_model(m.channel_id)),
        row.get("channel_type"@) == Some(SqlModel::Integer(m.channel_type as i64)),
        row.get("last_local_message_id"@) == Some(sql::id_model(m.last_local_message_id)),
        row.get("last_msg_timestamp"@) == Some(sql::opt_int_model(m.last_msg_timestamp)),
        row.get("unread_count"@) == Some(SqlModel::Integer(m.unread_count as i64)),
        row.get("last_msg_pts"@) == Some(SqlModel::Integer(m.last_msg_pts)),
        row.get("show_nick"@) == Some(SqlModel::Integer(m.show_nick as i64)),
        row.get("username"@) == Some(SqlModel::Text(m.username)),
        row.get("channel_name"@) == Some(SqlModel::Text(m.channel_name)),
        row.get("channel_remark"@) == Some(SqlModel::Text(m.channel_remark)),
        row.get("top"@) == Some(SqlModel::Integer(m.top as i64)),
        row.get("mute"@) == Some(SqlModel::Integer(m.mute as i64)),
        row.get("save"@) == Some(SqlModel::Integer(m.save as i64)),
        row.get("forbidden"@) == Some(SqlModel::Integer(m.forbidden as i64)),
        row.get("follow"@) == Some(SqlModel::Integer(m.follow as i64)),
        row.get("is_deleted"@) == Some(SqlModel::Integer(m.is_deleted as i64)),
        row.get("receipt"@) == Some(SqlModel::Integer(m.receipt as i64)),
        row.get("status"@) == Some(SqlModel::Integer(m.status as i64)),
        row.get("invite"@) == Some(SqlModel::Integer(m.invite as i64)),
        row.get("robot"@) == Some(SqlModel::Integer(m.robot as i64)),
        row.get("version"@) == Some(SqlModel::Integer(m.version)),
        row.get("online"@) == Some(SqlModel::Integer(m.online as i64)),
        row.get("last_offline"@) == Some(SqlModel::Integer(m.last_offline)),
        row.get("avatar"@) == Some(SqlModel::Text(m.avatar)),
        row.get("category"@) == Some(SqlModel::Text(m.category)),
        row.get("extra"@) == Some(SqlModel::Text(m.extra)),
        row.get("created_at"@) == Some(SqlModel::Integer(m.created_at)),
        row.get("updated_at"@) == Some(SqlModel::Integer(m.updated_at)),
        row.get("avatar_cache_key"@) == Some(SqlModel::Text(m.avatar_cache_key)),
        row.get("remote_extra"@) == Some(sql::opt_text_model(m.remote_extra)),
        row.get("flame"@) == Some(SqlModel::Integer(m.flame as i64)),
        row.get("flame_second"@) == Some(SqlModel::Integer(m.flame_second as i64)),
        row.get("device_flag"@) == Some(SqlModel::Integer(m.device_flag as i64)),
        row.get("parent_channel_id"@) == Some(sql::id_model(m.parent_channel_id)),
        row.get("parent_channel_type"@) == Some(SqlModel::Integer(m.parent_channel_type as i64)),
{
    let b = channel_bindings(m);
    assert(b[0].0 == "channel_id"@);
    assert(b[1].0 == "channel_type"@);
    assert(b[2].0 == "last_local_message_id"@);
    assert(b[3].0 == "last_msg_timestamp"@);
    assert(b[4].0 == "unread_count"@);
    assert(b[5].0 == "last_msg_pts"@);
    assert(b[6].0 == "show_nick"@);
    assert(b[7].0 == "username"@);
    assert(b[8].0 == "channel_name"@);
    assert(b[9].0 == "channel_remark"@);
    assert(b[10].0 == "top"@);
    assert(b[11].0 == "mute"@);
    assert(b[12].0 == "save"@);
    assert(b[13].0 == "forbidden"@);
    assert(b[14].0 == "follow"@);
    assert(b[15].0 == "is_deleted"@);
    assert(b[16].0 == "receipt"@);
    assert(b[17].0 == "status"@);
    assert(b[18].0 == "invite"@);
    assert(b[19].0 == "robot"@);
    assert(b[20].0 == "version"@);
    assert(b[21].0 == "online"@);
    assert(b[22].0 == "last_offline"@);
    assert(b[23].0 == "avatar"@);
    assert(b[24].0 == "category"@);
    assert(b[25].0 == "extra"@);
    assert(b[26].0 == "created_at"@);
    assert(b[27].0 == "updated_at"@);
    assert(b[28].0 == "avatar_cache_key"@);
    assert(b[29].0 == "remote_extra"@);
    assert(b[30].0 == "flame"@);
    assert(b[31].0 == "flame_second"@);
    assert(b[32].0 == "device_flag"@);
    assert(b[33].0 == "parent_channel_id"@);
    assert(b[34].0 == "parent_channel_type"@);
}

/// Where a channel is stored already, all its columns are written anew but for `channel_id`,
/// `channel_type` and `created_at`.
pub proof fn law_a_known_channel_is_written_anew(m: ChannelModel)
    ensures
        sql::columns_of(channel_bindings(m)) == seq!["channel_id"@, "channel_type"@]
            + channel_updated().subrange(0, 24)
            + seq!["created_at"@]
            + channel_updated().subrange(24, 32),
        channel_updated().len() == 32,
{
    let b = channel_bindings(m);
    assert(b[0].0 == "channel_id"@);
    assert(b[1].0 == "channel_type"@);
    assert(b[2].0 == "last_local_message_id"@);
    assert(b[3].0 == "last_msg_timestamp"@);
    assert(b[4].0 == "unread_count"@);
    assert(b[5].0 == "last_msg_pts"@);
    assert(b[6].0 == "show_nick"@);
    assert(b[7].0 == "username"@);
    assert(b[8].0 == "channel_name"@);
    assert(b[9].0 == "channel_remark"@);
    assert(b[10].0 == "top"@);
    assert(b[11].0 == "mute"@);
    assert(b[12].0 == "save"@);
    assert(b[13].0 == "forbidden"@);
    assert(b[14].0 == "follow"@);
    assert(b[15].0 == "is_deleted"@);
    assert(b[16].0 == "receipt"@);
    assert(b[17].0 == "status"@);
    assert(b[18].0 == "invite"@);
    assert(b[19].0 == "robot"@);
    assert(b[20].0 == "version"@);
    assert(b[21].0 == "online"@);
    assert(b[22].0 == "last_offline"@);
    assert(b[23].0 == "avatar"@);
    assert(b[24].0 == "category"@);
    assert(b[25].0 == "extra"@);
    assert(b[26].0 == "created_at"@);
    assert(b[27].0 == "updated_at"@);
    assert(b[28].0 == "avatar_cache_key"@);
    assert(b[29].0 == "remote_extra"@);
    assert(b[30].0 == "flame"@);
    assert(b[31].0 == "flame_second"@);
    assert(b[32].0 == "device_flag"@);
    assert(b[33].0 == "parent_channel_id"@);
    assert(b[34].0 == "parent_channel_type"@);
    assert(sql::columns_of(b) =~= seq!["channel_id"@, "channel_type"@] + channel_updated().subrange(0, 24) + seq!["created_at"@] + channel_updated().subrange(24, 32));
}

/// A sum that is not there is 0; a sum is given as it is where it fits, and refused where it does not.
pub proof fn law_no_sum_is_zero(i: i64, s: Seq<char>)
    ensures
        total_in(SqlModel::Null) == Ok::<_, RowFault>(0i32),
        i32::MIN <= i <= i32::MAX ==> (total_in(SqlModel::Integer(i)) matches Ok(n) && n == i),
        !(i32::MIN <= i <= i32::MAX) ==> total_in(SqlModel::Integer(i)) == Err::<i32, _>(
            RowFault::OutOfRange { index: 0, value: i },
        ),
        total_in(SqlModel::Text(s)) is Err,
{
}

/// A channel can be stored just where the database can number all that it names.
pub proof fn law_a_channel_with_small_numbers_is_stored(m: ChannelModel)
    ensures
        bindable(m) <==> m.channel_id <= i64::MAX && m.last_local_message_id <= i64::MAX && m.parent_channel_id <= i64::MAX,
{
}

} // verus!
