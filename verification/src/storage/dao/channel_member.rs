//! The statements on the table of channel members, and the members that its rows hold.

use vstd::prelude::*;
use crate::error::PrivchatSDKError;
use crate::storage::entities::{ChannelMember, ChannelMemberModel};
use crate::storage::sql;
use crate::storage::sql::{
    bind, expect, fits_i64, id, out_of_range_error, with_params, words, Binding, ColumnKind,
    Comparison, Expected, FromRow, Row, RowError, RowModel, SqlModel, SqlValue, Statement,
    StatementModel,
};
use crate::text;
use crate::text::u64_text;

verus! {

/// The columns of a member and what goes into them.
pub open spec fn channel_member_bindings(m: ChannelMemberModel) -> Seq<(Seq<char>, SqlModel)> {
    seq![
        ("channel_id"@, sql::id_model(m.channel_id)),
        ("channel_type"@, SqlModel::Integer(m.channel_type as i64)),
        ("member_uid"@, sql::id_model(m.member_uid)),
        ("member_name"@, SqlModel::Text(m.member_name)),
        ("member_remark"@, SqlModel::Text(m.member_remark)),
        ("member_avatar"@, SqlModel::Text(m.member_avatar)),
        ("member_invite_uid"@, sql::id_model(m.member_invite_uid)),
        ("role"@, SqlModel::Integer(m.role as i64)),
        ("status"@, SqlModel::Integer(m.status as i64)),
        ("is_deleted"@, SqlModel::Integer(m.is_deleted as i64)),
        ("robot"@, SqlModel::Integer(m.robot as i64)),
        ("version"@, SqlModel::Integer(m.version)),
        ("created_at"@, SqlModel::Integer(m.created_at)),
        ("updated_at"@, SqlModel::Integer(m.updated_at)),
        ("extra"@, SqlModel::Text(m.extra)),
        ("forbidden_expiration_time"@, SqlModel::Integer(m.forbidden_expiration_time)),
        ("member_avatar_cache_key"@, SqlModel::Text(m.member_avatar_cache_key)),
    ]
}

/// The columns that a member is read from, in the order in which they are read.
pub open spec fn channel_member_shape() -> Seq<(Seq<char>, ColumnKind)> {
    seq![
        ("id"@, ColumnKind::Int64),
        ("channel_id"@, ColumnKind::Id),
        ("channel_type"@, ColumnKind::Int32),
        ("member_uid"@, ColumnKind::Id),
        ("member_name"@, ColumnKind::Text),
        ("member_remark"@, ColumnKind::Text),
        ("member_avatar"@, ColumnKind::Text),
        ("member_invite_uid"@, ColumnKind::Id),
        ("role"@, ColumnKind::Int32),
        ("status"@, ColumnKind::Int32),
        ("is_deleted"@, ColumnKind::Int32),
        ("robot"@, ColumnKind::Int32),
        ("version"@, ColumnKind::Int64),
        ("created_at"@, ColumnKind::Int64),
        ("updated_at"@, ColumnKind::Int64),
        ("extra"@, ColumnKind::Text),
        ("forbidden_expiration_time"@, ColumnKind::Int64),
        ("member_avatar_cache_key"@, ColumnKind::Text),
    ]
}

/// The member that a row holds.
pub open spec fn channel_member_in(row: RowModel) -> ChannelMemberModel {
    ChannelMemberModel {
        id: Some(row.i64_at("id"@)),
        channel_id: row.id_at("channel_id"@),
        channel_type: row.i32_or("channel_type"@, 0),
        member_uid: row.id_at("member_uid"@),
        member_name: row.text_at("member_name"@),
        member_remark: row.text_at("member_remark"@),
        member_avatar: row.text_at("member_avatar"@),
        member_invite_uid: row.id_at("member_invite_uid"@),
        role: row.i32_or("role"@, 0),
        status: row.i32_or("status"@, 0),
        is_deleted: row.i32_or("is_deleted"@, 0),
        robot: row.i32_or("robot"@, 0),
        version: row.i64_at("version"@),
        created_at: row.i64_at("created_at"@),
        updated_at: row.i64_at("updated_at"@),
        extra: row.text_at("extra"@),
        forbidden_expiration_time: row.i64_at("forbidden_expiration_time"@),
        member_avatar_cache_key: row.text_at("member_avatar_cache_key"@),
    }
}

/// Whether the identifiers can be stored.
pub open spec fn bindable(m: ChannelMemberModel) -> bool {
    &&& m.channel_id <= i64::MAX
    &&& m.member_uid <= i64::MAX
    &&& m.member_invite_uid <= i64::MAX
}

/// Whether the identifiers of all can be stored.
pub open spec fn all_bindable(all: Seq<ChannelMember>) -> bool {
    forall|i: int| 0 <= i < all.len() ==> bindable((#[trigger] all[i])@)
}

/// The columns that may change when the row is there already.
pub open spec fn channel_member_updated() -> Seq<Seq<char>> {
    seq![
        "member_name"@,
        "member_remark"@,
        "member_avatar"@,
        "member_invite_uid"@,
        "role"@,
        "status"@,
        "is_deleted"@,
        "robot"@,
        "version"@,
        "updated_at"@,
        "extra"@,
        "forbidden_expiration_time"@,
        "member_avatar_cache_key"@,
    ]
}

/// The part of a page of members: nothing where no limit is given.
pub open spec fn page_clause(limit: Option<u32>, offset: Option<u32>) -> Seq<char> {
    match limit {
        Some(limit) => " LIMIT "@ + text::decimal(limit as nat) + match offset {
            Some(offset) => " OFFSET "@ + text::decimal(offset as nat),
            None => Seq::empty(),
        },
        None => Seq::empty(),
    }
}

/// The statement of [`ChannelMemberDao::list_members`].
pub open spec fn list_members_statement(
    channel_id: u64,
    channel_type: i32,
    limit: Option<u32>,
    offset: Option<u32>,
) -> StatementModel {
    StatementModel {
        sql:
            "SELECT * FROM channel_member WHERE channel_id = ?1 AND channel_type = ?2 AND is_deleted = 0 ORDER BY created_at DESC"@
            + page_clause(limit, offset),
        params: seq![sql::id_model(channel_id), SqlModel::Integer(channel_type as i64)],
    }
}

/// The statement of [`ChannelMemberDao::delete`].
pub open spec fn delete_statement(
    channel_id: u64,
    channel_type: i32,
    member_uid: u64,
) -> StatementModel {
    StatementModel {
        sql:
            "DELETE FROM channel_member WHERE channel_id = ?1 AND channel_type = ?2 AND member_uid = ?3"@,
        params: seq![
            sql::id_model(channel_id),
            SqlModel::Integer(channel_type as i64),
            sql::id_model(member_uid),
        ],
    }
}

/// The statement of [`ChannelMemberDao::count`].
pub open spec fn count_statement(channel_id: u64, channel_type: i32) -> StatementModel {
    StatementModel {
        sql:
            "SELECT COUNT(*) FROM channel_member WHERE channel_id = ?1 AND channel_type = ?2 AND is_deleted = 0"@,
        params: seq![
            sql::id_model(channel_id),
            SqlModel::Integer(channel_type as i64),
        ],
    }
}

/// The statements on the table of channel members.
pub struct ChannelMemberDao;

impl ChannelMemberDao {
    /// Stores a member of a channel, or replaces what is stored of them.
    pub fn upsert(m: &ChannelMember) -> (r: Result<Statement, PrivchatSDKError>)
        ensures
            match r {
                Ok(s) => bindable(m@) && s@ == sql::upsertion(
                    "channel_member"@,
                    channel_member_bindings(m@),
                    "channel_id, channel_type, member_uid"@,
                    channel_member_updated(),
                ),
                Err(e) => !bindable(m@) && e@ == sql::out_of_range(),
            },
    {
        if !fits_i64(m.channel_id) || !fits_i64(m.member_uid) || !fits_i64(m.member_invite_uid) {
            return Err(out_of_range_error());
        }
        let bindings: Vec<Binding> = vec![
            bind("channel_id", id(m.channel_id)),
            bind("channel_type", SqlValue::Integer(m.channel_type as i64)),
            bind("member_uid", id(m.member_uid)),
            bind("member_name", words(m.member_name.as_str())),
            bind("member_remark", words(m.member_remark.as_str())),
            bind("member_avatar", words(m.member_avatar.as_str())),
            bind("member_invite_uid", id(m.member_invite_uid)),
            bind("role", SqlValue::Integer(m.role as i64)),
            bind("status", SqlValue::Integer(m.status as i64)),
            bind("is_deleted", SqlValue::Integer(m.is_deleted as i64)),
            bind("robot", SqlValue::Integer(m.robot as i64)),
            bind("version", SqlValue::Integer(m.version)),
            bind("created_at", SqlValue::Integer(m.created_at)),
            bind("updated_at", SqlValue::Integer(m.updated_at)),
            bind("extra", words(m.extra.as_str())),
            bind("forbidden_expiration_time", SqlValue::Integer(m.forbidden_expiration_time)),
            bind("member_avatar_cache_key", words(m.member_avatar_cache_key.as_str())),
        ];
        let updated: Vec<&str> = vec![
            "member_name",
            "member_remark",
            "member_avatar",
            "member_invite_uid",
            "role",
            "status",
            "is_deleted",
            "robot",
            "version",
            "updated_at",
            "extra",
            "forbidden_expiration_time",
            "member_avatar_cache_key",
        ];
        proof {
            assert(sql::bindings_of(bindings@) =~= channel_member_bindings(m@));
            assert(sql::texts_of(updated@) =~= channel_member_updated());
        }
        Ok(
            sql::upsert(
                "channel_member",
                bindings,
                "channel_id, channel_type, member_uid",
                &updated,
            ),
        )
    }

    /// Stores members, one statement each, to be run in one transaction.
    pub fn upsert_batch(
        members: &Vec<ChannelMember>,
    ) -> (r: Result<Vec<Statement>, PrivchatSDKError>)
        ensures
            match r {
                Ok(s) => all_bindable(members@) && s@.len() == members@.len() && forall|i: int|
                    0 <= i < members@.len() ==> (#[trigger] s@[i])@ == sql::upsertion(
                        "channel_member"@,
                        channel_member_bindings(members@[i]@),
                        "channel_id, channel_type, member_uid"@,
                        channel_member_updated(),
                    ),
                Err(e) => !all_bindable(members@) && e@ == sql::out_of_range(),
            },
    {
        let mut out: Vec<Statement> = Vec::new();
        let length: usize = members.len();
        let mut i: usize = 0;
        while i < length
            invariant
                i <= length == members@.len(),
                out@.len() == i,
                forall|j: int| 0 <= j < i ==> bindable((#[trigger] members@[j])@),
                forall|j: int|
                    0 <= j < i ==> (#[trigger] out@[j])@ == sql::upsertion(
                        "channel_member"@,
                        channel_member_bindings(members@[j]@),
                        "channel_id, channel_type, member_uid"@,
                        channel_member_updated(),
                    ),
            decreases length - i,
        {
            match ChannelMemberDao::upsert(&members[i]) {
                Ok(s) => {
                    out.push(s);
                },
                Err(e) => {
                    assert(!bindable(members@[i as int]@));
                    return Err(e);
                },
            }
            i = i + 1;
        }
        Ok(out)
    }

    /// Reads a page of a channel's members, the last that came first. An offset counts only with a
    /// limit.
    pub fn list_members(
        channel_id: u64,
        channel_type: i32,
        limit: Option<u32>,
        offset: Option<u32>,
    ) -> (r: Statement)
        ensures
            r@ == list_members_statement(channel_id, channel_type, limit, offset),
    {
        let mut text =
            "SELECT * FROM channel_member WHERE channel_id = ?1 AND channel_type = ?2 AND is_deleted = 0 ORDER BY created_at DESC".to_owned();
        let ghost head = text@;
        match limit {
            Some(limit) => {
                text.append(" LIMIT ");
                text.append(u64_text(limit as u64).as_str());
                match offset {
                    Some(offset) => {
                        text.append(" OFFSET ");
                        text.append(u64_text(offset as u64).as_str());
                    },
                    None => {},
                }
            },
            None => {},
        }
        assert(text@ =~= head + page_clause(limit, offset));
        let s = Statement {
            sql: text,
            params: vec![id(channel_id), SqlValue::Integer(channel_type as i64)],
        };
        assert(s@.params =~= seq![
            sql::id_model(channel_id),
            SqlModel::Integer(channel_type as i64),
        ]);
        s
    }

    /// Removes a member from a channel.
    pub fn delete(
        channel_id: u64,
        channel_type: i32,
        member_uid: u64,
    ) -> (r: Result<Statement, PrivchatSDKError>)
        ensures
            match r {
                Ok(s) => {
                    &&& channel_id <= i64::MAX
                    &&& s@ == delete_statement(channel_id, channel_type, member_uid)
                },
                Err(e) => !(channel_id <= i64::MAX) && e@ == sql::out_of_range(),
            },
    {
        if !fits_i64(channel_id) {
            return Err(out_of_range_error());
        }
        let s = with_params(
            "DELETE FROM channel_member WHERE channel_id = ?1 AND channel_type = ?2 AND member_uid = ?3",
            vec![
                id(channel_id),
                SqlValue::Integer(channel_type as i64),
                id(member_uid),
            ],
        );
        assert(s@.params =~= delete_statement(channel_id, channel_type, member_uid).params);
        Ok(s)
    }

    /// Counts the members of a channel.
    pub fn count(channel_id: u64, channel_type: i32) -> (r: Result<Statement, PrivchatSDKError>)
        ensures
            match r {
                Ok(s) => channel_id <= i64::MAX && s@ == count_statement(channel_id, channel_type),
                Err(e) => !(channel_id <= i64::MAX) && e@ == sql::out_of_range(),
            },
    {
        if !fits_i64(channel_id) {
            return Err(out_of_range_error());
        }
        let s = with_params(
            "SELECT COUNT(*) FROM channel_member WHERE channel_id = ?1 AND channel_type = ?2 AND is_deleted = 0",
            vec![
                id(channel_id),
                SqlValue::Integer(channel_type as i64),
            ],
        );
        assert(s@.params =~= count_statement(channel_id, channel_type).params);
        Ok(s)
    }
}

impl FromRow for ChannelMember {
    open spec fn shape() -> Seq<(Seq<char>, ColumnKind)> {
        channel_member_shape()
    }

    open spec fn held_by(row: RowModel) -> ChannelMemberModel {
        channel_member_in(row)
    }

    fn from_row(row: &Row) -> (r: Result<Self, RowError>) {
        let expected: Vec<Expected> = vec![
            expect("id", ColumnKind::Int64),
            expect("channel_id", ColumnKind::Id),
            expect("channel_type", ColumnKind::Int32),
            expect("member_uid", ColumnKind::Id),
            expect("member_name", ColumnKind::Text),
            expect("member_remark", ColumnKind::Text),
            expect("member_avatar", ColumnKind::Text),
            expect("member_invite_uid", ColumnKind::Id),
            expect("role", ColumnKind::Int32),
            expect("status", ColumnKind::Int32),
            expect("is_deleted", ColumnKind::Int32),
            expect("robot", ColumnKind::Int32),
            expect("version", ColumnKind::Int64),
            expect("created_at", ColumnKind::Int64),
            expect("updated_at", ColumnKind::Int64),
            expect("extra", ColumnKind::Text),
            expect("forbidden_expiration_time", ColumnKind::Int64),
            expect("member_avatar_cache_key", ColumnKind::Text),
        ];
        assert(sql::shape_of(expected@) =~= channel_member_shape());
        match row.check(&expected) {
            Ok(_) => {
                let m = ChannelMember {
                    id: Some(row.i64_at("id")),
                    channel_id: row.id_at("channel_id"),
                    channel_type: row.i32_or("channel_type", 0),
                    member_uid: row.id_at("member_uid"),
                    member_name: row.text_at("member_name"),
                    member_remark: row.text_at("member_remark"),
                    member_avatar: row.text_at("member_avatar"),
                    member_invite_uid: row.id_at("member_invite_uid"),
                    role: row.i32_or("role", 0),
                    status: row.i32_or("status", 0),
                    is_deleted: row.i32_or("is_deleted", 0),
                    robot: row.i32_or("robot", 0),
                    version: row.i64_at("version"),
                    created_at: row.i64_at("created_at"),
                    updated_at: row.i64_at("updated_at"),
                    extra: row.text_at("extra"),
                    forbidden_expiration_time: row.i64_at("forbidden_expiration_time"),
                    member_avatar_cache_key: row.text_at("member_avatar_cache_key"),
                };
                Ok(m)
            },
            Err(e) => Err(e),
        }
    }
}

/// A row that holds what storing a member bound, and the id that the database gave it, holds the
/// member.
pub proof fn law_a_stored_channel_member_reads_back(
    m: ChannelMemberModel,
    row: RowModel,
    given: i64,
)
    requires
        bindable(m),
        row.holds(channel_member_bindings(m)),
        row.get("id"@) == Some(SqlModel::Integer(given)),
    ensures
        row.first_fault(channel_member_shape()) is None,
        channel_member_in(row) == (ChannelMemberModel { id: Some(given), ..m }),
{
    let b = channel_member_bindings(m);
    assert(b[0] == ("channel_id"@, sql::id_model(m.channel_id)));
    assert(b[1] == ("channel_type"@, SqlModel::Integer(m.channel_type as i64)));
    assert(b[2] == ("member_uid"@, sql::id_model(m.member_uid)));
    assert(b[3] == ("member_name"@, SqlModel::Text(m.member_name)));
    assert(b[4] == ("member_remark"@, SqlModel::Text(m.member_remark)));
    assert(b[5] == ("member_avatar"@, SqlModel::Text(m.member_avatar)));
    assert(b[6] == ("member_invite_uid"@, sql::id_model(m.member_invite_uid)));
    assert(b[7] == ("role"@, SqlModel::Integer(m.role as i64)));
    assert(b[8] == ("status"@, SqlModel::Integer(m.status as i64)));
    assert(b[9] == ("is_deleted"@, SqlModel::Integer(m.is_deleted as i64)));
    assert(b[10] == ("robot"@, SqlModel::Integer(m.robot as i64)));
    assert(b[11] == ("version"@, SqlModel::Integer(m.version)));
    assert(b[12] == ("created_at"@, SqlModel::Integer(m.created_at)));
    assert(b[13] == ("updated_at"@, SqlModel::Integer(m.updated_at)));
    assert(b[14] == ("extra"@, SqlModel::Text(m.extra)));
    assert(b[15] == ("forbidden_expiration_time"@, SqlModel::Integer(m.forbidden_expiration_time)));
    assert(b[16] == ("member_avatar_cache_key"@, SqlModel::Text(m.member_avatar_cache_key)));
    sql::law_identifier_round_trip(m.channel_id);
    sql::law_identifier_round_trip(m.member_uid);
    sql::law_identifier_round_trip(m.member_invite_uid);
    let shape = channel_member_shape();
    assert(shape[0] == ("id"@, ColumnKind::Int64));
    assert(shape[1] == ("channel_id"@, ColumnKind::Id));
    assert(shape[2] == ("channel_type"@, ColumnKind::Int32));
    assert(shape[3] == ("member_uid"@, ColumnKind::Id));
    assert(shape[4] == ("member_name"@, ColumnKind::Text));
    assert(shape[5] == ("member_remark"@, ColumnKind::Text));
    assert(shape[6] == ("member_avatar"@, ColumnKind::Text));
    assert(shape[7] == ("member_invite_uid"@, ColumnKind::Id));
    assert(shape[8] == ("role"@, ColumnKind::Int32));
    assert(shape[9] == ("status"@, ColumnKind::Int32));
    assert(shape[10] == ("is_deleted"@, ColumnKind::Int32));
    assert(shape[11] == ("robot"@, ColumnKind::Int32));
    assert(shape[12] == ("version"@, ColumnKind::Int64));
    assert(shape[13] == ("created_at"@, ColumnKind::Int64));
    assert(shape[14] == ("updated_at"@, ColumnKind::Int64));
    assert(shape[15] == ("extra"@, ColumnKind::Text));
    assert(shape[16] == ("forbidden_expiration_time"@, ColumnKind::Int64));
    assert(shape[17] == ("member_avatar_cache_key"@, ColumnKind::Text));
    sql::lemma_shape_met(row, shape);
}

// What the statements do.

/// The member who is removed is the one user, in the one channel.
pub proof fn law_one_member_leaves_one_channel(
    channel_id: u64,
    channel_type: i32,
    member_uid: u64,
    row: RowModel,
    channel: u64,
    kind: i32,
    member: u64,
)
    requires
        row.get("channel_id"@) == Some(sql::id_model(channel)),
        row.get("channel_type"@) == Some(SqlModel::Integer(kind as i64)),
        row.get("member_uid"@) == Some(sql::id_model(member)),
    ensures
        ({
            let s = delete_statement(channel_id, channel_type, member_uid);
            let tests = seq![
                sql::against("channel_id"@, Comparison::Equal, 1),
                sql::against("channel_type"@, Comparison::Equal, 2),
                sql::against("member_uid"@, Comparison::Equal, 3),
            ];
            &&& sql::is_removal(s, "channel_member"@, tests)
            &&& sql::meets_all(
                row,
                tests,
                s.params,
            ) <==> channel == channel_id && kind == channel_type && member == member_uid
        }),
{
    let s = delete_statement(channel_id, channel_type, member_uid);
    let tests = seq![
        sql::against("channel_id"@, Comparison::Equal, 1),
        sql::against("channel_type"@, Comparison::Equal, 2),
        sql::against("member_uid"@, Comparison::Equal, 3),
    ];
    sql::lemma_tests_three(
        sql::against("channel_id"@, Comparison::Equal, 1),
        sql::against("channel_type"@, Comparison::Equal, 2),
        sql::against("member_uid"@, Comparison::Equal, 3),
        row,
        s.params,
    );
    sql::lemma_stored_ids(channel, channel_id);
    sql::lemma_stored_ids(member, member_uid);
    assert(s.sql =~= "DELETE FROM "@ + "channel_member"@ + " WHERE "@ + sql::where_words(tests)) by {
        reveal_strlit("DELETE FROM channel_member WHERE channel_id = ?1 AND channel_type = ?2 AND member_uid = ?3");
        reveal_strlit("DELETE FROM ");
        reveal_strlit("channel_member");
        reveal_strlit(" WHERE ");
        reveal_strlit("channel_id");
        reveal_strlit(" ");
        reveal_strlit("=");
        reveal_strlit("?");
        reveal_strlit("channel_type");
        reveal_strlit("member_uid");
        reveal_strlit(" AND ");
    }
}

/// The members of a channel are counted by its id and type, without those who left.
pub proof fn law_members_of_a_channel_are_counted(
    channel_id: u64,
    channel_type: i32,
    row: RowModel,
    channel: u64,
    kind: i32,
    deleted: i64,
)
    requires
        row.get("channel_id"@) == Some(sql::id_model(channel)),
        row.get("channel_type"@) == Some(SqlModel::Integer(kind as i64)),
        row.get("is_deleted"@) == Some(SqlModel::Integer(deleted)),
    ensures
        ({
            let s = count_statement(channel_id, channel_type);
            let tests = seq![
                sql::against("channel_id"@, Comparison::Equal, 1),
                sql::against("channel_type"@, Comparison::Equal, 2),
                sql::against_number("is_deleted"@, Comparison::Equal, 0),
            ];
            &&& sql::is_selection(s, "COUNT(*)"@, "channel_member"@, tests, ""@)
            &&& sql::meets_all(
                row,
                tests,
                s.params,
            ) <==> channel == channel_id && kind == channel_type && deleted == 0
        }),
{
    let s = count_statement(channel_id, channel_type);
    let tests = seq![
        sql::against("channel_id"@, Comparison::Equal, 1),
        sql::against("channel_type"@, Comparison::Equal, 2),
        sql::against_number("is_deleted"@, Comparison::Equal, 0),
    ];
    sql::lemma_tests_three(
        sql::against("channel_id"@, Comparison::Equal, 1),
        sql::against("channel_type"@, Comparison::Equal, 2),
        sql::against_number("is_deleted"@, Comparison::Equal, 0),
        row,
        s.params,
    );
    sql::lemma_stored_ids(channel, channel_id);
    assert(s.sql =~= "SELECT "@ + "COUNT(*)"@ + " FROM "@ + "channel_member"@ + " WHERE "@ + sql::where_words(tests) + ""@) by {
        reveal_strlit("SELECT COUNT(*) FROM channel_member WHERE channel_id = ?1 AND channel_type = ?2 AND is_deleted = 0");
        reveal_strlit("SELECT ");
        reveal_strlit("COUNT(*)");
        reveal_strlit(" FROM ");
        reveal_strlit("channel_member");
        reveal_strlit(" WHERE ");
        reveal_strlit("channel_id");
        reveal_strlit(" ");
        reveal_strlit("=");
        reveal_strlit("?");
        reveal_strlit("channel_type");
        reveal_strlit("is_deleted");
        reveal_strlit(" AND ");
        reveal_strlit("");
    }
}

/// A stored member of a channel has each of its parts in the column of that name.
pub proof fn law_each_part_of_a_channel_member_has_its_column(m: ChannelMemberModel, row: RowModel)
    requires
        row.holds(channel_member_bindings(m)),
    ensures
        row.get("channel_id"@) == Some(sql::id_model(m.channel_id)),
        row.get("channel_type"@) == Some(SqlModel::Integer(m.channel_type as i64)),
        row.get("member_uid"@) == Some(sql::id_model(m.member_uid)),
        row.get("member_name"@) == Some(SqlModel::Text(m.member_name)),
        row.get("member_remark"@) == Some(SqlModel::Text(m.member_remark)),
        row.get("member_avatar"@) == Some(SqlModel::Text(m.member_avatar)),
        row.get("member_invite_uid"@) == Some(sql::id_model(m.member_invite_uid)),
        row.get("role"@) == Some(SqlModel::Integer(m.role as i64)),
        row.get("status"@) == Some(SqlModel::Integer(m.status as i64)),
        row.get("is_deleted"@) == Some(SqlModel::Integer(m.is_deleted as i64)),
        row.get("robot"@) == Some(SqlModel::Integer(m.robot as i64)),
        row.get("version"@) == Some(SqlModel::Integer(m.version)),
        row.get("created_at"@) == Some(SqlModel::Integer(m.created_at)),
        row.get("updated_at"@) == Some(SqlModel::Integer(m.updated_at)),
        row.get("extra"@) == Some(SqlModel::Text(m.extra)),
        row.get("forbidden_expiration_time"@) == Some(SqlModel::Integer(m.forbidden_expiration_time)),
        row.get("member_avatar_cache_key"@) == Some(SqlModel::Text(m.member_avatar_cache_key)),
{
    let b = channel_member_bindings(m);
    assert(b[0].0 == "channel_id"@);
    assert(b[1].0 == "channel_type"@);
    assert(b[2].0 == "member_uid"@);
    assert(b[3].0 == "member_name"@);
    assert(b[4].0 == "member_remark"@);
    assert(b[5].0 == "member_avatar"@);
    assert(b[6].0 == "member_invite_uid"@);
    assert(b[7].0 == "role"@);
    assert(b[8].0 == "status"@);
    assert(b[9].0 == "is_deleted"@);
    assert(b[10].0 == "robot"@);
    assert(b[11].0 == "version"@);
    assert(b[12].0 == "created_at"@);
    assert(b[13].0 == "updated_at"@);
    assert(b[14].0 == "extra"@);
    assert(b[15].0 == "forbidden_expiration_time"@);
    assert(b[16].0 == "member_avatar_cache_key"@);
}

/// Where a member of a channel is stored already, all its columns are written anew but for
/// `channel_id`, `channel_type`, `member_uid` and `created_at`.
pub proof fn law_a_known_channel_member_is_written_anew(m: ChannelMemberModel)
    ensures
        sql::columns_of(channel_member_bindings(m)) == seq![
            "channel_id"@,
            "channel_type"@,
            "member_uid"@,
        ]
            + channel_member_updated().subrange(0, 9)
            + seq!["created_at"@]
            + channel_member_updated().subrange(9, 13),
        channel_member_updated().len() == 13,
{
    let b = channel_member_bindings(m);
    assert(b[0].0 == "channel_id"@);
    assert(b[1].0 == "channel_type"@);
    assert(b[2].0 == "member_uid"@);
    assert(b[3].0 == "member_name"@);
    assert(b[4].0 == "member_remark"@);
    assert(b[5].0 == "member_avatar"@);
    assert(b[6].0 == "member_invite_uid"@);
    assert(b[7].0 == "role"@);
    assert(b[8].0 == "status"@);
    assert(b[9].0 == "is_deleted"@);
    assert(b[10].0 == "robot"@);
    assert(b[11].0 == "version"@);
    assert(b[12].0 == "created_at"@);
    assert(b[13].0 == "updated_at"@);
    assert(b[14].0 == "extra"@);
    assert(b[15].0 == "forbidden_expiration_time"@);
    assert(b[16].0 == "member_avatar_cache_key"@);
    assert(sql::columns_of(b) =~= seq!["channel_id"@, "channel_type"@, "member_uid"@] + channel_member_updated().subrange(0, 9) + seq!["created_at"@] + channel_member_updated().subrange(9, 13));
}

/// A page of members is as long as asked for and begins where asked for; without a length all are read.
/// The members are those of the channel who have not left, the latest first.
pub proof fn law_a_page_of_members(channel_id: u64, channel_type: i32, limit: u32, offset: u32)
    ensures
        list_members_statement(channel_id, channel_type, Some(limit), Some(offset)).sql
            == list_members_statement(channel_id, channel_type, Some(limit), None).sql + " OFFSET "@
            + text::decimal(offset as nat),
        list_members_statement(channel_id, channel_type, Some(limit), None).sql
            == list_members_statement(channel_id, channel_type, None, None).sql + " LIMIT "@
            + text::decimal(limit as nat),
        list_members_statement(channel_id, channel_type, None, Some(offset)).sql
            == list_members_statement(channel_id, channel_type, None, None).sql,
        ({
            let s = list_members_statement(channel_id, channel_type, Some(limit), Some(offset));
            s.params == seq![sql::id_model(channel_id), SqlModel::Integer(channel_type as i64)]
        }),
        sql::is_selection(
            list_members_statement(channel_id, channel_type, None, None),
            "*"@,
            "channel_member"@,
            seq![
                sql::against("channel_id"@, Comparison::Equal, 1),
                sql::against("channel_type"@, Comparison::Equal, 2),
                sql::against_number("is_deleted"@, Comparison::Equal, 0),
            ],
            " ORDER BY created_at DESC"@,
        ),
{
    let head =
        "SELECT * FROM channel_member WHERE channel_id = ?1 AND channel_type = ?2 AND is_deleted = 0 ORDER BY created_at DESC"@;
    let length = " LIMIT "@ + text::decimal(limit as nat);
    let start = " OFFSET "@ + text::decimal(offset as nat);
    assert(head + (length + start) =~= head + length + start);
    assert(head + (length + Seq::empty()) =~= head + length);
    assert(head + Seq::empty() =~= head);
    assert(head + length + start =~= head + length + " OFFSET "@ + text::decimal(offset as nat));
    assert(head + length =~= head + " LIMIT "@ + text::decimal(limit as nat));
    let tests = seq![
        sql::against("channel_id"@, Comparison::Equal, 1),
        sql::against("channel_type"@, Comparison::Equal, 2),
        sql::against_number("is_deleted"@, Comparison::Equal, 0),
    ];
    sql::lemma_tests_three(
        tests[0],
        tests[1],
        tests[2],
        RowModel { cells: Seq::empty() },
        Seq::empty(),
    );
    assert(seq![tests[0], tests[1], tests[2]] =~= tests);
    assert(head =~= "SELECT "@ + "*"@ + " FROM "@ + "channel_member"@ + " WHERE "@ + sql::where_words(tests)
        + " ORDER BY created_at DESC"@) by {
        reveal_strlit(
            "SELECT * FROM channel_member WHERE channel_id = ?1 AND channel_type = ?2 AND is_deleted = 0 ORDER BY created_at DESC",
        );
        reveal_strlit("SELECT ");
        reveal_strlit("*");
        reveal_strlit(" FROM ");
        reveal_strlit("channel_member");
        reveal_strlit(" WHERE ");
        reveal_strlit(" ORDER BY created_at DESC");
        reveal_strlit(" AND ");
        reveal_strlit("channel_id");
        reveal_strlit("channel_type");
        reveal_strlit("is_deleted");
        reveal_strlit(" ");
        reveal_strlit("=");
        reveal_strlit("?");
    }
}

/// A member can be stored just where the database can number all that it names.
pub proof fn law_a_member_with_small_numbers_is_stored(m: ChannelMemberModel)
    ensures
        bindable(m) <==> m.channel_id <= i64::MAX && m.member_uid <= i64::MAX && m.member_invite_uid <= i64::MAX,
{
}

/// Several are stored together just where each of them can be.
pub proof fn law_all_or_none_are_stored(all: Seq<ChannelMember>, one: ChannelMember)
    ensures
        all_bindable(Seq::empty()),
        all_bindable(all.push(one)) <==> all_bindable(all) && bindable(one@),
{
    let more = all.push(one);
    assert(more[all.len() as int] == one);
    if all_bindable(more) {
        assert forall|i: int| 0 <= i < all.len() implies bindable((#[trigger] all[i])@) by {
            assert(more[i] == all[i]);
        }
    }
}

} // verus!
