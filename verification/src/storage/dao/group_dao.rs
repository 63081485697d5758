//! The statements on the group table, and the groups that its rows hold.

use vstd::prelude::*;
use crate::error::PrivchatSDKError;
use crate::storage::entities::{Group, GroupModel};
use crate::storage::sql;
use crate::storage::sql::{
    bind, expect, fits_i64, flag, id, opt_id, opt_words, out_of_range_error, with_params, words,
    Binding, ColumnKind, Comparison, Expected, FromRow, Row, RowError, RowModel, SqlModel, SqlValue, Statement,
    StatementModel,
};

verus! {

/// The columns of a group and what goes into them.
pub open spec fn group_bindings(m: GroupModel) -> Seq<(Seq<char>, SqlModel)> {
    seq![
        ("group_id"@, sql::id_model(m.group_id)),
        ("name"@, sql::opt_text_model(m.name)),
        ("avatar"@, SqlModel::Text(m.avatar)),
        ("owner_id"@, sql::opt_id_model(m.owner_id)),
        ("is_dismissed"@, sql::flag_model(m.is_dismissed)),
        ("created_at"@, SqlModel::Integer(m.created_at)),
        ("updated_at"@, SqlModel::Integer(m.updated_at)),
    ]
}

/// The columns that a group is read from, in the order in which they are read.
pub open spec fn group_shape() -> Seq<(Seq<char>, ColumnKind)> {
    seq![
        ("group_id"@, ColumnKind::Id),
        ("name"@, ColumnKind::MaybeText),
        ("avatar"@, ColumnKind::MaybeText),
        ("owner_id"@, ColumnKind::MaybeId),
        ("is_dismissed"@, ColumnKind::Int32),
        ("created_at"@, ColumnKind::Int64),
        ("updated_at"@, ColumnKind::Int64),
    ]
}

/// The group that a row holds.
pub open spec fn group_in(row: RowModel) -> GroupModel {
    GroupModel {
        group_id: row.id_at("group_id"@),
        name: row.opt_text("name"@),
        avatar: row.text_at("avatar"@),
        owner_id: row.opt_id("owner_id"@),
        is_dismissed: row.i32_or("is_dismissed"@, 0) != 0,
        created_at: row.i64_at("created_at"@),
        updated_at: row.i64_at("updated_at"@),
    }
}

/// Whether the identifiers can be stored.
pub open spec fn bindable(m: GroupModel) -> bool {
    &&& m.group_id <= i64::MAX
    &&& match m.owner_id { Some(v) => v <= i64::MAX, None => true }
}

/// The columns that may change when the row is there already.
pub open spec fn group_updated() -> Seq<Seq<char>> {
    seq![
        "name"@,
        "avatar"@,
        "owner_id"@,
        "is_dismissed"@,
        "updated_at"@,
    ]
}

/// The statement of [`GroupDao::get_by_id`].
pub open spec fn get_by_id_statement(group_id: u64) -> StatementModel {
    StatementModel {
        sql:
            "SELECT group_id, name, avatar, owner_id, is_dismissed, created_at, updated_at FROM \"group\" WHERE group_id = ?1"@,
        params: seq![
            sql::id_model(group_id),
        ],
    }
}

/// The statement of [`GroupDao::list`].
pub open spec fn list_statement(limit: u32, offset: u32) -> StatementModel {
    StatementModel {
        sql:
            "SELECT group_id, name, avatar, owner_id, is_dismissed, created_at, updated_at FROM \"group\" WHERE is_dismissed = 0 ORDER BY updated_at DESC LIMIT ?1 OFFSET ?2"@,
        params: seq![
            SqlModel::Integer(limit as i64),
            SqlModel::Integer(offset as i64),
        ],
    }
}

/// The statements on the group table.
pub struct GroupDao;

impl GroupDao {
    /// Stores a group, or replaces what is stored of it but for its creation.
    pub fn upsert(m: &Group) -> (r: Result<Statement, PrivchatSDKError>)
        ensures
            match r {
                Ok(s) => bindable(m@) && s@ == sql::upsertion(
                    "\"group\""@,
                    group_bindings(m@),
                    "group_id"@,
                    group_updated(),
                ),
                Err(e) => !bindable(m@) && e@ == sql::out_of_range(),
            },
    {
        if !fits_i64(m.group_id) {
            return Err(out_of_range_error());
        }
        match m.owner_id {
            Some(v) => {
                if !fits_i64(v) {
                    return Err(out_of_range_error());
                }
            },
            None => {},
        }
        let bindings: Vec<Binding> = vec![
            bind("group_id", id(m.group_id)),
            bind("name", opt_words(&m.name)),
            bind("avatar", words(m.avatar.as_str())),
            bind("owner_id", opt_id(m.owner_id)),
            bind("is_dismissed", flag(m.is_dismissed)),
            bind("created_at", SqlValue::Integer(m.created_at)),
            bind("updated_at", SqlValue::Integer(m.updated_at)),
        ];
        let updated: Vec<&str> = vec![
            "name",
            "avatar",
            "owner_id",
            "is_dismissed",
            "updated_at",
        ];
        proof {
            assert(sql::bindings_of(bindings@) =~= group_bindings(m@));
            assert(sql::texts_of(updated@) =~= group_updated());
        }
        Ok(sql::upsert("\"group\"", bindings, "group_id", &updated))
    }

    /// Reads a group.
    pub fn get_by_id(group_id: u64) -> (r: Result<Statement, PrivchatSDKError>)
        ensures
            match r {
                Ok(s) => group_id <= i64::MAX && s@ == get_by_id_statement(group_id),
                Err(e) => !(group_id <= i64::MAX) && e@ == sql::out_of_range(),
            },
    {
        if !fits_i64(group_id) {
            return Err(out_of_range_error());
        }
        let s = with_params(
            "SELECT group_id, name, avatar, owner_id, is_dismissed, created_at, updated_at FROM \"group\" WHERE group_id = ?1",
            vec![
                id(group_id),
            ],
        );
        assert(s@.params =~= get_by_id_statement(group_id).params);
        Ok(s)
    }

    /// Reads a page of the groups that were not dismissed, the last changed first.
    pub fn list(limit: u32, offset: u32) -> (r: Statement)
        ensures
            r@ == list_statement(limit, offset),
    {
        let s = with_params(
            "SELECT group_id, name, avatar, owner_id, is_dismissed, created_at, updated_at FROM \"group\" WHERE is_dismissed = 0 ORDER BY updated_at DESC LIMIT ?1 OFFSET ?2",
            vec![
                SqlValue::Integer(limit as i64),
                SqlValue::Integer(offset as i64),
            ],
        );
        assert(s@.params =~= list_statement(limit, offset).params);
        s
    }
}

impl FromRow for Group {
    open spec fn shape() -> Seq<(Seq<char>, ColumnKind)> {
        group_shape()
    }

    open spec fn held_by(row: RowModel) -> GroupModel {
        group_in(row)
    }

    fn from_row(row: &Row) -> (r: Result<Self, RowError>) {
        let expected: Vec<Expected> = vec![
            expect("group_id", ColumnKind::Id),
            expect("name", ColumnKind::MaybeText),
            expect("avatar", ColumnKind::MaybeText),
            expect("owner_id", ColumnKind::MaybeId),
            expect("is_dismissed", ColumnKind::Int32),
            expect("created_at", ColumnKind::Int64),
            expect("updated_at", ColumnKind::Int64),
        ];
        assert(sql::shape_of(expected@) =~= group_shape());
        match row.check(&expected) {
            Ok(_) => {
                let m = Group {
                    group_id: row.id_at("group_id"),
                    name: row.opt_text("name"),
                    avatar: row.text_at("avatar"),
                    owner_id: row.opt_id("owner_id"),
                    is_dismissed: row.i32_or("is_dismissed", 0) != 0,
                    created_at: row.i64_at("created_at"),
                    updated_at: row.i64_at("updated_at"),
                };
                Ok(m)
            },
            Err(e) => Err(e),
        }
    }
}

/// A row that holds what storing a group bound holds the group.
pub proof fn law_a_stored_group_reads_back(m: GroupModel, row: RowModel)
    requires
        bindable(m),
        row.holds(group_bindings(m)),
    ensures
        row.first_fault(group_shape()) is None,
        group_in(row) == m,
{
    let b = group_bindings(m);
    assert(b[0] == ("group_id"@, sql::id_model(m.group_id)));
    assert(b[1] == ("name"@, sql::opt_text_model(m.name)));
    assert(b[2] == ("avatar"@, SqlModel::Text(m.avatar)));
    assert(b[3] == ("owner_id"@, sql::opt_id_model(m.owner_id)));
    assert(b[4] == ("is_dismissed"@, sql::flag_model(m.is_dismissed)));
    assert(b[5] == ("created_at"@, SqlModel::Integer(m.created_at)));
    assert(b[6] == ("updated_at"@, SqlModel::Integer(m.updated_at)));
    sql::law_identifier_round_trip(m.group_id);
    match m.owner_id {
        Some(v) => {
            sql::law_identifier_round_trip(v);
        },
        None => {},
    }
    let shape = group_shape();
    assert(shape[0] == ("group_id"@, ColumnKind::Id));
    assert(shape[1] == ("name"@, ColumnKind::MaybeText));
    assert(shape[2] == ("avatar"@, ColumnKind::MaybeText));
    assert(shape[3] == ("owner_id"@, ColumnKind::MaybeId));
    assert(shape[4] == ("is_dismissed"@, ColumnKind::Int32));
    assert(shape[5] == ("created_at"@, ColumnKind::Int64));
    assert(shape[6] == ("updated_at"@, ColumnKind::Int64));
    sql::lemma_shape_met(row, shape);
}

// What the statements do.

/// A group is found by its id, also a dismissed one.
pub proof fn law_a_group_is_found_by_its_id(group_id: u64, row: RowModel, group: u64)
    requires
        row.get("group_id"@) == Some(sql::id_model(group)),
    ensures
        ({
            let s = get_by_id_statement(group_id);
            let tests = seq![sql::against("group_id"@, Comparison::Equal, 1)];
            &&& sql::is_selection(
                s,
                "group_id, name, avatar, owner_id, is_dismissed, created_at, updated_at"@,
                "\"group\""@,
                tests,
                ""@,
            )
            &&& sql::meets_all(row, tests, s.params) <==> group == group_id
        }),
{
    let s = get_by_id_statement(group_id);
    let tests = seq![sql::against("group_id"@, Comparison::Equal, 1)];
    sql::lemma_tests_one(sql::against("group_id"@, Comparison::Equal, 1), row, s.params);
    sql::lemma_stored_ids(group, group_id);
    assert(s.sql =~= "SELECT "@ + "group_id, name, avatar, owner_id, is_dismissed, created_at, updated_at"@ + " FROM "@ + "\"group\""@ + " WHERE "@ + sql::where_words(tests) + ""@) by {
        reveal_strlit("SELECT group_id, name, avatar, owner_id, is_dismissed, created_at, updated_at FROM \"group\" WHERE group_id = ?1");
        reveal_strlit("SELECT ");
        reveal_strlit("group_id, name, avatar, owner_id, is_dismissed, created_at, updated_at");
        reveal_strlit(" FROM ");
        reveal_strlit("\"group\"");
        reveal_strlit(" WHERE ");
        reveal_strlit("group_id");
        reveal_strlit(" ");
        reveal_strlit("=");
        reveal_strlit("?");
        reveal_strlit("");
    }
}

/// The groups that are not dismissed are listed, those that changed last first, by pages.
pub proof fn law_dismissed_groups_are_not_listed(limit: u32, offset: u32, row: RowModel, dismissed: i64)
    requires
        row.get("is_dismissed"@) == Some(SqlModel::Integer(dismissed)),
    ensures
        ({
            let s = list_statement(limit, offset);
            let tests = seq![sql::against_number("is_dismissed"@, Comparison::Equal, 0)];
            &&& sql::is_selection(
                s,
                "group_id, name, avatar, owner_id, is_dismissed, created_at, updated_at"@,
                "\"group\""@,
                tests,
                " ORDER BY updated_at DESC LIMIT ?1 OFFSET ?2"@,
            )
            &&& sql::meets_all(row, tests, s.params) <==> dismissed == 0
            &&& s.params == seq![SqlModel::Integer(limit as i64), SqlModel::Integer(offset as i64)]
        }),
{
    let s = list_statement(limit, offset);
    let tests = seq![sql::against_number("is_dismissed"@, Comparison::Equal, 0)];
    sql::lemma_tests_one(sql::against_number("is_dismissed"@, Comparison::Equal, 0), row, s.params);
    assert(s.sql =~= "SELECT "@ + "group_id, name, avatar, owner_id, is_dismissed, created_at, updated_at"@ + " FROM "@ + "\"group\""@ + " WHERE "@ + sql::where_words(tests) + " ORDER BY updated_at DESC LIMIT ?1 OFFSET ?2"@) by {
        reveal_strlit("SELECT group_id, name, avatar, owner_id, is_dismissed, created_at, updated_at FROM \"group\" WHERE is_dismissed = 0 ORDER BY updated_at DESC LIMIT ?1 OFFSET ?2");
        reveal_strlit("SELECT ");
        reveal_strlit("group_id, name, avatar, owner_id, is_dismissed, created_at, updated_at");
        reveal_strlit(" FROM ");
        reveal_strlit("\"group\"");
        reveal_strlit(" WHERE ");
        reveal_strlit("is_dismissed");
        reveal_strlit(" ");
        reveal_strlit("=");
        reveal_strlit(" ORDER BY updated_at DESC LIMIT ?1 OFFSET ?2");
    }
}

/// A stored group has each of its parts in the column of that name.
pub proof fn law_each_part_of_a_group_has_its_column(m: GroupModel, row: RowModel)
    requires
        row.holds(group_bindings(m)),
    ensures
        row.get("group_id"@) == Some(sql::id_model(m.group_id)),
        row.get("name"@) == Some(sql::opt_text_model(m.name)),
        row.get("avatar"@) == Some(SqlModel::Text(m.avatar)),
        row.get("owner_id"@) == Some(sql::opt_id_model(m.owner_id)),
        row.get("is_dismissed"@) == Some(sql::flag_model(m.is_dismissed)),
        row.get("created_at"@) == Some(SqlModel::Integer(m.created_at)),
        row.get("updated_at"@) == Some(SqlModel::Integer(m.updated_at)),
{
    let b = group_bindings(m);
    assert(b[0].0 == "group_id"@);
    assert(b[1].0 == "name"@);
    assert(b[2].0 == "avatar"@);
    assert(b[3].0 == "owner_id"@);
    assert(b[4].0 == "is_dismissed"@);
    assert(b[5].0 == "created_at"@);
    assert(b[6].0 == "updated_at"@);
}

/// Where a group is stored already, all its columns are written anew but for `group_id` and
/// `created_at`.
pub proof fn law_a_known_group_is_written_anew(m: GroupModel)
    ensures
        sql::columns_of(group_bindings(m)) == seq!["group_id"@]
            + group_updated().subrange(0, 4)
            + seq!["created_at"@]
            + group_updated().subrange(4, 5),
        group_updated().len() == 5,
{
    let b = group_bindings(m);
    assert(b[0].0 == "group_id"@);
    assert(b[1].0 == "name"@);
    assert(b[2].0 == "avatar"@);
    assert(b[3].0 == "owner_id"@);
    assert(b[4].0 == "is_dismissed"@);
    assert(b[5].0 == "created_at"@);
    assert(b[6].0 == "updated_at"@);
    assert(sql::columns_of(b) =~= seq!["group_id"@] + group_updated().subrange(0, 4) + seq!["created_at"@] + group_updated().subrange(4, 5));
}

/// A group can be stored just where the database can number all that it names.
pub proof fn law_a_group_with_small_numbers_is_stored(m: GroupModel)
    ensures
        bindable(m) <==> m.group_id <= i64::MAX && (m.owner_id matches Some(owner) ==> owner <= i64::MAX),
{
}

} // verus!
