//! The statements on the table of group members, and the members that its rows hold.

use vstd::prelude::*;
use crate::error::PrivchatSDKError;
use crate::storage::entities::{GroupMember, GroupMemberModel};
use crate::storage::sql;
use crate::storage::sql::{
    bind, expect, fits_i64, flag, id, opt_words, out_of_range_error, with_params, Binding,
    ColumnKind, Comparison, Expected, FromRow, Row, RowError, RowModel, SqlModel, SqlValue,
    Statement, StatementModel,
};

verus! {

/// The columns of a member and what goes into them.
pub open spec fn group_member_bindings(m: GroupMemberModel) -> Seq<(Seq<char>, SqlModel)> {
    seq![
        ("group_id"@, sql::id_model(m.group_id)),
        ("user_id"@, sql::id_model(m.user_id)),
        ("role"@, SqlModel::Integer(m.role as i64)),
        ("status"@, SqlModel::Integer(m.status as i64)),
        ("alias"@, sql::opt_text_model(m.alias)),
        ("is_muted"@, sql::flag_model(m.is_muted)),
        ("joined_at"@, SqlModel::Integer(m.joined_at)),
        ("updated_at"@, SqlModel::Integer(m.updated_at)),
    ]
}

/// The columns that a member is read from, in the order in which they are read.
pub open spec fn group_member_shape() -> Seq<(Seq<char>, ColumnKind)> {
    seq![
        ("group_id"@, ColumnKind::Id),
        ("user_id"@, ColumnKind::Id),
        ("role"@, ColumnKind::Int32),
        ("status"@, ColumnKind::Int32),
        ("alias"@, ColumnKind::MaybeText),
        ("is_muted"@, ColumnKind::Int32),
        ("joined_at"@, ColumnKind::Int64),
        ("updated_at"@, ColumnKind::Int64),
    ]
}

/// The member that a row holds.
pub open spec fn group_member_in(row: RowModel) -> GroupMemberModel {
    GroupMemberModel {
        group_id: row.id_at("group_id"@),
        user_id: row.id_at("user_id"@),
        role: row.i32_or("role"@, 0),
        status: row.i32_or("status"@, 0),
        alias: row.opt_text("alias"@),
        is_muted: row.i32_or("is_muted"@, 0) != 0,
        joined_at: row.i64_at("joined_at"@),
        updated_at: row.i64_at("updated_at"@),
    }
}

/// Whether the identifiers can be stored.
pub open spec fn bindable(m: GroupMemberModel) -> bool {
    &&& m.group_id <= i64::MAX
    &&& m.user_id <= i64::MAX
}

/// Whether the identifiers of all can be stored.
pub open spec fn all_bindable(all: Seq<GroupMember>) -> bool {
    forall|i: int| 0 <= i < all.len() ==> bindable((#[trigger] all[i])@)
}

/// The columns that may change when the row is there already.
pub open spec fn group_member_updated() -> Seq<Seq<char>> {
    seq![
        "role"@,
        "status"@,
        "alias"@,
        "is_muted"@,
        "updated_at"@,
    ]
}

/// The statement that reads a page of a group's members, of one status where one is given.
pub open spec fn members_statement(
    group_id: u64,
    status: Option<i32>,
    limit: u32,
    offset: u32,
) -> StatementModel {
    match status {
        Some(status) => StatementModel {
            sql:
                "SELECT group_id, user_id, role, status, alias, is_muted, joined_at, updated_at FROM group_member WHERE group_id = ?1 AND status = ?2 ORDER BY role ASC, joined_at ASC LIMIT ?3 OFFSET ?4"@,
            params: seq![
                sql::id_model(group_id),
                SqlModel::Integer(status as i64),
                SqlModel::Integer(limit as i64),
                SqlModel::Integer(offset as i64),
            ],
        },
        None => StatementModel {
            sql:
                "SELECT group_id, user_id, role, status, alias, is_muted, joined_at, updated_at FROM group_member WHERE group_id = ?1 ORDER BY role ASC, joined_at ASC LIMIT ?2 OFFSET ?3"@,
            params: seq![
                sql::id_model(group_id),
                SqlModel::Integer(limit as i64),
                SqlModel::Integer(offset as i64),
            ],
        },
    }
}

/// The statements on the table of group members.
pub struct GroupMemberDao;

impl GroupMemberDao {
    /// Stores a member of a group, or replaces what is stored of them but for the time of joining.
    pub fn upsert(m: &GroupMember) -> (r: Result<Statement, PrivchatSDKError>)
        ensures
            match r {
                Ok(s) => bindable(m@) && s@ == sql::upsertion(
                    "group_member"@,
                    group_member_bindings(m@),
                    "group_id, user_id"@,
                    group_member_updated(),
                ),
                Err(e) => !bindable(m@) && e@ == sql::out_of_range(),
            },
    {
        if !fits_i64(m.group_id) || !fits_i64(m.user_id) {
            return Err(out_of_range_error());
        }
        let bindings: Vec<Binding> = vec![
            bind("group_id", id(m.group_id)),
            bind("user_id", id(m.user_id)),
            bind("role", SqlValue::Integer(m.role as i64)),
            bind("status", SqlValue::Integer(m.status as i64)),
            bind("alias", opt_words(&m.alias)),
            bind("is_muted", flag(m.is_muted)),
            bind("joined_at", SqlValue::Integer(m.joined_at)),
            bind("updated_at", SqlValue::Integer(m.updated_at)),
        ];
        let updated: Vec<&str> = vec![
            "role",
            "status",
            "alias",
            "is_muted",
            "updated_at",
        ];
        proof {
            assert(sql::bindings_of(bindings@) =~= group_member_bindings(m@));
            assert(sql::texts_of(updated@) =~= group_member_updated());
        }
        Ok(sql::upsert("group_member", bindings, "group_id, user_id", &updated))
    }

    /// Stores members, one statement each, to be run in one transaction.
    pub fn upsert_many(members: &Vec<GroupMember>) -> (r: Result<Vec<Statement>, PrivchatSDKError>)
        ensures
            match r {
                Ok(s) => all_bindable(members@) && s@.len() == members@.len() && forall|i: int|
                    0 <= i < members@.len() ==> (#[trigger] s@[i])@ == sql::upsertion(
                        "group_member"@,
                        group_member_bindings(members@[i]@),
                        "group_id, user_id"@,
                        group_member_updated(),
                    ),
                Err(e) => !all_bindable(members@) && e@ == sql::out_of_range(),
            },
    {
        let mut out: Vec<Statement> = Vec::new();
        let length: usize = members.len();
        let mut i: usize = 0;
        while i < length
            invariant
                i <= length == members@.len(),
                out@.len() == i,
                forall|j: int| 0 <= j < i ==> bindable((#[trigger] members@[j])@),
                forall|j: int|
                    0 <= j < i ==> (#[trigger] out@[j])@ == sql::upsertion(
                        "group_member"@,
                        group_member_bindings(members@[j]@),
                        "group_id, user_id"@,
                        group_member_updated(),
                    ),
            decreases length - i,
        {
            match GroupMemberDao::upsert(&members[i]) {
                Ok(s) => {
                    out.push(s);
                },
                Err(e) => {
                    assert(!bindable(members@[i as int]@));
                    return Err(e);
                },
            }
            i = i + 1;
        }
        Ok(out)
    }

    /// Reads a page of a group's members, owners and administrators first, then by joining.
    pub fn get_by_group(group_id: u64, status: Option<i32>, limit: u32, offset: u32) -> (r: Result<
        Statement,
        PrivchatSDKError,
    >)
        ensures
            match r {
                Ok(s) => group_id <= i64::MAX && s@ == members_statement(
                    group_id,
                    status,
                    limit,
                    offset,
                ),
                Err(e) => group_id > i64::MAX && e@ == sql::out_of_range(),
            },
    {
        if !fits_i64(group_id) {
            return Err(out_of_range_error());
        }
        let s = match status {
            Some(status) => with_params(
                "SELECT group_id, user_id, role, status, alias, is_muted, joined_at, updated_at FROM group_member WHERE group_id = ?1 AND status = ?2 ORDER BY role ASC, joined_at ASC LIMIT ?3 OFFSET ?4",
                vec![
                    id(group_id),
                    SqlValue::Integer(status as i64),
                    SqlValue::Integer(limit as i64),
                    SqlValue::Integer(offset as i64),
                ],
            ),
            None => with_params(
                "SELECT group_id, user_id, role, status, alias, is_muted, joined_at, updated_at FROM group_member WHERE group_id = ?1 ORDER BY role ASC, joined_at ASC LIMIT ?2 OFFSET ?3",
                vec![
                    id(group_id),
                    SqlValue::Integer(limit as i64),
                    SqlValue::Integer(offset as i64),
                ],
            ),
        };
        assert(s@.params =~= members_statement(group_id, status, limit, offset).params);
        Ok(s)
    }
}

impl FromRow for GroupMember {
    open spec fn shape() -> Seq<(Seq<char>, ColumnKind)> {
        group_member_shape()
    }

    open spec fn held_by(row: RowModel) -> GroupMemberModel {
        group_member_in(row)
    }

    fn from_row(row: &Row) -> (r: Result<Self, RowError>) {
        let expected: Vec<Expected> = vec![
            expect("group_id", ColumnKind::Id),
            expect("user_id", ColumnKind::Id),
            expect("role", ColumnKind::Int32),
            expect("status", ColumnKind::Int32),
            expect("alias", ColumnKind::MaybeText),
            expect("is_muted", ColumnKind::Int32),
            expect("joined_at", ColumnKind::Int64),
            expect("updated_at", ColumnKind::Int64),
        ];
        assert(sql::shape_of(expected@) =~= group_member_shape());
        match row.check(&expected) {
            Ok(_) => {
                let m = GroupMember {
                    group_id: row.id_at("group_id"),
                    user_id: row.id_at("user_id"),
                    role: row.i32_or("role", 0),
                    status: row.i32_or("status", 0),
                    alias: row.opt_text("alias"),
                    is_muted: row.i32_or("is_muted", 0) != 0,
                    joined_at: row.i64_at("joined_at"),
                    updated_at: row.i64_at("updated_at"),
                };
                Ok(m)
            },
            Err(e) => Err(e),
        }
    }
}

/// A row that holds what storing a member bound holds the member.
pub proof fn law_a_stored_group_member_reads_back(m: GroupMemberModel, row: RowModel)
    requires
        bindable(m),
        row.holds(group_member_bindings(m)),
    ensures
        row.first_fault(group_member_shape()) is None,
        group_member_in(row) == m,
{
    let b = group_member_bindings(m);
    assert(b[0] == ("group_id"@, sql::id_model(m.group_id)));
    assert(b[1] == ("user_id"@, sql::id_model(m.user_id)));
    assert(b[2] == ("role"@, SqlModel::Integer(m.role as i64)));
    assert(b[3] == ("status"@, SqlModel::Integer(m.status as i64)));
    assert(b[4] == ("alias"@, sql::opt_text_model(m.alias)));
    assert(b[5] == ("is_muted"@, sql::flag_model(m.is_muted)));
    assert(b[6] == ("joined_at"@, SqlModel::Integer(m.joined_at)));
    assert(b[7] == ("updated_at"@, SqlModel::Integer(m.updated_at)));
    sql::law_identifier_round_trip(m.group_id);
    sql::law_identifier_round_trip(m.user_id);
    let shape = group_member_shape();
    assert(shape[0] == ("group_id"@, ColumnKind::Id));
    assert(shape[1] == ("user_id"@, ColumnKind::Id));
    assert(shape[2] == ("role"@, ColumnKind::Int32));
    assert(shape[3] == ("status"@, ColumnKind::Int32));
    assert(shape[4] == ("alias"@, ColumnKind::MaybeText));
    assert(shape[5] == ("is_muted"@, ColumnKind::Int32));
    assert(shape[6] == ("joined_at"@, ColumnKind::Int64));
    assert(shape[7] == ("updated_at"@, ColumnKind::Int64));
    sql::lemma_shape_met(row, shape);
}

// What the statements do.

/// The members of a group that have a status are listed by role and then by the time they joined, by
/// pages.
pub proof fn law_members_of_a_status_are_listed(
    group_id: u64,
    status: i32,
    limit: u32,
    offset: u32,
    row: RowModel,
    group: u64,
    held: i32,
)
    requires
        row.get("group_id"@) == Some(sql::id_model(group)),
        row.get("status"@) == Some(SqlModel::Integer(held as i64)),
    ensures
        ({
            let s = members_statement(group_id, Some(status), limit, offset);
            let tests = seq![
                sql::against("group_id"@, Comparison::Equal, 1),
                sql::against("status"@, Comparison::Equal, 2),
            ];
            &&& sql::is_selection(
                s,
                "group_id, user_id, role, status, alias, is_muted, joined_at, updated_at"@,
                "group_member"@,
                tests,
                " ORDER BY role ASC, joined_at ASC LIMIT ?3 OFFSET ?4"@,
            )
            &&& sql::meets_all(row, tests, s.params) <==> group == group_id && held == status
            &&& s.params.len() == 4 && s.params[2] == SqlModel::Integer(limit as i64) && s.params[3] == SqlModel::Integer(offset as i64)
        }),
{
    let s = members_statement(group_id, Some(status), limit, offset);
    let tests = seq![
        sql::against("group_id"@, Comparison::Equal, 1),
        sql::against("status"@, Comparison::Equal, 2),
    ];
    sql::lemma_tests_two(
        sql::against("group_id"@, Comparison::Equal, 1),
        sql::against("status"@, Comparison::Equal, 2),
        row,
        s.params,
    );
    sql::lemma_stored_ids(group, group_id);
    assert(s.sql =~= "SELECT "@ + "group_id, user_id, role, status, alias, is_muted, joined_at, updated_at"@ + " FROM "@ + "group_member"@ + " WHERE "@ + sql::where_words(tests) + " ORDER BY role ASC, joined_at ASC LIMIT ?3 OFFSET ?4"@) by {
        reveal_strlit("SELECT group_id, user_id, role, status, alias, is_muted, joined_at, updated_at FROM group_member WHERE group_id = ?1 AND status = ?2 ORDER BY role ASC, joined_at ASC LIMIT ?3 OFFSET ?4");
        reveal_strlit("SELECT ");
        reveal_strlit("group_id, user_id, role, status, alias, is_muted, joined_at, updated_at");
        reveal_strlit(" FROM ");
        reveal_strlit("group_member");
        reveal_strlit(" WHERE ");
        reveal_strlit("group_id");
        reveal_strlit(" ");
        reveal_strlit("=");
        reveal_strlit("?");
        reveal_strlit("status");
        reveal_strlit(" AND ");
        reveal_strlit(" ORDER BY role ASC, joined_at ASC LIMIT ?3 OFFSET ?4");
    }
}

/// All members of a group are listed by role and then by the time they joined, by pages.
pub proof fn law_all_members_are_listed(
    group_id: u64,
    limit: u32,
    offset: u32,
    row: RowModel,
    group: u64,
)
    requires
        row.get("group_id"@) == Some(sql::id_model(group)),
    ensures
        ({
            let s = members_statement(group_id, None, limit, offset);
            let tests = seq![sql::against("group_id"@, Comparison::Equal, 1)];
            &&& sql::is_selection(
                s,
                "group_id, user_id, role, status, alias, is_muted, joined_at, updated_at"@,
                "group_member"@,
                tests,
                " ORDER BY role ASC, joined_at ASC LIMIT ?2 OFFSET ?3"@,
            )
            &&& sql::meets_all(row, tests, s.params) <==> group == group_id
            &&& s.params.len() == 3 && s.params[1] == SqlModel::Integer(limit as i64) && s.params[2] == SqlModel::Integer(offset as i64)
        }),
{
    let s = members_statement(group_id, None, limit, offset);
    let tests = seq![sql::against("group_id"@, Comparison::Equal, 1)];
    sql::lemma_tests_one(sql::against("group_id"@, Comparison::Equal, 1), row, s.params);
    sql::lemma_stored_ids(group, group_id);
    assert(s.sql =~= "SELECT "@ + "group_id, user_id, role, status, alias, is_muted, joined_at, updated_at"@ + " FROM "@ + "group_member"@ + " WHERE "@ + sql::where_words(tests) + " ORDER BY role ASC, joined_at ASC LIMIT ?2 OFFSET ?3"@) by {
        reveal_strlit("SELECT group_id, user_id, role, status, alias, is_muted, joined_at, updated_at FROM group_member WHERE group_id = ?1 ORDER BY role ASC, joined_at ASC LIMIT ?2 OFFSET ?3");
        reveal_strlit("SELECT ");
        reveal_strlit("group_id, user_id, role, status, alias, is_muted, joined_at, updated_at");
        reveal_strlit(" FROM ");
        reveal_strlit("group_member");
        reveal_strlit(" WHERE ");
        reveal_strlit("group_id");
        reveal_strlit(" ");
        reveal_strlit("=");
        reveal_strlit("?");
        reveal_strlit(" ORDER BY role ASC, joined_at ASC LIMIT ?2 OFFSET ?3");
    }
}

/// A stored member of a group has each of its parts in the column of that name.
pub proof fn law_each_part_of_a_group_member_has_its_column(m: GroupMemberModel, row: RowModel)
    requires
        row.holds(group_member_bindings(m)),
    ensures
        row.get("group_id"@) == Some(sql::id_model(m.group_id)),
        row.get("user_id"@) == Some(sql::id_model(m.user_id)),
        row.get("role"@) == Some(SqlModel::Integer(m.role as i64)),
        row.get("status"@) == Some(SqlModel::Integer(m.status as i64)),
        row.get("alias"@) == Some(sql::opt_text_model(m.alias)),
        row.get("is_muted"@) == Some(sql::flag_model(m.is_muted)),
        row.get("joined_at"@) == Some(SqlModel::Integer(m.joined_at)),
        row.get("updated_at"@) == Some(SqlModel::Integer(m.updated_at)),
{
    let b = group_member_bindings(m);
    assert(b[0].0 == "group_id"@);
    assert(b[1].0 == "user_id"@);
    assert(b[2].0 == "role"@);
    assert(b[3].0 == "status"@);
    assert(b[4].0 == "alias"@);
    assert(b[5].0 == "is_muted"@);
    assert(b[6].0 == "joined_at"@);
    assert(b[7].0 == "updated_at"@);
}

/// Where a member of a group is stored already, all its columns are written anew but for `group_id`,
/// `user_id` and `joined_at`.
pub proof fn law_a_known_group_member_is_written_anew(m: GroupMemberModel)
    ensures
        sql::columns_of(group_member_bindings(m)) == seq!["group_id"@, "user_id"@]
            + group_member_updated().subrange(0, 4)
            + seq!["joined_at"@]
            + group_member_updated().subrange(4, 5),
        group_member_updated().len() == 5,
{
    let b = group_member_bindings(m);
    assert(b[0].0 == "group_id"@);
    assert(b[1].0 == "user_id"@);
    assert(b[2].0 == "role"@);
    assert(b[3].0 == "status"@);
    assert(b[4].0 == "alias"@);
    assert(b[5].0 == "is_muted"@);
    assert(b[6].0 == "joined_at"@);
    assert(b[7].0 == "updated_at"@);
    assert(sql::columns_of(b) =~= seq!["group_id"@, "user_id"@] + group_member_updated().subrange(0, 4) + seq!["joined_at"@] + group_member_updated().subrange(4, 5));
}

/// A member can be stored just where the database can number all that it names.
pub proof fn law_a_member_with_small_numbers_is_stored(m: GroupMemberModel)
    ensures
        bindable(m) <==> m.group_id <= i64::MAX && m.user_id <= i64::MAX,
{
}

/// Several are stored together just where each of them can be.
pub proof fn law_all_or_none_are_stored(all: Seq<GroupMember>, one: GroupMember)
    ensures
        all_bindable(Seq::empty()),
        all_bindable(all.push(one)) <==> all_bindable(all) && bindable(one@),
{
    let more = all.push(one);
    assert(more[all.len() as int] == one);
    if all_bindable(more) {
        assert forall|i: int| 0 <= i < all.len() implies bindable((#[trigger] all[i])@) by {
            assert(more[i] == all[i]);
        }
    }
}

} // verus!
