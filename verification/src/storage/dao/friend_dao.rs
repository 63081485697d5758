//! The statements on the friend table, and the friendships that its rows hold.

use vstd::prelude::*;
use crate::error::PrivchatSDKError;
use crate::storage::entities::{Friend, FriendModel};
use crate::storage::sql;
use crate::storage::sql::{
    bind, expect, fits_i64, flag, id, opt_words, out_of_range_error, plain, with_params, Binding,
    ColumnKind, Comparison, Expected, FromRow, Row, RowError, RowModel, SqlModel, SqlValue, Statement,
    StatementModel,
};

verus! {

/// The columns of a friendship and what goes into them.
pub open spec fn friend_bindings(m: FriendModel) -> Seq<(Seq<char>, SqlModel)> {
    seq![
        ("user_id"@, sql::id_model(m.user_id)),
        ("tags"@, sql::opt_text_model(m.tags)),
        ("is_pinned"@, sql::flag_model(m.is_pinned)),
        ("created_at"@, SqlModel::Integer(m.created_at)),
        ("updated_at"@, SqlModel::Integer(m.updated_at)),
    ]
}

/// The columns that a friendship is read from, in the order in which they are read.
pub open spec fn friend_shape() -> Seq<(Seq<char>, ColumnKind)> {
    seq![
        ("user_id"@, ColumnKind::Id),
        ("tags"@, ColumnKind::MaybeText),
        ("is_pinned"@, ColumnKind::Int32),
        ("created_at"@, ColumnKind::Int64),
        ("updated_at"@, ColumnKind::Int64),
    ]
}

/// The friendship that a row holds.
pub open spec fn friend_in(row: RowModel) -> FriendModel {
    FriendModel {
        user_id: row.id_at("user_id"@),
        tags: row.opt_text("tags"@),
        is_pinned: row.i32_or("is_pinned"@, 0) != 0,
        created_at: row.i64_at("created_at"@),
        updated_at: row.i64_at("updated_at"@),
    }
}

/// Whether the identifiers can be stored.
pub open spec fn bindable(m: FriendModel) -> bool {
    &&& m.user_id <= i64::MAX
}

/// Whether the identifiers of all can be stored.
pub open spec fn all_bindable(all: Seq<Friend>) -> bool {
    forall|i: int| 0 <= i < all.len() ==> bindable((#[trigger] all[i])@)
}

/// The columns that may change when the row is there already.
pub open spec fn friend_updated() -> Seq<Seq<char>> {
    seq![
        "tags"@,
        "is_pinned"@,
        "updated_at"@,
    ]
}

/// The statement of [`FriendDao::list`].
pub open spec fn list_statement(limit: u32, offset: u32) -> StatementModel {
    StatementModel {
        sql:
            "SELECT user_id, tags, is_pinned, created_at, updated_at FROM friend ORDER BY updated_at DESC LIMIT ?1 OFFSET ?2"@,
        params: seq![
            SqlModel::Integer(limit as i64),
            SqlModel::Integer(offset as i64),
        ],
    }
}

/// The statement of [`FriendDao::count`].
pub open spec fn count_statement() -> StatementModel {
    StatementModel { sql: "SELECT COUNT(*) FROM friend"@, params: Seq::empty() }
}

/// The statement of [`FriendDao::delete_by_user_id`].
pub open spec fn delete_by_user_id_statement(user_id: u64) -> StatementModel {
    StatementModel {
        sql:
            "DELETE FROM friend WHERE user_id = ?1"@,
        params: seq![
            sql::id_model(user_id),
        ],
    }
}

/// The statements on the friend table.
pub struct FriendDao;

impl FriendDao {
    /// Stores a friendship, or replaces what is stored of it but for its beginning.
    pub fn upsert(m: &Friend) -> (r: Result<Statement, PrivchatSDKError>)
        ensures
            match r {
                Ok(s) => bindable(m@) && s@ == sql::upsertion(
                    "friend"@,
                    friend_bindings(m@),
                    "user_id"@,
                    friend_updated(),
                ),
                Err(e) => !bindable(m@) && e@ == sql::out_of_range(),
            },
    {
        if !fits_i64(m.user_id) {
            return Err(out_of_range_error());
        }
        let bindings: Vec<Binding> = vec![
            bind("user_id", id(m.user_id)),
            bind("tags", opt_words(&m.tags)),
            bind("is_pinned", flag(m.is_pinned)),
            bind("created_at", SqlValue::Integer(m.created_at)),
            bind("updated_at", SqlValue::Integer(m.updated_at)),
        ];
        let updated: Vec<&str> = vec![
            "tags",
            "is_pinned",
            "updated_at",
        ];
        proof {
            assert(sql::bindings_of(bindings@) =~= friend_bindings(m@));
            assert(sql::texts_of(updated@) =~= friend_updated());
        }
        Ok(sql::upsert("friend", bindings, "user_id", &updated))
    }

    /// Stores friendships, one statement each, to be run in one transaction.
    pub fn upsert_many(members: &Vec<Friend>) -> (r: Result<Vec<Statement>, PrivchatSDKError>)
        ensures
            match r {
                Ok(s) => all_bindable(members@) && s@.len() == members@.len() && forall|i: int|
                    0 <= i < members@.len() ==> (#[trigger] s@[i])@ == sql::upsertion(
                        "friend"@,
                        friend_bindings(members@[i]@),
                        "user_id"@,
                        friend_updated(),
                    ),
                Err(e) => !all_bindable(members@) && e@ == sql::out_of_range(),
            },
    {
        let mut out: Vec<Statement> = Vec::new();
        let length: usize = members.len();
        let mut i: usize = 0;
        while i < length
            invariant
                i <= length == members@.len(),
                out@.len() == i,
                forall|j: int| 0 <= j < i ==> bindable((#[trigger] members@[j])@),
                forall|j: int|
                    0 <= j < i ==> (#[trigger] out@[j])@ == sql::upsertion(
                        "friend"@,
                        friend_bindings(members@[j]@),
                        "user_id"@,
                        friend_updated(),
                    ),
            decreases length - i,
        {
            match FriendDao::upsert(&members[i]) {
                Ok(s) => {
                    out.push(s);
                },
                Err(e) => {
                    assert(!bindable(members@[i as int]@));
                    return Err(e);
                },
            }
            i = i + 1;
        }
        Ok(out)
    }

    /// Reads a page of the friendships, the last changed first.
    pub fn list(limit: u32, offset: u32) -> (r: Statement)
        ensures
            r@ == list_statement(limit, offset),
    {
        let s = with_params(
            "SELECT user_id, tags, is_pinned, created_at, updated_at FROM friend ORDER BY updated_at DESC LIMIT ?1 OFFSET ?2",
            vec![
                SqlValue::Integer(limit as i64),
                SqlValue::Integer(offset as i64),
            ],
        );
        assert(s@.params =~= list_statement(limit, offset).params);
        s
    }

    /// Counts the friendships.
    pub fn count() -> (r: Statement)
        ensures
            r@ == count_statement(),
    {
        let s = plain("SELECT COUNT(*) FROM friend");
        s
    }

    /// Removes a friendship.
    pub fn delete_by_user_id(user_id: u64) -> (r: Result<Statement, PrivchatSDKError>)
        ensures
            match r {
                Ok(s) => user_id <= i64::MAX && s@ == delete_by_user_id_statement(user_id),
                Err(e) => !(user_id <= i64::MAX) && e@ == sql::out_of_range(),
            },
    {
        if !fits_i64(user_id) {
            return Err(out_of_range_error());
        }
        let s = with_params(
            "DELETE FROM friend WHERE user_id = ?1",
            vec![
                id(user_id),
            ],
        );
        assert(s@.params =~= delete_by_user_id_statement(user_id).params);
        Ok(s)
    }
}

impl FromRow for Friend {
    open spec fn shape() -> Seq<(Seq<char>, ColumnKind)> {
        friend_shape()
    }

    open spec fn held_by(row: RowModel) -> FriendModel {
        friend_in(row)
    }

    fn from_row(row: &Row) -> (r: Result<Self, RowError>) {
        let expected: Vec<Expected> = vec![
            expect("user_id", ColumnKind::Id),
            expect("tags", ColumnKind::MaybeText),
            expect("is_pinned", ColumnKind::Int32),
            expect("created_at", ColumnKind::Int64),
            expect("updated_at", ColumnKind::Int64),
        ];
        assert(sql::shape_of(expected@) =~= friend_shape());
        match row.check(&expected) {
            Ok(_) => {
                let m = Friend {
                    user_id: row.id_at("user_id"),
                    tags: row.opt_text("tags"),
                    is_pinned: row.i32_or("is_pinned", 0) != 0,
                    created_at: row.i64_at("created_at"),
                    updated_at: row.i64_at("updated_at"),
                };
                Ok(m)
            },
            Err(e) => Err(e),
        }
    }
}

/// A row that holds what storing a friendship bound holds the friendship.
pub proof fn law_a_stored_friend_reads_back(m: FriendModel, row: RowModel)
    requires
        bindable(m),
        row.holds(friend_bindings(m)),
    ensures
        row.first_fault(friend_shape()) is None,
        friend_in(row) == m,
{
    let b = friend_bindings(m);
    assert(b[0] == ("user_id"@, sql::id_model(m.user_id)));
    assert(b[1] == ("tags"@, sql::opt_text_model(m.tags)));
    assert(b[2] == ("is_pinned"@, sql::flag_model(m.is_pinned)));
    assert(b[3] == ("created_at"@, SqlModel::Integer(m.created_at)));
    assert(b[4] == ("updated_at"@, SqlModel::Integer(m.updated_at)));
    sql::law_identifier_round_trip(m.user_id);
    let shape = friend_shape();
    assert(shape[0] == ("user_id"@, ColumnKind::Id));
    assert(shape[1] == ("tags"@, ColumnKind::MaybeText));
    assert(shape[2] == ("is_pinned"@, ColumnKind::Int32));
    assert(shape[3] == ("created_at"@, ColumnKind::Int64));
    assert(shape[4] == ("updated_at"@, ColumnKind::Int64));
    sql::lemma_shape_met(row, shape);
}

// What the statements do.

/// The friend who is removed is the one user.
pub proof fn law_one_friend_is_removed(user_id: u64, row: RowModel, user: u64)
    requires
        row.get("user_id"@) == Some(sql::id_model(user)),
    ensures
        ({
            let s = delete_by_user_id_statement(user_id);
            let tests = seq![sql::against("user_id"@, Comparison::Equal, 1)];
            &&& sql::is_removal(s, "friend"@, tests)
            &&& sql::meets_all(row, tests, s.params) <==> user == user_id
        }),
{
    let s = delete_by_user_id_statement(user_id);
    let tests = seq![sql::against("user_id"@, Comparison::Equal, 1)];
    sql::lemma_tests_one(sql::against("user_id"@, Comparison::Equal, 1), row, s.params);
    sql::lemma_stored_ids(user, user_id);
    assert(s.sql =~= "DELETE FROM "@ + "friend"@ + " WHERE "@ + sql::where_words(tests)) by {
        reveal_strlit("DELETE FROM friend WHERE user_id = ?1");
        reveal_strlit("DELETE FROM ");
        reveal_strlit("friend");
        reveal_strlit(" WHERE ");
        reveal_strlit("user_id");
        reveal_strlit(" ");
        reveal_strlit("=");
        reveal_strlit("?");
    }
}

/// A stored friend has each of its parts in the column of that name.
pub proof fn law_each_part_of_a_friend_has_its_column(m: FriendModel, row: RowModel)
    requires
        row.holds(friend_bindings(m)),
    ensures
        row.get("user_id"@) == Some(sql::id_model(m.user_id)),
        row.get("tags"@) == Some(sql::opt_text_model(m.tags)),
        row.get("is_pinned"@) == Some(sql::flag_model(m.is_pinned)),
        row.get("created_at"@) == Some(SqlModel::Integer(m.created_at)),
        row.get("updated_at"@) == Some(SqlModel::Integer(m.updated_at)),
{
    let b = friend_bindings(m);
    assert(b[0].0 == "user_id"@);
    assert(b[1].0 == "tags"@);
    assert(b[2].0 == "is_pinned"@);
    assert(b[3].0 == "created_at"@);
    assert(b[4].0 == "updated_at"@);
}

/// Where a friend is stored already, all its columns are written anew but for `user_id` and
/// `created_at`.
pub proof fn law_a_known_friend_is_written_anew(m: FriendModel)
    ensures
        sql::columns_of(friend_bindings(m)) == seq!["user_id"@]
            + friend_updated().subrange(0, 2)
            + seq!["created_at"@]
            + friend_updated().subrange(2, 3),
        friend_updated().len() == 3,
{
    let b = friend_bindings(m);
    assert(b[0].0 == "user_id"@);
    assert(b[1].0 == "tags"@);
    assert(b[2].0 == "is_pinned"@);
    assert(b[3].0 == "created_at"@);
    assert(b[4].0 == "updated_at"@);
    assert(sql::columns_of(b) =~= seq!["user_id"@] + friend_updated().subrange(0, 2) + seq!["created_at"@] + friend_updated().subrange(2, 3));
}

/// Friends are listed by pages, those that changed last first, and all are counted.
pub proof fn law_friends_are_listed_by_pages(limit: u32, offset: u32)
    ensures
        list_statement(limit, offset).params == seq![
            SqlModel::Integer(limit as i64),
            SqlModel::Integer(offset as i64),
        ],
        list_statement(limit, offset).sql
            == "SELECT user_id, tags, is_pinned, created_at, updated_at FROM friend"@
            + " ORDER BY updated_at DESC LIMIT ?1 OFFSET ?2"@,
        count_statement().sql == "SELECT COUNT(*) FROM friend"@ && count_statement().params.len() == 0,
{
    reveal_strlit(
        "SELECT user_id, tags, is_pinned, created_at, updated_at FROM friend ORDER BY updated_at DESC LIMIT ?1 OFFSET ?2",
    );
    reveal_strlit("SELECT user_id, tags, is_pinned, created_at, updated_at FROM friend");
    reveal_strlit(" ORDER BY updated_at DESC LIMIT ?1 OFFSET ?2");
}

/// A friend can be stored just where the database can number all that it names.
pub proof fn law_a_friend_with_small_numbers_is_stored(m: FriendModel)
    ensures
        bindable(m) <==> m.user_id <= i64::MAX,
{
}

/// Several are stored together just where each of them can be.
pub proof fn law_all_or_none_are_stored(all: Seq<Friend>, one: Friend)
    ensures
        all_bindable(Seq::empty()),
        all_bindable(all.push(one)) <==> all_bindable(all) && bindable(one@),
{
    let more = all.push(one);
    assert(more[all.len() as int] == one);
    if all_bindable(more) {
        assert forall|i: int| 0 <= i < all.len() implies bindable((#[trigger] all[i])@) by {
            assert(more[i] == all[i]);
        }
    }
}

} // verus!
