//! The statements on the user table, and the users that its rows hold.

use vstd::prelude::*;
use crate::error::PrivchatSDKError;
use crate::storage::entities::{User, UserModel};
use crate::storage::sql;
use crate::storage::sql::{
    bind, expect, fits_i64, flag, id, opt_words, out_of_range_error, parameters, with_params, words,
    Binding, ColumnKind, Comparison, Expected, FromRow, Row, RowError, RowModel, SqlModel, SqlValue, Statement,
    StatementModel,
};

verus! {

/// The columns of a user and what goes into them.
pub open spec fn user_bindings(m: UserModel) -> Seq<(Seq<char>, SqlModel)> {
    seq![
        ("user_id"@, sql::id_model(m.user_id)),
        ("username"@, sql::opt_text_model(m.username)),
        ("nickname"@, sql::opt_text_model(m.nickname)),
        ("alias"@, sql::opt_text_model(m.alias)),
        ("avatar"@, SqlModel::Text(m.avatar)),
        ("user_type"@, SqlModel::Integer(m.user_type as i64)),
        ("is_deleted"@, sql::flag_model(m.is_deleted)),
        ("channel_id"@, SqlModel::Text(m.channel_id)),
        ("updated_at"@, SqlModel::Integer(m.updated_at)),
    ]
}

/// The columns that a user is read from, in the order in which they are read.
pub open spec fn user_shape() -> Seq<(Seq<char>, ColumnKind)> {
    seq![
        ("user_id"@, ColumnKind::Id),
        ("username"@, ColumnKind::MaybeText),
        ("nickname"@, ColumnKind::MaybeText),
        ("alias"@, ColumnKind::MaybeText),
        ("avatar"@, ColumnKind::MaybeText),
        ("user_type"@, ColumnKind::Int32),
        ("is_deleted"@, ColumnKind::Int32),
        ("channel_id"@, ColumnKind::MaybeText),
        ("updated_at"@, ColumnKind::Int64),
    ]
}

/// The user that a row holds.
pub open spec fn user_in(row: RowModel) -> UserModel {
    UserModel {
        user_id: row.id_at("user_id"@),
        username: row.opt_text("username"@),
        nickname: row.opt_text("nickname"@),
        alias: row.opt_text("alias"@),
        avatar: row.text_at("avatar"@),
        user_type: row.i32_or("user_type"@, 0),
        is_deleted: row.i32_or("is_deleted"@, 0) != 0,
        channel_id: row.text_at("channel_id"@),
        updated_at: row.i64_at("updated_at"@),
    }
}

/// Whether the identifiers can be stored.
pub open spec fn bindable(m: UserModel) -> bool {
    &&& m.user_id <= i64::MAX
}

/// The columns that may change when the row is there already.
pub open spec fn user_updated() -> Seq<Seq<char>> {
    seq![
        "username"@,
        "nickname"@,
        "alias"@,
        "avatar"@,
        "user_type"@,
        "is_deleted"@,
        "channel_id"@,
        "updated_at"@,
    ]
}

/// The statement that reads some users.
pub open spec fn users_statement(ids: Seq<u64>) -> StatementModel {
    StatementModel {
        sql: "SELECT user_id, username, nickname, alias, avatar, user_type, is_deleted, channel_id, updated_at FROM \"user\" WHERE user_id IN ("@ + sql::parameter_list(ids.len()) + ")"@,
        params: Seq::new(ids.len(), |i: int| sql::id_model(ids[i])),
    }
}

/// The statement of [`UserDao::get_by_id`].
pub open spec fn get_by_id_statement(user_id: u64) -> StatementModel {
    StatementModel {
        sql:
            "SELECT user_id, username, nickname, alias, avatar, user_type, is_deleted, channel_id, updated_at FROM \"user\" WHERE user_id = ?1"@,
        params: seq![
            sql::id_model(user_id),
        ],
    }
}

/// The statement of [`UserDao::update_channel_id`].
pub open spec fn update_channel_id_statement(
    user_id: u64,
    channel_id: Seq<char>,
    now: i64,
) -> StatementModel {
    StatementModel {
        sql:
            "UPDATE \"user\" SET channel_id = ?1, updated_at = ?2 WHERE user_id = ?3"@,
        params: seq![
            SqlModel::Text(channel_id),
            SqlModel::Integer(now),
            sql::id_model(user_id),
        ],
    }
}

/// The statements on the user table.
pub struct UserDao;

impl UserDao {
    /// Stores a user, or replaces what is stored of them.
    pub fn upsert(m: &User) -> (r: Result<Statement, PrivchatSDKError>)
        ensures
            match r {
                Ok(s) => bindable(m@) && s@ == sql::upsertion(
                    "\"user\""@,
                    user_bindings(m@),
                    "user_id"@,
                    user_updated(),
                ),
                Err(e) => !bindable(m@) && e@ == sql::out_of_range(),
            },
    {
        if !fits_i64(m.user_id) {
            return Err(out_of_range_error());
        }
        let bindings: Vec<Binding> = vec![
            bind("user_id", id(m.user_id)),
            bind("username", opt_words(&m.username)),
            bind("nickname", opt_words(&m.nickname)),
            bind("alias", opt_words(&m.alias)),
            bind("avatar", words(m.avatar.as_str())),
            bind("user_type", SqlValue::Integer(m.user_type as i64)),
            bind("is_deleted", flag(m.is_deleted)),
            bind("channel_id", words(m.channel_id.as_str())),
            bind("updated_at", SqlValue::Integer(m.updated_at)),
        ];
        let updated: Vec<&str> = vec![
            "username",
            "nickname",
            "alias",
            "avatar",
            "user_type",
            "is_deleted",
            "channel_id",
            "updated_at",
        ];
        proof {
            assert(sql::bindings_of(bindings@) =~= user_bindings(m@));
            assert(sql::texts_of(updated@) =~= user_updated());
        }
        Ok(sql::upsert("\"user\"", bindings, "user_id", &updated))
    }

    /// Reads a user.
    pub fn get_by_id(user_id: u64) -> (r: Result<Statement, PrivchatSDKError>)
        ensures
            match r {
                Ok(s) => user_id <= i64::MAX && s@ == get_by_id_statement(user_id),
                Err(e) => !(user_id <= i64::MAX) && e@ == sql::out_of_range(),
            },
    {
        if !fits_i64(user_id) {
            return Err(out_of_range_error());
        }
        let s = with_params(
            "SELECT user_id, username, nickname, alias, avatar, user_type, is_deleted, channel_id, updated_at FROM \"user\" WHERE user_id = ?1",
            vec![
                id(user_id),
            ],
        );
        assert(s@.params =~= get_by_id_statement(user_id).params);
        Ok(s)
    }

    /// Reads some users; there is nothing to ask where no user is wanted.
    pub fn get_by_ids(ids: &Vec<u64>) -> (r: Option<Statement>)
        ensures
            r is None <==> ids@.len() == 0,
            r is Some ==> r->0@ == users_statement(ids@),
    {
        let length: usize = ids.len();
        if length == 0 {
            return None;
        }
        let mut text = "SELECT user_id, username, nickname, alias, avatar, user_type, is_deleted, channel_id, updated_at FROM \"user\" WHERE user_id IN (".to_owned();
        text.append(parameters(length).as_str());
        text.append(")");
        let mut params: Vec<SqlValue> = Vec::new();
        let mut i: usize = 0;
        while i < length
            invariant
                i <= length == ids@.len(),
                params@.len() == i,
                forall|j: int| 0 <= j < i ==> (#[trigger] params@[j])@ == sql::id_model(ids@[j]),
            decreases length - i,
        {
            params.push(id(ids[i]));
            i = i + 1;
        }
        let s = Statement { sql: text, params };
        assert(s@.params =~= users_statement(ids@).params);
        Some(s)
    }

    /// Sets the channel of a user.
    pub fn update_channel_id(
        user_id: u64,
        channel_id: &str,
        now: i64,
    ) -> (r: Result<Statement, PrivchatSDKError>)
        ensures
            match r {
                Ok(s) => {
                    &&& user_id <= i64::MAX
                    &&& s@ == update_channel_id_statement(user_id, channel_id@, now)
                },
                Err(e) => !(user_id <= i64::MAX) && e@ == sql::out_of_range(),
            },
    {
        if !fits_i64(user_id) {
            return Err(out_of_range_error());
        }
        let s = with_params(
            "UPDATE \"user\" SET channel_id = ?1, updated_at = ?2 WHERE user_id = ?3",
            vec![
                words(channel_id),
                SqlValue::Integer(now),
                id(user_id),
            ],
        );
        assert(s@.params =~= update_channel_id_statement(user_id, channel_id@, now).params);
        Ok(s)
    }
}

impl FromRow for User {
    open spec fn shape() -> Seq<(Seq<char>, ColumnKind)> {
        user_shape()
    }

    open spec fn held_by(row: RowModel) -> UserModel {
        user_in(row)
    }

    fn from_row(row: &Row) -> (r: Result<Self, RowError>) {
        let expected: Vec<Expected> = vec![
            expect("user_id", ColumnKind::Id),
            expect("username", ColumnKind::MaybeText),
            expect("nickname", ColumnKind::MaybeText),
            expect("alias", ColumnKind::MaybeText),
            expect("avatar", ColumnKind::MaybeText),
            expect("user_type", ColumnKind::Int32),
            expect("is_deleted", ColumnKind::Int32),
            expect("channel_id", ColumnKind::MaybeText),
            expect("updated_at", ColumnKind::Int64),
        ];
        assert(sql::shape_of(expected@) =~= user_shape());
        match row.check(&expected) {
            Ok(_) => {
                let m = User {
                    user_id: row.id_at("user_id"),
                    username: row.opt_text("username"),
                    nickname: row.opt_text("nickname"),
                    alias: row.opt_text("alias"),
                    avatar: row.text_at("avatar"),
                    user_type: row.i32_or("user_type", 0),
                    is_deleted: row.i32_or("is_deleted", 0) != 0,
                    channel_id: row.text_at("channel_id"),
                    updated_at: row.i64_at("updated_at"),
                };
                Ok(m)
            },
            Err(e) => Err(e),
        }
    }
}

/// A row that holds what storing a user bound holds the user.
pub proof fn law_a_stored_user_reads_back(m: UserModel, row: RowModel)
    requires
        bindable(m),
        row.holds(user_bindings(m)),
    ensures
        row.first_fault(user_shape()) is None,
        user_in(row) == m,
{
    let b = user_bindings(m);
    assert(b[0] == ("user_id"@, sql::id_model(m.user_id)));
    assert(b[1] == ("username"@, sql::opt_text_model(m.username)));
    assert(b[2] == ("nickname"@, sql::opt_text_model(m.nickname)));
    assert(b[3] == ("alias"@, sql::opt_text_model(m.alias)));
    assert(b[4] == ("avatar"@, SqlModel::Text(m.avatar)));
    assert(b[5] == ("user_type"@, SqlModel::Integer(m.user_type as i64)));
    assert(b[6] == ("is_deleted"@, sql::flag_model(m.is_deleted)));
    assert(b[7] == ("channel_id"@, SqlModel::Text(m.channel_id)));
    assert(b[8] == ("updated_at"@, SqlModel::Integer(m.updated_at)));
    sql::law_identifier_round_trip(m.user_id);
    let shape = user_shape();
    assert(shape[0] == ("user_id"@, ColumnKind::Id));
    assert(shape[1] == ("username"@, ColumnKind::MaybeText));
    assert(shape[2] == ("nickname"@, ColumnKind::MaybeText));
    assert(shape[3] == ("alias"@, ColumnKind::MaybeText));
    assert(shape[4] == ("avatar"@, ColumnKind::MaybeText));
    assert(shape[5] == ("user_type"@, ColumnKind::Int32));
    assert(shape[6] == ("is_deleted"@, ColumnKind::Int32));
    assert(shape[7] == ("channel_id"@, ColumnKind::MaybeText));
    assert(shape[8] == ("updated_at"@, ColumnKind::Int64));
    sql::lemma_shape_met(row, shape);
}

// What the statements do.

/// A user is found by their id.
pub proof fn law_a_user_is_found_by_id(user_id: u64, row: RowModel, user: u64)
    requires
        row.get("user_id"@) == Some(sql::id_model(user)),
    ensures
        ({
            let s = get_by_id_statement(user_id);
            let tests = seq![sql::against("user_id"@, Comparison::Equal, 1)];
            &&& sql::is_selection(
                s,
                "user_id, username, nickname, alias, avatar, user_type, is_deleted, channel_id, updated_at"@,
                "\"user\""@,
                tests,
                ""@,
            )
            &&& sql::meets_all(row, tests, s.params) <==> user == user_id
        }),
{
    let s = get_by_id_statement(user_id);
    let tests = seq![sql::against("user_id"@, Comparison::Equal, 1)];
    sql::lemma_tests_one(sql::against("user_id"@, Comparison::Equal, 1), row, s.params);
    sql::lemma_stored_ids(user, user_id);
    assert(s.sql =~= "SELECT "@ + "user_id, username, nickname, alias, avatar, user_type, is_deleted, channel_id, updated_at"@ + " FROM "@ + "\"user\""@ + " WHERE "@ + sql::where_words(tests) + ""@) by {
        reveal_strlit("SELECT user_id, username, nickname, alias, avatar, user_type, is_deleted, channel_id, updated_at FROM \"user\" WHERE user_id = ?1");
        reveal_strlit("SELECT ");
        reveal_strlit("user_id, username, nickname, alias, avatar, user_type, is_deleted, channel_id, updated_at");
        reveal_strlit(" FROM ");
        reveal_strlit("\"user\"");
        reveal_strlit(" WHERE ");
        reveal_strlit("user_id");
        reveal_strlit(" ");
        reveal_strlit("=");
        reveal_strlit("?");
        reveal_strlit("");
    }
}

/// The conversation with a user is noted for the one user, with the time of change.
pub proof fn law_the_channel_of_one_user_is_set(
    user_id: u64,
    channel_id: Seq<char>,
    now: i64,
    row: RowModel,
    user: u64,
)
    requires
        row.get("user_id"@) == Some(sql::id_model(user)),
    ensures
        ({
            let s = update_channel_id_statement(user_id, channel_id, now);
            let sets = seq![sql::bound("channel_id"@, 1), sql::bound("updated_at"@, 2)];
            let tests = seq![sql::against("user_id"@, Comparison::Equal, 3)];
            &&& sql::is_update(s, "\"user\""@, sets, tests)
            &&& sql::given_values(sets, s.params) == seq![
                ("channel_id"@, Some(SqlModel::Text(channel_id))),
                ("updated_at"@, Some(SqlModel::Integer(now))),
            ]
            &&& sql::meets_all(row, tests, s.params) <==> user == user_id
        }),
{
    let s = update_channel_id_statement(user_id, channel_id, now);
    let sets = seq![sql::bound("channel_id"@, 1), sql::bound("updated_at"@, 2)];
    let tests = seq![sql::against("user_id"@, Comparison::Equal, 3)];
    sql::lemma_tests_one(sql::against("user_id"@, Comparison::Equal, 3), row, s.params);
    sql::lemma_sets_two(sql::bound("channel_id"@, 1), sql::bound("updated_at"@, 2), s.params);
    sql::lemma_stored_ids(user, user_id);
    assert(s.sql =~= "UPDATE "@ + "\"user\""@ + " SET "@ + sql::set_words(sets) + " WHERE "@ + sql::where_words(tests)) by {
        reveal_strlit("UPDATE \"user\" SET channel_id = ?1, updated_at = ?2 WHERE user_id = ?3");
        reveal_strlit("UPDATE ");
        reveal_strlit("\"user\"");
        reveal_strlit(" SET ");
        reveal_strlit(" = ");
        reveal_strlit(" WHERE ");
        reveal_strlit("channel_id");
        reveal_strlit("?");
        reveal_strlit("updated_at");
        reveal_strlit(", ");
        reveal_strlit("user_id");
        reveal_strlit(" ");
        reveal_strlit("=");
    }
}

/// A stored user has each of its parts in the column of that name.
pub proof fn law_each_part_of_a_user_has_its_column(m: UserModel, row: RowModel)
    requires
        row.holds(user_bindings(m)),
    ensures
        row.get("user_id"@) == Some(sql::id_model(m.user_id)),
        row.get("username"@) == Some(sql::opt_text_model(m.username)),
        row.get("nickname"@) == Some(sql::opt_text_model(m.nickname)),
        row.get("alias"@) == Some(sql::opt_text_model(m.alias)),
        row.get("avatar"@) == Some(SqlModel::Text(m.avatar)),
        row.get("user_type"@) == Some(SqlModel::Integer(m.user_type as i64)),
        row.get("is_deleted"@) == Some(sql::flag_model(m.is_deleted)),
        row.get("channel_id"@) == Some(SqlModel::Text(m.channel_id)),
        row.get("updated_at"@) == Some(SqlModel::Integer(m.updated_at)),
{
    let b = user_bindings(m);
    assert(b[0].0 == "user_id"@);
    assert(b[1].0 == "username"@);
    assert(b[2].0 == "nickname"@);
    assert(b[3].0 == "alias"@);
    assert(b[4].0 == "avatar"@);
    assert(b[5].0 == "user_type"@);
    assert(b[6].0 == "is_deleted"@);
    assert(b[7].0 == "channel_id"@);
    assert(b[8].0 == "updated_at"@);
}

/// Where a user is stored already, all its columns are written anew but for `user_id`.
pub proof fn law_a_known_user_is_written_anew(m: UserModel)
    ensures
        sql::columns_of(user_bindings(m)) == seq!["user_id"@]
            + user_updated().subrange(0, 8),
        user_updated().len() == 8,
{
    let b = user_bindings(m);
    assert(b[0].0 == "user_id"@);
    assert(b[1].0 == "username"@);
    assert(b[2].0 == "nickname"@);
    assert(b[3].0 == "alias"@);
    assert(b[4].0 == "avatar"@);
    assert(b[5].0 == "user_type"@);
    assert(b[6].0 == "is_deleted"@);
    assert(b[7].0 == "channel_id"@);
    assert(b[8].0 == "updated_at"@);
    assert(sql::columns_of(b) =~= seq!["user_id"@] + user_updated().subrange(0, 8));
}

/// The users that are read at once are those of the ids, one parameter for each, in order.
pub proof fn law_users_are_read_by_their_ids(ids: Seq<u64>, i: int)
    requires
        0 <= i < ids.len(),
    ensures
        users_statement(ids).params.len() == ids.len(),
        users_statement(ids).params[i] == sql::id_model(ids[i]),
        users_statement(ids).sql
            == "SELECT user_id, username, nickname, alias, avatar, user_type, is_deleted, channel_id, updated_at FROM \"user\" WHERE user_id IN ("@
            + sql::parameter_list(ids.len()) + ")"@,
{
}

/// A user can be stored just where the database can number all that it names.
pub proof fn law_a_user_with_small_numbers_is_stored(m: UserModel)
    ensures
        bindable(m) <==> m.user_id <= i64::MAX,
{
}

} // verus!
