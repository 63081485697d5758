//! The statements on the mention table, and what its rows hold.

use vstd::prelude::*;
use crate::error::{ErrorModel, PrivchatSDKError};
use crate::storage::sql;
use crate::storage::sql::{
    expect, fits_i64, flag, id, out_of_range_error, plain, with_params, ColumnKind, Comparison,
    Expected, FromRow, Row, RowError, RowFault, RowModel, SqlModel, SqlValue, Statement,
    StatementModel,
};
use crate::text;
use crate::text::i64_text;

verus! {

/// A mention of a user in a message.
#[derive(Debug)]
pub struct Mention {
    pub id: i64,
    pub message_id: String,
    pub channel_id: String,
    pub channel_type: i32,
    /// The user who is mentioned.
    pub mentioned_user_id: String,
    pub sender_id: String,
    /// Whether all members of the channel are mentioned.
    pub is_mention_all: bool,
    /// Seconds since the Unix epoch.
    pub created_at: i64,
    pub is_read: bool,
}

/// How many unread mentions a channel has.
#[derive(Debug)]
pub struct MentionCount {
    pub channel_id: String,
    pub channel_type: i32,
    pub unread_count: i32,
}

impl View for MentionCount {
    type V = (Seq<char>, i32, i32);

    open spec fn view(&self) -> (Seq<char>, i32, i32) {
        (self.channel_id@, self.channel_type, self.unread_count)
    }
}

impl FromRow for MentionCount {
    open spec fn shape() -> Seq<(Seq<char>, ColumnKind)> {
        seq![
            ("channel_id"@, ColumnKind::IdText),
            ("channel_type"@, ColumnKind::Int32),
            ("unread_count"@, ColumnKind::Int32),
        ]
    }

    open spec fn held_by(row: RowModel) -> (Seq<char>, i32, i32) {
        (
            row.id_text_at("channel_id"@),
            row.i32_or("channel_type"@, 0),
            row.i32_or("unread_count"@, 0),
        )
    }

    fn from_row(row: &Row) -> (r: Result<Self, RowError>) {
        let expected: Vec<Expected> = vec![
            expect("channel_id", ColumnKind::IdText),
            expect("channel_type", ColumnKind::Int32),
            expect("unread_count", ColumnKind::Int32),
        ];
        assert(sql::shape_of(expected@) =~= Self::shape());
        match row.check(&expected) {
            Ok(_) => Ok(
                MentionCount {
                    channel_id: row.id_text_at("channel_id"),
                    channel_type: row.i32_or("channel_type", 0),
                    unread_count: row.i32_or("unread_count", 0),
                },
            ),
            Err(e) => Err(e),
        }
    }
}

/// A message that mentions a user.
#[derive(Debug)]
pub struct MentioningMessage {
    pub message_id: String,
}

impl View for MentioningMessage {
    type V = Seq<char>;

    open spec fn view(&self) -> Seq<char> {
        self.message_id@
    }
}

impl FromRow for MentioningMessage {
    open spec fn shape() -> Seq<(Seq<char>, ColumnKind)> {
        seq![("message_id"@, ColumnKind::IdText)]
    }

    open spec fn held_by(row: RowModel) -> Seq<char> {
        row.id_text_at("message_id"@)
    }

    fn from_row(row: &Row) -> (r: Result<Self, RowError>) {
        let expected: Vec<Expected> = vec![expect("message_id", ColumnKind::IdText)];
        assert(sql::shape_of(expected@) =~= Self::shape());
        match row.check(&expected) {
            Ok(_) => Ok(MentioningMessage { message_id: row.id_text_at("message_id") }),
            Err(e) => Err(e),
        }
    }
}

/// How many mentions a page holds: all where no limit is given.
pub open spec fn limit_clause(limit: Option<i32>) -> Seq<char> {
    match limit {
        Some(n) => "LIMIT "@ + text::signed_decimal(n as int),
        None => Seq::empty(),
    }
}

/// The statement of [`MentionDao::record_mention`].
pub open spec fn record_mention_statement(
    message_id: u64,
    channel_id: u64,
    channel_type: i32,
    mentioned_user_id: u64,
    sender_id: u64,
    is_mention_all: bool,
    created_at: i64,
) -> StatementModel {
    StatementModel {
        sql:
            "INSERT OR IGNORE INTO mention (message_id, channel_id, channel_type, mentioned_user_id, sender_id, is_mention_all, created_at, is_read) VALUES (?1, ?2, ?3, ?4, ?5, ?6, ?7, 0)"@,
        params: seq![
            sql::id_model(message_id),
            sql::id_model(channel_id),
            SqlModel::Integer(channel_type as i64),
            sql::id_model(mentioned_user_id),
            sql::id_model(sender_id),
            sql::flag_model(is_mention_all),
            SqlModel::Integer(created_at),
        ],
    }
}

/// The statement of [`MentionDao::get_unread_mention_count`].
pub open spec fn get_unread_mention_count_statement(
    channel_id: u64,
    channel_type: i32,
    user_id: u64,
) -> StatementModel {
    StatementModel {
        sql:
            "SELECT COUNT(*) FROM mention WHERE channel_id = ?1 AND channel_type = ?2 AND mentioned_user_id = ?3 AND is_read = 0"@,
        params: seq![
            sql::id_model(channel_id),
            SqlModel::Integer(channel_type as i64),
            sql::id_model(user_id),
        ],
    }
}

/// The statement of [`MentionDao::mark_mention_as_read`].
pub open spec fn mark_mention_as_read_statement(message_id: u64, user_id: u64) -> StatementModel {
    StatementModel {
        sql:
            "UPDATE mention SET is_read = 1 WHERE message_id = ?1 AND mentioned_user_id = ?2"@,
        params: seq![
            sql::id_model(message_id),
            sql::id_model(user_id),
        ],
    }
}

/// The statement of [`MentionDao::mark_all_mentions_as_read`].
pub open spec fn mark_all_mentions_as_read_statement(
    channel_id: u64,
    channel_type: i32,
    user_id: u64,
) -> StatementModel {
    StatementModel {
        sql:
            "UPDATE mention SET is_read = 1 WHERE channel_id = ?1 AND channel_type = ?2 AND mentioned_user_id = ?3 AND is_read = 0"@,
        params: seq![
            sql::id_model(channel_id),
            SqlModel::Integer(channel_type as i64),
            sql::id_model(user_id),
        ],
    }
}

/// The statement of [`MentionDao::is_user_mentioned`].
pub open spec fn is_user_mentioned_statement(message_id: u64, user_id: u64) -> StatementModel {
    StatementModel {
        sql:
            "SELECT COUNT(*) FROM mention WHERE message_id = ?1 AND mentioned_user_id = ?2"@,
        params: seq![
            sql::id_model(message_id),
            sql::id_model(user_id),
        ],
    }
}

/// The statement of [`MentionDao::get_all_unread_mention_counts`].
pub open spec fn get_all_unread_mention_counts_statement(user_id: u64) -> StatementModel {
    StatementModel {
        sql:
            "SELECT channel_id, channel_type, COUNT(*) as unread_count FROM mention WHERE mentioned_user_id = ?1 AND is_read = 0 GROUP BY channel_id, channel_type"@,
        params: seq![
            sql::id_model(user_id),
        ],
    }
}

/// The statements on the mention table.
pub struct MentionDao;

impl MentionDao {
    /// Makes the table and its indexes, where they are not there.
    pub fn initialize_table() -> (r: (Statement, Statement, Statement))
        ensures
            r.0@ == (StatementModel {
                sql:
                    "CREATE TABLE IF NOT EXISTS mention (id INTEGER PRIMARY KEY AUTOINCREMENT, message_id INTEGER NOT NULL, channel_id INTEGER NOT NULL, channel_type INTEGER NOT NULL, mentioned_user_id INTEGER NOT NULL, sender_id INTEGER NOT NULL, is_mention_all INTEGER NOT NULL DEFAULT 0, created_at INTEGER NOT NULL, is_read INTEGER NOT NULL DEFAULT 0, UNIQUE(message_id, mentioned_user_id))"@,
                params: Seq::empty(),
            }),
            r.1@ == (StatementModel {
                sql:
                    "CREATE INDEX IF NOT EXISTS idx_mention_channel_user ON mention(channel_id, channel_type, mentioned_user_id, is_read)"@,
                params: Seq::empty(),
            }),
            r.2@ == (StatementModel {
                sql: "CREATE INDEX IF NOT EXISTS idx_mention_message ON mention(message_id)"@,
                params: Seq::empty(),
            }),
    {
        (
            plain(
                "CREATE TABLE IF NOT EXISTS mention (id INTEGER PRIMARY KEY AUTOINCREMENT, message_id INTEGER NOT NULL, channel_id INTEGER NOT NULL, channel_type INTEGER NOT NULL, mentioned_user_id INTEGER NOT NULL, sender_id INTEGER NOT NULL, is_mention_all INTEGER NOT NULL DEFAULT 0, created_at INTEGER NOT NULL, is_read INTEGER NOT NULL DEFAULT 0, UNIQUE(message_id, mentioned_user_id))",
            ),
            plain(
                "CREATE INDEX IF NOT EXISTS idx_mention_channel_user ON mention(channel_id, channel_type, mentioned_user_id, is_read)",
            ),
            plain("CREATE INDEX IF NOT EXISTS idx_mention_message ON mention(message_id)"),
        )
    }

    /// Records a mention, once for each message and user. `created_at` is in seconds.
    pub fn record_mention(
        message_id: u64,
        channel_id: u64,
        channel_type: i32,
        mentioned_user_id: u64,
        sender_id: u64,
        is_mention_all: bool,
        created_at: i64,
    ) -> (r: Result<Statement, PrivchatSDKError>)
        ensures
            match r {
                Ok(s) => {
                    &&& message_id <= i64::MAX
                    &&& channel_id <= i64::MAX
                    &&& mentioned_user_id <= i64::MAX
                    &&& sender_id <= i64::MAX
                    &&& s@ == record_mention_statement(
                        message_id,
                        channel_id,
                        channel_type,
                        mentioned_user_id,
                        sender_id,
                        is_mention_all,
                        created_at,
                    )
                },
                Err(e) => {
                    &&& !(
                        message_id <= i64::MAX
                            && channel_id <= i64::MAX
                            && mentioned_user_id <= i64::MAX
                            && sender_id <= i64::MAX
                    )
                    &&& e@ == sql::out_of_range()
                },
            },
    {
        if !fits_i64(message_id) || !fits_i64(channel_id) || !fits_i64(mentioned_user_id) || !fits_i64(sender_id) {
            return Err(out_of_range_error());
        }
        let s = with_params(
            "INSERT OR IGNORE INTO mention (message_id, channel_id, channel_type, mentioned_user_id, sender_id, is_mention_all, created_at, is_read) VALUES (?1, ?2, ?3, ?4, ?5, ?6, ?7, 0)",
            vec![
                id(message_id),
                id(channel_id),
                SqlValue::Integer(channel_type as i64),
                id(mentioned_user_id),
                id(sender_id),
                flag(is_mention_all),
                SqlValue::Integer(created_at),
            ],
        );
        assert(
            s@.params =~= record_mention_statement(
                message_id,
                channel_id,
                channel_type,
                mentioned_user_id,
                sender_id,
                is_mention_all,
                created_at,
            ).params
        );
        Ok(s)
    }

    /// Counts the unread mentions of a user in a channel.
    pub fn get_unread_mention_count(
        channel_id: u64,
        channel_type: i32,
        user_id: u64,
    ) -> (r: Result<Statement, PrivchatSDKError>)
        ensures
            match r {
                Ok(s) => {
                    &&& channel_id <= i64::MAX
                    &&& user_id <= i64::MAX
                    &&& s@ == get_unread_mention_count_statement(channel_id, channel_type, user_id)
                },
                Err(e) => {
                    &&& !(channel_id <= i64::MAX && user_id <= i64::MAX)
                    &&& e@ == sql::out_of_range()
                },
            },
    {
        if !fits_i64(channel_id) || !fits_i64(user_id) {
            return Err(out_of_range_error());
        }
        let s = with_params(
            "SELECT COUNT(*) FROM mention WHERE channel_id = ?1 AND channel_type = ?2 AND mentioned_user_id = ?3 AND is_read = 0",
            vec![
                id(channel_id),
                SqlValue::Integer(channel_type as i64),
                id(user_id),
            ],
        );
        assert(
            s@.params =~= get_unread_mention_count_statement(
                channel_id,
                channel_type,
                user_id,
            ).params
        );
        Ok(s)
    }

    /// Reads the messages with unread mentions of a user in a channel, the latest first.
    pub fn get_unread_mention_message_ids(
        channel_id: u64,
        channel_type: i32,
        user_id: u64,
        limit: Option<i32>,
    ) -> (r: Result<Statement, PrivchatSDKError>)
        ensures
            match r {
                Ok(s) => channel_id <= i64::MAX && user_id <= i64::MAX && s@ == (StatementModel {
                    sql:
                        "SELECT message_id FROM mention WHERE channel_id = ?1 AND channel_type = ?2 AND mentioned_user_id = ?3 AND is_read = 0 ORDER BY created_at DESC "@
                        + limit_clause(limit),
                    params: seq![
                        sql::id_model(channel_id),
                        SqlModel::Integer(channel_type as i64),
                        sql::id_model(user_id),
                    ],
                }),
                Err(e) => !(channel_id <= i64::MAX && user_id <= i64::MAX) && e@
                    == sql::out_of_range(),
            },
    {
        if !fits_i64(channel_id) || !fits_i64(user_id) {
            return Err(out_of_range_error());
        }
        let mut text =
            "SELECT message_id FROM mention WHERE channel_id = ?1 AND channel_type = ?2 AND mentioned_user_id = ?3 AND is_read = 0 ORDER BY created_at DESC ".to_owned();
        let ghost head = text@;
        match limit {
            Some(n) => {
                text.append("LIMIT ");
                text.append(i64_text(n as i64).as_str());
            },
            None => {},
        }
        assert(text@ =~= head + limit_clause(limit));
        let s = Statement {
            sql: text,
            params: vec![id(channel_id), SqlValue::Integer(channel_type as i64), id(user_id)],
        };
        assert(s@.params =~= seq![
            sql::id_model(channel_id),
            SqlModel::Integer(channel_type as i64),
            sql::id_model(user_id),
        ]);
        Ok(s)
    }

    /// The ids of the messages that the rows of [`MentionDao::get_unread_mention_message_ids`] hold, in
    /// their order.
    pub fn unread_mention_message_ids(rows: &Vec<Row>) -> (r: Result<Vec<String>, PrivchatSDKError>)
        ensures
            match r {
                Ok(ids) => {
                    &&& ids@.len() == rows@.len()
                    &&& forall|i: int|
                        0 <= i < rows@.len() ==> rows@[i]@.first_fault(
                            MentioningMessage::shape(),
                        ) is None && (#[trigger] ids@[i])@ == rows@[i]@.id_text_at("message_id"@)
                },
                Err(e) => exists|fault: (Seq<char>, RowFault)|
                    #![trigger sql::first_unreadable(rows@, MentioningMessage::shape(), fault)]
                    sql::first_unreadable(rows@, MentioningMessage::shape(), fault) && e@
                        == ErrorModel::Database(RowError::words(fault)),
            },
    {
        let mut ids: Vec<String> = Vec::new();
        let mut i: usize = 0;
        while i < rows.len()
            invariant
                i <= rows@.len(),
                ids@.len() == i,
                forall|k: int|
                    0 <= k < i ==> (#[trigger] rows@[k])@.first_fault(
                        MentioningMessage::shape(),
                    ) is None,
                forall|k: int|
                    0 <= k < i ==> (#[trigger] ids@[k])@ == rows@[k]@.id_text_at("message_id"@),
            decreases rows@.len() - i,
        {
            match MentioningMessage::from_row(&rows[i]) {
                Ok(found) => {
                    ids.push(found.message_id);
                },
                Err(e) => {
                    proof {
                        assert(sql::unreadable_at(
                            rows@,
                            MentioningMessage::shape(),
                            i as int,
                            e@,
                        ));
                        assert(sql::first_unreadable(rows@, MentioningMessage::shape(), e@));
                    }
                    return Err(PrivchatSDKError::Database(e.message()));
                },
            }
            i = i + 1;
        }
        Ok(ids)
    }

    /// Marks a mention as read.
    pub fn mark_mention_as_read(
        message_id: u64,
        user_id: u64,
    ) -> (r: Result<Statement, PrivchatSDKError>)
        ensures
            match r {
                Ok(s) => {
                    &&& message_id <= i64::MAX
                    &&& user_id <= i64::MAX
                    &&& s@ == mark_mention_as_read_statement(message_id, user_id)
                },
                Err(e) => {
                    &&& !(message_id <= i64::MAX && user_id <= i64::MAX)
                    &&& e@ == sql::out_of_range()
                },
            },
    {
        if !fits_i64(message_id) || !fits_i64(user_id) {
            return Err(out_of_range_error());
        }
        let s = with_params(
            "UPDATE mention SET is_read = 1 WHERE message_id = ?1 AND mentioned_user_id = ?2",
            vec![
                id(message_id),
                id(user_id),
            ],
        );
        assert(s@.params =~= mark_mention_as_read_statement(message_id, user_id).params);
        Ok(s)
    }

    /// Marks all mentions of a user in a channel as read.
    pub fn mark_all_mentions_as_read(
        channel_id: u64,
        channel_type: i32,
        user_id: u64,
    ) -> (r: Result<Statement, PrivchatSDKError>)
        ensures
            match r {
                Ok(s) => {
                    &&& channel_id <= i64::MAX
                    &&& user_id <= i64::MAX
                    &&& s@ == mark_all_mentions_as_read_statement(channel_id, channel_type, user_id)
                },
                Err(e) => {
                    &&& !(channel_id <= i64::MAX && user_id <= i64::MAX)
                    &&& e@ == sql::out_of_range()
                },
            },
    {
        if !fits_i64(channel_id) || !fits_i64(user_id) {
            return Err(out_of_range_error());
        }
        let s = with_params(
            "UPDATE mention SET is_read = 1 WHERE channel_id = ?1 AND channel_type = ?2 AND mentioned_user_id = ?3 AND is_read = 0",
            vec![
                id(channel_id),
                SqlValue::Integer(channel_type as i64),
                id(user_id),
            ],
        );
        assert(
            s@.params =~= mark_all_mentions_as_read_statement(
                channel_id,
                channel_type,
                user_id,
            ).params
        );
        Ok(s)
    }

    /// Counts the mentions of a user in a message.
    pub fn is_user_mentioned(
        message_id: u64,
        user_id: u64,
    ) -> (r: Result<Statement, PrivchatSDKError>)
        ensures
            match r {
                Ok(s) => {
                    &&& message_id <= i64::MAX
                    &&& user_id <= i64::MAX
                    &&& s@ == is_user_mentioned_statement(message_id, user_id)
                },
                Err(e) => {
                    &&& !(message_id <= i64::MAX && user_id <= i64::MAX)
                    &&& e@ == sql::out_of_range()
                },
            },
    {
        if !fits_i64(message_id) || !fits_i64(user_id) {
            return Err(out_of_range_error());
        }
        let s = with_params(
            "SELECT COUNT(*) FROM mention WHERE message_id = ?1 AND mentioned_user_id = ?2",
            vec![
                id(message_id),
                id(user_id),
            ],
        );
        assert(s@.params =~= is_user_mentioned_statement(message_id, user_id).params);
        Ok(s)
    }

    /// Whether a count of mentions means that the user is mentioned.
    pub fn mentioned(count: i32) -> (r: bool)
        ensures
            r == (count > 0),
    {
        count > 0
    }

    /// Counts the unread mentions of a user, channel by channel.
    pub fn get_all_unread_mention_counts(user_id: u64) -> (r: Result<Statement, PrivchatSDKError>)
        ensures
            match r {
                Ok(s) => {
                    &&& user_id <= i64::MAX
                    &&& s@ == get_all_unread_mention_counts_statement(user_id)
                },
                Err(e) => !(user_id <= i64::MAX) && e@ == sql::out_of_range(),
            },
    {
        if !fits_i64(user_id) {
            return Err(out_of_range_error());
        }
        let s = with_params(
            "SELECT channel_id, channel_type, COUNT(*) as unread_count FROM mention WHERE mentioned_user_id = ?1 AND is_read = 0 GROUP BY channel_id, channel_type",
            vec![
                id(user_id),
            ],
        );
        assert(s@.params =~= get_all_unread_mention_counts_statement(user_id).params);
        Ok(s)
    }
}

// What the statements do.

/// A mention names its message, channel, sender and the user who is meant, says whether all are, and is
/// not read yet; a mention that is there already stays.
pub proof fn law_a_mention_is_recorded_unread(
    message_id: u64,
    channel_id: u64,
    channel_type: i32,
    mentioned_user_id: u64,
    sender_id: u64,
    is_mention_all: bool,
    created_at: i64,
)
    ensures
        ({
            let s = record_mention_statement(
                message_id,
                channel_id,
                channel_type,
                mentioned_user_id,
                sender_id,
                is_mention_all,
                created_at,
            );
            let sets = seq![
                sql::bound("message_id"@, 1),
                sql::bound("channel_id"@, 2),
                sql::bound("channel_type"@, 3),
                sql::bound("mentioned_user_id"@, 4),
                sql::bound("sender_id"@, 5),
                sql::bound("is_mention_all"@, 6),
                sql::bound("created_at"@, 7),
                sql::fixed("is_read"@, 0),
            ];
            &&& sql::is_insertion(s, "INSERT OR IGNORE INTO "@, "mention"@, sets)
            &&& sql::given_values(sets, s.params) == seq![
                ("message_id"@, Some(sql::id_model(message_id))),
                ("channel_id"@, Some(sql::id_model(channel_id))),
                ("channel_type"@, Some(SqlModel::Integer(channel_type as i64))),
                ("mentioned_user_id"@, Some(sql::id_model(mentioned_user_id))),
                ("sender_id"@, Some(sql::id_model(sender_id))),
                ("is_mention_all"@, Some(SqlModel::Integer(if is_mention_all { 1 } else { 0 }))),
                ("created_at"@, Some(SqlModel::Integer(created_at))),
                ("is_read"@, Some(SqlModel::Integer(0))),
            ]
        }),
{
    let s = record_mention_statement(
        message_id,
        channel_id,
        channel_type,
        mentioned_user_id,
        sender_id,
        is_mention_all,
        created_at,
    );
    let sets = seq![
        sql::bound("message_id"@, 1),
        sql::bound("channel_id"@, 2),
        sql::bound("channel_type"@, 3),
        sql::bound("mentioned_user_id"@, 4),
        sql::bound("sender_id"@, 5),
        sql::bound("is_mention_all"@, 6),
        sql::bound("created_at"@, 7),
        sql::fixed("is_read"@, 0),
    ];
    let names = Seq::new(sets.len(), |i: int| sets[i].0);
    assert(names =~= seq!["message_id"@, "channel_id"@, "channel_type"@, "mentioned_user_id"@, "sender_id"@, "is_mention_all"@, "created_at"@, "is_read"@]);
    assert(sql::column_list(names) == "message_id"@ + ", "@ + "channel_id"@ + ", "@ + "channel_type"@ + ", "@ + "mentioned_user_id"@ + ", "@ + "sender_id"@ + ", "@ + "is_mention_all"@ + ", "@ + "created_at"@ + ", "@ + "is_read"@) by {
        reveal_with_fuel(sql::column_list, 9);
        assert(names.last() == "is_read"@);
        assert(names.drop_last().last() == "created_at"@);
        assert(names.drop_last().drop_last().last() == "is_mention_all"@);
        assert(names.drop_last().drop_last().drop_last().last() == "sender_id"@);
        assert(names.drop_last().drop_last().drop_last().drop_last().last() == "mentioned_user_id"@);
        assert(names.drop_last().drop_last().drop_last().drop_last().drop_last().last() == "channel_type"@);
        assert(names.drop_last().drop_last().drop_last().drop_last().drop_last().drop_last().last() == "channel_id"@);
        assert(names.drop_last().drop_last().drop_last().drop_last().drop_last().drop_last().drop_last().last() == "message_id"@);
    }
    assert(sql::value_words(sets) == sql::operand_words(sql::Operand::Parameter(1)) + ", "@ + sql::operand_words(sql::Operand::Parameter(2)) + ", "@ + sql::operand_words(sql::Operand::Parameter(3)) + ", "@ + sql::operand_words(sql::Operand::Parameter(4)) + ", "@ + sql::operand_words(sql::Operand::Parameter(5)) + ", "@ + sql::operand_words(sql::Operand::Parameter(6)) + ", "@ + sql::operand_words(sql::Operand::Parameter(7)) + ", "@ + sql::operand_words(sql::Operand::Number(0))) by {
        reveal_with_fuel(sql::value_words, 9);
        assert(sets.last().1 == sql::Operand::Number(0));
        assert(sets.drop_last().last().1 == sql::Operand::Parameter(7));
        assert(sets.drop_last().drop_last().last().1 == sql::Operand::Parameter(6));
        assert(sets.drop_last().drop_last().drop_last().last().1 == sql::Operand::Parameter(5));
        assert(sets.drop_last().drop_last().drop_last().drop_last().last().1 == sql::Operand::Parameter(4));
        assert(sets.drop_last().drop_last().drop_last().drop_last().drop_last().last().1 == sql::Operand::Parameter(3));
        assert(sets.drop_last().drop_last().drop_last().drop_last().drop_last().drop_last().last().1 == sql::Operand::Parameter(2));
        assert(sets.drop_last().drop_last().drop_last().drop_last().drop_last().drop_last().drop_last().last().1 == sql::Operand::Parameter(1));
    }
    assert(s.sql =~= "INSERT OR IGNORE INTO "@ + "mention"@ + " ("@ + sql::column_list(names) + ") VALUES ("@ + sql::value_words(sets) + ")"@) by {
        reveal_strlit("INSERT OR IGNORE INTO mention (message_id, channel_id, channel_type, mentioned_user_id, sender_id, is_mention_all, created_at, is_read) VALUES (?1, ?2, ?3, ?4, ?5, ?6, ?7, 0)");
        reveal_strlit("INSERT OR IGNORE INTO ");
        reveal_strlit("mention");
        reveal_strlit(" (");
        reveal_strlit(") VALUES (");
        reveal_strlit(")");
        reveal_strlit("message_id");
        reveal_strlit("?");
        reveal_strlit("channel_id");
        reveal_strlit("channel_type");
        reveal_strlit("mentioned_user_id");
        reveal_strlit("sender_id");
        reveal_strlit("is_mention_all");
        reveal_strlit("created_at");
        reveal_strlit("is_read");
        reveal_strlit(", ");
    }
    assert(sql::given_values(sets, s.params) =~= seq![("message_id"@, Some(sql::id_model(message_id))), ("channel_id"@, Some(sql::id_model(channel_id))), ("channel_type"@, Some(SqlModel::Integer(channel_type as i64))), ("mentioned_user_id"@, Some(sql::id_model(mentioned_user_id))), ("sender_id"@, Some(sql::id_model(sender_id))), ("is_mention_all"@, Some(SqlModel::Integer(if is_mention_all { 1 } else { 0 }))), ("created_at"@, Some(SqlModel::Integer(created_at))), ("is_read"@, Some(SqlModel::Integer(0)))]);
}

/// The unread mentions of a user in a channel are those of the channel's id and type that mean the user
/// and are not read.
pub proof fn law_unread_mentions_of_a_channel_are_counted(
    channel_id: u64,
    channel_type: i32,
    user_id: u64,
    row: RowModel,
    channel: u64,
    kind: i32,
    mentioned: u64,
    read: i64,
)
    requires
        row.get("channel_id"@) == Some(sql::id_model(channel)),
        row.get("channel_type"@) == Some(SqlModel::Integer(kind as i64)),
        row.get("mentioned_user_id"@) == Some(sql::id_model(mentioned)),
        row.get("is_read"@) == Some(SqlModel::Integer(read)),
    ensures
        ({
            let s = get_unread_mention_count_statement(channel_id, channel_type, user_id);
            let tests = seq![
                sql::against("channel_id"@, Comparison::Equal, 1),
                sql::against("channel_type"@, Comparison::Equal, 2),
                sql::against("mentioned_user_id"@, Comparison::Equal, 3),
                sql::against_number("is_read"@, Comparison::Equal, 0),
            ];
            &&& sql::is_selection(s, "COUNT(*)"@, "mention"@, tests, ""@)
            &&& sql::meets_all(
                row,
                tests,
                s.params,
            ) <==> channel == channel_id && kind == channel_type && mentioned == user_id && read == 0
        }),
{
    let s = get_unread_mention_count_statement(channel_id, channel_type, user_id);
    let tests = seq![
        sql::against("channel_id"@, Comparison::Equal, 1),
        sql::against("channel_type"@, Comparison::Equal, 2),
        sql::against("mentioned_user_id"@, Comparison::Equal, 3),
        sql::against_number("is_read"@, Comparison::Equal, 0),
    ];
    sql::lemma_tests_four(
        sql::against("channel_id"@, Comparison::Equal, 1),
        sql::against("channel_type"@, Comparison::Equal, 2),
        sql::against("mentioned_user_id"@, Comparison::Equal, 3),
        sql::against_number("is_read"@, Comparison::Equal, 0),
        row,
        s.params,
    );
    sql::lemma_stored_ids(channel, channel_id);
    sql::lemma_stored_ids(mentioned, user_id);
    assert(s.sql =~= "SELECT "@ + "COUNT(*)"@ + " FROM "@ + "mention"@ + " WHERE "@ + sql::where_words(tests) + ""@) by {
        reveal_strlit("SELECT COUNT(*) FROM mention WHERE channel_id = ?1 AND channel_type = ?2 AND mentioned_user_id = ?3 AND is_read = 0");
        reveal_strlit("SELECT ");
        reveal_strlit("COUNT(*)");
        reveal_strlit(" FROM ");
        reveal_strlit("mention");
        reveal_strlit(" WHERE ");
        reveal_strlit("channel_id");
        reveal_strlit(" ");
        reveal_strlit("=");
        reveal_strlit("?");
        reveal_strlit("channel_type");
        reveal_strlit("mentioned_user_id");
        reveal_strlit("is_read");
        reveal_strlit(" AND ");
        reveal_strlit("");
    }
}

/// Reading a mention marks that of the one user in the one message.
pub proof fn law_one_mention_is_read(
    message_id: u64,
    user_id: u64,
    row: RowModel,
    message: u64,
    mentioned: u64,
)
    requires
        row.get("message_id"@) == Some(sql::id_model(message)),
        row.get("mentioned_user_id"@) == Some(sql::id_model(mentioned)),
    ensures
        ({
            let s = mark_mention_as_read_statement(message_id, user_id);
            let sets = seq![sql::fixed("is_read"@, 1)];
            let tests = seq![
                sql::against("message_id"@, Comparison::Equal, 1),
                sql::against("mentioned_user_id"@, Comparison::Equal, 2),
            ];
            &&& sql::is_update(s, "mention"@, sets, tests)
            &&& sql::given_values(sets, s.params) == seq![("is_read"@, Some(SqlModel::Integer(1)))]
            &&& sql::meets_all(row, tests, s.params) <==> message == message_id && mentioned == user_id
        }),
{
    let s = mark_mention_as_read_statement(message_id, user_id);
    let sets = seq![sql::fixed("is_read"@, 1)];
    let tests = seq![
        sql::against("message_id"@, Comparison::Equal, 1),
        sql::against("mentioned_user_id"@, Comparison::Equal, 2),
    ];
    sql::lemma_tests_two(
        sql::against("message_id"@, Comparison::Equal, 1),
        sql::against("mentioned_user_id"@, Comparison::Equal, 2),
        row,
        s.params,
    );
    sql::lemma_sets_one(sql::fixed("is_read"@, 1), s.params);
    sql::lemma_stored_ids(message, message_id);
    sql::lemma_stored_ids(mentioned, user_id);
    assert(s.sql =~= "UPDATE "@ + "mention"@ + " SET "@ + sql::set_words(sets) + " WHERE "@ + sql::where_words(tests)) by {
        reveal_strlit("UPDATE mention SET is_read = 1 WHERE message_id = ?1 AND mentioned_user_id = ?2");
        reveal_strlit("UPDATE ");
        reveal_strlit("mention");
        reveal_strlit(" SET ");
        reveal_strlit(" = ");
        reveal_strlit(" WHERE ");
        reveal_strlit("is_read");
        reveal_strlit("message_id");
        reveal_strlit(" ");
        reveal_strlit("=");
        reveal_strlit("?");
        reveal_strlit("mentioned_user_id");
        reveal_strlit(" AND ");
    }
}

/// Reading all mentions of a channel marks the unread ones of the one user there.
pub proof fn law_mentions_of_one_channel_are_read(
    channel_id: u64,
    channel_type: i32,
    user_id: u64,
    row: RowModel,
    channel: u64,
    kind: i32,
    mentioned: u64,
    read: i64,
)
    requires
        row.get("channel_id"@) == Some(sql::id_model(channel)),
        row.get("channel_type"@) == Some(SqlModel::Integer(kind as i64)),
        row.get("mentioned_user_id"@) == Some(sql::id_model(mentioned)),
        row.get("is_read"@) == Some(SqlModel::Integer(read)),
    ensures
        ({
            let s = mark_all_mentions_as_read_statement(channel_id, channel_type, user_id);
            let sets = seq![sql::fixed("is_read"@, 1)];
            let tests = seq![
                sql::against("channel_id"@, Comparison::Equal, 1),
                sql::against("channel_type"@, Comparison::Equal, 2),
                sql::against("mentioned_user_id"@, Comparison::Equal, 3),
                sql::against_number("is_read"@, Comparison::Equal, 0),
            ];
            &&& sql::is_update(s, "mention"@, sets, tests)
            &&& sql::given_values(sets, s.params) == seq![("is_read"@, Some(SqlModel::Integer(1)))]
            &&& sql::meets_all(
                row,
                tests,
                s.params,
            ) <==> channel == channel_id && kind == channel_type && mentioned == user_id && read == 0
        }),
{
    let s = mark_all_mentions_as_read_statement(channel_id, channel_type, user_id);
    let sets = seq![sql::fixed("is_read"@, 1)];
    let tests = seq![
        sql::against("channel_id"@, Comparison::Equal, 1),
        sql::against("channel_type"@, Comparison::Equal, 2),
        sql::against("mentioned_user_id"@, Comparison::Equal, 3),
        sql::against_number("is_read"@, Comparison::Equal, 0),
    ];
    sql::lemma_tests_four(
        sql::against("channel_id"@, Comparison::Equal, 1),
        sql::against("channel_type"@, Comparison::Equal, 2),
        sql::against("mentioned_user_id"@, Comparison::Equal, 3),
        sql::against_number("is_read"@, Comparison::Equal, 0),
        row,
        s.params,
    );
    sql::lemma_sets_one(sql::fixed("is_read"@, 1), s.params);
    sql::lemma_stored_ids(channel, channel_id);
    sql::lemma_stored_ids(mentioned, user_id);
    assert(s.sql =~= "UPDATE "@ + "mention"@ + " SET "@ + sql::set_words(sets) + " WHERE "@ + sql::where_words(tests)) by {
        reveal_strlit("UPDATE mention SET is_read = 1 WHERE channel_id = ?1 AND channel_type = ?2 AND mentioned_user_id = ?3 AND is_read = 0");
        reveal_strlit("UPDATE ");
        reveal_strlit("mention");
        reveal_strlit(" SET ");
        reveal_strlit(" = ");
        reveal_strlit(" WHERE ");
        reveal_strlit("is_read");
        reveal_strlit("channel_id");
        reveal_strlit(" ");
        reveal_strlit("=");
        reveal_strlit("?");
        reveal_strlit("channel_type");
        reveal_strlit("mentioned_user_id");
        reveal_strlit(" AND ");
    }
}

/// Whether a user is mentioned is asked of the one message, read or not.
pub proof fn law_a_user_is_mentioned_in_a_message(
    message_id: u64,
    user_id: u64,
    row: RowModel,
    message: u64,
    mentioned: u64,
)
    requires
        row.get("message_id"@) == Some(sql::id_model(message)),
        row.get("mentioned_user_id"@) == Some(sql::id_model(mentioned)),
    ensures
        ({
            let s = is_user_mentioned_statement(message_id, user_id);
            let tests = seq![
                sql::against("message_id"@, Comparison::Equal, 1),
                sql::against("mentioned_user_id"@, Comparison::Equal, 2),
            ];
            &&& sql::is_selection(s, "COUNT(*)"@, "mention"@, tests, ""@)
            &&& sql::meets_all(row, tests, s.params) <==> message == message_id && mentioned == user_id
        }),
{
    let s = is_user_mentioned_statement(message_id, user_id);
    let tests = seq![
        sql::against("message_id"@, Comparison::Equal, 1),
        sql::against("mentioned_user_id"@, Comparison::Equal, 2),
    ];
    sql::lemma_tests_two(
        sql::against("message_id"@, Comparison::Equal, 1),
        sql::against("mentioned_user_id"@, Comparison::Equal, 2),
        row,
        s.params,
    );
    sql::lemma_stored_ids(message, message_id);
    sql::lemma_stored_ids(mentioned, user_id);
    assert(s.sql =~= "SELECT "@ + "COUNT(*)"@ + " FROM "@ + "mention"@ + " WHERE "@ + sql::where_words(tests) + ""@) by {
        reveal_strlit("SELECT COUNT(*) FROM mention WHERE message_id = ?1 AND mentioned_user_id = ?2");
        reveal_strlit("SELECT ");
        reveal_strlit("COUNT(*)");
        reveal_strlit(" FROM ");
        reveal_strlit("mention");
        reveal_strlit(" WHERE ");
        reveal_strlit("message_id");
        reveal_strlit(" ");
        reveal_strlit("=");
        reveal_strlit("?");
        reveal_strlit("mentioned_user_id");
        reveal_strlit(" AND ");
        reveal_strlit("");
    }
}

/// The unread mentions of a user are counted by channel.
pub proof fn law_unread_mentions_are_counted_by_channel(
    user_id: u64,
    row: RowModel,
    mentioned: u64,
    read: i64,
)
    requires
        row.get("mentioned_user_id"@) == Some(sql::id_model(mentioned)),
        row.get("is_read"@) == Some(SqlModel::Integer(read)),
    ensures
        ({
            let s = get_all_unread_mention_counts_statement(user_id);
            let tests = seq![
                sql::against("mentioned_user_id"@, Comparison::Equal, 1),
                sql::against_number("is_read"@, Comparison::Equal, 0),
            ];
            &&& sql::is_selection(
                s,
                "channel_id, channel_type, COUNT(*) as unread_count"@,
                "mention"@,
                tests,
                " GROUP BY channel_id, channel_type"@,
            )
            &&& sql::meets_all(row, tests, s.params) <==> mentioned == user_id && read == 0
        }),
{
    let s = get_all_unread_mention_counts_statement(user_id);
    let tests = seq![
        sql::against("mentioned_user_id"@, Comparison::Equal, 1),
        sql::against_number("is_read"@, Comparison::Equal, 0),
    ];
    sql::lemma_tests_two(
        sql::against("mentioned_user_id"@, Comparison::Equal, 1),
        sql::against_number("is_read"@, Comparison::Equal, 0),
        row,
        s.params,
    );
    sql::lemma_stored_ids(mentioned, user_id);
    assert(s.sql =~= "SELECT "@ + "channel_id, channel_type, COUNT(*) as unread_count"@ + " FROM "@ + "mention"@ + " WHERE "@ + sql::where_words(tests) + " GROUP BY channel_id, channel_type"@) by {
        reveal_strlit("SELECT channel_id, channel_type, COUNT(*) as unread_count FROM mention WHERE mentioned_user_id = ?1 AND is_read = 0 GROUP BY channel_id, channel_type");
        reveal_strlit("SELECT ");
        reveal_strlit("channel_id, channel_type, COUNT(*) as unread_count");
        reveal_strlit(" FROM ");
        reveal_strlit("mention");
        reveal_strlit(" WHERE ");
        reveal_strlit("mentioned_user_id");
        reveal_strlit(" ");
        reveal_strlit("=");
        reveal_strlit("?");
        reveal_strlit("is_read");
        reveal_strlit(" AND ");
        reveal_strlit(" GROUP BY channel_id, channel_type");
    }
}

/// A list of mentions is as long as asked for, and holds all where no length is given.
pub proof fn law_a_list_of_mentions_is_as_long_as_asked_for(n: i32)
    ensures
        limit_clause(Some(n)) == "LIMIT "@ + text::signed_decimal(n as int),
        limit_clause(None).len() == 0,
{
}

/// A count of mentions is read from its row with the channel's id as text, and the message of a mention
/// likewise, whether the database holds a number or a text.
pub proof fn law_a_count_of_mentions_is_read(row: RowModel, channel: u64, kind: i32, count: i32)
    requires
        channel <= i64::MAX,
        row.get("channel_id"@) == Some(sql::id_model(channel)),
        row.get("channel_type"@) == Some(SqlModel::Integer(kind as i64)),
        row.get("unread_count"@) == Some(SqlModel::Integer(count as i64)),
    ensures
        <MentionCount as FromRow>::held_by(row) == (text::decimal(channel as nat), kind, count),
{
}

} // verus!
