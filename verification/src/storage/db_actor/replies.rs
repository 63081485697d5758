//! What the owner of the databases answers, made of the rows that it read.

use vstd::prelude::*;
use crate::error::{ErrorModel, PrivchatSDKError};
use crate::json::{JsonNumber, JsonTree, JsonValue};
use crate::storage::dao::channel;
use crate::storage::dao::message;
use crate::storage::db_actor::channels;
use crate::storage::db_actor::channels::merge_channels;
use crate::storage::entities::{Channel, Message, MessageModel};
use crate::storage::sql;
use crate::storage::sql::{
    expect, read_all, read_found, ColumnKind, Expected, FromRow, Row, RowError, RowModel, SqlModel,
    SqlValue,
};
use crate::text;
use crate::text::{same_text, u64_text};

verus! {

/// The columns that a message of a page must have, in the order in which they are read.
pub open spec fn page_shape() -> Seq<(Seq<char>, ColumnKind)> {
    seq![
        ("pts"@, ColumnKind::Int64),
        ("channel_id"@, ColumnKind::Unsigned),
        ("channel_type"@, ColumnKind::Int32),
        ("from_uid"@, ColumnKind::Unsigned),
        ("type"@, ColumnKind::Int32),
        ("content"@, ColumnKind::Text),
        ("status"@, ColumnKind::Int32),
        ("voice_status"@, ColumnKind::Int32),
        ("created_at"@, ColumnKind::Int64),
        ("updated_at"@, ColumnKind::Int64),
        ("searchable_word"@, ColumnKind::Text),
        ("local_message_id"@, ColumnKind::Unsigned),
        ("is_deleted"@, ColumnKind::Int32),
        ("setting"@, ColumnKind::Int32),
        ("order_seq"@, ColumnKind::Int64),
        ("extra"@, ColumnKind::Text),
        ("flame"@, ColumnKind::Int16),
        ("flame_second"@, ColumnKind::Int32),
        ("viewed"@, ColumnKind::Int16),
        ("viewed_at"@, ColumnKind::Int64),
        ("topic_id"@, ColumnKind::Text),
        ("revoked"@, ColumnKind::Int16),
        ("revoked_at"@, ColumnKind::Int64),
    ]
}

/// The message that a row of a page holds.
pub open spec fn message_on_page(row: RowModel) -> MessageModel {
    MessageModel {
        id: row.opt_i64("id"@),
        server_message_id: row.opt_unsigned("message_id"@),
        pts: row.i64_at("pts"@),
        channel_id: row.unsigned_at("channel_id"@),
        channel_type: row.i32_or("channel_type"@, 0),
        timestamp: row.opt_i64("timestamp"@),
        from_uid: row.unsigned_at("from_uid"@),
        message_type: row.i32_or("type"@, 0),
        content: row.text_at("content"@),
        status: row.i32_or("status"@, 0),
        voice_status: row.i32_or("voice_status"@, 0),
        created_at: row.i64_at("created_at"@),
        updated_at: row.i64_at("updated_at"@),
        searchable_word: row.text_at("searchable_word"@),
        local_message_id: row.unsigned_at("local_message_id"@),
        is_deleted: row.i32_or("is_deleted"@, 0),
        setting: row.i32_or("setting"@, 0),
        order_seq: row.i64_at("order_seq"@),
        extra: row.text_at("extra"@),
        flame: row.i16_or("flame"@, 0),
        flame_second: row.i32_or("flame_second"@, 0),
        viewed: row.i16_or("viewed"@, 0),
        viewed_at: row.i64_at("viewed_at"@),
        topic_id: row.text_at("topic_id"@),
        expire_time: row.opt_i64("expire_time"@),
        expire_timestamp: row.opt_i64("expire_timestamp"@),
        revoked: row.i16_or("revoked"@, 0),
        revoked_at: row.i64_at("revoked_at"@),
        revoked_by: row.opt_unsigned("revoked_by"@),
    }
}

/// A message of a page.
#[derive(Debug)]
pub struct PagedMessage {
    pub message: Message,
}

impl View for PagedMessage {
    type V = MessageModel;

    open spec fn view(&self) -> MessageModel {
        self.message@
    }
}

impl FromRow for PagedMessage {
    open spec fn shape() -> Seq<(Seq<char>, ColumnKind)> {
        page_shape()
    }

    open spec fn held_by(row: RowModel) -> MessageModel {
        message_on_page(row)
    }

    fn from_row(row: &Row) -> (r: Result<Self, RowError>) {
        let expected: Vec<Expected> = vec![
            expect("pts", ColumnKind::Int64),
            expect("channel_id", ColumnKind::Unsigned),
            expect("channel_type", ColumnKind::Int32),
            expect("from_uid", ColumnKind::Unsigned),
            expect("type", ColumnKind::Int32),
            expect("content", ColumnKind::Text),
            expect("status", ColumnKind::Int32),
            expect("voice_status", ColumnKind::Int32),
            expect("created_at", ColumnKind::Int64),
            expect("updated_at", ColumnKind::Int64),
            expect("searchable_word", ColumnKind::Text),
            expect("local_message_id", ColumnKind::Unsigned),
            expect("is_deleted", ColumnKind::Int32),
            expect("setting", ColumnKind::Int32),
            expect("order_seq", ColumnKind::Int64),
            expect("extra", ColumnKind::Text),
            expect("flame", ColumnKind::Int16),
            expect("flame_second", ColumnKind::Int32),
            expect("viewed", ColumnKind::Int16),
            expect("viewed_at", ColumnKind::Int64),
            expect("topic_id", ColumnKind::Text),
            expect("revoked", ColumnKind::Int16),
            expect("revoked_at", ColumnKind::Int64),
        ];
        assert(sql::shape_of(expected@) =~= page_shape());
        match row.check(&expected) {
            Ok(_) => {
                let message = Message {
                    id: row.opt_i64("id"),
                    server_message_id: row.opt_unsigned("message_id"),
                    pts: row.i64_at("pts"),
                    channel_id: row.unsigned_at("channel_id"),
                    channel_type: row.i32_or("channel_type", 0),
                    timestamp: row.opt_i64("timestamp"),
                    from_uid: row.unsigned_at("from_uid"),
                    message_type: row.i32_or("type", 0),
                    content: row.text_at("content"),
                    status: row.i32_or("status", 0),
                    voice_status: row.i32_or("voice_status", 0),
                    created_at: row.i64_at("created_at"),
                    updated_at: row.i64_at("updated_at"),
                    searchable_word: row.text_at("searchable_word"),
                    local_message_id: row.unsigned_at("local_message_id"),
                    is_deleted: row.i32_or("is_deleted", 0),
                    setting: row.i32_or("setting", 0),
                    order_seq: row.i64_at("order_seq"),
                    extra: row.text_at("extra"),
                    flame: row.i16_or("flame", 0),
                    flame_second: row.i32_or("flame_second", 0),
                    viewed: row.i16_or("viewed", 0),
                    viewed_at: row.i64_at("viewed_at"),
                    topic_id: row.text_at("topic_id"),
                    expire_time: row.opt_i64("expire_time"),
                    expire_timestamp: row.opt_i64("expire_timestamp"),
                    revoked: row.i16_or("revoked", 0),
                    revoked_at: row.i64_at("revoked_at"),
                    revoked_by: row.opt_unsigned("revoked_by"),
                };
                Ok(PagedMessage { message })
            },
            Err(e) => Err(e),
        }
    }
}

/// Whether `r` holds the messages of a page, in the order of the rows, or says which row holds none.
pub open spec fn is_page(rows: Seq<Row>, r: Result<Vec<Message>, PrivchatSDKError>) -> bool {
    match r {
        Ok(messages) => messages@.len() == rows.len() && forall|i: int|
            0 <= i < rows.len() ==> rows[i]@.first_fault(page_shape()) is None && (
            #[trigger] messages@[i])@ == message_on_page(rows[i]@),
        Err(e) => exists|fault: (Seq<char>, sql::RowFault)|
            #![auto]
            sql::first_unreadable(rows, page_shape(), fault) && e@ == ErrorModel::Database(
                "解析消息失败: "@ + RowError::words(fault),
            ),
    }
}

/// The messages of a page.
pub fn read_page(rows: &Vec<Row>) -> (r: Result<Vec<Message>, PrivchatSDKError>)
    ensures
        is_page(rows@, r),
{
    let mut paged: Vec<PagedMessage> = match read_all::<PagedMessage>(rows) {
        Ok(paged) => paged,
        Err(e) => {
            let error = e.within("解析消息失败: ");
            assert(sql::first_unreadable(rows@, page_shape(), e@));
            return Err(error);
        },
    };
    let ghost all = paged@;
    assert(forall|j: int|
        0 <= j < all.len() ==> rows@[j]@.first_fault(page_shape()) is None && (#[trigger] all[j])@
            == message_on_page(rows@[j]@));
    let mut backward: Vec<Message> = Vec::new();
    while paged.len() > 0
        invariant
            paged@.len() + backward@.len() == all.len(),
            paged@ == all.take(paged@.len() as int),
            forall|j: int|
                0 <= j < backward@.len() ==> #[trigger] backward@[j] == all[all.len() - 1
                    - j].message,
        decreases paged.len(),
    {
        match paged.pop() {
            Some(m) => {
                backward.push(m.message);
            },
            None => {},
        }
    }
    let mut out: Vec<Message> = Vec::new();
    while backward.len() > 0
        invariant
            out@.len() + backward@.len() == all.len(),
            forall|j: int|
                0 <= j < backward@.len() ==> #[trigger] backward@[j] == all[all.len() - 1
                    - j].message,
            forall|j: int| 0 <= j < out@.len() ==> #[trigger] out@[j] == all[j].message,
        decreases backward.len(),
    {
        match backward.pop() {
            Some(m) => {
                out.push(m);
            },
            None => {},
        }
    }
    proof {
        assert forall|j: int| 0 <= j < rows@.len() implies rows@[j]@.first_fault(page_shape())
            is None && (#[trigger] out@[j])@ == message_on_page(rows@[j]@) by {
            assert(all[j]@ == message_on_page(rows@[j]@));
        }
    }
    Ok(out)
}

/// Whether `channels` are the channels that rows hold, in order.
pub open spec fn channels_in(rows: Seq<Row>, channels: Seq<Channel>) -> bool {
    channels.len() == rows.len() && forall|i: int|
        0 <= i < rows.len() ==> rows[i]@.first_fault(channel::channel_shape()) is None && (
        #[trigger] channels[i])@ == channel::channel_in(rows[i]@)
}

/// The channel list: the channels that rows hold, with the records of one direct conversation made
/// one, the latest first.
pub fn read_channels(rows: &Vec<Row>) -> (r: Result<Vec<Channel>, PrivchatSDKError>)
    ensures
        match r {
            Ok(list) => exists|raw: Seq<Channel>| #[trigger]
                channels_in(rows@, raw) && channels::is_channel_list(raw, list@),
            Err(e) => exists|fault: (Seq<char>, sql::RowFault)|
                #![auto]
                sql::first_unreadable(rows@, channel::channel_shape(), fault) && e@
                    == ErrorModel::Database("解析行失败: "@ + RowError::words(fault)),
        },
{
    match read_all::<Channel>(rows) {
        Ok(raw) => {
            let ghost held = raw@;
            let list = merge_channels(raw);
            assert(channels_in(rows@, held));
            Ok(list)
        },
        Err(e) => {
            let error = e.within("解析行失败: ");
            assert(sql::first_unreadable(rows@, channel::channel_shape(), e@));
            Err(error)
        },
    }
}

/// The id of the channel that a look-up found, if it found a row.
pub fn found_channel_id(row: &Option<Row>) -> (r: Result<Option<u64>, PrivchatSDKError>)
    ensures
        match *row {
            None => r == Ok::<Option<u64>, PrivchatSDKError>(None),
            Some(row) => match row@.first_fault(channel::channel_shape()) {
                None => r == Ok::<Option<u64>, PrivchatSDKError>(
                    Some(channel::channel_in(row@).channel_id),
                ),
                Some(fault) => r is Err && r->Err_0@ == ErrorModel::Database(
                    "查询频道失败: "@ + RowError::words(fault),
                ),
            },
        },
{
    match read_found::<Channel>(row, "查询频道失败: ") {
        Ok(Some(c)) => Ok(Some(c.channel_id)),
        Ok(None) => Ok(None),
        Err(e) => Err(e),
    }
}

/// The least local id of a channel's messages, if the channel has messages.
pub fn earliest_id(value: &SqlValue) -> (r: Result<Option<u64>, PrivchatSDKError>)
    ensures
        match value@ {
            SqlModel::Null => r == Ok::<Option<u64>, PrivchatSDKError>(None),
            SqlModel::Integer(i) => r == Ok::<Option<u64>, PrivchatSDKError>(
                Some(sql::loaded_id(i)),
            ),
            _ => r is Err && r->Err_0@ == ErrorModel::Database(
                "查询最早 id 失败: "@ + RowError::words(
                    (
                        "MIN(id)"@,
                        sql::RowFault::WrongType { index: 0, found: sql::type_of(value@) },
                    ),
                ),
            ),
        },
{
    match value {
        SqlValue::Null => Ok(None),
        SqlValue::Integer(i) => Ok(Some(#[verifier::truncate] (*i as u64))),
        _ => {
            let e = RowError {
                column: "MIN(id)".to_owned(),
                fault: sql::RowFault::WrongType { index: 0, found: value.cell_type() },
            };
            Err(e.within("查询最早 id 失败: "))
        },
    }
}

/// How many bytes a blob has, in words.
pub open spec fn blob_words(n: nat) -> Seq<char> {
    "blob("@ + text::decimal(n) + " bytes)"@
}

/// A value of the database as JSON. A real number that is none becomes 0, and of a blob only its
/// size is told.
pub open spec fn json_of(value: SqlModel) -> JsonTree {
    match value {
        SqlModel::Null => JsonTree::Null,
        SqlModel::Integer(i) => JsonTree::Int(i as int),
        SqlModel::Real(s) => if s == "NaN"@ || s == "inf"@ || s == "-inf"@ {
            JsonTree::Int(0)
        } else {
            JsonTree::Float(s)
        },
        SqlModel::Text(s) => JsonTree::Text(s),
        SqlModel::Blob(b) => JsonTree::Text(blob_words(b.len())),
    }
}

/// A value of the database as JSON.
pub fn value_to_json(value: &SqlValue) -> (r: JsonValue)
    ensures
        r@ == json_of(value@),
{
    match value {
        SqlValue::Null => JsonValue::Null,
        SqlValue::Integer(i) => JsonValue::signed(*i),
        SqlValue::Real(s) => {
            let written = s.as_str();
            if same_text(written, "NaN") || same_text(written, "inf") || same_text(
                written,
                "-inf",
            ) {
                JsonValue::Number(JsonNumber::Unsigned(0))
            } else {
                JsonValue::Number(JsonNumber::Float(s.clone()))
            }
        },
        SqlValue::Text(s) => JsonValue::Text(s.clone()),
        SqlValue::Blob(b) => {
            let mut s = "blob(".to_owned();
            s.append(u64_text(b.len() as u64).as_str());
            s.append(" bytes)");
            JsonValue::Text(s)
        },
    }
}

/// The columns of a row by name; of two columns with one name the later counts.
pub open spec fn members_of(cells: Seq<(Seq<char>, SqlModel)>) -> Map<Seq<char>, JsonTree>
    decreases cells.len(),
{
    if cells.len() == 0 {
        Map::empty()
    } else {
        members_of(cells.drop_last()).insert(cells.last().0, json_of(cells.last().1))
    }
}

/// A row as a JSON object.
pub fn row_to_json(row: &Row) -> (r: JsonValue)
    ensures
        r@ == JsonTree::Object(members_of(row@.cells)),
{
    let ghost cells = row@.cells;
    let mut object = JsonValue::object();
    let length: usize = row.cells.len();
    let mut i: usize = 0;
    proof {
        assert(cells.take(0) =~= Seq::<(Seq<char>, SqlModel)>::empty());
    }
    while i < length
        invariant
            i <= length == row.cells@.len(),
            cells == row@.cells,
            object@ == JsonTree::Object(members_of(cells.take(i as int))),
        decreases length - i,
    {
        proof {
            assert(cells.take(i + 1).drop_last() =~= cells.take(i as int));
            assert(cells.take(i + 1).last() == cells[i as int]);
        }
        object.set(row.cells[i].column.as_str(), value_to_json(&row.cells[i].value));
        i = i + 1;
    }
    proof {
        assert(cells.take(i as int) =~= cells);
    }
    object
}

/// A page shows a stored message as reading it by its id does, where its identifiers are no larger
/// than `i64::MAX`.
pub proof fn law_a_page_shows_the_stored_message(
    m: MessageModel,
    now: i64,
    given: i64,
    row: RowModel,
)
    requires
        m.local_message_id <= i64::MAX,
        m.channel_id <= i64::MAX,
        m.from_uid <= i64::MAX,
        m.server_message_id is Some ==> m.server_message_id->0 <= i64::MAX,
        m.revoked_by is Some ==> m.revoked_by->0 <= i64::MAX,
        row.holds(message::message_bindings(m, now)),
        row.get("id"@) == Some(SqlModel::Integer(given)),
        m.revoked_by is None ==> row.get("revoked_by"@) == Some(SqlModel::Null),
    ensures
        row.first_fault(page_shape()) is None,
        message_on_page(row) == message::message_in(row),
{
    let b = message::message_bindings(m, now);
    assert(b[0].0 == "message_id"@);
    assert(b[1].0 == "pts"@);
    assert(b[2].0 == "channel_id"@);
    assert(b[3].0 == "channel_type"@);
    assert(b[4].0 == "timestamp"@);
    assert(b[5].0 == "from_uid"@);
    assert(b[6].0 == "type"@);
    assert(b[7].0 == "content"@);
    assert(b[8].0 == "status"@);
    assert(b[9].0 == "voice_status"@);
    assert(b[10].0 == "created_at"@);
    assert(b[11].0 == "updated_at"@);
    assert(b[12].0 == "searchable_word"@);
    assert(b[13].0 == "local_message_id"@);
    assert(b[14].0 == "is_deleted"@);
    assert(b[15].0 == "setting"@);
    assert(b[16].0 == "order_seq"@);
    assert(b[17].0 == "extra"@);
    assert(b[18].0 == "flame"@);
    assert(b[19].0 == "flame_second"@);
    assert(b[20].0 == "viewed"@);
    assert(b[21].0 == "viewed_at"@);
    assert(b[22].0 == "topic_id"@);
    assert(b[23].0 == "expire_time"@);
    assert(b[24].0 == "expire_timestamp"@);
    assert(b[25].0 == "revoked"@);
    assert(b[26].0 == "revoked_at"@);
    if m.revoked_by is Some {
        assert(b[27].0 == "revoked_by"@);
    }
    let shape = page_shape();
    assert(shape[0] == ("pts"@, ColumnKind::Int64));
    assert(shape[1] == ("channel_id"@, ColumnKind::Unsigned));
    assert(shape[2] == ("channel_type"@, ColumnKind::Int32));
    assert(shape[3] == ("from_uid"@, ColumnKind::Unsigned));
    assert(shape[4] == ("type"@, ColumnKind::Int32));
    assert(shape[5] == ("content"@, ColumnKind::Text));
    assert(shape[6] == ("status"@, ColumnKind::Int32));
    assert(shape[7] == ("voice_status"@, ColumnKind::Int32));
    assert(shape[8] == ("created_at"@, ColumnKind::Int64));
    assert(shape[9] == ("updated_at"@, ColumnKind::Int64));
    assert(shape[10] == ("searchable_word"@, ColumnKind::Text));
    assert(shape[11] == ("local_message_id"@, ColumnKind::Unsigned));
    assert(shape[12] == ("is_deleted"@, ColumnKind::Int32));
    assert(shape[13] == ("setting"@, ColumnKind::Int32));
    assert(shape[14] == ("order_seq"@, ColumnKind::Int64));
    assert(shape[15] == ("extra"@, ColumnKind::Text));
    assert(shape[16] == ("flame"@, ColumnKind::Int16));
    assert(shape[17] == ("flame_second"@, ColumnKind::Int32));
    assert(shape[18] == ("viewed"@, ColumnKind::Int16));
    assert(shape[19] == ("viewed_at"@, ColumnKind::Int64));
    assert(shape[20] == ("topic_id"@, ColumnKind::Text));
    assert(shape[21] == ("revoked"@, ColumnKind::Int16));
    assert(shape[22] == ("revoked_at"@, ColumnKind::Int64));
    sql::lemma_shape_met(row, shape);
}

/// A value of the database is given out as what it is; bytes as a note of how many there are, and a
/// number that is none as 0.
pub proof fn law_values_are_given_out_as_they_are(i: i64, s: Seq<char>, b: Seq<u8>)
    ensures
        json_of(SqlModel::Null) == JsonTree::Null,
        json_of(SqlModel::Integer(i)) == JsonTree::Int(i as int),
        json_of(SqlModel::Text(s)) == JsonTree::Text(s),
        json_of(SqlModel::Blob(b)) == JsonTree::Text(
            "blob("@ + text::decimal(b.len()) + " bytes)"@,
        ),
        s == "NaN"@ || s == "inf"@ || s == "-inf"@ ==> json_of(SqlModel::Real(s)) == JsonTree::Int(0),
        s != "NaN"@ && s != "inf"@ && s != "-inf"@ ==> json_of(SqlModel::Real(s)) == JsonTree::Float(s),
{
}

/// A row is given out with each value under its column's name; of two columns of one name the later
/// counts.
pub proof fn law_rows_are_given_out_by_column(
    cells: Seq<(Seq<char>, SqlModel)>,
    column: Seq<char>,
    value: SqlModel,
    other: Seq<char>,
)
    ensures
        ({
            let before = members_of(cells);
            let after = members_of(cells.push((column, value)));
            &&& after.dom().contains(column) && after[column] == json_of(value)
            &&& other != column ==> (after.dom().contains(other) <==> before.dom().contains(other))
            &&& other != column && before.dom().contains(other) ==> after[other] == before[other]
        }),
        members_of(Seq::empty()) == Map::<Seq<char>, JsonTree>::empty(),
{
    assert(cells.push((column, value)).drop_last() =~= cells);
}

} // verus!
