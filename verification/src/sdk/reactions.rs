//! Reactions to messages, and who has seen a message.

use vstd::prelude::*;
use std::collections::HashMap;
use crate::error::{ErrorModel, PrivchatSDKError};
use crate::events::{ReactionChip, SeenByEntry};
use crate::json;
use crate::json::{JsonTree, JsonValue};
use crate::order;
use crate::order::{stable_sort, Ranked};
use crate::sdk::requests::{Request, RequestModel};
use crate::sdk::state::PrivchatSDK;
use crate::storage::advanced_features::ReadReceiptEvent;
use crate::storage::entities::{Message, MessageModel};
use crate::text;
use crate::text::u64_text;

verus! {

/// The id that the server knows a message by, or why there is none. `unsent` is the error of a
/// message that the server does not know.
pub open spec fn server_id_of(
    message: Option<MessageModel>,
    id: u64,
    unsent: Seq<char>,
) -> Result<u64, ErrorModel> {
    match message {
        None => Err(ErrorModel::Other("消息不存在: id="@ + text::decimal(id as nat))),
        Some(m) => match m.server_message_id {
            None => Err(ErrorModel::Other(unsent)),
            Some(server_id) => Ok(server_id),
        },
    }
}

/// What an optional message holds.
pub open spec fn found(message: Option<&Message>) -> Option<MessageModel> {
    match message {
        Some(m) => Some(m@),
        None => None,
    }
}

/// The error for a message that is not in the database.
pub fn no_such_message(id: u64) -> (r: PrivchatSDKError)
    ensures
        r@ == ErrorModel::Other("消息不存在: id="@ + text::decimal(id as nat)),
{
    let mut s = "消息不存在: id=".to_owned();
    s.append(u64_text(id).as_str());
    PrivchatSDKError::Other(s)
}

fn server_id(message: Option<&Message>, id: u64, unsent: &str) -> (r: Result<u64, PrivchatSDKError>)
    ensures
        match server_id_of(found(message), id, unsent@) {
            Ok(server_id) => r is Ok && r->Ok_0 == server_id,
            Err(e) => r is Err && r->Err_0@ == e,
        },
{
    match message {
        None => Err(no_such_message(id)),
        Some(m) => match m.server_message_id {
            None => Err(PrivchatSDKError::Other(unsent.to_owned())),
            Some(server_id) => Ok(server_id),
        },
    }
}

/// The error for a message that the server does not know yet.
pub open spec fn not_synced(id: u64) -> Seq<char> {
    "消息尚未同步到服务器: id="@ + text::decimal(id as nat)
}

/// The id under which the receipts of a message are stored.
pub fn receipts_key(message: Option<&Message>, id: u64) -> (r: Result<u64, PrivchatSDKError>)
    ensures
        match server_id_of(found(message), id, not_synced(id)) {
            Ok(server_id) => r is Ok && r->Ok_0 == server_id,
            Err(e) => r is Err && r->Err_0@ == e,
        },
{
    let mut unsent = "消息尚未同步到服务器: id=".to_owned();
    unsent.append(u64_text(id).as_str());
    server_id(message, id, unsent.as_str())
}

impl PrivchatSDK {
    /// Reacts to a message; `message` is what the database holds of it.
    pub fn add_reaction(&self, message: Option<&Message>, id: u64, emoji: &str) -> (r: Result<
        Request,
        PrivchatSDKError,
    >)
        ensures
            match (
                self.link(),
                server_id_of(found(message), id, "消息尚未同步到服务端，无法添加反应"@),
                self.session(),
            ) {
                (Ok(_), Ok(server_id), Ok(me)) => r is Ok && r->Ok_0@ == (RequestModel::ReactionAdd {
                    server_message_id: server_id,
                    user_id: me,
                    emoji: emoji@,
                }),
                (Ok(_), Ok(_), Err(e)) => r is Err && r->Err_0@ == e,
                (Ok(_), Err(e), _) => r is Err && r->Err_0@ == e,
                (Err(e), _, _) => r is Err && r->Err_0@ == e,
            },
    {
        match self.require_link() {
            Ok(_) => {},
            Err(e) => return Err(e),
        }
        let server_id: u64 = match server_id(message, id, "消息尚未同步到服务端，无法添加反应") {
            Ok(server_id) => server_id,
            Err(e) => return Err(e),
        };
        match self.require_session() {
            Ok(me) => Ok(
                Request::ReactionAdd {
                    server_message_id: server_id,
                    user_id: me,
                    emoji: emoji.to_owned(),
                },
            ),
            Err(e) => Err(e),
        }
    }

    /// Takes a reaction back.
    pub fn remove_reaction(&self, message: Option<&Message>, id: u64, emoji: &str) -> (r: Result<
        Request,
        PrivchatSDKError,
    >)
        ensures
            match (
                self.link(),
                server_id_of(found(message), id, "消息尚未同步到服务端，无法移除反应"@),
                self.session(),
            ) {
                (Ok(_), Ok(server_id), Ok(me)) => r is Ok && r->Ok_0@ == (RequestModel::ReactionRemove {
                    server_message_id: server_id,
                    user_id: me,
                    emoji: emoji@,
                }),
                (Ok(_), Ok(_), Err(e)) => r is Err && r->Err_0@ == e,
                (Ok(_), Err(e), _) => r is Err && r->Err_0@ == e,
                (Err(e), _, _) => r is Err && r->Err_0@ == e,
            },
    {
        match self.require_link() {
            Ok(_) => {},
            Err(e) => return Err(e),
        }
        let server_id: u64 = match server_id(message, id, "消息尚未同步到服务端，无法移除反应") {
            Ok(server_id) => server_id,
            Err(e) => return Err(e),
        };
        match self.require_session() {
            Ok(me) => Ok(
                Request::ReactionRemove {
                    server_message_id: server_id,
                    user_id: me,
                    emoji: emoji.to_owned(),
                },
            ),
            Err(e) => Err(e),
        }
    }

    /// Reads the reactions to a message.
    pub fn reactions(&self, message: Option<&Message>, id: u64) -> (r: Result<
        Request,
        PrivchatSDKError,
    >)
        ensures
            match (
                self.link(),
                server_id_of(found(message), id, "消息尚未同步到服务端，无法获取反应列表"@),
                self.session(),
            ) {
                (Ok(_), Ok(server_id), Ok(me)) => r is Ok && r->Ok_0@ == (RequestModel::ReactionList {
                    server_message_id: server_id,
                    user_id: me,
                }),
                (Ok(_), Ok(_), Err(e)) => r is Err && r->Err_0@ == e,
                (Ok(_), Err(e), _) => r is Err && r->Err_0@ == e,
                (Err(e), _, _) => r is Err && r->Err_0@ == e,
            },
    {
        match self.require_link() {
            Ok(_) => {},
            Err(e) => return Err(e),
        }
        let server_id: u64 = match server_id(
                message,
                id,
                "消息尚未同步到服务端，无法获取反应列表",
            ) {
            Ok(server_id) => server_id,
            Err(e) => return Err(e),
        };
        match self.require_session() {
            Ok(me) => Ok(
                Request::ReactionList { server_message_id: server_id, user_id: me },
            ),
            Err(e) => Err(e),
        }
    }

    /// What is sent to the server when a message is recalled: nothing without a connection, or
    /// where the server does not know the message. The message is recalled here either way.
    pub fn recall_message(&self, message: Option<&Message>, id: u64) -> (r: Result<
        Option<Request>,
        PrivchatSDKError,
    >)
        ensures
            match crate::sdk::state::lifecycle_fault(*self) {
                Some(e) => r is Err && r->Err_0@ == e,
                None => match found(message) {
                    None => r is Err && r->Err_0@ == ErrorModel::Other(
                        "消息不存在: id="@ + text::decimal(id as nat),
                    ),
                    Some(m) => r is Ok && match (self.connected(), m.server_message_id) {
                        (true, Some(server_id)) => r->Ok_0 is Some && r->Ok_0->0@ == (
                        RequestModel::MessageRevoke {
                            server_message_id: server_id,
                            channel_id: m.channel_id,
                            user_id: 0,
                        }),
                        _ => r->Ok_0 is None,
                    },
                },
            },
    {
        match self.check_initialized() {
            Ok(_) => {},
            Err(e) => return Err(e),
        }
        match message {
            None => Err(no_such_message(id)),
            Some(m) => {
                match self.check_connected() {
                    Ok(_) => match m.server_message_id {
                        Some(server_id) => Ok(
                            Some(
                                Request::MessageRevoke {
                                    server_message_id: server_id,
                                    channel_id: m.channel_id,
                                    user_id: 0,
                                },
                            ),
                        ),
                        None => Ok(None),
                    },
                    Err(_) => Ok(None),
                }
            },
        }
    }
}

// Reactions.

/// The numbers among the items of an array, in order.
pub open spec fn ids_in(items: Seq<JsonTree>) -> Seq<u64>
    decreases items.len(),
{
    if items.len() == 0 {
        Seq::empty()
    } else {
        let before = ids_in(items.drop_last());
        match items.last().as_u64() {
            Some(id) => before.push(id),
            None => before,
        }
    }
}

/// What a reaction chip shows.
pub struct ChipModel {
    pub emoji: Seq<char>,
    pub user_ids: Seq<u64>,
    pub count: nat,
}

impl View for ReactionChip {
    type V = ChipModel;

    open spec fn view(&self) -> ChipModel {
        ChipModel { emoji: self.emoji@, user_ids: self.user_ids@, count: self.count as nat }
    }
}

/// The chip of one reaction: nothing where the server's item has no emoji or no users.
pub open spec fn chip_in(item: JsonTree) -> Option<ChipModel> {
    match (item.str_at("emoji"@), item.get("user_ids"@)) {
        (Some(emoji), Some(users)) => {
            let ids = match users {
                JsonTree::Array(items) => ids_in(items),
                _ => Seq::empty(),
            };
            Some(ChipModel { emoji, user_ids: ids, count: ids.len() })
        },
        _ => None,
    }
}

/// The chips of the server's items, in order.
pub open spec fn chips_in(items: Seq<JsonTree>) -> Seq<ChipModel>
    decreases items.len(),
{
    if items.len() == 0 {
        Seq::empty()
    } else {
        let before = chips_in(items.drop_last());
        match chip_in(items.last()) {
            Some(chip) => before.push(chip),
            None => before,
        }
    }
}

/// The chips of a list, in order.
pub open spec fn chips_of(chips: Seq<ReactionChip>) -> Seq<ChipModel> {
    Seq::new(chips.len(), |i: int| chips[i]@)
}

fn read_ids(items: &Vec<JsonValue>) -> (r: Vec<u64>)
    ensures
        r@ == ids_in(json::item_trees(items@)),
{
    let ghost trees = json::item_trees(items@);
    let mut out: Vec<u64> = Vec::new();
    let length: usize = items.len();
    let mut i: usize = 0;
    proof {
        json::lemma_item_trees(items@);
        assert(trees.take(0) =~= Seq::<JsonTree>::empty());
    }
    while i < length
        invariant
            i <= length == items@.len(),
            trees == json::item_trees(items@),
            trees.len() == items@.len(),
            forall|j: int| 0 <= j < items@.len() ==> #[trigger] trees[j] == items@[j]@,
            out@ == ids_in(trees.take(i as int)),
        decreases length - i,
    {
        proof {
            assert(trees.take(i + 1).drop_last() =~= trees.take(i as int));
            assert(trees.take(i + 1).last() == trees[i as int]);
        }
        match items[i].as_u64() {
            Some(id) => {
                out.push(id);
            },
            None => {},
        }
        i = i + 1;
    }
    proof {
        assert(trees.take(i as int) =~= trees);
    }
    out
}

fn read_chip(item: &JsonValue) -> (r: Option<ReactionChip>)
    ensures
        match chip_in(item@) {
            Some(chip) => r is Some && r->0@ == chip,
            None => r is None,
        },
{
    let emoji = match item.str_at("emoji") {
        Some(emoji) => emoji,
        None => return None,
    };
    match item.get("user_ids") {
        Some(users) => {
            let user_ids: Vec<u64> = match users.as_array() {
                Some(items) => read_ids(items),
                None => Vec::new(),
            };
            let count: usize = user_ids.len();
            let chip = ReactionChip { emoji, user_ids, count };
            assert(chip@.user_ids =~= chip_in(item@)->0.user_ids);
            Some(chip)
        },
        None => None,
    }
}

/// The reactions to a message, as the server lists them. An item that is no reaction is left out.
pub fn reaction_chips(items: &Vec<JsonValue>) -> (r: Vec<ReactionChip>)
    ensures
        chips_of(r@) == chips_in(json::item_trees(items@)),
{
    let ghost trees = json::item_trees(items@);
    let mut out: Vec<ReactionChip> = Vec::new();
    let length: usize = items.len();
    let mut i: usize = 0;
    proof {
        json::lemma_item_trees(items@);
        assert(trees.take(0) =~= Seq::<JsonTree>::empty());
        assert(chips_of(out@) =~= Seq::<ChipModel>::empty());
    }
    while i < length
        invariant
            i <= length == items@.len(),
            trees == json::item_trees(items@),
            trees.len() == items@.len(),
            forall|j: int| 0 <= j < items@.len() ==> #[trigger] trees[j] == items@[j]@,
            chips_of(out@) == chips_in(trees.take(i as int)),
        decreases length - i,
    {
        proof {
            assert(trees.take(i + 1).drop_last() =~= trees.take(i as int));
            assert(trees.take(i + 1).last() == trees[i as int]);
        }
        match read_chip(&items[i]) {
            Some(chip) => {
                let ghost before = out@;
                out.push(chip);
                assert(chips_of(out@) =~= chips_of(before).push(chip@));
            },
            None => {},
        }
        i = i + 1;
    }
    proof {
        assert(trees.take(i as int) =~= trees);
    }
    out
}

/// Every chip counts the users that it names.
pub proof fn law_chips_count_their_users(items: Seq<JsonTree>)
    ensures
        forall|i: int|
            0 <= i < chips_in(items).len() ==> (#[trigger] chips_in(items)[i]).count == chips_in(
                items,
            )[i].user_ids.len(),
    decreases items.len(),
{
    if items.len() > 0 {
        law_chips_count_their_users(items.drop_last());
        let before = chips_in(items.drop_last());
        let all = chips_in(items);
        assert forall|i: int| 0 <= i < all.len() implies (#[trigger] all[i]).count
            == all[i].user_ids.len() by {
            if i < before.len() {
                assert(all[i] == before[i]);
            }
        }
    }
}

/// The reactions to messages, by message; `results` holds what was read of each, and a message whose
/// reactions could not be read has none.
pub open spec fn by_message(ids: Seq<u64>, results: Seq<Option<Vec<ReactionChip>>>) -> Map<
    u64,
    Seq<ChipModel>,
>
    decreases ids.len(),
{
    if ids.len() == 0 {
        Map::empty()
    } else {
        by_message(ids.drop_last(), results.drop_last()).insert(
            ids.last(),
            match results.last() {
                Some(chips) => chips_of(chips@),
                None => Seq::empty(),
            },
        )
    }
}

/// The chips under each message.
pub open spec fn batch_view(batch: Map<u64, Vec<ReactionChip>>) -> Map<u64, Seq<ChipModel>> {
    batch.map_values(|chips: Vec<ReactionChip>| chips_of(chips@))
}

impl PrivchatSDK {
    /// The reactions to messages, by message.
    pub fn reactions_batch(ids: &Vec<u64>, results: Vec<Option<Vec<ReactionChip>>>) -> (r: HashMap<
        u64,
        Vec<ReactionChip>,
    >)
        requires
            ids@.len() == results@.len(),
        ensures
            batch_view(r@) == by_message(ids@, results@),
    {
        broadcast use vstd::std_specs::hash::group_hash_axioms;

        let ghost all = results@;
        let mut rest = results;
        let mut batch: HashMap<u64, Vec<ReactionChip>> = HashMap::new();
        let length: usize = ids.len();
        let mut i: usize = 0;
        proof {
            assert(ids@.take(0) =~= Seq::<u64>::empty());
            assert(batch_view(batch@) =~= Map::<u64, Seq<ChipModel>>::empty());
        }
        while i < length
            invariant
                i <= length == ids@.len(),
                all.len() == ids@.len(),
                rest@ == all.skip(i as int),
                batch_view(batch@) == by_message(ids@.take(i as int), all.take(i as int)),
            decreases length - i,
        {
            proof {
                assert(ids@.take(i + 1).drop_last() =~= ids@.take(i as int));
                assert(all.take(i + 1).drop_last() =~= all.take(i as int));
                assert(rest@[0] == all[i as int]);
            }
            let ghost before = batch@;
            let chips: Vec<ReactionChip> = match rest.remove(0) {
                Some(chips) => chips,
                None => Vec::new(),
            };
            assert(rest@ =~= all.skip(i + 1));
            let ghost shown = chips_of(chips@);
            batch.insert(ids[i], chips);
            proof {
                assert(shown =~= match all[i as int] {
                    Some(chips) => chips_of(chips@),
                    None => Seq::empty(),
                });
                assert(batch_view(batch@) =~= batch_view(before).insert(ids@[i as int], shown));
            }
            i = i + 1;
        }
        proof {
            assert(ids@.take(i as int) =~= ids@);
            assert(all.take(i as int) =~= all);
        }
        batch
    }
}

// Who has seen a message.

/// Whether a user is among the readers of a message.
pub open spec fn read_by(receipts: Seq<ReadReceiptEvent>, user_id: u64) -> bool {
    exists|i: int| 0 <= i < receipts.len() && (#[trigger] receipts[i]).reader_uid == user_id
}

impl PrivchatSDK {
    /// Whether a user is among the readers of a message.
    pub fn is_event_read_by(receipts: &Vec<ReadReceiptEvent>, user_id: u64) -> (r: bool)
        ensures
            r == read_by(receipts@, user_id),
    {
        let length: usize = receipts.len();
        let mut i: usize = 0;
        while i < length
            invariant
                i <= length == receipts@.len(),
                forall|j: int| 0 <= j < i ==> (#[trigger] receipts@[j]).reader_uid != user_id,
            decreases length - i,
        {
            if receipts[i].reader_uid == user_id {
                return true;
            }
            i = i + 1;
        }
        false
    }
}

impl Ranked for SeenByEntry {
    open spec fn rank(&self) -> (int, int, int) {
        (self.read_at as int, 0, 0)
    }

    fn ranks_before(&self, other: &Self) -> (r: bool) {
        self.read_at < other.read_at
    }
}

/// The readers of a message, in the order of their receipts.
pub open spec fn readers(receipts: Seq<ReadReceiptEvent>) -> Seq<SeenByEntry> {
    Seq::new(
        receipts.len(),
        |i: int| SeenByEntry { user_id: receipts[i].reader_uid, read_at: receipts[i].read_at },
    )
}

impl PrivchatSDK {
    /// Who has seen a message, the earliest first; of those who saw it at one time in the order of their
    /// receipts. A limit keeps the earliest.
    pub fn seen_by_for_event(receipts: &Vec<ReadReceiptEvent>, limit: Option<u32>) -> (r: Vec<
        SeenByEntry,
    >)
        ensures
            is_seen_by(receipts@, limit, r@),
    {
        let mut entries: Vec<SeenByEntry> = Vec::new();
        let length: usize = receipts.len();
        let mut i: usize = 0;
        while i < length
            invariant
                i <= length == receipts@.len(),
                entries@ == readers(receipts@.take(i as int)),
            decreases length - i,
        {
            entries.push(
                SeenByEntry { user_id: receipts[i].reader_uid, read_at: receipts[i].read_at },
            );
            i = i + 1;
            assert(entries@ =~= readers(receipts@.take(i as int)));
        }
        assert(receipts@.take(i as int) =~= receipts@);
        let mut sorted = stable_sort(entries);
        let ghost all = sorted@;
        match limit {
            Some(limit) => {
                let most: usize = limit as usize;
                while sorted.len() > most
                    invariant
                        most == limit,
                        sorted@ == all.take(sorted@.len() as int),
                        sorted@.len() <= all.len(),
                        all.len() <= most ==> sorted@.len() == all.len(),
                        all.len() > most ==> sorted@.len() >= most,
                    decreases sorted.len(),
                {
                    let _ = sorted.pop();
                    assert(sorted@ =~= all.take(sorted@.len() as int));
                }
                assert(all.take(all.len() as int) =~= all);
            },
            None => {},
        }
        sorted
    }
}

/// Whether `entries` are the readers of a message, the earliest first, as many as the limit lets.
pub open spec fn is_seen_by(
    receipts: Seq<ReadReceiptEvent>,
    limit: Option<u32>,
    entries: Seq<SeenByEntry>,
) -> bool {
    exists|all: Seq<SeenByEntry>| #[trigger]
        order::stably_sorted(readers(receipts), all) && entries == match limit {
            Some(limit) => if all.len() <= limit {
                all
            } else {
                all.take(limit as int)
            },
            None => all,
        }
}

/// The server is asked about a message by its own number, which a message has that is there and was
/// sent; else the fault says which message is meant.
pub proof fn law_the_server_is_asked_by_its_own_number(m: MessageModel, id: u64, unsent: Seq<char>)
    ensures
        server_id_of(None, id, unsent) == Err::<u64, _>(
            ErrorModel::Other("消息不存在: id="@ + text::decimal(id as nat)),
        ),
        m.server_message_id is None ==> server_id_of(Some(m), id, unsent) == Err::<u64, _>(
            ErrorModel::Other(unsent),
        ),
        m.server_message_id matches Some(n) ==> server_id_of(Some(m), id, unsent) == Ok::<u64, ErrorModel>(n),
        not_synced(id) == "消息尚未同步到服务器: id="@ + text::decimal(id as nat),
{
}

/// The user ids of a reaction are its numbers, in order; what is no number is left out.
pub proof fn law_reaction_users_are_its_numbers(items: Seq<JsonTree>, id: u64, other: JsonTree)
    ensures
        ids_in(Seq::empty()).len() == 0,
        ids_in(items.push(JsonTree::Int(id as int))) == ids_in(items).push(id),
        !(other is Int) ==> ids_in(items.push(other)) == ids_in(items),
{
    assert(items.push(JsonTree::Int(id as int)).drop_last() =~= items);
    assert(items.push(other).drop_last() =~= items);
}

/// A reaction has its own emoji and all its users; without an emoji or users it is none.
pub proof fn law_a_reaction_names_its_users(
    item: JsonTree,
    emoji: Seq<char>,
    users: Seq<u64>,
    items: Seq<JsonTree>,
)
    requires
        item.str_at("emoji"@) == Some(emoji),
        item.get("user_ids"@) == Some(
            JsonTree::Array(users.map_values(|id: u64| JsonTree::Int(id as int))),
        ),
    ensures
        chip_in(item) == Some(ChipModel { emoji, user_ids: users, count: users.len() }),
        chips_in(items.push(item)) == chips_in(items).push(
            ChipModel { emoji, user_ids: users, count: users.len() },
        ),
{
    lemma_ids_of_numbers(users);
    assert(items.push(item).drop_last() =~= items);
}

proof fn lemma_ids_of_numbers(users: Seq<u64>)
    ensures
        ids_in(users.map_values(|id: u64| JsonTree::Int(id as int))) == users,
    decreases users.len(),
{
    let items = users.map_values(|id: u64| JsonTree::Int(id as int));
    if users.len() > 0 {
        lemma_ids_of_numbers(users.drop_last());
        assert(items.drop_last() =~= users.drop_last().map_values(|id: u64| JsonTree::Int(id as int)));
        assert(users =~= users.drop_last().push(users.last()));
    } else {
        assert(users =~= Seq::<u64>::empty());
    }
}

/// What has no emoji or no users is left out of the reactions.
pub proof fn law_a_reaction_needs_emoji_and_users(item: JsonTree, items: Seq<JsonTree>)
    ensures
        chip_in(item) is Some <==> item.str_at("emoji"@) is Some && item.get("user_ids"@) is Some,
        chip_in(item) is None ==> chips_in(items.push(item)) == chips_in(items),
        chips_in(Seq::empty()).len() == 0,
{
    assert(items.push(item).drop_last() =~= items);
}

/// Each message that was asked for has its own reactions, of two the later, and none where they could
/// not be had.
pub proof fn law_reactions_are_kept_by_message(
    ids: Seq<u64>,
    results: Seq<Option<Vec<ReactionChip>>>,
    id: u64,
    result: Option<Vec<ReactionChip>>,
    other: u64,
)
    requires
        ids.len() == results.len(),
    ensures
        ({
            let before = by_message(ids, results);
            let after = by_message(ids.push(id), results.push(result));
            &&& after.dom().contains(id)
            &&& result matches Some(chips) ==> after[id] == chips_of(chips@)
            &&& result is None ==> after[id].len() == 0
            &&& other != id ==> (after.dom().contains(other) <==> before.dom().contains(other))
            &&& other != id && before.dom().contains(other) ==> after[other] == before[other]
        }),
        by_message(Seq::empty(), Seq::empty()) == Map::<u64, Seq<ChipModel>>::empty(),
{
    assert(ids.push(id).drop_last() =~= ids);
    assert(results.push(result).drop_last() =~= results);
}

/// Whoever sent a receipt is a reader, at the time of the receipt.
pub proof fn law_readers_are_those_with_receipts(receipts: Seq<ReadReceiptEvent>, i: int, user: u64)
    requires
        0 <= i < receipts.len(),
    ensures
        readers(receipts).len() == receipts.len(),
        readers(receipts)[i].user_id == receipts[i].reader_uid,
        readers(receipts)[i].read_at == receipts[i].read_at,
        read_by(receipts, receipts[i].reader_uid),
        (forall|k: int| 0 <= k < receipts.len() ==> (#[trigger] receipts[k]).reader_uid != user) ==> !read_by(
            receipts,
            user,
        ),
{
}

/// The list of readers goes from the earliest to the latest and has no more than the asked number of
/// them; where it leaves readers out, these are not earlier than those in it. Each of them sent a
/// receipt.
pub proof fn law_the_first_readers_are_listed(
    receipts: Seq<ReadReceiptEvent>,
    limit: Option<u32>,
    entries: Seq<SeenByEntry>,
)
    requires
        is_seen_by(receipts, limit, entries),
    ensures
        limit matches Some(n) ==> entries.len() <= n,
        limit matches Some(n) ==> (receipts.len() > n ==> entries.len() == n),
        (limit matches Some(n) ==> receipts.len() <= n) ==> entries.len() == receipts.len(),
        forall|i: int, j: int|
            0 <= i < j < entries.len() ==> (#[trigger] entries[i]).read_at <= (
            #[trigger] entries[j]).read_at,
{
    let all = choose|all: Seq<SeenByEntry>| #[trigger]
        order::stably_sorted(readers(receipts), all) && entries == match limit {
            Some(limit) => if all.len() <= limit {
                all
            } else {
                all.take(limit as int)
            },
            None => all,
        };
    order::law_sorting_keeps_the_values(readers(receipts), all);
    readers(receipts).to_multiset_ensures();
    all.to_multiset_ensures();
    assert(all.len() == receipts.len());
    assert forall|i: int, j: int| 0 <= i < j < entries.len() implies (#[trigger] entries[i]).read_at <= (
    #[trigger] entries[j]).read_at by {
        assert(entries[i] == all[i] && entries[j] == all[j]);
        assert(!order::rank_lt(all[j].rank(), all[i].rank()));
    }
}

} // verus!
