//! The key-value store: which user's tree is in use, how opening is tried again, counters, and
//! values with an end of life.

use vstd::prelude::*;
use crate::error::{ErrorModel, PrivchatSDKError};
use crate::json;
use crate::json::{parse_json_bytes, write_json_bytes, JsonTree, JsonValue};
use crate::text;
use crate::text::{i64_text, parse_i64, same_text, text_contains};

pub mod keys;

verus! {

/// How often opening the store is tried.
pub const MAX_OPEN_RETRIES: u32 = 8;

/// The first pause between two tries, in milliseconds.
pub const RETRY_DELAY_MS: u64 = 300;

/// What is done after a try to open the store failed.
#[derive(Debug, Clone, Copy, PartialEq, Eq, Structural)]
pub enum OpenRetry {
    /// Try again after so many milliseconds.
    After(u64),
    /// Give up.
    Never,
}

/// Whether the store could not be opened because another instance still holds its lock.
pub open spec fn is_lock_error(message: Seq<char>) -> bool {
    text::contains(message, "could not acquire lock"@) || text::contains(
        message,
        "Resource temporarily unavailable"@,
    ) || text::contains(message, "WouldBlock"@)
}

/// Two to the power of `n`.
pub open spec fn power_of_two(n: nat) -> nat
    decreases n,
{
    if n == 0 {
        1
    } else {
        2 * power_of_two((n - 1) as nat)
    }
}

/// What is done after try number `attempt`, counted from 0, failed with a message: a held lock is
/// waited for, each time twice as long, but for the last try.
pub open spec fn retry_after(attempt: u32, message: Seq<char>) -> OpenRetry {
    if is_lock_error(message) && attempt + 1 < MAX_OPEN_RETRIES {
        OpenRetry::After((RETRY_DELAY_MS * power_of_two(attempt as nat)) as u64)
    } else {
        OpenRetry::Never
    }
}

fn doubled(n: u32) -> (r: u64)
    requires
        n < 8,
    ensures
        r == power_of_two(n as nat),
        r <= 128,
{
    let mut value: u64 = 1;
    let mut i: u32 = 0;
    proof {
        reveal_with_fuel(power_of_two, 9);
    }
    while i < n
        invariant
            i <= n < 8,
            value == power_of_two(i as nat),
            value <= 128,
            i == 0 ==> value == 1,
            i == 1 ==> value == 2,
            i == 2 ==> value == 4,
            i == 3 ==> value == 8,
            i == 4 ==> value == 16,
            i == 5 ==> value == 32,
            i == 6 ==> value == 64,
            i == 7 ==> value == 128,
        decreases n - i,
    {
        value = value * 2;
        i = i + 1;
    }
    value
}

/// What is done after try number `attempt`, counted from 0, failed with a message.
pub fn open_retry(attempt: u32, message: &str) -> (r: OpenRetry)
    ensures
        r == retry_after(attempt, message@),
{
    let is_lock = text_contains(message, "could not acquire lock") || text_contains(
        message,
        "Resource temporarily unavailable",
    ) || text_contains(message, "WouldBlock");
    if is_lock && attempt < 7 {
        let factor: u64 = doubled(attempt);
        OpenRetry::After(RETRY_DELAY_MS * factor)
    } else {
        OpenRetry::Never
    }
}

/// The error of a store that could not be opened; `last` is the message of the last try, if there
/// was one.
pub fn open_error(last: &Option<String>) -> (r: PrivchatSDKError)
    ensures
        r@ == ErrorModel::KvStore(
            match json::opt_view(*last) {
                Some(message) => "打开 sled 数据库失败: "@ + message,
                None => "打开 sled 数据库失败"@,
            },
        ),
{
    match last {
        Some(message) => {
            let mut s = "打开 sled 数据库失败: ".to_owned();
            s.append(message.as_str());
            PrivchatSDKError::KvStore(s)
        },
        None => PrivchatSDKError::KvStore("打开 sled 数据库失败".to_owned()),
    }
}

/// Opening the store is tried at most eight times, whatever the errors are.
pub proof fn law_opening_ends(attempt: u32, message: Seq<char>)
    requires
        attempt >= 7,
    ensures
        retry_after(attempt, message) == OpenRetry::Never,
{
}

/// Each pause is twice as long as the one before.
pub proof fn law_pauses_double(attempt: u32, message: Seq<char>)
    requires
        attempt < 6,
        is_lock_error(message),
    ensures
        retry_after(attempt, message) matches OpenRetry::After(before) && (retry_after(
            (attempt + 1) as u32,
            message,
        ) matches OpenRetry::After(next) && next == 2 * before),
{
    reveal_with_fuel(power_of_two, 8);
}

/// The name of a user's tree.
pub open spec fn tree_of(uid: Seq<char>) -> Seq<char> {
    "user_"@ + uid
}

/// The name of a user's tree.
pub fn tree_name(uid: &str) -> (r: String)
    ensures
        r@ == tree_of(uid@),
{
    let mut s = "user_".to_owned();
    s.append(uid);
    s
}

/// Two users never share a tree.
pub proof fn law_trees_are_apart(a: Seq<char>, b: Seq<char>)
    requires
        tree_of(a) == tree_of(b),
    ensures
        a == b,
{
    assert(a =~= tree_of(a).skip("user_"@.len() as int));
    assert(b =~= tree_of(b).skip("user_"@.len() as int));
}

/// Which users' trees are open, and whose tree is in use.
#[derive(Debug)]
pub struct KvStore {
    user_trees: Vec<String>,
    current_user: Option<String>,
}

/// What a [`KvStore`] holds.
#[verifier::ext_equal]
pub struct KvModel {
    pub trees: Set<Seq<char>>,
    pub current_user: Option<Seq<char>>,
}

spec fn names_in(users: Seq<String>) -> Set<Seq<char>> {
    Set::new(|uid: Seq<char>| exists|i: int| 0 <= i < users.len() && (#[trigger] users[i])@ == uid)
}

impl View for KvStore {
    type V = KvModel;

    closed spec fn view(&self) -> KvModel {
        KvModel {
            trees: names_in(self.user_trees@),
            current_user: json::opt_view(self.current_user),
        }
    }
}

impl KvModel {
    /// The store once a user's tree is in use.
    pub open spec fn switched(self, uid: Seq<char>) -> KvModel {
        KvModel { trees: self.trees.insert(uid), current_user: Some(uid) }
    }

    /// The user whose tree is in use, or why none is.
    pub open spec fn tree_user(self) -> Result<Seq<char>, ErrorModel> {
        match self.current_user {
            None => Err(ErrorModel::NotConnected),
            Some(uid) => if self.trees.contains(uid) {
                Ok(uid)
            } else {
                Err(ErrorModel::KvStore("用户 Tree 不存在"@))
            },
        }
    }
}

impl KvStore {
    /// No tree is open at first.
    pub fn new() -> (r: Self)
        ensures
            r@ == (KvModel { trees: Set::empty(), current_user: None }),
    {
        let r = KvStore { user_trees: Vec::new(), current_user: None };
        assert(r@.trees =~= Set::<Seq<char>>::empty());
        r
    }

    fn has_tree(&self, uid: &str) -> (r: bool)
        ensures
            r == self@.trees.contains(uid@),
    {
        let length: usize = self.user_trees.len();
        let mut i: usize = 0;
        while i < length
            invariant
                i <= length == self.user_trees@.len(),
                forall|j: int| 0 <= j < i ==> (#[trigger] self.user_trees@[j])@ != uid@,
            decreases length - i,
        {
            if same_text(self.user_trees[i].as_str(), uid) {
                return true;
            }
            i = i + 1;
        }
        false
    }

    /// A user's tree was opened.
    pub fn init_user_tree(&mut self, uid: &str)
        ensures
            final(self)@ == (KvModel { trees: old(self)@.trees.insert(uid@), ..old(self)@ }),
    {
        let ghost before = self.user_trees@;
        self.user_trees.push(uid.to_owned());
        proof {
            let after = self.user_trees@;
            assert forall|u: Seq<char>| names_in(after).contains(u) == names_in(before).insert(
                uid@,
            ).contains(u) by {
                if names_in(before).contains(u) {
                    let i = choose|i: int| 0 <= i < before.len() && (#[trigger] before[i])@ == u;
                    assert(after[i]@ == u);
                }
                if u == uid@ {
                    assert(after[after.len() - 1]@ == u);
                }
            }
            assert(names_in(after) =~= names_in(before).insert(uid@));
        }
    }

    /// Whether a user's tree must be opened before it can be used.
    pub fn needs_tree(&self, uid: &str) -> (r: bool)
        ensures
            r == !self@.trees.contains(uid@),
    {
        !self.has_tree(uid)
    }

    /// Uses a user's tree from now on; it counts as open.
    pub fn switch_user(&mut self, uid: &str)
        ensures
            final(self)@ == old(self)@.switched(uid@),
    {
        if self.needs_tree(uid) {
            self.init_user_tree(uid);
        } else {
            assert(self@.trees =~= self@.trees.insert(uid@));
        }
        self.current_user = Some(uid.to_owned());
    }

    /// Forgets a user's tree, which is then deleted; returns the tree's name.
    pub fn cleanup_user_data(&mut self, uid: &str) -> (r: String)
        ensures
            final(self)@ == (KvModel { trees: old(self)@.trees.remove(uid@), ..old(self)@ }),
            r@ == tree_of(uid@),
    {
        let ghost before = self.user_trees@;
        let mut rest: Vec<String> = Vec::new();
        let length: usize = self.user_trees.len();
        let mut i: usize = 0;
        while i < length
            invariant
                i <= length == self.user_trees@.len(),
                before == self.user_trees@,
                forall|u: Seq<char>|
                    names_in(rest@).contains(u) <==> u != uid@ && names_in(
                        before.take(i as int),
                    ).contains(u),
            decreases length - i,
        {
            let ghost kept = rest@;
            if !same_text(self.user_trees[i].as_str(), uid) {
                rest.push(self.user_trees[i].clone());
            }
            proof {
                let name = before[i as int]@;
                assert forall|u: Seq<char>|
                    names_in(rest@).contains(u) <==> u != uid@ && names_in(
                        before.take(i + 1),
                    ).contains(u) by {
                    if names_in(before.take(i as int)).contains(u) {
                        let k = choose|k: int|
                            0 <= k < before.take(i as int).len() && (#[trigger] before.take(
                                i as int,
                            )[k])@ == u;
                        assert(before.take(i + 1)[k]@ == u);
                    }
                    if names_in(before.take(i + 1)).contains(u) {
                        let k = choose|k: int|
                            0 <= k < before.take(i + 1).len() && (#[trigger] before.take(
                                i + 1,
                            )[k])@ == u;
                        if k < i {
                            assert(before.take(i as int)[k]@ == u);
                        }
                    }
                    assert(before.take(i + 1)[i as int]@ == name);
                    if names_in(kept).contains(u) {
                        let k = choose|k: int| 0 <= k < kept.len() && (#[trigger] kept[k])@ == u;
                        assert(rest@[k]@ == u);
                    }
                    if names_in(rest@).contains(u) {
                        let k = choose|k: int| 0 <= k < rest@.len() && (#[trigger] rest@[k])@ == u;
                        if k < kept.len() {
                            assert(kept[k]@ == u);
                        }
                    }
                    if name != uid@ {
                        assert(rest@[rest@.len() - 1]@ == name);
                    }
                }
            }
            i = i + 1;
        }
        proof {
            assert(before.take(i as int) =~= before);
            assert(names_in(rest@) =~= names_in(before).remove(uid@));
        }
        self.user_trees = rest;
        tree_name(uid)
    }

    /// The name of the tree in use.
    pub fn current_tree(&self) -> (r: Result<String, PrivchatSDKError>)
        ensures
            match self@.tree_user() {
                Ok(uid) => r is Ok && r->Ok_0@ == tree_of(uid),
                Err(e) => r is Err && r->Err_0@ == e,
            },
    {
        match &self.current_user {
            None => Err(PrivchatSDKError::NotConnected),
            Some(uid) => {
                if self.has_tree(uid.as_str()) {
                    Ok(tree_name(uid.as_str()))
                } else {
                    Err(PrivchatSDKError::KvStore("用户 Tree 不存在".to_owned()))
                }
            },
        }
    }
}

/// The last user that was switched to is the one whose tree is in use, until their data is cleaned
/// up.
pub proof fn law_the_current_tree_is_the_last_users(store: KvModel, uid: Seq<char>)
    ensures
        (KvModel { trees: store.trees.insert(uid), current_user: Some(uid) }).tree_user() == Ok::<
            Seq<char>,
            ErrorModel,
        >(uid),
        (KvModel { trees: store.trees.insert(uid).remove(uid), current_user: Some(uid) }).tree_user()
            == Err::<Seq<char>, ErrorModel>(ErrorModel::KvStore("用户 Tree 不存在"@)),
{
}

// Counters.

/// `std::str::from_utf8`: the text that bytes encode, or the words of the error where they encode
/// none. What the words are is not said.
#[verifier::external_body]
fn text_from_utf8(bytes: &Vec<u8>) -> (r: Result<String, String>)
    ensures
        match r {
            Ok(s) => vstd::utf8::encode_utf8(s@) == bytes@,
            Err(_) => !vstd::utf8::valid_utf8(bytes@),
        },
{
    std::str::from_utf8(bytes).map(|s| s.to_string()).map_err(|e| e.to_string())
}

/// The number that a counter's text stands for: 0 where there is no counter yet.
pub open spec fn counter_value(stored: Option<Seq<char>>) -> Option<int> {
    match stored {
        Some(s) => text::signed_value(s),
        None => Some(0),
    }
}

/// The text of a counter, where there is one.
pub fn counter_text(stored: &Option<Vec<u8>>) -> (r: Result<Option<String>, PrivchatSDKError>)
    ensures
        match *stored {
            None => r == Ok::<Option<String>, PrivchatSDKError>(None),
            Some(bytes) => match r {
                Ok(s) => s is Some && vstd::utf8::encode_utf8(s->0@) == bytes@,
                Err(e) => !vstd::utf8::valid_utf8(bytes@) && e@ is KvStore && text::begins_with(
                    e@->KvStore_0,
                    "计数器值格式错误: "@,
                ),
            },
        },
{
    match stored {
        None => Ok(None),
        Some(bytes) => match text_from_utf8(bytes) {
            Ok(s) => Ok(Some(s)),
            Err(why) => {
                let mut s = "计数器值格式错误: ".to_owned();
                let ghost head = s@;
                s.append(why.as_str());
                assert(s@.take(head.len() as int) =~= head);
                Err(PrivchatSDKError::KvStore(s))
            },
        },
    }
}

/// The text of the error with which `str::parse` refuses a text as an `i64`. Nothing is said of it.
#[verifier::external_body]
fn number_error(s: &str) -> String {
    s.parse::<i64>().err().map(|e| e.to_string()).unwrap_or_default()
}

/// The number after a change, and the text that is stored for it.
#[derive(Debug)]
pub struct CounterStep {
    pub value: i64,
    pub stored: String,
}

impl KvStore {
    /// Changes a counter. The counter is stored by comparing and swapping, so a caller whose swap fails
    /// reads the counter again and repeats the change.
    pub fn increment_counter(stored: &Option<String>, delta: i64) -> (r: Result<
        CounterStep,
        PrivchatSDKError,
    >)
        requires
            counter_value(json::opt_view(*stored)) matches Some(value) ==> i64::MIN <= value + delta
                <= i64::MAX,
        ensures
            match counter_value(json::opt_view(*stored)) {
                Some(value) => r is Ok && r->Ok_0.value == value + delta && r->Ok_0.stored@
                    == text::signed_decimal(value + delta),
                None => r is Err && r->Err_0@ is KvStore && text::begins_with(
                    r->Err_0@->KvStore_0,
                    "计数器值解析失败: "@,
                ),
            },
    {
        let value: i64 = match stored {
            Some(s) => match parse_i64(s.as_str()) {
                Some(value) => value,
                None => {
                    let mut message = "计数器值解析失败: ".to_owned();
                    let ghost head = message@;
                    message.append(number_error(s.as_str()).as_str());
                    assert(message@.take(head.len() as int) =~= head);
                    return Err(PrivchatSDKError::KvStore(message));
                },
            },
            None => 0,
        };
        let next: i64 = value + delta;
        Ok(CounterStep { value: next, stored: i64_text(next) })
    }
}

/// What is stored for a counter after it was changed by each of the deltas in turn.
pub open spec fn counter_after(stored: Option<Seq<char>>, deltas: Seq<i64>) -> Option<Seq<char>>
    decreases deltas.len(),
{
    if deltas.len() == 0 {
        stored
    } else {
        match counter_value(counter_after(stored, deltas.drop_last())) {
            Some(value) => Some(text::signed_decimal(value + deltas.last())),
            None => None,
        }
    }
}

/// The sum of the deltas.
pub open spec fn delta_sum(deltas: Seq<i64>) -> int
    decreases deltas.len(),
{
    if deltas.len() == 0 {
        0
    } else {
        delta_sum(deltas.drop_last()) + deltas.last()
    }
}

/// The changes of a counter add up, where the counter never leaves the integers of 64 bits.
pub proof fn law_counter_changes_add_up(stored: Option<Seq<char>>, value: int, deltas: Seq<i64>)
    requires
        counter_value(stored) == Some(value),
        forall|n: int|
            0 <= n <= deltas.len() ==> i64::MIN <= value + #[trigger] delta_sum(deltas.take(n))
                <= i64::MAX,
    ensures
        counter_value(counter_after(stored, deltas)) == Some(value + delta_sum(deltas)),
    decreases deltas.len(),
{
    if deltas.len() > 0 {
        let front = deltas.drop_last();
        assert forall|n: int| 0 <= n <= front.len() implies i64::MIN <= value + #[trigger] delta_sum(
            front.take(n),
        ) <= i64::MAX by {
            assert(front.take(n) =~= deltas.take(n));
        }
        law_counter_changes_add_up(stored, value, front);
        assert(deltas.take(deltas.len() as int) =~= deltas);
        text::law_signed_decimal_round_trip(value + delta_sum(deltas));
    }
}

// Values with an end of life.

/// When a value that is stored now comes to its end; the time is in seconds.
pub fn expiry(now: i64, ttl_seconds: u64) -> (r: i64)
    requires
        i64::MIN <= now + (ttl_seconds as i64) <= i64::MAX,
    ensures
        r == now + (ttl_seconds as i64),
{
    now + #[verifier::truncate] (ttl_seconds as i64)
}

/// A value and the end of its life, as they are stored.
pub open spec fn timed_tree(value: JsonTree, expires_at: i64) -> JsonTree {
    JsonTree::Object(
        map!["value"@ => value, "expires_at"@ => JsonTree::Int(expires_at as int)],
    )
}

/// A value and the end of its life, as they are stored.
pub fn with_expiry(value: JsonValue, expires_at: i64) -> (r: JsonValue)
    ensures
        r@ == timed_tree(value@, expires_at),
        json::json_depth(r) <= json::json_depth(value) + 1,
        json::is_whole(value) ==> json::is_whole(r),
{
    let end = JsonValue::signed(expires_at);
    let ghost value_tree = value@;
    let mut r = JsonValue::object();
    r.set("value", value);
    r.set("expires_at", end);
    assert(r@->Object_0 =~= map![
        "value"@ => value_tree,
        "expires_at"@ => JsonTree::Int(expires_at as int),
    ]);
    r
}

/// The value and the end of its life that a tree holds, if it holds them: by name, or by place in a
/// list of two.
pub open spec fn timed_in(tree: JsonTree) -> Option<(JsonTree, i64)> {
    match tree {
        JsonTree::Object(_) => match (tree.get("value"@), tree.i64_at("expires_at"@)) {
            (Some(value), Some(expires_at)) => Some((value, expires_at)),
            _ => None,
        },
        JsonTree::Array(items) => if items.len() == 2 {
            match items[1].as_i64() {
                Some(expires_at) => Some((items[0], expires_at)),
                None => None,
            }
        } else {
            None
        },
        _ => None,
    }
}

fn timed(v: &JsonValue) -> (r: Option<(&JsonValue, i64)>)
    ensures
        match r {
            Some((value, at)) => timed_in(v@) == Some((value@, at)),
            None => timed_in(v@) is None,
        },
{
    match v {
        JsonValue::Object(_) => match (v.get("value"), v.i64_at("expires_at")) {
            (Some(value), Some(at)) => Some((value, at)),
            _ => None,
        },
        JsonValue::Array(items) => {
            proof {
                json::lemma_item_trees(items@);
            }
            if items.len() == 2 {
                match items[1].as_i64() {
                    Some(at) => Some((&items[0], at)),
                    None => None,
                }
            } else {
                None
            }
        },
        _ => None,
    }
}

/// What reading a value with an end of life gives.
#[derive(Debug)]
pub enum TimedRead {
    /// The value has come to its end: its key is to be removed.
    Expired,
    /// The value.
    Alive(JsonValue),
}

/// What is stored, read at the time `now`: nothing where it is not a value with an end of life,
/// else the value while its time is not over.
pub open spec fn alive_at(tree: Option<JsonTree>, now: i64) -> Option<Option<JsonTree>> {
    match tree {
        None => None,
        Some(tree) => match timed_in(tree) {
            None => None,
            Some((value, expires_at)) => if now > expires_at {
                Some(None)
            } else {
                Some(Some(value))
            },
        },
    }
}

/// What reading a record gives: the words of `refusal` where the bytes are no record, else the value
/// while its time is not over.
pub open spec fn is_read_of(
    r: Result<TimedRead, PrivchatSDKError>,
    tree: Option<JsonTree>,
    refusal: Option<Seq<char>>,
    now: i64,
) -> bool {
    match refusal {
        Some(why) => r is Err && r->Err_0@ == ErrorModel::Serialization(
            "反序列化过期值失败: "@ + why,
        ),
        None => match alive_at(tree, now) {
            Some(Some(value)) => r is Ok && (r->Ok_0 matches TimedRead::Alive(v) && v@ == value),
            Some(None) => r is Ok && r->Ok_0 is Expired,
            None => r is Err && (r->Err_0@ matches ErrorModel::Serialization(m)
                && text::begins_with(m, "反序列化过期值失败: "@)),
        },
    }
}

fn unreadable_record(why: &str) -> (r: PrivchatSDKError)
    ensures
        r@ == ErrorModel::Serialization("反序列化过期值失败: "@ + why@),
        r@ matches ErrorModel::Serialization(m) && text::begins_with(m, "反序列化过期值失败: "@),
{
    let mut message = "反序列化过期值失败: ".to_owned();
    message.append(why);
    proof {
        let head = "反序列化过期值失败: "@;
        assert((head + why@).take(head.len() as int) =~= head);
    }
    PrivchatSDKError::Serialization(message)
}

/// Reads a value with an end of life out of what was parsed; `refusal` says why it is no such record,
/// if it is none.
pub fn read_timed(parsed: &Option<JsonValue>, refusal: &Option<String>, now: i64) -> (r: Result<
    TimedRead,
    PrivchatSDKError,
>)
    ensures
        is_read_of(
            r,
            match *parsed {
                Some(v) => Some(v@),
                None => None,
            },
            json::opt_view(*refusal),
            now,
        ),
{
    if let Some(why) = refusal {
        return Err(unreadable_record(why.as_str()));
    }
    match parsed {
        Some(v) => match timed(v) {
            Some((value, expires_at)) => {
                if now > expires_at {
                    Ok(TimedRead::Expired)
                } else {
                    Ok(TimedRead::Alive(value.duplicate()))
                }
            },
            None => Err(unreadable_record("not a value with an end of life")),
        },
        None => Err(unreadable_record("not a value")),
    }
}

impl KvStore {
    /// Reads the bytes of a value with an end of life. `refusal` says why they are no record of a value
    /// and its end, if they are none.
    pub fn get_with_ttl(bytes: &Vec<u8>, refusal: &Option<String>, now: i64) -> (r: Result<
        TimedRead,
        PrivchatSDKError,
    >)
        ensures
            is_read_of(r, json::json_parsed_bytes(bytes@), json::opt_view(*refusal), now),
    {
        let parsed = match parse_json_bytes(bytes.as_slice()) {
            Ok(v) => Some(v),
            Err(_) => None,
        };
        read_timed(&parsed, refusal, now)
    }
}

impl KvStore {
    /// The bytes that are stored for a value that lives for a time from now on. They are read back
    /// until then, where the value does not nest too deep and holds no number with a fraction.
    pub fn set_with_ttl(value: JsonValue, now: i64, ttl_seconds: u64) -> (r: Vec<u8>)
        requires
            i64::MIN <= now + (ttl_seconds as i64) <= i64::MAX,
        ensures
            r@ == json::json_bytes(timed_tree(value@, (now + (ttl_seconds as i64)) as i64)),
            json::json_depth(value) <= 126 && json::is_whole(value) ==> forall|later: i64|
                #[trigger] alive_at(json::json_parsed_bytes(r@), later) == Some(
                    if later > now + (ttl_seconds as i64) {
                        None
                    } else {
                        Some(value@)
                    },
                ),
    {
        let ghost tree = value@;
        let end: i64 = expiry(now, ttl_seconds);
        let r = write_json_bytes(&with_expiry(value, end));
        proof {
            assert forall|later: i64|
                json::json_parsed_bytes(r@) == Some(timed_tree(tree, end)) implies #[trigger] alive_at(
                json::json_parsed_bytes(r@),
                later,
            ) == Some(
                if later > end {
                    None
                } else {
                    Some(tree)
                },
            ) by {
                law_a_timed_value_lives_until_its_end(tree, end, later);
            }
        }
        r
    }
}

/// A stored pair of key and value.
#[derive(Debug)]
pub struct KvPair {
    pub key: Vec<u8>,
    pub value: Vec<u8>,
}

/// A stored pair, and why its value is no record of a value and its end, if it is none.
#[derive(Debug)]
pub struct TimedPair {
    pub key: Vec<u8>,
    pub value: Vec<u8>,
    pub refusal: Option<String>,
}

/// Whether a stored value is a record that has come to its end.
pub open spec fn is_over(pair: TimedPair, now: i64) -> bool {
    pair.refusal is None && alive_at(json::json_parsed_bytes(pair.value@), now) == Some(
        None::<JsonTree>,
    )
}

/// The keys of the values that have come to their end, in order.
pub open spec fn keys_over(pairs: Seq<TimedPair>, now: i64) -> Seq<Seq<u8>>
    decreases pairs.len(),
{
    if pairs.len() == 0 {
        Seq::empty()
    } else {
        let before = keys_over(pairs.drop_last(), now);
        if is_over(pairs.last(), now) {
            before.push(pairs.last().key@)
        } else {
            before
        }
    }
}

fn copy_bytes(bytes: &Vec<u8>) -> (r: Vec<u8>)
    ensures
        r@ == bytes@,
{
    let mut out: Vec<u8> = Vec::new();
    let length: usize = bytes.len();
    let mut i: usize = 0;
    while i < length
        invariant
            i <= length == bytes@.len(),
            out@ == bytes@.take(i as int),
        decreases length - i,
    {
        out.push(bytes[i]);
        i = i + 1;
    }
    out
}

impl KvStore {
    /// The keys that a clean-up at the time `now` removes. A value that has no end of life stays.
    pub fn cleanup_expired(pairs: &Vec<TimedPair>, now: i64) -> (r: Vec<Vec<u8>>)
        ensures
            Seq::new(r@.len(), |i: int| r@[i]@) == keys_over(pairs@, now),
    {
        let mut out: Vec<Vec<u8>> = Vec::new();
        let length: usize = pairs.len();
        let mut i: usize = 0;
        proof {
            assert(pairs@.take(0) =~= Seq::<TimedPair>::empty());
            assert(Seq::new(out@.len(), |j: int| out@[j]@) =~= Seq::<Seq<u8>>::empty());
        }
        while i < length
            invariant
                i <= length == pairs@.len(),
                Seq::new(out@.len(), |j: int| out@[j]@) == keys_over(pairs@.take(i as int), now),
            decreases length - i,
        {
            proof {
                assert(pairs@.take(i + 1).drop_last() =~= pairs@.take(i as int));
                assert(pairs@.take(i + 1).last() == pairs@[i as int]);
            }
            let over = match Self::get_with_ttl(&pairs[i].value, &pairs[i].refusal, now) {
                Ok(TimedRead::Expired) => true,
                _ => false,
            };
            if over {
                let ghost before = Seq::new(out@.len(), |j: int| out@[j]@);
                out.push(copy_bytes(&pairs[i].key));
                assert(Seq::new(out@.len(), |j: int| out@[j]@) =~= before.push(
                    pairs@[i as int].key@,
                ));
            }
            i = i + 1;
        }
        assert(pairs@.take(i as int) =~= pairs@);
        out
    }
}

/// Whether an error says that bytes are no stored value.
pub open spec fn is_unreadable(e: ErrorModel) -> bool {
    e matches ErrorModel::Serialization(m) && text::begins_with(m, "反序列化值失败: "@)
}

/// A key and the value that is stored under it.
#[derive(Debug)]
pub struct KvEntry {
    pub key: Vec<u8>,
    pub value: JsonValue,
}

fn read_value(bytes: &Vec<u8>) -> (r: Result<JsonValue, PrivchatSDKError>)
    ensures
        match json::json_parsed_bytes(bytes@) {
            Some(tree) => r is Ok && r->Ok_0@ == tree,
            None => r is Err && is_unreadable(r->Err_0@),
        },
{
    match parse_json_bytes(bytes.as_slice()) {
        Ok(v) => Ok(v),
        Err(why) => {
            let mut message = "反序列化值失败: ".to_owned();
            message.append(why.as_str());
            proof {
                let head = "反序列化值失败: "@;
                assert((head + why@).take(head.len() as int) =~= head);
            }
            Err(PrivchatSDKError::Serialization(message))
        },
    }
}

impl KvStore {
    /// The bytes that are stored for a value. They are read back as the same value, where it does not
    /// nest too deep and holds no number with a fraction.
    pub fn set(value: &JsonValue) -> (r: Vec<u8>)
        ensures
            r@ == json::json_bytes(value@),
            json::json_depth(*value) <= 127 && json::is_whole(*value) ==> json::json_parsed_bytes(r@)
                == Some(value@),
    {
        write_json_bytes(value)
    }

    /// The value that is stored as bytes, where any are stored.
    pub fn get(stored: &Option<Vec<u8>>) -> (r: Result<Option<JsonValue>, PrivchatSDKError>)
        ensures
            match *stored {
                None => r is Ok && r->Ok_0 is None,
                Some(bytes) => match json::json_parsed_bytes(bytes@) {
                    Some(tree) => r is Ok && (r->Ok_0 matches Some(v) && v@ == tree),
                    None => r is Err && is_unreadable(r->Err_0@),
                },
            },
    {
        match stored {
            Some(bytes) => match read_value(bytes) {
                Ok(v) => Ok(Some(v)),
                Err(e) => Err(e),
            },
            None => Ok(None),
        }
    }

    /// The bytes that are stored for values, one for each in their order.
    pub fn set_batch(values: &Vec<JsonValue>) -> (r: Vec<Vec<u8>>)
        ensures
            r@.len() == values@.len(),
            forall|i: int|
                0 <= i < values@.len() ==> (#[trigger] r@[i])@ == json::json_bytes(values@[i]@) && (
                json::json_depth(values@[i]) <= 127 && json::is_whole(values@[i])
                    ==> json::json_parsed_bytes(r@[i]@) == Some(values@[i]@)),
    {
        let mut out: Vec<Vec<u8>> = Vec::new();
        let mut i: usize = 0;
        while i < values.len()
            invariant
                i <= values@.len(),
                out@.len() == i,
                forall|k: int|
                    0 <= k < i ==> (#[trigger] out@[k])@ == json::json_bytes(values@[k]@) && (
                    json::json_depth(values@[k]) <= 127 && json::is_whole(values@[k])
                        ==> json::json_parsed_bytes(out@[k]@) == Some(values@[k]@)),
            decreases values@.len() - i,
        {
            out.push(Self::set(&values[i]));
            i = i + 1;
        }
        out
    }

    /// The values of the pairs that a scan found, in their order; an error where one is unreadable.
    pub fn scan_prefix(pairs: &Vec<KvPair>) -> (r: Result<Vec<KvEntry>, PrivchatSDKError>)
        ensures
            match r {
                Ok(entries) => {
                    &&& entries@.len() == pairs@.len()
                    &&& forall|i: int|
                        0 <= i < pairs@.len() ==> (#[trigger] entries@[i]).key@ == pairs@[i].key@
                            && json::json_parsed_bytes(pairs@[i].value@) == Some(entries@[i].value@)
                },
                Err(e) => {
                    &&& is_unreadable(e@)
                    &&& exists|i: int|
                        0 <= i < pairs@.len() && json::json_parsed_bytes(
                            (#[trigger] pairs@[i]).value@,
                        ) is None
                },
            },
    {
        let mut out: Vec<KvEntry> = Vec::new();
        let mut i: usize = 0;
        while i < pairs.len()
            invariant
                i <= pairs@.len(),
                out@.len() == i,
                forall|k: int|
                    0 <= k < i ==> (#[trigger] out@[k]).key@ == pairs@[k].key@
                        && json::json_parsed_bytes(pairs@[k].value@) == Some(out@[k].value@),
            decreases pairs@.len() - i,
        {
            let pair = &pairs[i];
            match read_value(&pair.value) {
                Ok(value) => {
                    out.push(KvEntry { key: copy_bytes(&pair.key), value });
                },
                Err(e) => {
                    assert(json::json_parsed_bytes(pairs@[i as int].value@) is None);
                    return Err(e);
                },
            }
            i = i + 1;
        }
        Ok(out)
    }
}

/// What the trees hold: under the name of each tree, the bytes of each key.
pub struct KvContents {
    pub trees: Map<Seq<char>, Map<Seq<u8>, Seq<u8>>>,
}

/// A change of what the tree in use holds.
pub enum KvWrite {
    Put { key: Seq<u8>, bytes: Seq<u8> },
    Remove { key: Seq<u8> },
}

impl KvContents {
    /// What a user's tree holds.
    pub open spec fn of(self, uid: Seq<char>) -> Map<Seq<u8>, Seq<u8>> {
        if self.trees.contains_key(tree_of(uid)) {
            self.trees[tree_of(uid)]
        } else {
            Map::empty()
        }
    }

    /// What is stored under a key in the tree in use.
    pub open spec fn stored(self, store: KvModel, key: Seq<u8>) -> Result<
        Option<Seq<u8>>,
        ErrorModel,
    > {
        match store.tree_user() {
            Ok(uid) => Ok(
                if self.of(uid).contains_key(key) {
                    Some(self.of(uid)[key])
                } else {
                    None
                },
            ),
            Err(e) => Err(e),
        }
    }

    /// The entries of the tree in use whose keys begin with a prefix.
    pub open spec fn scanned(self, store: KvModel, prefix: Seq<u8>) -> Result<
        Map<Seq<u8>, Seq<u8>>,
        ErrorModel,
    > {
        match store.tree_user() {
            Ok(uid) => Ok(
                self.of(uid).restrict(
                    Set::new(
                        |key: Seq<u8>|
                            prefix.len() <= key.len() && key.take(prefix.len() as int) == prefix,
                    ),
                ),
            ),
            Err(e) => Err(e),
        }
    }

    /// What the trees hold after a change in the tree in use; nothing changes where none is.
    pub open spec fn after(self, store: KvModel, write: KvWrite) -> KvContents {
        match store.tree_user() {
            Ok(uid) => KvContents {
                trees: self.trees.insert(
                    tree_of(uid),
                    match write {
                        KvWrite::Put { key, bytes } => self.of(uid).insert(key, bytes),
                        KvWrite::Remove { key } => self.of(uid).remove(key),
                    },
                ),
            },
            Err(_) => self,
        }
    }

    /// What the trees hold after changes, one by one.
    pub open spec fn after_all(self, store: KvModel, writes: Seq<KvWrite>) -> KvContents
        decreases writes.len(),
    {
        if writes.len() == 0 {
            self
        } else {
            self.after_all(store, writes.drop_last()).after(store, writes.last())
        }
    }
}

proof fn lemma_changes_stay_in_one_tree(
    contents: KvContents,
    store: KvModel,
    uid: Seq<char>,
    writes: Seq<KvWrite>,
    other: Seq<char>,
)
    requires
        store.tree_user() == Ok::<Seq<char>, ErrorModel>(uid),
        other != uid,
    ensures
        contents.after_all(store, writes).of(other) == contents.of(other),
    decreases writes.len(),
{
    if writes.len() > 0 {
        lemma_changes_stay_in_one_tree(contents, store, uid, writes.drop_last(), other);
        if tree_of(uid) == tree_of(other) {
            law_trees_are_apart(uid, other);
        }
    }
}

/// What a user stores is not seen by another user, and is seen again, as it was stored, once the first
/// user is back, whatever the other has stored or removed meanwhile.
pub proof fn law_users_do_not_see_each_other(
    store: KvModel,
    contents: KvContents,
    a: Seq<char>,
    b: Seq<char>,
    key: Seq<u8>,
    bytes: Seq<u8>,
    writes: Seq<KvWrite>,
    prefix: Seq<u8>,
)
    requires
        a != b,
    ensures
        ({
            let with_a = store.switched(a);
            let stored = contents.after(with_a, KvWrite::Put { key, bytes });
            let with_b = with_a.switched(b);
            let later = stored.after_all(with_b, writes);
            let back = with_b.switched(a);
            &&& stored.stored(with_a, key) == Ok::<Option<Seq<u8>>, ErrorModel>(Some(bytes))
            &&& forall|k: Seq<u8>| #[trigger]
                stored.stored(with_b, k) == contents.stored(with_b, k)
            &&& !contents.of(b).contains_key(key) ==> stored.stored(with_b, key) == Ok::<
                Option<Seq<u8>>,
                ErrorModel,
            >(None)
            &&& stored.scanned(with_b, prefix) == contents.scanned(with_b, prefix)
            &&& later.stored(back, key) == Ok::<Option<Seq<u8>>, ErrorModel>(Some(bytes))
            &&& later.scanned(back, prefix) == stored.scanned(with_a, prefix)
        }),
{
    let with_a = store.switched(a);
    let stored = contents.after(with_a, KvWrite::Put { key, bytes });
    let with_b = with_a.switched(b);
    if tree_of(a) == tree_of(b) {
        law_trees_are_apart(a, b);
    }
    assert(stored.of(b) == contents.of(b));
    lemma_changes_stay_in_one_tree(stored, with_b, b, writes, a);
}

/// A value with an end of life is read back until its time is over, and not after.
pub proof fn law_a_timed_value_lives_until_its_end(value: JsonTree, expires_at: i64, now: i64)
    ensures
        alive_at(Some(timed_tree(value, expires_at)), now) == Some(
            if now > expires_at {
                None
            } else {
                Some(value)
            },
        ),
{
    reveal_strlit("value");
    reveal_strlit("expires_at");
    assert("value"@.len() != "expires_at"@.len());
    let tree = timed_tree(value, expires_at);
    assert(tree.get("value"@) == Some(value));
    assert(tree.i64_at("expires_at"@) == Some(expires_at));
}

/// How much a tree holds. The sizes are estimates.
#[derive(Debug, Clone, Copy, PartialEq, Eq)]
pub struct KvStats {
    pub tree_size: u64,
    pub key_count: u64,
    pub total_keys: u64,
    pub storage_size: u64,
}

impl KvStore {
    /// How much a tree of so many keys holds, at 256 bytes for each.
    pub fn get_stats(key_count: u64) -> (r: KvStats)
        requires
            key_count * 256 <= u64::MAX,
        ensures
            r.key_count == key_count,
            r.total_keys == key_count,
            r.tree_size == key_count * 256,
            r.storage_size == key_count * 256,
    {
        let tree_size: u64 = key_count * 256;
        KvStats { tree_size, key_count, total_keys: key_count, storage_size: tree_size }
    }
}

/// Opening is tried again just where another process holds the lock and fewer than eight tries were
/// made; the first pause is three tenths of a second.
pub proof fn law_only_a_locked_store_is_tried_again(attempt: u32, message: Seq<char>)
    ensures
        retry_after(attempt, message) is After <==> is_lock_error(message) && attempt < 7,
        is_lock_error(message) ==> retry_after(0, message) == OpenRetry::After(300),
{
    reveal_with_fuel(power_of_two, 1);
}

/// A lock shows by any of three words, wherever they stand in the message.
pub proof fn law_a_lock_shows_by_its_words(before: Seq<char>, after: Seq<char>)
    ensures
        is_lock_error(before + "could not acquire lock"@ + after),
        is_lock_error(before + "Resource temporarily unavailable"@ + after),
        is_lock_error(before + "WouldBlock"@ + after),
{
    lemma_word_inside(before, "could not acquire lock"@, after);
    lemma_word_inside(before, "Resource temporarily unavailable"@, after);
    lemma_word_inside(before, "WouldBlock"@, after);
}

proof fn lemma_word_inside(before: Seq<char>, word: Seq<char>, after: Seq<char>)
    ensures
        text::contains(before + word + after, word),
{
    let s = before + word + after;
    let rest = s.skip(before.len() as int);
    assert(rest.take(word.len() as int) =~= word);
    assert(text::begins_with(rest, word));
}

/// What was put under a key is read until it is removed or put anew, and other keys stay as they were.
pub proof fn law_a_read_gives_the_last_write(
    store: KvModel,
    contents: KvContents,
    key: Seq<u8>,
    bytes: Seq<u8>,
    other: Seq<u8>,
)
    requires
        store.tree_user() is Ok,
    ensures
        contents.after(store, KvWrite::Put { key, bytes }).stored(store, key) == Ok::<_, ErrorModel>(
            Some(bytes),
        ),
        contents.after(store, KvWrite::Remove { key }).stored(store, key) == Ok::<_, ErrorModel>(
            None::<Seq<u8>>,
        ),
        other != key ==> contents.after(store, KvWrite::Put { key, bytes }).stored(store, other)
            == contents.stored(store, other),
        other != key ==> contents.after(store, KvWrite::Remove { key }).stored(store, other)
            == contents.stored(store, other),
{
}

/// A scan gives just the pairs whose keys begin with the prefix.
pub proof fn law_a_scan_gives_what_has_the_prefix(
    store: KvModel,
    contents: KvContents,
    prefix: Seq<u8>,
    rest: Seq<u8>,
    key: Seq<u8>,
)
    requires
        store.tree_user() is Ok,
    ensures
        contents.scanned(store, prefix) matches Ok(found) && {
            &&& found.contains_key(prefix + rest) <==> contents.stored(
                store,
                prefix + rest,
            )->Ok_0 is Some
            &&& found.contains_key(prefix + rest) ==> contents.stored(store, prefix + rest) == Ok::<
                _,
                ErrorModel,
            >(Some(found[prefix + rest]))
            &&& found.contains_key(key) ==> key.len() >= prefix.len() && key.subrange(
                0,
                prefix.len() as int,
            ) == prefix
        },
{
    assert((prefix + rest).take(prefix.len() as int) =~= prefix);
}

/// Nothing is read or written before a user's tree is in use, or after it was closed.
pub proof fn law_a_store_needs_a_tree(
    store: KvModel,
    contents: KvContents,
    key: Seq<u8>,
    write: KvWrite,
)
    ensures
        store.current_user is None ==> contents.stored(store, key) == Err::<Option<Seq<u8>>, _>(
            ErrorModel::NotConnected,
        ),
        store.current_user matches Some(uid) ==> (!store.trees.contains(uid) ==> contents.stored(store, key)
            == Err::<Option<Seq<u8>>, _>(ErrorModel::KvStore("用户 Tree 不存在"@))),
        store.tree_user() is Err ==> contents.after(store, write) == contents,
        store.tree_user() is Ok <==> (store.current_user matches Some(uid) && store.trees.contains(uid)),
{
}

/// A counter that is not there counts as 0, and a counter is what its text says.
pub proof fn law_a_counter_begins_at_zero(value: int, delta: i64)
    requires
        i64::MIN <= value <= i64::MAX,
    ensures
        counter_value(None) == Some(0int),
        counter_value(Some(text::signed_decimal(value))) == Some(value),
        counter_after(None, seq![delta]) == Some(text::signed_decimal(delta as int)),
{
    text::law_signed_decimal_round_trip(value);
    reveal_with_fuel(counter_after, 2);
    assert(seq![delta].drop_last() =~= Seq::<i64>::empty());
}

/// The keys that are over are those of values past their end, in order; values that cannot be read are
/// not removed.
pub proof fn law_only_values_past_their_end_are_removed(
    pairs: Seq<TimedPair>,
    pair: TimedPair,
    now: i64,
)
    ensures
        keys_over(Seq::empty(), now).len() == 0,
        pair.refusal is Some ==> keys_over(pairs.push(pair), now) == keys_over(pairs, now),
        pair.refusal is None ==> (match json::json_parsed_bytes(pair.value@) {
            None => keys_over(pairs.push(pair), now) == keys_over(pairs, now),
            Some(tree) => match timed_in(tree) {
                None => keys_over(pairs.push(pair), now) == keys_over(pairs, now),
                Some((value, end)) => keys_over(pairs.push(pair), now) == (if now > end {
                    keys_over(pairs, now).push(pair.key@)
                } else {
                    keys_over(pairs, now)
                }),
            },
        }),
{
    assert(pairs.push(pair).drop_last() =~= pairs);
}

/// A value with an end is read from an object and from a pair alike.
pub proof fn law_a_timed_value_is_read_from_a_pair(value: JsonTree, end: i64)
    ensures
        timed_in(JsonTree::Array(seq![value, JsonTree::Int(end as int)])) == Some((value, end)),
        timed_in(timed_tree(value, end)) == Some((value, end)),
        timed_in(JsonTree::Array(seq![value])) is None,
        timed_in(JsonTree::Null) is None,
{
    reveal_strlit("value");
    reveal_strlit("expires_at");
    assert("value"@.len() == 5 && "expires_at"@.len() == 10);
}

/// A timed value is given out while it lives, is over after its end, and cannot be had where it was
/// refused or cannot be read.
pub proof fn law_a_timed_read_tells_life_from_end(
    r: Result<TimedRead, PrivchatSDKError>,
    value: JsonTree,
    end: i64,
    refusal: Seq<char>,
    now: i64,
)
    ensures
        is_read_of(r, Some(timed_tree(value, end)), None, now) ==> (r is Ok && (r->Ok_0 is Expired
            <==> now > end) && (r->Ok_0 matches TimedRead::Alive(v) ==> v@ == value && now <= end)),
        is_read_of(r, None, None, now) ==> r is Err && r->Err_0@ is Serialization,
        is_read_of(r, Some(timed_tree(value, end)), Some(refusal), now) ==> r is Err && r->Err_0@
            == ErrorModel::Serialization("反序列化过期值失败: "@ + refusal),
{
    law_a_timed_value_lives_until_its_end(value, end, now);
}

} // verus!
