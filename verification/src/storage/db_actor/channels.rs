//! The channel list: one entry for each conversation, the latest first.

use vstd::prelude::*;
use crate::order;
use crate::order::{Ranked, stable_sort};
use crate::storage::entities::Channel;

verus! {

impl Channel {
    /// Whether the channel is a conversation of two users. The types 0 and 1 both mean that.
    pub open spec fn direct(self) -> bool {
        self.channel_type == 0 || self.channel_type == 1
    }

    /// The time of the last message; 0 where there was none.
    pub open spec fn last_time(self) -> i64 {
        match self.last_msg_timestamp {
            Some(t) => t,
            None => 0,
        }
    }

    /// Whether the channel is a conversation of two users.
    pub fn is_direct(&self) -> (r: bool)
        ensures
            r == self.direct(),
    {
        self.channel_type == 0 || self.channel_type == 1
    }

    /// The time of the last message; 0 where there was none.
    pub fn last_message_time(&self) -> (r: i64)
        ensures
            r == self.last_time(),
    {
        match self.last_msg_timestamp {
            Some(t) => t,
            None => 0,
        }
    }
}

/// Channels rank by the time of their last message, the latest first.
impl Ranked for Channel {
    open spec fn rank(&self) -> (int, int, int) {
        (-(self.last_time() as int), 0, 0)
    }

    fn ranks_before(&self, other: &Self) -> (r: bool) {
        self.last_message_time() > other.last_message_time()
    }
}

/// A sum, kept within the range of `i32`.
pub open spec fn saturated(sum: int) -> i32 {
    if sum > i32::MAX {
        i32::MAX
    } else if sum < i32::MIN {
        i32::MIN
    } else {
        sum as i32
    }
}

/// The sum of two counts, kept within the range of `i32`.
pub fn saturating_sum(a: i32, b: i32) -> (r: i32)
    ensures
        r == saturated(a + b),
{
    let sum: i64 = a as i64 + b as i64;
    if sum > i32::MAX as i64 {
        i32::MAX
    } else if sum < i32::MIN as i64 {
        i32::MIN
    } else {
        sum as i32
    }
}

/// Two records of one direct conversation as one: the later time with its position, the unread
/// counts together, and the name and picture of the later record where it has them.
pub open spec fn merged(existing: Channel, next: Channel) -> Channel {
    let later = next.last_time() >= existing.last_time();
    Channel {
        channel_type: 1,
        last_msg_timestamp: if later {
            next.last_msg_timestamp
        } else {
            existing.last_msg_timestamp
        },
        last_msg_pts: if later {
            next.last_msg_pts
        } else {
            existing.last_msg_pts
        },
        unread_count: saturated(existing.unread_count + next.unread_count),
        channel_name: if next.channel_name@.len() > 0 {
            next.channel_name
        } else {
            existing.channel_name
        },
        avatar: if next.avatar@.len() > 0 {
            next.avatar
        } else {
            existing.avatar
        },
        ..existing
    }
}

/// A direct conversation as the list shows it.
pub open spec fn as_direct(c: Channel) -> Channel {
    Channel { channel_type: 1, ..c }
}

/// The position of the record with a channel id.
pub open spec fn position(list: Seq<Channel>, channel_id: u64) -> Option<int>
    decreases list.len(),
{
    if list.len() == 0 {
        None
    } else if list.last().channel_id == channel_id {
        Some(list.len() - 1)
    } else {
        position(list.drop_last(), channel_id)
    }
}

/// The direct conversations among the records, one entry for each channel id, in the order in which
/// they first appear.
pub open spec fn direct_list(raw: Seq<Channel>) -> Seq<Channel>
    decreases raw.len(),
{
    if raw.len() == 0 {
        Seq::empty()
    } else {
        let done = direct_list(raw.drop_last());
        let c = raw.last();
        if !c.direct() {
            done
        } else {
            match position(done, c.channel_id) {
                Some(i) => done.update(i, merged(done[i], c)),
                None => done.push(as_direct(c)),
            }
        }
    }
}

/// The records that are no direct conversations, in their order.
pub open spec fn other_list(raw: Seq<Channel>) -> Seq<Channel>
    decreases raw.len(),
{
    if raw.len() == 0 {
        Seq::empty()
    } else if raw.last().direct() {
        other_list(raw.drop_last())
    } else {
        other_list(raw.drop_last()).push(raw.last())
    }
}

/// Whether `out` is the channel list of the records `raw`.
pub open spec fn is_channel_list(raw: Seq<Channel>, out: Seq<Channel>) -> bool {
    order::stably_sorted(direct_list(raw) + other_list(raw), out)
}

proof fn lemma_position(list: Seq<Channel>, channel_id: u64)
    ensures
        match position(list, channel_id) {
            Some(i) => 0 <= i < list.len() && list[i].channel_id == channel_id && forall|j: int|
                i < j < list.len() ==> (#[trigger] list[j]).channel_id != channel_id,
            None => forall|j: int|
                0 <= j < list.len() ==> (#[trigger] list[j]).channel_id != channel_id,
        },
    decreases list.len(),
{
    if list.len() > 0 && list.last().channel_id != channel_id {
        let front = list.drop_last();
        lemma_position(front, channel_id);
        assert(forall|j: int| 0 <= j < front.len() ==> front[j] == list[j]);
    }
}

fn find_channel(list: &Vec<Channel>, channel_id: u64) -> (r: Option<usize>)
    ensures
        match r {
            Some(i) => i < list@.len() && position(list@, channel_id) == Some(i as int),
            None => position(list@, channel_id) is None,
        },
{
    let mut i: usize = list.len();
    while i > 0
        invariant
            i <= list@.len(),
            forall|j: int| i <= j < list@.len() ==> (#[trigger] list@[j]).channel_id != channel_id,
        decreases i,
    {
        i = i - 1;
        if list[i].channel_id == channel_id {
            proof {
                lemma_position(list@, channel_id);
            }
            return Some(i);
        }
    }
    proof {
        lemma_position(list@, channel_id);
    }
    None
}

/// Two records of one direct conversation as one.
pub fn merge_records(existing: &Channel, next: &Channel) -> (r: Channel)
    ensures
        r == merged(*existing, *next),
{
    let mut c = existing.clone();
    if next.last_message_time() >= existing.last_message_time() {
        c.last_msg_timestamp = next.last_msg_timestamp;
        c.last_msg_pts = next.last_msg_pts;
    }
    c.unread_count = saturating_sum(existing.unread_count, next.unread_count);
    if !next.channel_name.as_str().is_empty() {
        c.channel_name = next.channel_name.clone();
    }
    if !next.avatar.as_str().is_empty() {
        c.avatar = next.avatar.clone();
    }
    c.channel_type = 1;
    c
}

/// The channel list of the records that the database holds.
pub fn merge_channels(raw: Vec<Channel>) -> (out: Vec<Channel>)
    ensures
        is_channel_list(raw@, out@),
{
    let mut directs: Vec<Channel> = Vec::new();
    let mut others: Vec<Channel> = Vec::new();
    let mut i: usize = 0;
    while i < raw.len()
        invariant
            i <= raw@.len(),
            directs@ == direct_list(raw@.take(i as int)),
            others@ == other_list(raw@.take(i as int)),
        decreases raw@.len() - i,
    {
        let c = &raw[i];
        proof {
            assert(raw@.take(i + 1).drop_last() =~= raw@.take(i as int));
            assert(raw@.take(i + 1).last() == *c);
        }
        if c.is_direct() {
            match find_channel(&directs, c.channel_id) {
                Some(at) => {
                    let one = merge_records(&directs[at], c);
                    directs.set(at, one);
                },
                None => {
                    let mut one = c.clone();
                    one.channel_type = 1;
                    directs.push(one);
                },
            }
        } else {
            others.push(c.clone());
        }
        i = i + 1;
    }
    proof {
        assert(raw@.take(i as int) =~= raw@);
    }
    directs.append(&mut others);
    stable_sort(directs)
}

/// Whether no two records have one channel id.
pub open spec fn distinct_ids(list: Seq<Channel>) -> bool {
    forall|i: int, j: int|
        0 <= i < j < list.len() ==> (#[trigger] list[i]).channel_id != (
        #[trigger] list[j]).channel_id
}

proof fn lemma_direct_list(raw: Seq<Channel>)
    ensures
        distinct_ids(direct_list(raw)),
        forall|i: int| 0 <= i < direct_list(raw).len() ==> (#[trigger] direct_list(raw)[i]).channel_type == 1,
        forall|r: int| 0 <= r < raw.len() && (#[trigger] raw[r]).direct() ==> exists|i: int|
            0 <= i < direct_list(raw).len() && (#[trigger] direct_list(raw)[i]).channel_id == raw[r].channel_id,
    decreases raw.len(),
{
    if raw.len() > 0 {
        let front = raw.drop_last();
        let done = direct_list(front);
        let c = raw.last();
        let list = direct_list(raw);
        lemma_direct_list(front);
        lemma_position(done, c.channel_id);
        assert forall|r: int| 0 <= r < raw.len() && (#[trigger] raw[r]).direct() implies exists|i: int|
            0 <= i < list.len() && (#[trigger] list[i]).channel_id == raw[r].channel_id by {
            if r < front.len() {
                assert(front[r] == raw[r]);
                let i = choose|i: int|
                    0 <= i < done.len() && (#[trigger] done[i]).channel_id == front[r].channel_id;
                assert(list[i].channel_id == raw[r].channel_id);
            } else {
                match position(done, c.channel_id) {
                    Some(i) => {
                        assert(list[i].channel_id == c.channel_id);
                    },
                    None => {
                        assert(list[list.len() - 1].channel_id == c.channel_id);
                    },
                }
            }
        }
    }
}

proof fn lemma_other_list(raw: Seq<Channel>)
    ensures
        forall|i: int| 0 <= i < other_list(raw).len() ==> !(#[trigger] other_list(raw)[i]).direct(),
        forall|r: int| 0 <= r < raw.len() && !(#[trigger] raw[r]).direct() ==> other_list(raw).contains(
            raw[r],
        ),
    decreases raw.len(),
{
    if raw.len() > 0 {
        let front = raw.drop_last();
        lemma_other_list(front);
        assert forall|r: int| 0 <= r < raw.len() && !(#[trigger] raw[r]).direct() implies other_list(
            raw,
        ).contains(raw[r]) by {
            if r < front.len() {
                assert(front[r] == raw[r]);
                assert(other_list(front).contains(raw[r]));
                let i = choose|i: int|
                    0 <= i < other_list(front).len() && other_list(front)[i] == raw[r];
                assert(other_list(raw)[i] == raw[r]);
            } else {
                assert(other_list(raw)[other_list(raw).len() - 1] == raw[r]);
            }
        }
    }
}

proof fn lemma_twice_counts_two(s: Seq<Channel>, i: int, j: int)
    requires
        0 <= i < j < s.len(),
        s[i] == s[j],
    ensures
        s.to_multiset().count(s[i]) >= 2,
{
    broadcast use vstd::seq_lib::group_to_multiset_ensures;
    broadcast use vstd::multiset::group_multiset_axioms;

    let x = s[i];
    let rest = s.remove(i);
    assert(rest[j - 1] == x);
    assert(rest.contains(x));
    assert(rest.to_multiset().count(x) > 0);
    assert(s =~= rest.insert(i, x));
    assert(s.to_multiset() =~= rest.to_multiset().insert(x));
}

/// The list shows each direct conversation once: no two direct entries share a channel id, and all
/// of them have the type 1.
pub proof fn law_one_entry_for_each_direct_conversation(raw: Seq<Channel>, out: Seq<Channel>)
    requires
        is_channel_list(raw, out),
    ensures
        forall|i: int, j: int|
            0 <= i < j < out.len() && (#[trigger] out[i]).direct() && (#[trigger] out[j]).direct()
                ==> out[i].channel_id != out[j].channel_id,
        forall|i: int| 0 <= i < out.len() && (#[trigger] out[i]).direct() ==> out[i].channel_type == 1,
{
    broadcast use vstd::seq_lib::group_to_multiset_ensures;

    let d = direct_list(raw);
    let o = other_list(raw);
    let both = d + o;
    lemma_direct_list(raw);
    lemma_other_list(raw);
    order::law_sorting_keeps_the_values(both, out);
    assert forall|x: Channel| #[trigger] out.contains(x) && x.direct() implies d.contains(x) by {
        assert(out.to_multiset().count(x) > 0);
        assert(both.contains(x));
        let i = choose|i: int| 0 <= i < both.len() && both[i] == x;
        if i < d.len() {
            assert(d[i] == x);
        } else {
            assert(o[i - d.len()] == x);
        }
    }
    assert forall|i: int| 0 <= i < out.len() && (#[trigger] out[i]).direct() implies out[i].channel_type
        == 1 by {
        assert(out.contains(out[i]));
        let a = choose|a: int| 0 <= a < d.len() && d[a] == out[i];
        assert(d[a].channel_type == 1);
    }
    assert forall|i: int, j: int|
        0 <= i < j < out.len() && (#[trigger] out[i]).direct() && (
        #[trigger] out[j]).direct() implies out[i].channel_id != out[j].channel_id by {
        assert(out.contains(out[i]) && out.contains(out[j]));
        let a = choose|a: int| 0 <= a < d.len() && d[a] == out[i];
        let b = choose|b: int| 0 <= b < d.len() && d[b] == out[j];
        if out[i].channel_id == out[j].channel_id {
            assert(d[a].channel_id == d[b].channel_id);
            assert(a == b);
            lemma_twice_counts_two(out, i, j);
            let x = out[i];
            assert(d.no_duplicates());
            d.lemma_multiset_has_no_duplicates();
            assert(d.to_multiset().count(x) <= 1);
            assert(!o.contains(x)) by {
                if o.contains(x) {
                    let k = choose|k: int| 0 <= k < o.len() && o[k] == x;
                    assert(!o[k].direct());
                }
            }
            assert(o.to_multiset().count(x) == 0);
            vstd::seq_lib::lemma_multiset_commutative(d, o);
            assert(both.to_multiset() =~= d.to_multiset().add(o.to_multiset()));
            assert(both.to_multiset().count(x) <= 1);
        }
    }
}

/// The list leaves no conversation out: it has an entry for every direct one, and every other one
/// as it is.
pub proof fn law_every_conversation_is_listed(raw: Seq<Channel>, out: Seq<Channel>, r: int)
    requires
        is_channel_list(raw, out),
        0 <= r < raw.len(),
    ensures
        raw[r].direct() ==> exists|i: int|
            0 <= i < out.len() && (#[trigger] out[i]).channel_id == raw[r].channel_id
                && out[i].direct(),
        !raw[r].direct() ==> out.contains(raw[r]),
{
    broadcast use vstd::seq_lib::group_to_multiset_ensures;

    let d = direct_list(raw);
    let o = other_list(raw);
    let both = d + o;
    lemma_direct_list(raw);
    lemma_other_list(raw);
    order::law_sorting_keeps_the_values(both, out);
    if raw[r].direct() {
        let i = choose|i: int|
            0 <= i < d.len() && (#[trigger] d[i]).channel_id == raw[r].channel_id;
        let x = d[i];
        assert(x.channel_type == 1);
        assert(both[i] == x);
        assert(both.contains(x));
        assert(both.to_multiset().count(x) > 0);
        assert(out.contains(x));
        let k = choose|k: int| 0 <= k < out.len() && out[k] == x;
        assert(out[k].channel_id == raw[r].channel_id && out[k].direct());
    } else {
        let x = raw[r];
        let i = choose|i: int| 0 <= i < o.len() && o[i] == x;
        assert(both[d.len() + i] == x);
        assert(both.contains(x));
        assert(both.to_multiset().count(x) > 0);
        assert(out.contains(x));
    }
}

/// The list goes from the latest conversation to the oldest.
pub proof fn law_latest_conversation_first(raw: Seq<Channel>, out: Seq<Channel>, i: int, j: int)
    requires
        is_channel_list(raw, out),
        0 <= i < j < out.len(),
    ensures
        out[i].last_time() >= out[j].last_time(),
{
    assert(!order::rank_lt(out[j].rank(), out[i].rank()));
}

/// The unread messages of all records together.
pub open spec fn total_unread(list: Seq<Channel>) -> int
    decreases list.len(),
{
    if list.len() == 0 {
        0
    } else {
        total_unread(list.drop_last()) + list.last().unread_count
    }
}

/// Whether every unread count is a count.
pub open spec fn unread_counts_valid(list: Seq<Channel>) -> bool {
    forall|i: int| 0 <= i < list.len() ==> (#[trigger] list[i]).unread_count >= 0
}

proof fn lemma_total_nonnegative(list: Seq<Channel>)
    requires
        unread_counts_valid(list),
    ensures
        total_unread(list) >= 0,
    decreases list.len(),
{
    if list.len() > 0 {
        assert(unread_counts_valid(list.drop_last())) by {
            assert(forall|i: int| 0 <= i < list.len() - 1 ==> list.drop_last()[i] == list[i]);
        }
        lemma_total_nonnegative(list.drop_last());
        assert(list[list.len() - 1].unread_count >= 0);
    }
}

proof fn lemma_total_of_update(list: Seq<Channel>, i: int, c: Channel)
    requires
        0 <= i < list.len(),
    ensures
        total_unread(list.update(i, c)) == total_unread(list) - list[i].unread_count
            + c.unread_count,
    decreases list.len(),
{
    let new = list.update(i, c);
    if i == list.len() - 1 {
        assert(new.drop_last() =~= list.drop_last());
    } else {
        assert(new.drop_last() =~= list.drop_last().update(i, c));
        lemma_total_of_update(list.drop_last(), i, c);
    }
}

proof fn lemma_member_below_total(list: Seq<Channel>, i: int)
    requires
        unread_counts_valid(list),
        0 <= i < list.len(),
    ensures
        list[i].unread_count <= total_unread(list),
    decreases list.len(),
{
    let front = list.drop_last();
    assert(unread_counts_valid(front)) by {
        assert(forall|k: int| 0 <= k < front.len() ==> front[k] == list[k]);
    }
    lemma_total_nonnegative(front);
    assert(list[list.len() - 1].unread_count >= 0);
    if i < list.len() - 1 {
        lemma_member_below_total(front, i);
        assert(front[i] == list[i]);
    }
}

proof fn lemma_merging_keeps_total(raw: Seq<Channel>)
    requires
        unread_counts_valid(raw),
        total_unread(raw) <= i32::MAX,
    ensures
        total_unread(direct_list(raw)) + total_unread(other_list(raw)) == total_unread(raw),
        unread_counts_valid(direct_list(raw)),
        unread_counts_valid(other_list(raw)),
    decreases raw.len(),
{
    if raw.len() > 0 {
        let front = raw.drop_last();
        let c = raw.last();
        assert(raw[raw.len() - 1].unread_count >= 0);
        assert(unread_counts_valid(front)) by {
            assert(forall|k: int| 0 <= k < front.len() ==> front[k] == raw[k]);
        }
        lemma_merging_keeps_total(front);
        let done = direct_list(front);
        lemma_total_nonnegative(done);
        lemma_total_nonnegative(other_list(front));
        if c.direct() {
            lemma_position(done, c.channel_id);
            match position(done, c.channel_id) {
                Some(i) => {
                    lemma_member_below_total(done, i);
                    lemma_total_of_update(done, i, merged(done[i], c));
                },
                None => {
                    assert(direct_list(raw).drop_last() =~= done);
                },
            }
        } else {
            assert(other_list(raw).drop_last() =~= other_list(front));
        }
    }
}

proof fn lemma_total_is_fold(list: Seq<Channel>, v: int)
    ensures
        list.fold_right(|c: Channel, sum: int| sum + c.unread_count, v) == total_unread(list) + v,
    decreases list.len(),
{
    if list.len() > 0 {
        lemma_total_is_fold(list.drop_last(), v + list.last().unread_count);
    }
}

proof fn lemma_total_of_add(a: Seq<Channel>, b: Seq<Channel>)
    ensures
        total_unread(a + b) == total_unread(a) + total_unread(b),
    decreases b.len(),
{
    if b.len() == 0 {
        assert(a + b =~= a);
    } else {
        assert((a + b).drop_last() =~= a + b.drop_last());
        lemma_total_of_add(a, b.drop_last());
    }
}

/// Merging and sorting lose no unread message, as long as a count can hold them all.
pub proof fn law_unread_messages_are_kept(raw: Seq<Channel>, out: Seq<Channel>)
    requires
        is_channel_list(raw, out),
        unread_counts_valid(raw),
        total_unread(raw) <= i32::MAX,
    ensures
        total_unread(out) == total_unread(raw),
{
    let both = direct_list(raw) + other_list(raw);
    lemma_merging_keeps_total(raw);
    lemma_total_of_add(direct_list(raw), other_list(raw));
    order::law_sorting_keeps_the_values(both, out);
    let f = |c: Channel, sum: int| sum + c.unread_count;
    vstd::seq_lib::lemma_fold_right_permutation(both, out, f, 0);
    lemma_total_is_fold(both, 0);
    lemma_total_is_fold(out, 0);
}

/// Two records of one conversation become one: it is direct, has the last message of the later record,
/// the unread messages of both, and the name and picture of the second record where it has them. The
/// rest is the first record's.
pub proof fn law_two_records_become_one(existing: Channel, next: Channel)
    ensures
        ({
            let m = merged(existing, next);
            let a = if existing.last_msg_timestamp is Some {
                existing.last_msg_timestamp->0
            } else {
                0
            };
            let b = if next.last_msg_timestamp is Some {
                next.last_msg_timestamp->0
            } else {
                0
            };
            &&& m.channel_type == 1 && m.channel_id == existing.channel_id && m.id == existing.id
            &&& b >= a ==> m.last_msg_timestamp == next.last_msg_timestamp && m.last_msg_pts
                == next.last_msg_pts
            &&& b < a ==> m.last_msg_timestamp == existing.last_msg_timestamp && m.last_msg_pts
                == existing.last_msg_pts
            &&& i32::MIN <= existing.unread_count + next.unread_count <= i32::MAX ==> m.unread_count
                == existing.unread_count + next.unread_count
            &&& existing.unread_count + next.unread_count > i32::MAX ==> m.unread_count == i32::MAX
            &&& existing.unread_count + next.unread_count < i32::MIN ==> m.unread_count == i32::MIN
            &&& next.channel_name@.len() > 0 ==> m.channel_name == next.channel_name
            &&& next.channel_name@.len() == 0 ==> m.channel_name == existing.channel_name
            &&& next.avatar@.len() > 0 ==> m.avatar == next.avatar
            &&& next.avatar@.len() == 0 ==> m.avatar == existing.avatar
            &&& m.last_msg_content == existing.last_msg_content && m.username == existing.username
            &&& m.top == existing.top && m.mute == existing.mute && m.save == existing.save
            &&& m.extra == existing.extra && m.channel_remark == existing.channel_remark
        }),
        as_direct(next).channel_type == 1,
        (Channel { channel_type: next.channel_type, ..as_direct(next) }) == next,
{
}

/// Conversations of two users are listed once each and changed by a second record; other channels are
/// listed as they are.
pub proof fn law_other_channels_are_listed_as_they_are(raw: Seq<Channel>, c: Channel)
    ensures
        !(0 <= c.channel_type <= 1) ==> other_list(raw.push(c)) == other_list(raw).push(c) && direct_list(
            raw.push(c),
        ) == direct_list(raw),
        0 <= c.channel_type <= 1 ==> other_list(raw.push(c)) == other_list(raw),
        0 <= c.channel_type <= 1 && position(direct_list(raw), c.channel_id) is None ==> direct_list(
            raw.push(c),
        ) == direct_list(raw).push(as_direct(c)),
        0 <= c.channel_type <= 1 ==> (position(direct_list(raw), c.channel_id) matches Some(i)
            ==> direct_list(raw.push(c)) == direct_list(raw).update(i, merged(direct_list(raw)[i], c))),
{
    assert(raw.push(c).drop_last() =~= raw);
}

} // verus!
