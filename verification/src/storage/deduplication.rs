//! Which messages were processed lately, so that none is processed twice.

use vstd::prelude::*;
use crate::text;
use crate::text::{same_text, u64_text};

verus! {

/// The type of a time of the machine's monotonic clock in `std`.
#[verifier::external_type_specification]
#[verifier::external_body]
pub struct ExInstant(std::time::Instant);

/// `std::time::Instant::now`. Nothing is said of the result: it is the machine's clock.
#[verifier::external_body]
fn instant_now() -> std::time::Instant {
    std::time::Instant::now()
}

/// The nanoseconds of `std::time::Instant::elapsed`. Nothing is said of the result: it is read off
/// the machine's clock.
#[verifier::external_body]
fn nanos_since(start: &std::time::Instant) -> u64 {
    start.elapsed().as_nanos() as u64
}

/// An identifier of a message: a number or a text. A number is the same as its decimal text.
pub trait MessageKey: Sized {
    /// The identifier as a text.
    spec fn key(self) -> Seq<char>;

    /// The identifier as a text.
    fn key_text(self) -> (r: String)
        ensures
            r@ == self.key(),
    ;
}

impl MessageKey for u64 {
    open spec fn key(self) -> Seq<char> {
        text::decimal(self as nat)
    }

    fn key_text(self) -> (r: String) {
        u64_text(self)
    }
}

impl MessageKey for &str {
    open spec fn key(self) -> Seq<char> {
        self@
    }

    fn key_text(self) -> (r: String) {
        self.to_owned()
    }
}

/// A processed message and when it was processed, in nanoseconds.
#[derive(Debug)]
struct Processed {
    key: String,
    at: u64,
}

/// Processed messages with the times at which they were processed.
pub type Records = Seq<(Seq<char>, u64)>;

/// Whether a message is recorded.
pub open spec fn recorded(records: Records, key: Seq<char>) -> bool {
    exists|i: int| 0 <= i < records.len() && (#[trigger] records[i]).0 == key
}

/// Whether no message is recorded twice.
pub open spec fn each_once(records: Records) -> bool {
    forall|i: int, j: int|
        0 <= i < j < records.len() ==> (#[trigger] records[i]).0 != (#[trigger] records[j]).0
}

/// The records without a message.
pub open spec fn without_key(records: Records, key: Seq<char>) -> Records
    decreases records.len(),
{
    if records.len() == 0 {
        Seq::empty()
    } else {
        let before = without_key(records.drop_last(), key);
        if records.last().0 == key {
            before
        } else {
            before.push(records.last())
        }
    }
}

/// Whether a record is kept at the time `now`: it is not older than `retention`.
pub open spec fn is_kept(at: u64, now: u64, retention: u64) -> bool {
    now - at <= retention
}

/// The records that are kept at the time `now`.
pub open spec fn kept(records: Records, now: u64, retention: u64) -> Records
    decreases records.len(),
{
    if records.len() == 0 {
        Seq::empty()
    } else {
        let before = kept(records.drop_last(), now, retention);
        if is_kept(records.last().1, now, retention) {
            before.push(records.last())
        } else {
            before
        }
    }
}

/// The `most` records that were marked last; all of them where there are no more.
pub open spec fn newest(records: Records, most: nat) -> Records {
    if records.len() > most {
        records.skip(records.len() - most)
    } else {
        records
    }
}

/// The records once a message is marked at the time `now`. Records that are too old go when there
/// are more than `threshold` records, and then those that were marked the longest ago go until at
/// most `most` stay.
pub open spec fn marked(
    records: Records,
    key: Seq<char>,
    now: u64,
    retention: u64,
    threshold: nat,
    most: nat,
) -> Records {
    let grown = without_key(records, key).push((key, now));
    if grown.len() > threshold {
        newest(kept(grown, now, retention), most)
    } else {
        newest(grown, most)
    }
}

/// What a manager holds.
pub struct DeduplicationModel {
    pub records: Records,
    /// How long a record is kept, in nanoseconds.
    pub retention: u64,
    pub max_cache_size: usize,
    pub cleanup_threshold: usize,
}

/// Keeps track of processed messages.
#[derive(Debug)]
pub struct DeduplicationManager {
    processed: Vec<Processed>,
    message_retention: u64,
    max_cache_size: usize,
    cleanup_threshold: usize,
    started: std::time::Instant,
}

spec fn records_of(processed: Seq<Processed>) -> Records {
    Seq::new(processed.len(), |i: int| (processed[i].key@, processed[i].at))
}

impl View for DeduplicationManager {
    type V = DeduplicationModel;

    closed spec fn view(&self) -> DeduplicationModel {
        DeduplicationModel {
            records: records_of(self.processed@),
            retention: self.message_retention,
            max_cache_size: self.max_cache_size,
            cleanup_threshold: self.cleanup_threshold,
        }
    }
}

impl DeduplicationManager {
    /// Keeps at most 10000 records, each for an hour, and looks for old ones when there are more than
    /// 8000.
    pub fn new() -> (r: Self)
        ensures
            r@ == (DeduplicationModel {
                records: Seq::empty(),
                retention: 3_600_000_000_000,
                max_cache_size: 10000,
                cleanup_threshold: 8000,
            }),
    {
        let r = DeduplicationManager {
            processed: Vec::new(),
            message_retention: 3_600_000_000_000,
            max_cache_size: 10000,
            cleanup_threshold: 8000,
            started: instant_now(),
        };
        assert(r@.records =~= Seq::<(Seq<char>, u64)>::empty());
        r
    }

    /// Keeps at most `max_cache_size` records, each for so many nanoseconds, and looks for old ones when
    /// the cache is filled to more than four fifths.
    pub fn with_config(message_retention: u64, max_cache_size: usize) -> (r: Self)
        requires
            max_cache_size * 4 <= usize::MAX,
        ensures
            r@ == (DeduplicationModel {
                records: Seq::empty(),
                retention: message_retention,
                max_cache_size,
                cleanup_threshold: (max_cache_size * 4 / 5) as usize,
            }),
    {
        let r = DeduplicationManager {
            processed: Vec::new(),
            message_retention,
            max_cache_size,
            cleanup_threshold: max_cache_size * 4 / 5,
            started: instant_now(),
        };
        assert(r@.records =~= Seq::<(Seq<char>, u64)>::empty());
        r
    }

    /// Whether a message was processed.
    pub fn is_duplicate<K: MessageKey>(&self, message_id: K) -> (r: bool)
        ensures
            r == recorded(self@.records, message_id.key()),
    {
        let key = message_id.key_text();
        let length: usize = self.processed.len();
        let mut i: usize = 0;
        while i < length
            invariant
                i <= length == self.processed@.len(),
                key@ == message_id.key(),
                forall|j: int| 0 <= j < i ==> (#[trigger] self@.records[j]).0 != key@,
            decreases length - i,
        {
            if same_text(self.processed[i].key.as_str(), key.as_str()) {
                assert(self@.records[i as int].0 == key@);
                return true;
            }
            i = i + 1;
        }
        false
    }

    /// Marks a message as processed now.
    pub fn mark_as_processed<K: MessageKey>(&mut self, message_id: K)
        ensures
            exists|now: u64|
                final(self)@ == (DeduplicationModel {
                    records: #[trigger] marked(
                        old(self)@.records,
                        message_id.key(),
                        now,
                        old(self)@.retention,
                        old(self)@.cleanup_threshold as nat,
                        old(self)@.max_cache_size as nat,
                    ),
                    ..old(self)@
                }),
            final(self)@.records.len() <= old(self)@.max_cache_size,
            old(self)@.max_cache_size > 0 ==> recorded(final(self)@.records, message_id.key()),
    {
        let now: u64 = nanos_since(&self.started);
        self.mark_as_processed_at(message_id, now);
    }

    /// Marks a message as processed at a time.
    pub fn mark_as_processed_at<K: MessageKey>(&mut self, message_id: K, now: u64)
        ensures
            final(self)@ == (DeduplicationModel {
                records: marked(
                    old(self)@.records,
                    message_id.key(),
                    now,
                    old(self)@.retention,
                    old(self)@.cleanup_threshold as nat,
                    old(self)@.max_cache_size as nat,
                ),
                ..old(self)@
            }),
            final(self)@.records.len() <= old(self)@.max_cache_size,
            old(self)@.max_cache_size > 0 ==> recorded(final(self)@.records, message_id.key()),
    {
        let key = message_id.key_text();
        let ghost before = self@.records;
        self.forget(key.as_str());
        let ghost rest = self@.records;
        proof {
            if self.max_cache_size > 0 {
                law_a_marked_message_is_a_duplicate(
                    before,
                    message_id.key(),
                    now,
                    self.message_retention,
                    self.cleanup_threshold as nat,
                    self.max_cache_size as nat,
                );
            }
        }
        self.processed.push(Processed { key, at: now });
        assert(self@.records =~= rest.push((message_id.key(), now)));
        if self.processed.len() > self.cleanup_threshold {
            self.cleanup_expired_internal(now);
        }
        self.drop_oldest();
    }

    fn drop_oldest(&mut self)
        ensures
            final(self)@ == (DeduplicationModel {
                records: newest(old(self)@.records, old(self)@.max_cache_size as nat),
                ..old(self)@
            }),
    {
        let length: usize = self.processed.len();
        if length > self.max_cache_size {
            let ghost all = self@.records;
            let start: usize = length - self.max_cache_size;
            let mut rest: Vec<Processed> = Vec::new();
            let mut i: usize = start;
            while i < length
                invariant
                    start <= i <= length == self.processed@.len(),
                    all == self@.records,
                    records_of(rest@) == all.subrange(start as int, i as int),
                decreases length - i,
            {
                let ghost before = rest@;
                rest.push(
                    Processed { key: self.processed[i].key.clone(), at: self.processed[i].at },
                );
                proof {
                    assert(records_of(rest@) =~= records_of(before).push(all[i as int]));
                    assert(all.subrange(start as int, i + 1) =~= all.subrange(
                        start as int,
                        i as int,
                    ).push(all[i as int]));
                }
                i = i + 1;
            }
            assert(all.subrange(start as int, length as int) =~= all.skip(start as int));
            self.processed = rest;
        }
    }

    fn forget(&mut self, key: &str)
        ensures
            final(self)@ == (DeduplicationModel {
                records: without_key(old(self)@.records, key@),
                ..old(self)@
            }),
    {
        let ghost all = self@.records;
        let mut rest: Vec<Processed> = Vec::new();
        let length: usize = self.processed.len();
        let mut i: usize = 0;
        proof {
            assert(all.take(0) =~= Seq::<(Seq<char>, u64)>::empty());
            assert(records_of(rest@) =~= Seq::<(Seq<char>, u64)>::empty());
        }
        while i < length
            invariant
                i <= length == self.processed@.len(),
                all == self@.records,
                records_of(rest@) == without_key(all.take(i as int), key@),
            decreases length - i,
        {
            proof {
                assert(all.take(i + 1).drop_last() =~= all.take(i as int));
                assert(all.take(i + 1).last() == all[i as int]);
            }
            if !same_text(self.processed[i].key.as_str(), key) {
                let ghost before = rest@;
                rest.push(
                    Processed { key: self.processed[i].key.clone(), at: self.processed[i].at },
                );
                assert(records_of(rest@) =~= records_of(before).push(all[i as int]));
            }
            i = i + 1;
        }
        assert(all.take(i as int) =~= all);
        self.processed = rest;
    }

    /// Removes the records that are too old at a time.
    pub fn cleanup_expired_internal(&mut self, now: u64)
        ensures
            final(self)@ == (DeduplicationModel {
                records: kept(old(self)@.records, now, old(self)@.retention),
                ..old(self)@
            }),
    {
        let ghost all = self@.records;
        let ghost retention = self.message_retention;
        let mut rest: Vec<Processed> = Vec::new();
        let length: usize = self.processed.len();
        let mut i: usize = 0;
        proof {
            assert(all.take(0) =~= Seq::<(Seq<char>, u64)>::empty());
            assert(records_of(rest@) =~= Seq::<(Seq<char>, u64)>::empty());
        }
        while i < length
            invariant
                i <= length == self.processed@.len(),
                all == self@.records,
                retention == self.message_retention,
                records_of(rest@) == kept(all.take(i as int), now, retention),
            decreases length - i,
        {
            proof {
                assert(all.take(i + 1).drop_last() =~= all.take(i as int));
                assert(all.take(i + 1).last() == all[i as int]);
            }
            let at: u64 = self.processed[i].at;
            if now <= at || now - at <= self.message_retention {
                let ghost before = rest@;
                rest.push(Processed { key: self.processed[i].key.clone(), at });
                assert(records_of(rest@) =~= records_of(before).push(all[i as int]));
            }
            i = i + 1;
        }
        assert(all.take(i as int) =~= all);
        self.processed = rest;
    }

    /// Removes the records that are too old now.
    pub fn cleanup_expired(&mut self)
        ensures
            exists|now: u64|
                final(self)@ == (DeduplicationModel {
                    records: #[trigger] kept(old(self)@.records, now, old(self)@.retention),
                    ..old(self)@
                }),
    {
        let now: u64 = nanos_since(&self.started);
        self.cleanup_expired_internal(now);
    }

    /// How many messages are recorded, and how many can be.
    pub fn get_stats(&self) -> (r: (usize, usize))
        ensures
            r.0 == self@.records.len(),
            r.1 == self@.max_cache_size,
    {
        (self.processed.len(), self.max_cache_size)
    }

    /// Forgets all records.
    pub fn clear(&mut self)
        ensures
            final(self)@ == (DeduplicationModel { records: Seq::empty(), ..old(self)@ }),
    {
        self.processed = Vec::new();
        assert(self@.records =~= Seq::<(Seq<char>, u64)>::empty());
    }
}

impl Default for DeduplicationManager {
    fn default() -> (r: Self)
        ensures
            r@ == (DeduplicationModel {
                records: Seq::empty(),
                retention: 3_600_000_000_000,
                max_cache_size: 10000,
                cleanup_threshold: 8000,
            }),
    {
        DeduplicationManager::new()
    }
}

/// A message is a duplicate once it is marked, whatever the clean-up removes, unless the cache is made
/// for no message at all.
pub proof fn law_a_marked_message_is_a_duplicate(
    records: Records,
    key: Seq<char>,
    now: u64,
    retention: u64,
    threshold: nat,
    most: nat,
)
    requires
        most > 0,
    ensures
        recorded(marked(records, key, now, retention, threshold, most), key),
{
    let grown = without_key(records, key).push((key, now));
    assert(grown.last() == (key, now));
    assert(kept(grown, now, retention).last() == (key, now));
    let after = marked(records, key, now, retention, threshold, most);
    assert(after.last() == (key, now));
    assert(after[after.len() - 1].0 == key);
}

/// However many messages are marked, no more are recorded than the cache is made for; and where not
/// all can stay, it is those marked last that do.
pub proof fn law_the_cache_is_never_too_large(
    records: Records,
    key: Seq<char>,
    now: u64,
    retention: u64,
    threshold: nat,
    most: nat,
)
    ensures
        marked(records, key, now, retention, threshold, most).len() <= most,
        ({
            let grown = without_key(records, key).push((key, now));
            let young = if grown.len() > threshold {
                kept(grown, now, retention)
            } else {
                grown
            };
            let after = marked(records, key, now, retention, threshold, most);
            after.len() == (if young.len() < most {
                young.len()
            } else {
                most
            }) && after == young.skip(young.len() - after.len())
        }),
{
    let grown = without_key(records, key).push((key, now));
    let young = if grown.len() > threshold {
        kept(grown, now, retention)
    } else {
        grown
    };
    assert(young.skip(0) =~= young);
}

/// Marking a message makes no other message a duplicate.
pub proof fn law_marking_makes_no_other_duplicate(
    records: Records,
    key: Seq<char>,
    other: Seq<char>,
    now: u64,
    retention: u64,
    threshold: nat,
    most: nat,
)
    requires
        other != key,
        !recorded(records, other),
    ensures
        !recorded(marked(records, key, now, retention, threshold, most), other),
{
    let rest = without_key(records, key);
    lemma_without_key(records, key);
    let grown = rest.push((key, now));
    assert(!recorded(grown, other)) by {
        if recorded(grown, other) {
            let i = choose|i: int| 0 <= i < grown.len() && (#[trigger] grown[i]).0 == other;
            assert(rest[i].0 == other);
            assert(recorded(rest, other));
        }
    }
    lemma_kept(grown, now, retention);
    let young = kept(grown, now, retention);
    if recorded(young, other) {
        let i = choose|i: int| 0 <= i < young.len() && (#[trigger] young[i]).0 == other;
        assert(grown.contains(young[i]));
        let j = choose|j: int| 0 <= j < grown.len() && grown[j] == young[i];
        assert(grown[j].0 == other);
    }
    lemma_newest(young, most);
    lemma_newest(grown, most);
}

proof fn lemma_newest(records: Records, most: nat)
    ensures
        forall|key: Seq<char>| #[trigger]
            recorded(newest(records, most), key) ==> recorded(records, key),
        each_once(records) ==> each_once(newest(records, most)),
{
    let after = newest(records, most);
    let gone = records.len() - after.len();
    assert forall|key: Seq<char>| #[trigger] recorded(after, key) implies recorded(records, key) by {
        let i = choose|i: int| 0 <= i < after.len() && (#[trigger] after[i]).0 == key;
        assert(records[gone + i].0 == key);
    }
    if each_once(records) {
        assert forall|i: int, j: int| 0 <= i < j < after.len() implies (#[trigger] after[i]).0 != (
        #[trigger] after[j]).0 by {
            assert(records[gone + i].0 != records[gone + j].0);
        }
    }
}

proof fn lemma_without_key(records: Records, key: Seq<char>)
    ensures
        !recorded(without_key(records, key), key),
        forall|other: Seq<char>|
            other != key ==> (#[trigger] recorded(without_key(records, key), other) <==> recorded(
                records,
                other,
            )),
        each_once(records) ==> each_once(without_key(records, key)),
        without_key(records, key).len() <= records.len(),
    decreases records.len(),
{
    if records.len() > 0 {
        let front = records.drop_last();
        lemma_without_key(front, key);
        let before = without_key(front, key);
        let all = without_key(records, key);
        let last = records.last();
        assert(!recorded(all, key)) by {
            if recorded(all, key) {
                let i = choose|i: int| 0 <= i < all.len() && (#[trigger] all[i]).0 == key;
                assert(before[i].0 == key);
                assert(recorded(before, key));
            }
        }
        assert forall|other: Seq<char>| other != key implies (#[trigger] recorded(all, other)
            <==> recorded(records, other)) by {
            if recorded(all, other) {
                let i = choose|i: int| 0 <= i < all.len() && (#[trigger] all[i]).0 == other;
                if i < before.len() {
                    assert(before[i].0 == other);
                    assert(recorded(before, other));
                    let k = choose|k: int| 0 <= k < front.len() && (#[trigger] front[k]).0 == other;
                    assert(records[k].0 == other);
                } else {
                    assert(records[records.len() - 1].0 == other);
                }
            }
            if recorded(records, other) {
                let i = choose|i: int| 0 <= i < records.len() && (#[trigger] records[i]).0 == other;
                if i < front.len() {
                    assert(front[i].0 == other);
                    assert(recorded(front, other));
                    assert(recorded(before, other));
                    let k = choose|k: int|
                        0 <= k < before.len() && (#[trigger] before[k]).0 == other;
                    assert(all[k].0 == other);
                } else {
                    assert(all[all.len() - 1].0 == other);
                }
            }
        }
        if each_once(records) {
            assert(each_once(front)) by {
                assert forall|i: int, j: int| 0 <= i < j < front.len() implies (
                #[trigger] front[i]).0 != (#[trigger] front[j]).0 by {
                    assert(records[i].0 != records[j].0);
                }
            }
            assert forall|i: int, j: int| 0 <= i < j < all.len() implies (#[trigger] all[i]).0 != (
            #[trigger] all[j]).0 by {
                if j < before.len() {
                    assert(before[i].0 != before[j].0);
                } else {
                    assert(all[j] == last);
                    if before[i].0 == last.0 {
                        assert(recorded(before, last.0));
                        assert(recorded(front, last.0));
                        let k = choose|k: int|
                            0 <= k < front.len() && (#[trigger] front[k]).0 == last.0;
                        assert(records[k].0 != records[records.len() - 1].0);
                    }
                }
            }
        }
    }
}

proof fn lemma_kept(records: Records, now: u64, retention: u64)
    ensures
        forall|i: int|
            0 <= i < kept(records, now, retention).len() ==> records.contains(
                #[trigger] kept(records, now, retention)[i],
            ) && is_kept(kept(records, now, retention)[i].1, now, retention),
        forall|i: int|
            0 <= i < records.len() && is_kept((#[trigger] records[i]).1, now, retention) ==> kept(
                records,
                now,
                retention,
            ).contains(records[i]),
    decreases records.len(),
{
    if records.len() > 0 {
        let front = records.drop_last();
        lemma_kept(front, now, retention);
        let before = kept(front, now, retention);
        let all = kept(records, now, retention);
        assert forall|i: int| 0 <= i < all.len() implies records.contains(#[trigger] all[i])
            && is_kept(all[i].1, now, retention) by {
            if i < before.len() {
                assert(all[i] == before[i]);
                assert(front.contains(before[i]));
                let k = choose|k: int| 0 <= k < front.len() && front[k] == before[i];
                assert(records[k] == all[i]);
            } else {
                assert(records[records.len() - 1] == all[i]);
            }
        }
        assert forall|i: int|
            0 <= i < records.len() && is_kept((#[trigger] records[i]).1, now, retention) implies
            all.contains(records[i]) by {
            if i < front.len() {
                assert(front[i] == records[i]);
                assert(before.contains(front[i]));
                let k = choose|k: int| 0 <= k < before.len() && before[k] == front[i];
                assert(all[k] == records[i]);
            } else {
                assert(all[all.len() - 1] == records[i]);
            }
        }
    }
}

/// A clean-up keeps exactly the records that are not too old.
pub proof fn law_a_clean_up_keeps_what_is_young(records: Records, now: u64, retention: u64)
    ensures
        forall|r: (Seq<char>, u64)| #[trigger]
            kept(records, now, retention).contains(r) <==> records.contains(r) && is_kept(
                r.1,
                now,
                retention,
            ),
{
    lemma_kept(records, now, retention);
    assert forall|r: (Seq<char>, u64)| #[trigger]
        kept(records, now, retention).contains(r) <==> records.contains(r) && is_kept(
            r.1,
            now,
            retention,
        ) by {
        let all = kept(records, now, retention);
        if all.contains(r) {
            let i = choose|i: int| 0 <= i < all.len() && all[i] == r;
            assert(records.contains(all[i]));
        }
        if records.contains(r) && is_kept(r.1, now, retention) {
            let i = choose|i: int| 0 <= i < records.len() && records[i] == r;
            assert(all.contains(records[i]));
        }
    }
}

/// No message is recorded twice, however often it is marked.
pub proof fn law_each_message_is_recorded_once(
    records: Records,
    key: Seq<char>,
    now: u64,
    retention: u64,
    threshold: nat,
    most: nat,
)
    requires
        each_once(records),
    ensures
        each_once(marked(records, key, now, retention, threshold, most)),
{
    lemma_without_key(records, key);
    let rest = without_key(records, key);
    let grown = rest.push((key, now));
    assert forall|i: int, j: int| 0 <= i < j < grown.len() implies (#[trigger] grown[i]).0 != (
    #[trigger] grown[j]).0 by {
        if j < rest.len() {
            assert(rest[i].0 != rest[j].0);
        } else {
            if rest[i].0 == key {
                assert(recorded(rest, key));
            }
        }
    }
    lemma_kept_once(grown, now, retention);
    lemma_newest(grown, most);
    lemma_newest(kept(grown, now, retention), most);
}

proof fn lemma_kept_once(records: Records, now: u64, retention: u64)
    requires
        each_once(records),
    ensures
        each_once(kept(records, now, retention)),
    decreases records.len(),
{
    if records.len() > 0 {
        let front = records.drop_last();
        assert forall|i: int, j: int| 0 <= i < j < front.len() implies (#[trigger] front[i]).0 != (
        #[trigger] front[j]).0 by {
            assert(records[i].0 != records[j].0);
        }
        lemma_kept_once(front, now, retention);
        lemma_kept(front, now, retention);
        let before = kept(front, now, retention);
        let all = kept(records, now, retention);
        assert forall|i: int, j: int| 0 <= i < j < all.len() implies (#[trigger] all[i]).0 != (
        #[trigger] all[j]).0 by {
            if j < before.len() {
                assert(before[i].0 != before[j].0);
            } else {
                assert(front.contains(before[i]));
                let k = choose|k: int| 0 <= k < front.len() && front[k] == before[i];
                assert(records[k].0 != records[records.len() - 1].0);
            }
        }
    }
}

/// A message is kept for the time that messages are kept, to the last second, and not longer.
pub proof fn law_messages_are_kept_for_their_time(
    records: Records,
    key: Seq<char>,
    at: u64,
    now: u64,
    retention: u64,
)
    ensures
        now - at <= retention ==> kept(records.push((key, at)), now, retention) == kept(
            records,
            now,
            retention,
        ).push((key, at)),
        now - at > retention ==> kept(records.push((key, at)), now, retention) == kept(
            records,
            now,
            retention,
        ),
        kept(Seq::empty(), now, retention).len() == 0,
{
    assert(records.push((key, at)).drop_last() =~= records);
}

/// A marked message is the newest of the records, with the time of the marking, and an older record of
/// it is gone. While the cache is small, the records of all other messages stay as they were.
pub proof fn law_a_marked_message_is_the_newest(
    records: Records,
    key: Seq<char>,
    now: u64,
    retention: u64,
    threshold: nat,
    most: nat,
)
    requires
        most > 0,
    ensures
        marked(records, key, now, retention, threshold, most).last() == (key, now),
        !recorded(records, key) && records.len() < threshold && records.len() < most ==> marked(
            records,
            key,
            now,
            retention,
            threshold,
            most,
        ) == records.push((key, now)),
{
    lemma_without_key(records, key);
    if !recorded(records, key) {
        lemma_nothing_left_out(records, key);
    }
    let grown = without_key(records, key).push((key, now));
    assert(grown.drop_last() =~= without_key(records, key));
    assert(grown.last() == (key, now));
    let young = kept(grown, now, retention);
    assert(young.last() == (key, now) && young.len() > 0);
}

proof fn lemma_nothing_left_out(records: Records, key: Seq<char>)
    requires
        !recorded(records, key),
    ensures
        without_key(records, key) == records,
    decreases records.len(),
{
    if records.len() > 0 {
        let front = records.drop_last();
        assert(records.last() == records[records.len() - 1]);
        assert(!recorded(front, key)) by {
            if recorded(front, key) {
                let i = choose|i: int| 0 <= i < front.len() && (#[trigger] front[i]).0 == key;
                assert(records[i].0 == key);
            }
        }
        lemma_nothing_left_out(front, key);
        assert(records =~= front.push(records.last()));
    } else {
        assert(records =~= Seq::empty());
    }
}

} // verus!
