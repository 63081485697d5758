//! What revoking, editing and reading write, and what the tables hold afterwards.

use vstd::prelude::*;
use crate::error::{ErrorModel, PrivchatSDKError};
use crate::storage::advanced_features;
use crate::storage::advanced_features::{
    AdvancedFeaturesManager, ChannelReadState, MessageEditEvent, MessageEditEventModel, MessageFacts,
    MessageRevokeEvent, MessageRevokeEventModel,
};
use crate::storage::dao::features;
use crate::storage::dao::features::FeaturesDao;
use crate::storage::entities;
use crate::storage::entities::MessageStatus;
use crate::storage::sql;
use crate::storage::sql::{fits_i64, out_of_range_error, Statement, StatementModel};

verus! {

/// An edit in the history of edits.
pub struct KeptEdit {
    pub message_id: u64,
    pub channel_id: u64,
    pub channel_type: i32,
    pub editor_uid: u64,
    pub old_content: Seq<char>,
    pub new_content: Seq<char>,
    pub edit_version: u32,
    pub edited_at: u64,
}

/// One change of the tables.
pub enum FeatureWrite {
    MarkRevoked { message_id: u64 },
    RecordRevocation {
        message_id: u64,
        channel_id: u64,
        channel_type: i32,
        revoker_uid: u64,
        now: u64,
    },
    KeepEdit(KeptEdit),
    ReplaceContent { message_id: u64, content: Seq<char> },
    RecordEdit {
        message_id: u64,
        channel_id: u64,
        channel_type: i32,
        content: Seq<char>,
        now: u64,
    },
    StoreReadState(ChannelReadState),
}

/// The statement that makes a change.
pub open spec fn statement_of(write: FeatureWrite) -> StatementModel {
    match write {
        FeatureWrite::MarkRevoked { message_id } => features::mark_revoked_statement(message_id),
        FeatureWrite::RecordRevocation { message_id, channel_id, channel_type, revoker_uid, now } => {
            features::record_revocation_statement(
                message_id,
                channel_id,
                channel_type,
                revoker_uid,
                now,
            )
        },
        FeatureWrite::KeepEdit(edit) => features::keep_edit_statement(
            edit.message_id,
            edit.channel_id,
            edit.channel_type,
            edit.editor_uid,
            edit.old_content,
            edit.new_content,
            edit.edit_version,
            edit.edited_at,
        ),
        FeatureWrite::ReplaceContent { message_id, content } => {
            features::replace_content_statement(message_id, content)
        },
        FeatureWrite::RecordEdit { message_id, channel_id, channel_type, content, now } => {
            features::record_edit_statement(message_id, channel_id, channel_type, content, now)
        },
        FeatureWrite::StoreReadState(state) => features::store_read_state_statement(state),
    }
}

/// Whether statements make changes, one for each change in their order.
pub open spec fn make(statements: Seq<Statement>, writes: Seq<FeatureWrite>) -> bool {
    &&& statements.len() == writes.len()
    &&& forall|i: int|
        0 <= i < statements.len() ==> (#[trigger] statements[i])@ == statement_of(writes[i])
}

/// A message in the table of messages.
pub struct StoredMessage {
    pub channel_id: u64,
    pub channel_type: i32,
    pub from_uid: u64,
    pub content: Seq<char>,
    pub status: i32,
    pub created_at: i64,
    pub message_seq: i64,
    pub is_deleted: bool,
}

/// What else is recorded of a message.
pub struct ExtraRecord {
    pub channel_id: u64,
    pub channel_type: i32,
    pub revoker: Option<u64>,
    pub content_edit: Option<Seq<char>>,
    pub extra_version: u64,
}

/// What the tables hold: the messages by the server's id, what else is recorded of each, the edits in
/// the order in which they were kept, and how far each user has read each channel.
pub struct FeatureTables {
    pub messages: Map<u64, StoredMessage>,
    pub extras: Map<u64, ExtraRecord>,
    pub history: Seq<KeptEdit>,
    pub read_states: Map<(u64, i32, u64), ChannelReadState>,
}

impl FeatureTables {
    /// What [`FeaturesDao::message_facts`] finds.
    pub open spec fn facts_of(self, message_id: u64) -> Option<MessageFacts> {
        if self.messages.contains_key(message_id) {
            let m = self.messages[message_id];
            Some(
                MessageFacts {
                    channel_id: m.channel_id,
                    channel_type: m.channel_type,
                    from_uid: m.from_uid,
                    status: m.status,
                    created_at: m.created_at,
                },
            )
        } else {
            None
        }
    }

    /// What [`FeaturesDao::edit_version`] finds: the highest version among the edits of a message, or 0.
    pub open spec fn version_of(self, message_id: u64) -> u32 {
        highest_version(self.history, message_id)
    }

    /// What [`FeaturesDao::unread_beyond`] counts: the messages of a channel beyond a position that are
    /// not deleted.
    pub open spec fn count_beyond(self, channel_id: u64, channel_type: i32, seq: i64) -> nat {
        self.messages.dom().filter(
            |id: u64|
                {
                    let m = self.messages[id];
                    m.channel_id == channel_id && m.channel_type == channel_type && m.message_seq > seq
                        && !m.is_deleted
                },
        ).len()
    }

    /// What [`FeaturesDao::last_read_seq`] finds.
    pub open spec fn read_up_to(self, channel_id: u64, channel_type: i32, user_id: u64) -> Option<i64> {
        let key = (channel_id, channel_type, user_id);
        if self.read_states.contains_key(key) {
            Some(self.read_states[key].last_read_seq)
        } else {
            None
        }
    }

    /// How many messages of a channel a user has not read.
    pub open spec fn unread_of(self, channel_id: u64, channel_type: i32, user_id: u64) -> nat {
        self.count_beyond(
            channel_id,
            channel_type,
            position(self.read_up_to(channel_id, channel_type, user_id)),
        )
    }

    /// The tables after a change.
    pub open spec fn after(self, write: FeatureWrite) -> FeatureTables {
        match write {
            FeatureWrite::MarkRevoked { message_id } => if self.messages.contains_key(message_id) {
                FeatureTables {
                    messages: self.messages.insert(
                        message_id,
                        StoredMessage {
                            status: entities::status_number(MessageStatus::Revoked),
                            ..self.messages[message_id]
                        },
                    ),
                    ..self
                }
            } else {
                self
            },
            FeatureWrite::RecordRevocation {
                message_id,
                channel_id,
                channel_type,
                revoker_uid,
                now,
            } => FeatureTables {
                extras: self.extras.insert(
                    message_id,
                    ExtraRecord {
                        channel_id,
                        channel_type,
                        revoker: Some(revoker_uid),
                        content_edit: None,
                        extra_version: now,
                    },
                ),
                ..self
            },
            FeatureWrite::KeepEdit(edit) => FeatureTables {
                history: self.history.push(edit),
                ..self
            },
            FeatureWrite::ReplaceContent { message_id, content } => {
                if self.messages.contains_key(message_id) {
                    FeatureTables {
                        messages: self.messages.insert(
                            message_id,
                            StoredMessage { content, ..self.messages[message_id] },
                        ),
                        ..self
                    }
                } else {
                    self
                }
            },
            FeatureWrite::RecordEdit { message_id, channel_id, channel_type, content, now } => {
                FeatureTables {
                    extras: self.extras.insert(
                        message_id,
                        ExtraRecord {
                            channel_id,
                            channel_type,
                            revoker: None,
                            content_edit: Some(content),
                            extra_version: now,
                        },
                    ),
                    ..self
                }
            },
            FeatureWrite::StoreReadState(state) => FeatureTables {
                read_states: self.read_states.insert(
                    (state.channel_id, state.channel_type, state.user_id),
                    state,
                ),
                ..self
            },
        }
    }

    /// The tables after changes, one by one.
    pub open spec fn after_all(self, writes: Seq<FeatureWrite>) -> FeatureTables
        decreases writes.len(),
    {
        if writes.len() == 0 {
            self
        } else {
            self.after_all(writes.drop_last()).after(writes.last())
        }
    }
}

/// The highest version among the edits of a message, or 0 where there is none.
pub open spec fn highest_version(history: Seq<KeptEdit>, message_id: u64) -> u32
    decreases history.len(),
{
    if history.len() == 0 {
        0
    } else {
        let before = highest_version(history.drop_last(), message_id);
        let last = history.last();
        if last.message_id == message_id && last.edit_version > before {
            last.edit_version
        } else {
            before
        }
    }
}

/// The position up to which a user has read: 0 where nothing is stored.
pub open spec fn position(read_up_to: Option<i64>) -> i64 {
    match read_up_to {
        Some(seq) => seq,
        None => 0,
    }
}

/// The changes that a revocation makes.
pub open spec fn revocation_writes(
    message_id: u64,
    facts: MessageFacts,
    revoker_uid: u64,
    now: u64,
) -> Seq<FeatureWrite> {
    seq![
        FeatureWrite::MarkRevoked { message_id },
        FeatureWrite::RecordRevocation {
            message_id,
            channel_id: facts.channel_id,
            channel_type: facts.channel_type,
            revoker_uid,
            now,
        },
    ]
}

/// The edit that goes into the history.
pub open spec fn kept_edit(
    message_id: u64,
    facts: MessageFacts,
    editor_uid: u64,
    old_content: Seq<char>,
    new_content: Seq<char>,
    current_version: u32,
    now: u64,
) -> KeptEdit {
    KeptEdit {
        message_id,
        channel_id: facts.channel_id,
        channel_type: facts.channel_type,
        editor_uid,
        old_content,
        new_content,
        edit_version: (current_version + 1) as u32,
        edited_at: now,
    }
}

/// The changes that an edit makes.
pub open spec fn edit_writes(edit: KeptEdit) -> Seq<FeatureWrite> {
    seq![
        FeatureWrite::KeepEdit(edit),
        FeatureWrite::ReplaceContent { message_id: edit.message_id, content: edit.new_content },
        FeatureWrite::RecordEdit {
            message_id: edit.message_id,
            channel_id: edit.channel_id,
            channel_type: edit.channel_type,
            content: edit.new_content,
            now: edit.edited_at,
        },
    ]
}

/// Why a message is not revoked, if it is not: by who asks and when, by an id that the database cannot
/// hold, by the status of the message, or by another number that the database cannot hold.
pub open spec fn revocation_fault(
    limit: u64,
    message_id: u64,
    facts: MessageFacts,
    revoker_uid: u64,
    now: u64,
) -> Option<ErrorModel> {
    let refusal = advanced_features::revoke_refusal(limit, facts, revoker_uid, now);
    if revoker_uid != facts.from_uid || now - facts.created_at > limit {
        refusal
    } else if message_id > i64::MAX {
        Some(sql::out_of_range())
    } else if refusal is Some {
        refusal
    } else if facts.channel_id > i64::MAX || revoker_uid > i64::MAX || now > i64::MAX {
        Some(sql::out_of_range())
    } else {
        None
    }
}

/// Why a message is not edited, if it is not: by an id that the database cannot hold, by who asks and
/// when, or by another number that the database cannot hold.
pub open spec fn edit_fault(
    limit: u64,
    message_id: u64,
    facts: MessageFacts,
    editor_uid: u64,
    now: u64,
) -> Option<ErrorModel> {
    if message_id > i64::MAX {
        Some(sql::out_of_range())
    } else if advanced_features::edit_refusal(limit, facts, editor_uid, now) is Some {
        advanced_features::edit_refusal(limit, facts, editor_uid, now)
    } else if facts.channel_id > i64::MAX || editor_uid > i64::MAX || now > i64::MAX {
        Some(sql::out_of_range())
    } else {
        None
    }
}

impl AdvancedFeaturesManager {
    /// Revokes a message: the event to report, and the statements to run together. Where the message
    /// is not revoked, nothing is written.
    pub fn revoke_plan(
        &self,
        message_id: u64,
        revoker_uid: u64,
        reason: Option<&str>,
        facts: &MessageFacts,
        now: u64,
    ) -> (r: Result<(MessageRevokeEvent, Vec<Statement>), PrivchatSDKError>)
        requires
            revoker_uid == facts.from_uid ==> facts.written_by(now),
        ensures
            match r {
                Ok((event, statements)) => {
                    &&& revocation_fault(
                        self.revoke_time_limit,
                        message_id,
                        *facts,
                        revoker_uid,
                        now,
                    ) is None
                    &&& event@ == (MessageRevokeEventModel {
                        message_id,
                        channel_id: facts.channel_id,
                        channel_type: facts.channel_type,
                        revoker_uid,
                        revoked_at: now,
                        reason: match reason {
                            Some(s) => Some(s@),
                            None => None,
                        },
                    })
                    &&& make(
                        statements@,
                        revocation_writes(message_id, *facts, revoker_uid, now),
                    )
                },
                Err(e) => revocation_fault(
                    self.revoke_time_limit,
                    message_id,
                    *facts,
                    revoker_uid,
                    now,
                ) == Some(e@),
            },
    {
        if revoker_uid == facts.from_uid && now - facts.created_at as u64 <= self.revoke_time_limit
            && !fits_i64(message_id) {
            return Err(out_of_range_error());
        }
        let event = match self.revoke_message(message_id, revoker_uid, reason, facts, now) {
            Ok(event) => event,
            Err(e) => return Err(e),
        };
        let marking = match FeaturesDao::mark_revoked(message_id) {
            Ok(s) => s,
            Err(e) => return Err(e),
        };
        let recording = match FeaturesDao::record_revocation(
            message_id,
            facts.channel_id,
            facts.channel_type,
            revoker_uid,
            now,
        ) {
            Ok(s) => s,
            Err(e) => return Err(e),
        };
        Ok((event, vec![marking, recording]))
    }

    /// Edits a message: the event to report, and the statements to run together. `old_content` is what
    /// the message says so far, and `current_version` the highest version among its edits. Where the
    /// message is not edited, nothing is written.
    pub fn edit_plan(
        &self,
        message_id: u64,
        editor_uid: u64,
        new_content: &str,
        facts: &MessageFacts,
        old_content: &str,
        current_version: u32,
        now: u64,
    ) -> (r: Result<(MessageEditEvent, Vec<Statement>), PrivchatSDKError>)
        requires
            editor_uid == facts.from_uid ==> facts.written_by(now),
            current_version < u32::MAX,
        ensures
            match r {
                Ok((event, statements)) => {
                    &&& edit_fault(self.edit_time_limit, message_id, *facts, editor_uid, now) is None
                    &&& event@ == (MessageEditEventModel {
                        message_id,
                        channel_id: facts.channel_id,
                        channel_type: facts.channel_type,
                        editor_uid,
                        new_content: new_content@,
                        edited_at: now,
                        edit_version: (current_version + 1) as u32,
                    })
                    &&& make(
                        statements@,
                        edit_writes(
                            kept_edit(
                                message_id,
                                *facts,
                                editor_uid,
                                old_content@,
                                new_content@,
                                current_version,
                                now,
                            ),
                        ),
                    )
                },
                Err(e) => edit_fault(self.edit_time_limit, message_id, *facts, editor_uid, now)
                    == Some(e@),
            },
    {
        if !fits_i64(message_id) {
            return Err(out_of_range_error());
        }
        let event = match self.edit_message(
            message_id,
            editor_uid,
            new_content,
            facts,
            current_version,
            now,
        ) {
            Ok(event) => event,
            Err(e) => return Err(e),
        };
        let keeping = match FeaturesDao::keep_edit(
            message_id,
            facts.channel_id,
            facts.channel_type,
            editor_uid,
            old_content,
            new_content,
            current_version + 1,
            now,
        ) {
            Ok(s) => s,
            Err(e) => return Err(e),
        };
        let replacing = match FeaturesDao::replace_content(message_id, new_content) {
            Ok(s) => s,
            Err(e) => return Err(e),
        };
        let recording = match FeaturesDao::record_edit(
            message_id,
            facts.channel_id,
            facts.channel_type,
            new_content,
            now,
        ) {
            Ok(s) => s,
            Err(e) => return Err(e),
        };
        Ok((event, vec![keeping, replacing, recording]))
    }

    /// Counts what a user has not read of a channel; `read_up_to` is the position that is stored for
    /// the user.
    pub fn get_unread_count(
        &self,
        channel_id: u64,
        channel_type: i32,
        read_up_to: Option<i64>,
    ) -> (r: Result<Statement, PrivchatSDKError>)
        ensures
            match r {
                Ok(s) => {
                    &&& channel_id <= i64::MAX
                    &&& s@ == features::unread_beyond_statement(
                        channel_id,
                        channel_type,
                        position(read_up_to),
                    )
                },
                Err(e) => channel_id > i64::MAX && e@ == sql::out_of_range(),
            },
    {
        FeaturesDao::unread_beyond(channel_id, channel_type, self.last_read_position(read_up_to))
    }
}

/// Where the database can hold the numbers, a message is revoked exactly when it may be.
pub proof fn law_a_message_is_revoked_exactly_when_it_may_be(
    limit: u64,
    message_id: u64,
    facts: MessageFacts,
    user_id: u64,
    now: u64,
)
    requires
        message_id <= i64::MAX,
        facts.channel_id <= i64::MAX,
        user_id <= i64::MAX,
        now <= i64::MAX,
    ensures
        revocation_fault(limit, message_id, facts, user_id, now) is None
            <==> advanced_features::may_change(limit, Some(facts), user_id, now) == Ok::<
            bool,
            ErrorModel,
        >(true),
{
    advanced_features::law_may_revoke_means_can_revoke(limit, facts, user_id, now);
}

/// Once a message is revoked its status is that of a revoked message, nobody can revoke it again, and
/// no other message, edit or read state has changed.
pub proof fn law_a_revoked_message_stays_revoked(
    tables: FeatureTables,
    message_id: u64,
    revoker_uid: u64,
    now: u64,
    limit: u64,
    user_id: u64,
    later: u64,
)
    requires
        tables.facts_of(message_id) is Some,
    ensures
        ({
            let facts = tables.facts_of(message_id)->0;
            let after = tables.after_all(revocation_writes(message_id, facts, revoker_uid, now));
            let revoked = MessageFacts { status: 6, ..facts };
            &&& after.facts_of(message_id) == Some(revoked)
            &&& after.messages == tables.messages.insert(
                message_id,
                StoredMessage { status: 6, ..tables.messages[message_id] },
            )
            &&& after.extras == tables.extras.insert(
                message_id,
                ExtraRecord {
                    channel_id: facts.channel_id,
                    channel_type: facts.channel_type,
                    revoker: Some(revoker_uid),
                    content_edit: None,
                    extra_version: now,
                },
            )
            &&& after.history == tables.history
            &&& after.read_states == tables.read_states
            &&& advanced_features::revoke_refusal(limit, revoked, user_id, later) is Some
            &&& revocation_fault(limit, message_id, revoked, user_id, later) is Some
            &&& advanced_features::may_change(limit, Some(revoked), user_id, later) == Ok::<
                bool,
                ErrorModel,
            >(false)
        }),
{
    let facts = tables.facts_of(message_id)->0;
    let writes = revocation_writes(message_id, facts, revoker_uid, now);
    assert(writes.drop_last() =~= seq![writes[0]]);
    assert(writes.drop_last().drop_last() =~= Seq::<FeatureWrite>::empty());
    reveal_with_fuel(FeatureTables::after_all, 3);
    entities::law_status_numbers(MessageStatus::Revoked, MessageStatus::Revoked);
}

/// Once a message is edited it says the new content, the history has grown by exactly that edit, which
/// holds the content before and the next version, and no other message or read state has changed.
pub proof fn law_an_edit_is_kept_once(
    tables: FeatureTables,
    message_id: u64,
    editor_uid: u64,
    new_content: Seq<char>,
    now: u64,
)
    requires
        tables.facts_of(message_id) is Some,
        tables.version_of(message_id) < u32::MAX,
    ensures
        ({
            let facts = tables.facts_of(message_id)->0;
            let before = tables.messages[message_id];
            let edit = kept_edit(
                message_id,
                facts,
                editor_uid,
                before.content,
                new_content,
                tables.version_of(message_id),
                now,
            );
            let after = tables.after_all(edit_writes(edit));
            &&& edit.edit_version == tables.version_of(message_id) + 1
            &&& after.messages == tables.messages.insert(
                message_id,
                StoredMessage { content: new_content, ..before },
            )
            &&& after.facts_of(message_id) == Some(facts)
            &&& after.history == tables.history.push(edit)
            &&& after.version_of(message_id) == edit.edit_version
            &&& after.read_states == tables.read_states
        }),
{
    let facts = tables.facts_of(message_id)->0;
    let edit = kept_edit(
        message_id,
        facts,
        editor_uid,
        tables.messages[message_id].content,
        new_content,
        tables.version_of(message_id),
        now,
    );
    let writes = edit_writes(edit);
    assert(writes.drop_last() =~= seq![writes[0], writes[1]]);
    assert(writes.drop_last().drop_last() =~= seq![writes[0]]);
    assert(writes.drop_last().drop_last().drop_last() =~= Seq::<FeatureWrite>::empty());
    reveal_with_fuel(FeatureTables::after_all, 4);
    assert(tables.history.push(edit).drop_last() =~= tables.history);
}

/// A read state that was stored with the count of the messages beyond its position holds what the user
/// has not read, for as long as the messages stay as they are: the same statement counts both. Where
/// there are no messages, nothing is unread.
pub proof fn law_the_stored_count_is_the_unread_count(
    tables: FeatureTables,
    later: FeatureTables,
    state: ChannelReadState,
)
    requires
        state.unread_count == tables.count_beyond(
            state.channel_id,
            state.channel_type,
            state.last_read_seq,
        ),
        later.messages == tables.messages,
        later.read_states == tables.after(FeatureWrite::StoreReadState(state)).read_states,
    ensures
        later.unread_of(state.channel_id, state.channel_type, state.user_id) == state.unread_count,
        features::unread_beyond_statement(
            state.channel_id,
            state.channel_type,
            position(later.read_up_to(state.channel_id, state.channel_type, state.user_id)),
        ) == features::unread_beyond_statement(
            state.channel_id,
            state.channel_type,
            state.last_read_seq,
        ),
        tables.messages == Map::<u64, StoredMessage>::empty() ==> state.unread_count == 0,
{
    if tables.messages == Map::<u64, StoredMessage>::empty() {
        assert(tables.messages.dom() =~= Set::<u64>::empty());
        assert(tables.messages.dom().filter(
            |id: u64|
                {
                    let m = tables.messages[id];
                    m.channel_id == state.channel_id && m.channel_type == state.channel_type
                        && m.message_seq > state.last_read_seq && !m.is_deleted
                },
        ) =~= Set::<u64>::empty());
    }
}

/// Revoking marks the message and notes who revoked it and when; no other message, edit or read state
/// changes.
pub proof fn law_revoking_changes_one_message(
    tables: FeatureTables,
    message_id: u64,
    facts: MessageFacts,
    revoker_uid: u64,
    now: u64,
    other: u64,
)
    requires
        other != message_id,
    ensures
        ({
            let after = tables.after_all(revocation_writes(message_id, facts, revoker_uid, now));
            &&& after.extras.contains_key(message_id)
            &&& after.extras[message_id].revoker == Some(revoker_uid)
            &&& after.extras[message_id].content_edit is None
            &&& after.extras[message_id].extra_version == now
            &&& after.extras[message_id].channel_id == facts.channel_id
            &&& after.extras[message_id].channel_type == facts.channel_type
            &&& after.messages.contains_key(other) <==> tables.messages.contains_key(other)
            &&& tables.messages.contains_key(other) ==> after.messages[other] == tables.messages[other]
            &&& tables.messages.contains_key(message_id) ==> after.messages[message_id].status == 6
                && after.messages[message_id].content == tables.messages[message_id].content
            &&& tables.extras.contains_key(other) ==> after.extras.contains_key(other)
                && after.extras[other] == tables.extras[other]
            &&& after.history == tables.history && after.read_states == tables.read_states
        }),
{
    let writes = revocation_writes(message_id, facts, revoker_uid, now);
    let first = writes.drop_last();
    assert(first.drop_last() =~= Seq::<FeatureWrite>::empty());
    assert(first.last() == (FeatureWrite::MarkRevoked { message_id }));
    assert(tables.after_all(first.drop_last()) == tables);
    assert(tables.after_all(first) == tables.after(first.last()));
    assert(tables.after_all(writes) == tables.after_all(first).after(writes.last()));
}

/// An edit keeps the old words and the new with the next version, its editor and its time, and changes
/// nothing but the content of the message and its note.
pub proof fn law_an_edit_keeps_both_words(
    message_id: u64,
    facts: MessageFacts,
    editor_uid: u64,
    old_content: Seq<char>,
    new_content: Seq<char>,
    current_version: u32,
    now: u64,
)
    requires
        current_version < u32::MAX,
    ensures
        ({
            let e = kept_edit(
                message_id,
                facts,
                editor_uid,
                old_content,
                new_content,
                current_version,
                now,
            );
            &&& e.message_id == message_id && e.editor_uid == editor_uid && e.edited_at == now
            &&& e.old_content == old_content && e.new_content == new_content
            &&& e.edit_version == current_version + 1
            &&& e.channel_id == facts.channel_id && e.channel_type == facts.channel_type
        }),
{
}

/// The version of a message is that of its latest edit: no edit of it has a higher one, and edits of
/// other messages do not count.
pub proof fn law_the_version_is_the_highest(history: Seq<KeptEdit>, message_id: u64, i: int)
    requires
        0 <= i < history.len(),
    ensures
        history[i].message_id == message_id ==> history[i].edit_version <= highest_version(
            history,
            message_id,
        ),
        highest_version(history, message_id) == 0 || exists|k: int|
            0 <= k < history.len() && (#[trigger] history[k]).message_id == message_id
                && history[k].edit_version == highest_version(history, message_id),
        highest_version(Seq::empty(), message_id) == 0,
    decreases history.len(),
{
    let front = history.drop_last();
    let before = highest_version(front, message_id);
    assert(history.last() == history[history.len() - 1]);
    if front.len() > 0 {
        let j = if i < front.len() {
            i
        } else {
            0
        };
        law_the_version_is_the_highest(front, message_id, j);
        assert(front[j] == history[j]);
        if before != 0 {
            let k = choose|k: int|
                0 <= k < front.len() && (#[trigger] front[k]).message_id == message_id
                    && front[k].edit_version == before;
            assert(history[k].message_id == message_id && history[k].edit_version == before);
        }
    } else {
        assert(front =~= Seq::empty());
    }
}

/// The unread messages of a channel are those beyond the place read up to, which is the start where
/// nothing was read; deleted messages and those of other channels do not count.
pub proof fn law_unread_messages_lie_beyond_the_place_read(
    tables: FeatureTables,
    channel_id: u64,
    channel_type: i32,
    user_id: u64,
)
    ensures
        position(None) == 0,
        forall|seq: i64| #[trigger] position(Some(seq)) == seq,
        !tables.read_states.contains_key((channel_id, channel_type, user_id)) ==> tables.unread_of(
            channel_id,
            channel_type,
            user_id,
        ) == tables.count_beyond(channel_id, channel_type, 0),
        tables.read_states.contains_key((channel_id, channel_type, user_id)) ==> tables.unread_of(
            channel_id,
            channel_type,
            user_id,
        ) == tables.count_beyond(
            channel_id,
            channel_type,
            tables.read_states[(channel_id, channel_type, user_id)].last_read_seq,
        ),
{
}

/// A message or a user that the database cannot number is refused, and a request that is refused for
/// another reason keeps that reason, except that a number too large comes before a status.
pub proof fn law_faults_of_changes(
    limit: u64,
    message_id: u64,
    facts: MessageFacts,
    user_id: u64,
    now: u64,
)
    ensures
        user_id != facts.from_uid || now - facts.created_at > limit ==> revocation_fault(
            limit,
            message_id,
            facts,
            user_id,
            now,
        ) == advanced_features::revoke_refusal(limit, facts, user_id, now),
        user_id == facts.from_uid && now - facts.created_at <= limit && message_id > i64::MAX
            ==> revocation_fault(limit, message_id, facts, user_id, now) == Some(sql::out_of_range()),
        message_id > i64::MAX ==> edit_fault(limit, message_id, facts, user_id, now) == Some(
            sql::out_of_range(),
        ),
        message_id <= i64::MAX && (user_id != facts.from_uid || now - facts.created_at > limit)
            ==> edit_fault(limit, message_id, facts, user_id, now) == advanced_features::edit_refusal(
            limit,
            facts,
            user_id,
            now,
        ),
        edit_fault(
            limit,
            message_id,
            facts,
            user_id,
            now,
        ) is None <==> message_id <= i64::MAX && user_id
            == facts.from_uid && now - facts.created_at <= limit && facts.channel_id <= i64::MAX && user_id
            <= i64::MAX && now <= i64::MAX,
        revocation_fault(limit, message_id, facts, user_id, now) is None <==> message_id <= i64::MAX
            && user_id == facts.from_uid && now - facts.created_at <= limit && 2 <= facts.status <= 4
            && facts.channel_id <= i64::MAX && user_id <= i64::MAX && now <= i64::MAX,
{
    advanced_features::law_when_a_message_may_be_changed(limit, facts, user_id, now);
}

/// Each write is made by the statement that does it, with all that the write names.
pub proof fn law_writes_are_made_by_their_statements(
    statements: Seq<Statement>,
    writes: Seq<FeatureWrite>,
    i: int,
)
    requires
        make(statements, writes),
        0 <= i < writes.len(),
    ensures
        statements.len() == writes.len(),
        writes[i] matches FeatureWrite::MarkRevoked { message_id } ==> statements[i]@
            == features::mark_revoked_statement(message_id),
        writes[i] matches FeatureWrite::ReplaceContent { message_id, content } ==> statements[i]@
            == features::replace_content_statement(message_id, content),
        writes[i] matches FeatureWrite::StoreReadState(state) ==> statements[i]@
            == features::store_read_state_statement(state),
        writes[i] matches FeatureWrite::RecordRevocation {
            message_id,
            channel_id,
            channel_type,
            revoker_uid,
            now,
        } ==> statements[i]@ == features::record_revocation_statement(
            message_id,
            channel_id,
            channel_type,
            revoker_uid,
            now,
        ),
        writes[i] matches FeatureWrite::RecordEdit { message_id, channel_id, channel_type, content, now }
            ==> statements[i]@ == features::record_edit_statement(
            message_id,
            channel_id,
            channel_type,
            content,
            now,
        ),
        writes[i] matches FeatureWrite::KeepEdit(e) ==> statements[i]@ == features::keep_edit_statement(
            e.message_id,
            e.channel_id,
            e.channel_type,
            e.editor_uid,
            e.old_content,
            e.new_content,
            e.edit_version,
            e.edited_at,
        ),
{
    assert(statements[i]@ == statement_of(writes[i]));
}

} // verus!
