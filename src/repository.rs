//! An in-memory message repository. It keeps its records newest first, with
//! no two records sharing an id.
use vstd::prelude::*;
use crate::errors::CoreError;
use crate::ids::{ChannelId, MessageId};
use crate::message::{InsertMessageInput, Message, MessageView, UpdateMessageInput, attachment_views};
use crate::pagination::{GetPaginated, MAX_PAGE_LIMIT, offset_window, page_of, page_skip, page_take};
use crate::system::current_time_millis;

verus! {

/// The plain values of a sequence of messages.
pub open spec fn message_views(s: Seq<Message>) -> Seq<MessageView> {
    s.map_values(|m: Message| m@)
}

/// Records ordered by creation time, newest first.
pub open spec fn newest_first(s: Seq<MessageView>) -> bool {
    forall|i: int, j: int| 0 <= i < j < s.len() ==> s[i].created_at >= s[j].created_at
}

/// No two records share an id.
pub open spec fn ids_unique(s: Seq<MessageView>) -> bool {
    forall|i: int, j: int| 0 <= i < j < s.len() ==> s[i].id != s[j].id
}

/// Some record has this id.
pub open spec fn has_id(s: Seq<MessageView>, id: MessageId) -> bool {
    exists|i: int| 0 <= i < s.len() && s[i].id == id
}

/// The position of the record with this id.
pub open spec fn position_of(s: Seq<MessageView>, id: MessageId) -> int {
    choose|i: int| 0 <= i < s.len() && s[i].id == id
}

/// The record with this id, if there is one.
pub open spec fn lookup(s: Seq<MessageView>, id: MessageId) -> Option<MessageView> {
    if has_id(s, id) {
        Some(s[position_of(s, id)])
    } else {
        None
    }
}

/// The records of a channel.
pub open spec fn in_channel(c: ChannelId) -> spec_fn(MessageView) -> bool {
    |m: MessageView| m.channel_id == c
}

/// The pinned records of a channel.
pub open spec fn pinned_in_channel(c: ChannelId) -> spec_fn(MessageView) -> bool {
    |m: MessageView| m.channel_id == c && m.is_pinned
}

/// The record that storing `input` at time `now` creates: not pinned, never
/// updated.
pub open spec fn new_record(input: InsertMessageInput, now: i64) -> MessageView {
    MessageView {
        id: input.id,
        channel_id: input.channel_id,
        author_id: input.author_id,
        content: input.content@,
        reply_to_message_id: input.reply_to_message_id,
        attachments: attachment_views(input.attachments@),
        is_pinned: false,
        created_at: now,
        updated_at: None,
    }
}

/// A record after an update at time `now`: each field given replaces the
/// stored one, and the update time is set.
pub open spec fn updated_record(
    m: MessageView,
    content: Option<Seq<char>>,
    is_pinned: Option<bool>,
    now: i64,
) -> MessageView {
    MessageView {
        content: match content {
            Some(c) => c,
            None => m.content,
        },
        is_pinned: match is_pinned {
            Some(p) => p,
            None => m.is_pinned,
        },
        updated_at: Some(now),
        ..m
    }
}

/// The view of an optional string.
pub open spec fn opt_view(s: Option<String>) -> Option<Seq<char>> {
    match s {
        Some(t) => Some(t@),
        None => None,
    }
}

/// `s` with `m` put before the first record that is not newer than `m`.
pub open spec fn inserted_newest_first(s: Seq<MessageView>, m: MessageView, t: Seq<
    MessageView,
>) -> bool {
    exists|k: int|
        0 <= k <= s.len() && t == s.insert(k, m) && (forall|i: int|
            0 <= i < k ==> s[i].created_at > m.created_at) && (forall|i: int|
            k <= i < s.len() ==> s[i].created_at <= m.created_at)
}

/// Keeps messages in memory, newest first.
#[derive(Debug, Clone)]
pub struct MockMessageRepository {
    messages: Vec<Message>,
}

impl MockMessageRepository {
    /// The stored records, newest first.
    pub closed spec fn records(&self) -> Seq<MessageView> {
        message_views(self.messages@)
    }

    /// The records are newest first and their ids are unique.
    pub open spec fn wf(&self) -> bool {
        newest_first(self.records()) && ids_unique(self.records())
    }

    /// An empty repository.
    pub fn new() -> (r: MockMessageRepository)
        ensures
            r.wf(),
            r.records() == Seq::<MessageView>::empty(),
    {
        let r = MockMessageRepository { messages: Vec::new() };
        proof {
            assert(r.records() =~= Seq::<MessageView>::empty());
        }
        r
    }

    /// How many records are stored.
    pub fn len(&self) -> (n: usize)
        ensures
            n == self.records().len(),
    {
        self.messages.len()
    }

    /// The position of the record with this id, if any.
    fn find_index(&self, id: &MessageId) -> (r: Option<usize>)
        requires
            self.wf(),
        ensures
            r is Some <==> has_id(self.records(), *id),
            r matches Some(i) ==> i < self.records().len() && i == position_of(
                self.records(),
                *id,
            ) && self.records()[i as int].id == *id,
    {
        let ghost recs = self.records();
        let mut i: usize = 0;
        while i < self.messages.len()
            invariant
                self.wf(),
                recs == self.records(),
                recs.len() == self.messages@.len(),
                i <= self.messages.len(),
                forall|k: int| 0 <= k < i ==> recs[k].id != *id,
            decreases self.messages.len() - i,
        {
            proof {
                assert(recs[i as int] == self.messages@[i as int]@);
            }
            if self.messages[i].id == *id {
                proof {
                    let p = position_of(recs, *id);
                    assert(has_id(recs, *id));
                    assert(0 <= p < recs.len() && recs[p].id == *id);
                    assert(ids_unique(recs));
                    if p < i {
                        assert(recs[p].id != recs[i as int].id);
                    } else if p > i {
                        assert(recs[i as int].id != recs[p].id);
                    }
                }
                return Some(i);
            }
            i = i + 1;
        }
        None
    }

    /// The record with this id, if any. Never fails.
    pub fn find_by_id(&self, id: &MessageId) -> (r: Result<Option<Message>, CoreError>)
        requires
            self.wf(),
        ensures
            r matches Ok(found) && (found is Some <==> has_id(self.records(), *id)) && (
            found matches Some(m) ==> Some(m@) == lookup(self.records(), *id)),
    {
        match self.find_index(id) {
            Some(i) => {
                let m = self.messages[i].duplicate();
                Ok(Some(m))
            },
            None => Ok(None),
        }
    }

    /// Stores a new record created at time `now` (milliseconds since the
    /// epoch), keeping the records newest first. An id that is already stored
    /// is refused with `FailedToInsertMessage` and nothing changes.
    pub fn insert_at(&mut self, input: InsertMessageInput, now: i64) -> (r: Result<
        Message,
        CoreError,
    >)
        requires
            old(self).wf(),
        ensures
            final(self).wf(),
            has_id(old(self).records(), input.id) ==> (r matches Err(
                CoreError::FailedToInsertMessage { name },
            ) && name == input.content && final(self).records() == old(self).records()),
            !has_id(old(self).records(), input.id) ==> (r matches Ok(m) && m@ == new_record(
                input,
                now,
            ) && inserted_newest_first(old(self).records(), m@, final(self).records())),
    {
        if self.find_index(&input.id).is_some() {
            return Err(CoreError::FailedToInsertMessage { name: input.content });
        }
        let ghost old_recs = self.records();
        let ghost old_msgs = self.messages@;
        let message = Message::from_input(input, now);
        let result = message.duplicate();
        let mut k: usize = 0;
        while k < self.messages.len() && self.messages[k].created_at > now
            invariant
                self.wf(),
                self.records() == old_recs,
                self.messages@ == old_msgs,
                old_recs.len() == old_msgs.len(),
                k <= old_msgs.len(),
                forall|i: int| 0 <= i < k ==> old_recs[i].created_at > now,
            decreases self.messages.len() - k,
        {
            proof {
                assert(old_recs[k as int] == old_msgs[k as int]@);
            }
            k = k + 1;
        }
        proof {
            if k < old_msgs.len() {
                assert(old_recs[k as int] == old_msgs[k as int]@);
                assert(old_recs[k as int].created_at <= now);
                assert forall|i: int| k <= i < old_recs.len() implies old_recs[i].created_at
                    <= now by {
                    if i > k {
                        assert(old_recs[k as int].created_at >= old_recs[i].created_at);
                    }
                }
            }
        }
        self.messages.insert(k, message);
        proof {
            let m = result@;
            let new_recs = old_recs.insert(k as int, m);
            assert(self.messages@ == old_msgs.insert(k as int, message));
            assert(self.records() =~= new_recs);
            assert forall|i: int, j: int| 0 <= i < j < new_recs.len() implies new_recs[i].created_at
                >= new_recs[j].created_at by {
                if j < k {
                } else if j == k {
                } else if i < k {
                    assert(new_recs[j] == old_recs[j - 1]);
                } else if i == k {
                    assert(new_recs[j] == old_recs[j - 1]);
                } else {
                    assert(new_recs[i] == old_recs[i - 1]);
                    assert(new_recs[j] == old_recs[j - 1]);
                }
            }
            assert forall|i: int, j: int| 0 <= i < j < new_recs.len() implies new_recs[i].id
                != new_recs[j].id by {
                if j < k {
                } else if j == k {
                    assert(!has_id(old_recs, input.id));
                    assert(old_recs[i].id != input.id);
                } else if i < k {
                    assert(new_recs[j] == old_recs[j - 1]);
                } else if i == k {
                    assert(new_recs[j] == old_recs[j - 1]);
                    assert(!has_id(old_recs, input.id));
                    assert(old_recs[j - 1].id != input.id);
                } else {
                    assert(new_recs[i] == old_recs[i - 1]);
                    assert(new_recs[j] == old_recs[j - 1]);
                }
            }
        }
        Ok(result)
    }

    /// Stores a new record created now; see `insert_at`.
    pub fn insert(&mut self, input: InsertMessageInput) -> (r: Result<Message, CoreError>)
        requires
            old(self).wf(),
        ensures
            final(self).wf(),
            has_id(old(self).records(), input.id) ==> (r matches Err(
                CoreError::FailedToInsertMessage { name },
            ) && name == input.content && final(self).records() == old(self).records()),
            !has_id(old(self).records(), input.id) ==> (r matches Ok(m) && m.created_at >= 0
                && m@ == new_record(input, m.created_at) && inserted_newest_first(
                old(self).records(),
                m@,
                final(self).records(),
            )),
    {
        let now = current_time_millis();
        self.insert_at(input, now)
    }

    /// Applies an update at time `now`: the fields given replace the stored
    /// ones and the update time is set. An unknown id is `MessageNotFound` and
    /// nothing changes.
    pub fn update_at(&mut self, input: UpdateMessageInput, now: i64) -> (r: Result<
        Message,
        CoreError,
    >)
        requires
            old(self).wf(),
        ensures
            final(self).wf(),
            !has_id(old(self).records(), input.id) ==> (r matches Err(
                CoreError::MessageNotFound { id },
            ) && id == input.id && final(self).records() == old(self).records()),
            has_id(old(self).records(), input.id) ==> ({
                let p = position_of(old(self).records(), input.id);
                let u = updated_record(
                    old(self).records()[p],
                    opt_view(input.content),
                    input.is_pinned,
                    now,
                );
                r matches Ok(m) && m@ == u && final(self).records() == old(self).records().update(p, u)
            }),
    {
        let i = match self.find_index(&input.id) {
            Some(i) => i,
            None => {
                return Err(CoreError::MessageNotFound { id: input.id });
            },
        };
        let ghost old_recs = self.records();
        let ghost old_msgs = self.messages@;
        let mut m = self.messages[i].duplicate();
        match input.content {
            Some(c) => {
                m.content = c;
            },
            None => {},
        }
        match input.is_pinned {
            Some(p) => {
                m.is_pinned = p;
            },
            None => {},
        }
        m.updated_at = Some(now);
        let result = m.duplicate();
        self.messages.set(i, m);
        proof {
            let u = result@;
            assert(self.messages@ == old_msgs.update(i as int, m));
            assert(self.records() =~= old_recs.update(i as int, u));
            assert(old_recs[i as int] == old_msgs[i as int]@);
            assert forall|a: int, b: int|
                0 <= a < b < self.records().len() implies self.records()[a].created_at
                >= self.records()[b].created_at && self.records()[a].id != self.records()[b].id by {
                assert(old_recs[a].created_at >= old_recs[b].created_at);
                assert(old_recs[a].id != old_recs[b].id);
            }
        }
        Ok(result)
    }

    /// Applies an update now; see `update_at`.
    pub fn update(&mut self, input: UpdateMessageInput) -> (r: Result<Message, CoreError>)
        requires
            old(self).wf(),
        ensures
            final(self).wf(),
            !has_id(old(self).records(), input.id) ==> (r matches Err(
                CoreError::MessageNotFound { id },
            ) && id == input.id && final(self).records() == old(self).records()),
            has_id(old(self).records(), input.id) ==> ({
                let p = position_of(old(self).records(), input.id);
                r matches Ok(m) && m.updated_at is Some && m@ == updated_record(
                    old(self).records()[p],
                    opt_view(input.content),
                    input.is_pinned,
                    m.updated_at->0,
                ) && final(self).records() == old(self).records().update(p, m@)
            }),
    {
        let now = current_time_millis();
        self.update_at(input, now)
    }

    /// Removes the record with this id. An unknown id is `MessageNotFound` and
    /// nothing changes.
    pub fn delete(&mut self, id: &MessageId) -> (r: Result<(), CoreError>)
        requires
            old(self).wf(),
        ensures
            final(self).wf(),
            !has_id(old(self).records(), *id) ==> (r matches Err(CoreError::MessageNotFound { id: e })
                && e == *id && final(self).records() == old(self).records()),
            has_id(old(self).records(), *id) ==> r is Ok && final(self).records() == old(self).records().remove(position_of(old(self).records(), *id)),
    {
        let i = match self.find_index(id) {
            Some(i) => i,
            None => {
                return Err(CoreError::MessageNotFound { id: *id });
            },
        };
        let ghost old_recs = self.records();
        let ghost old_msgs = self.messages@;
        let _removed = self.messages.remove(i);
        proof {
            let new_recs = old_recs.remove(i as int);
            assert(self.records() =~= new_recs);
            assert forall|a: int, b: int| 0 <= a < b < new_recs.len() implies new_recs[a].created_at
                >= new_recs[b].created_at && new_recs[a].id != new_recs[b].id by {
                if b < i {
                } else if a < i {
                    assert(new_recs[b] == old_recs[b + 1]);
                } else {
                    assert(new_recs[a] == old_recs[a + 1]);
                    assert(new_recs[b] == old_recs[b + 1]);
                }
            }
        }
        Ok(())
    }

    /// Marks the record with this id as pinned; pinning twice is the same as
    /// pinning once. An unknown id is `MessageNotFound` and nothing changes.
    pub fn pin(&mut self, id: &MessageId) -> (r: Result<(), CoreError>)
        requires
            old(self).wf(),
        ensures
            final(self).wf(),
            !has_id(old(self).records(), *id) ==> (r matches Err(CoreError::MessageNotFound { id: e })
                && e == *id && final(self).records() == old(self).records()),
            has_id(old(self).records(), *id) ==> ({
                let p = position_of(old(self).records(), *id);
                r is Ok && final(self).records() == old(self).records().update(
                    p,
                    MessageView { is_pinned: true, ..old(self).records()[p] },
                )
            }),
    {
        let i = match self.find_index(id) {
            Some(i) => i,
            None => {
                return Err(CoreError::MessageNotFound { id: *id });
            },
        };
        let ghost old_recs = self.records();
        let ghost old_msgs = self.messages@;
        let mut m = self.messages[i].duplicate();
        m.is_pinned = true;
        proof {
            assert(old_recs[i as int] == old_msgs[i as int]@);
        }
        let ghost u = m@;
        self.messages.set(i, m);
        proof {
            assert(self.messages@ == old_msgs.update(i as int, m));
            assert(self.records() =~= old_recs.update(i as int, u));
            assert forall|a: int, b: int|
                0 <= a < b < self.records().len() implies self.records()[a].created_at
                >= self.records()[b].created_at && self.records()[a].id != self.records()[b].id by {
                assert(old_recs[a].created_at >= old_recs[b].created_at);
                assert(old_recs[a].id != old_recs[b].id);
            }
        }
        Ok(())
    }

    /// The records whose flag is set, paged: `skip` of them are passed over
    /// and at most `take` returned, with the number of flagged records.
    pub(crate) fn collect_page(
        &self,
        flags: &Vec<bool>,
        Ghost(pred): Ghost<spec_fn(MessageView) -> bool>,
        skip: u64,
        take: u64,
    ) -> (r: (Vec<Message>, u64))
        requires
            flags@.len() == self.records().len(),
            forall|i: int| 0 <= i < flags@.len() ==> flags@[i] == pred(self.records()[i]),
        ensures
            message_views(r.0@) == page_of(self.records().filter(pred), skip as int, take as int),
            r.1 == self.records().filter(pred).len(),
    {
        let ghost recs = self.records();
        let mut out: Vec<Message> = Vec::new();
        let mut count: u64 = 0;
        let mut i: usize = 0;
        while i < self.messages.len()
            invariant
                recs == self.records(),
                recs.len() == self.messages@.len(),
                flags@.len() == recs.len(),
                forall|k: int| 0 <= k < flags@.len() ==> flags@[k] == pred(recs[k]),
                i <= recs.len(),
                count == recs.take(i as int).filter(pred).len(),
                message_views(out@) == page_of(
                    recs.take(i as int).filter(pred),
                    skip as int,
                    take as int,
                ),
            decreases self.messages.len() - i,
        {
            let ghost before = recs.take(i as int).filter(pred);
            proof {
                reveal(Seq::filter);
                assert(recs.take(i as int + 1).drop_last() =~= recs.take(i as int));
                assert(recs.take(i as int + 1).last() == recs[i as int]);
                assert(recs[i as int] == self.messages@[i as int]@);
                recs.take(i as int).lemma_filter_len(pred);
            }
            if flags[i] {
                proof {
                    assert(recs.take(i as int + 1).filter(pred) == before.push(recs[i as int]));
                }
                if count >= skip && count - skip < take {
                    let d = self.messages[i].duplicate();
                    let ghost prev = out@;
                    out.push(d);
                    proof {
                        assert(message_views(out@) =~= message_views(prev).push(d@));
                        assert(page_of(before.push(recs[i as int]), skip as int, take as int)
                            =~= page_of(before, skip as int, take as int).push(recs[i as int]));
                    }
                } else {
                    proof {
                        assert(page_of(before.push(recs[i as int]), skip as int, take as int)
                            =~= page_of(before, skip as int, take as int));
                    }
                }
                count = count + 1;
            } else {
                proof {
                    assert(recs.take(i as int + 1).filter(pred) == before);
                }
            }
            i = i + 1;
        }
        proof {
            assert(recs.take(recs.len() as int) =~= recs);
        }
        (out, count)
    }

    /// A page of a channel's records, newest first, and how many records the
    /// channel has. Never fails.
    pub fn list(&self, channel: &ChannelId, pagination: &GetPaginated) -> (r: Result<
        (Vec<Message>, u64),
        CoreError,
    >)
        ensures
            r matches Ok((page, total)) && message_views(page@) == page_of(
                self.records().filter(in_channel(*channel)),
                page_skip(*pagination),
                page_take(*pagination),
            ) && total == self.records().filter(in_channel(*channel)).len(),
    {
        let (skip, take) = pagination.window();
        let mut flags: Vec<bool> = Vec::new();
        let mut i: usize = 0;
        while i < self.messages.len()
            invariant
                i <= self.messages.len(),
                flags@.len() == i,
                forall|k: int|
                    0 <= k < i ==> flags@[k] == in_channel(*channel)(self.records()[k]),
            decreases self.messages.len() - i,
        {
            proof {
                assert(self.records()[i as int] == self.messages@[i as int]@);
            }
            flags.push(self.messages[i].channel_id == *channel);
            i = i + 1;
        }
        Ok(self.collect_page(&flags, Ghost(in_channel(*channel)), skip, take))
    }

    /// A page of a channel's pinned records, newest first: `offset` (0 when
    /// absent) records are passed over and at most `limit` (50 when absent)
    /// returned, with how many pinned records the channel has. Never fails.
    pub fn list_pins(
        &self,
        channel: &ChannelId,
        limit: Option<u32>,
        offset: Option<u32>,
    ) -> (r: Result<(Vec<Message>, u64), CoreError>)
        ensures
            r matches Ok((page, total)) && message_views(page@) == page_of(
                self.records().filter(pinned_in_channel(*channel)),
                match offset {
                    Some(o) => o as int,
                    None => 0,
                },
                match limit {
                    Some(l) => l as int,
                    None => MAX_PAGE_LIMIT as int,
                },
            ) && total == self.records().filter(pinned_in_channel(*channel)).len(),
    {
        let (skip, take) = offset_window(limit, offset);
        let mut flags: Vec<bool> = Vec::new();
        let mut i: usize = 0;
        while i < self.messages.len()
            invariant
                i <= self.messages.len(),
                flags@.len() == i,
                forall|k: int|
                    0 <= k < i ==> flags@[k] == pinned_in_channel(*channel)(self.records()[k]),
            decreases self.messages.len() - i,
        {
            proof {
                assert(self.records()[i as int] == self.messages@[i as int]@);
            }
            flags.push(self.messages[i].channel_id == *channel && self.messages[i].is_pinned);
            i = i + 1;
        }
        Ok(self.collect_page(&flags, Ghost(pinned_in_channel(*channel)), skip, take))
    }

    /// Whether the record at position `i` is in `channel` and its content,
    /// lowercased, holds `lowered_query`.
    pub(crate) fn matches_at(&self, i: usize, channel: &ChannelId, lowered_query: &String) -> (r:
        bool)
        requires
            i < self.records().len(),
        ensures
            r == crate::search::matches_query(*channel, lowered_query@)(self.records()[i as int]),
    {
        proof {
            assert(self.records()[i as int] == self.messages@[i as int]@);
        }
        let m = &self.messages[i];
        if m.channel_id != *channel {
            return false;
        }
        let lowered = crate::search::lowercase(m.content.as_str());
        crate::search::contains_text(lowered.as_str(), lowered_query.as_str())
    }
}

} // verus!
