//! The message service: it validates requests, checks that records exist, and
//! delegates to the repository.
use vstd::prelude::*;
use crate::errors::CoreError;
use crate::health::{HealthRepository, IsHealthy, MockHealthRepository};
use crate::ids::{ChannelId, MessageId};
use crate::message::{
    InsertMessageInput,
    Message,
    MessageView,
    UpdateMessageInput,
    is_blank,
    validate_content,
};
use crate::pagination::{GetPaginated, MAX_PAGE_LIMIT, page_of, page_skip, page_take};
use crate::search::{SearchHit, hits_of, lower_of, matches_query, snippet_of};
use crate::repository::{
    MockMessageRepository,
    has_id,
    in_channel,
    inserted_newest_first,
    lookup,
    message_views,
    new_record,
    opt_view,
    pinned_in_channel,
    position_of,
    updated_record,
};

verus! {

/// Whether an update's content, when present, is blank.
pub open spec fn blank_update(input: UpdateMessageInput) -> bool {
    match input.content {
        Some(c) => is_blank(c@),
        None => false,
    }
}

/// A lookup's outcome as the service reports it: the record, or
/// `MessageNotFound` for `id`.
pub fn require_found(found: Option<Message>, id: MessageId) -> (r: Result<Message, CoreError>)
    ensures
        found matches Some(m) ==> r == Ok::<Message, CoreError>(m),
        found is None ==> (r matches Err(CoreError::MessageNotFound { id: e }) && e == id),
{
    match found {
        Some(m) => Ok(m),
        None => Err(CoreError::MessageNotFound { id }),
    }
}

/// The outcome of a deletion or a pin from the number of records it matched:
/// none is `MessageNotFound` for `id`.
pub fn count_outcome(matched: u64, id: MessageId) -> (r: Result<(), CoreError>)
    ensures
        matched > 0 ==> r is Ok,
        matched == 0 ==> (r matches Err(CoreError::MessageNotFound { id: e }) && e == id),
{
    if matched == 0 {
        Err(CoreError::MessageNotFound { id })
    } else {
        Ok(())
    }
}

/// The message service over its repositories.
#[derive(Debug, Clone)]
pub struct Service {
    pub message_repository: MockMessageRepository,
    pub health_repository: MockHealthRepository,
}

impl Service {
    pub open spec fn wf(&self) -> bool {
        self.message_repository.wf()
    }

    pub fn new(
        message_repository: MockMessageRepository,
        health_repository: MockHealthRepository,
    ) -> (r: Service)
        requires
            message_repository.wf(),
        ensures
            r.wf(),
            r.message_repository == message_repository,
    {
        Service { message_repository, health_repository }
    }

    /// Stores a new message. Blank content is `InvalidMessageName`, and an id
    /// that is already stored is `FailedToInsertMessage`; either way nothing
    /// changes.
    pub fn create_message(&mut self, input: InsertMessageInput) -> (r: Result<
        Message,
        CoreError,
    >)
        requires
            old(self).wf(),
        ensures
            final(self).wf(),
            is_blank(input.content@) ==> (r matches Err(e) && e is InvalidMessageName
                && final(self).message_repository.records() == old(self).message_repository.records()),
            !is_blank(input.content@) && has_id(old(self).message_repository.records(), input.id)
                ==> (r matches Err(e) && e is FailedToInsertMessage
                && final(self).message_repository.records() == old(self).message_repository.records()),
            !is_blank(input.content@) && !has_id(old(self).message_repository.records(), input.id)
                ==> (r matches Ok(m) && m.created_at >= 0 && m@ == new_record(input, m.created_at)
                && inserted_newest_first(
                old(self).message_repository.records(),
                m@,
                final(self).message_repository.records(),
            )),
    {
        match validate_content(&input.content) {
            Ok(()) => {},
            Err(e) => {
                return Err(e);
            },
        }
        self.message_repository.insert(input)
    }

    /// The message with this id; an unknown id is `MessageNotFound`.
    pub fn get_message(&self, message_id: &MessageId) -> (r: Result<Message, CoreError>)
        requires
            self.wf(),
        ensures
            has_id(self.message_repository.records(), *message_id) ==> (r matches Ok(m) && Some(
                m@,
            ) == lookup(self.message_repository.records(), *message_id)),
            !has_id(self.message_repository.records(), *message_id) ==> (r matches Err(
                CoreError::MessageNotFound { id },
            ) && id == *message_id),
    {
        match self.message_repository.find_by_id(message_id) {
            Ok(found) => require_found(found, *message_id),
            Err(e) => Err(e),
        }
    }

    /// A page of a channel's messages, newest first, with the channel's total.
    pub fn list_messages(&self, channel: &ChannelId, pagination: &GetPaginated) -> (r: Result<
        (Vec<Message>, u64),
        CoreError,
    >)
        ensures
            r matches Ok((page, total)) && message_views(page@) == page_of(
                self.message_repository.records().filter(in_channel(*channel)),
                page_skip(*pagination),
                page_take(*pagination),
            ) && total == self.message_repository.records().filter(in_channel(*channel)).len(),
    {
        self.message_repository.list(channel, pagination)
    }

    /// Changes the fields given in `input` and sets the update time. An
    /// unknown id is `MessageNotFound`; blank new content is
    /// `InvalidMessageName`; either way nothing changes.
    pub fn update_message(&mut self, input: UpdateMessageInput) -> (r: Result<
        Message,
        CoreError,
    >)
        requires
            old(self).wf(),
        ensures
            final(self).wf(),
            !has_id(old(self).message_repository.records(), input.id) ==> (r matches Err(
                CoreError::MessageNotFound { id },
            ) && id == input.id && final(self).message_repository.records() == old(self).message_repository.records()),
            has_id(old(self).message_repository.records(), input.id) && blank_update(input) ==> (
            r matches Err(e) && e is InvalidMessageName
                && final(self).message_repository.records() == old(self).message_repository.records()),
            has_id(old(self).message_repository.records(), input.id) && !blank_update(input)
                ==> ({
                let recs = old(self).message_repository.records();
                let p = position_of(recs, input.id);
                r matches Ok(m) && m.updated_at is Some && m@ == updated_record(
                    recs[p],
                    opt_view(input.content),
                    input.is_pinned,
                    m.updated_at->0,
                ) && final(self).message_repository.records() == recs.update(p, m@)
            }),
    {
        match self.message_repository.find_by_id(&input.id) {
            Ok(Some(_)) => {},
            Ok(None) => {
                return Err(CoreError::MessageNotFound { id: input.id });
            },
            Err(e) => {
                return Err(e);
            },
        }
        match &input.content {
            Some(c) => match validate_content(c) {
                Ok(()) => {},
                Err(e) => {
                    return Err(e);
                },
            },
            None => {},
        }
        self.message_repository.update(input)
    }

    /// Removes the message with this id; an unknown id is `MessageNotFound`
    /// and nothing changes.
    pub fn delete_message(&mut self, message_id: &MessageId) -> (r: Result<(), CoreError>)
        requires
            old(self).wf(),
        ensures
            final(self).wf(),
            !has_id(old(self).message_repository.records(), *message_id) ==> (r matches Err(
                CoreError::MessageNotFound { id },
            ) && id == *message_id && final(self).message_repository.records() == old(self).message_repository.records()),
            has_id(old(self).message_repository.records(), *message_id) ==> (r is Ok && final(self).message_repository.records() == old(self).message_repository.records().remove(
                position_of(old(self).message_repository.records(), *message_id),
            )),
    {
        match self.message_repository.find_by_id(message_id) {
            Ok(Some(_)) => {},
            Ok(None) => {
                return Err(CoreError::MessageNotFound { id: *message_id });
            },
            Err(e) => {
                return Err(e);
            },
        }
        self.message_repository.delete(message_id)
    }

    /// Probes the backing store: `Ok` when it answers, `Unhealthy` otherwise.
    /// The in-memory store always answers.
    pub fn check_health(&self) -> (r: Result<IsHealthy, CoreError>)
        ensures
            r matches Ok(h) && h.healthy(),
    {
        self.health_repository.ping().to_result()
    }

    /// Marks the message with this id as pinned; pinning twice is the same as
    /// pinning once. An unknown id is `MessageNotFound` and nothing changes.
    pub fn pin_message(&mut self, message_id: &MessageId) -> (r: Result<(), CoreError>)
        requires
            old(self).wf(),
        ensures
            final(self).wf(),
            !has_id(old(self).message_repository.records(), *message_id) ==> (r matches Err(
                CoreError::MessageNotFound { id },
            ) && id == *message_id && final(self).message_repository.records() == old(self).message_repository.records()),
            has_id(old(self).message_repository.records(), *message_id) ==> ({
                let recs = old(self).message_repository.records();
                let p = position_of(recs, *message_id);
                r is Ok && final(self).message_repository.records() == recs.update(
                    p,
                    MessageView { is_pinned: true, ..recs[p] },
                )
            }),
    {
        self.message_repository.pin(message_id)
    }

    /// A page of a channel's pinned messages, newest first, with how many
    /// there are; see `MockMessageRepository::list_pins`.
    pub fn list_pins(&self, channel: &ChannelId, limit: Option<u32>, offset: Option<u32>) -> (r:
        Result<(Vec<Message>, u64), CoreError>)
        ensures
            r matches Ok((page, total)) && message_views(page@) == page_of(
                self.message_repository.records().filter(pinned_in_channel(*channel)),
                match offset {
                    Some(o) => o as int,
                    None => 0,
                },
                match limit {
                    Some(l) => l as int,
                    None => MAX_PAGE_LIMIT as int,
                },
            ) && total == self.message_repository.records().filter(
                pinned_in_channel(*channel),
            ).len(),
    {
        self.message_repository.list_pins(channel, limit, offset)
    }

    /// The messages of a channel whose content holds `q`, letter case aside,
    /// newest first, as search hits, with how many match.
    pub fn search(
        &self,
        channel: &ChannelId,
        q: &str,
        limit: Option<u32>,
        offset: Option<u32>,
    ) -> (r: Result<(Vec<SearchHit>, u64), CoreError>)
        ensures
            r matches Ok((hits, total)) && ({
                let matching = self.message_repository.records().filter(
                    matches_query(*channel, lower_of(q@)),
                );
                let page = page_of(
                    matching,
                    match offset {
                        Some(o) => o as int,
                        None => 0,
                    },
                    match limit {
                        Some(l) => l as int,
                        None => MAX_PAGE_LIMIT as int,
                    },
                );
                &&& total == matching.len()
                &&& hits@.len() == page.len()
                &&& forall|i: int|
                    0 <= i < page.len() ==> (#[trigger] hits@[i]).kind@ == "message"@
                        && hits@[i].message_id == page[i].id && hits@[i].channel_id
                        == page[i].channel_id && hits@[i].snippet@ == snippet_of(page[i].content)
                        && matches_query(*channel, lower_of(q@))(page[i])
            }),
    {
        match self.message_repository.search(channel, q, limit, offset) {
            Ok((page, total)) => {
                let hits = hits_of(&page);
                Ok((hits, total))
            },
            Err(e) => Err(e),
        }
    }
}

} // verus!
