//! The decisions of the HTTP routes: who is calling, whether they may act,
//! what the service does, and which response or error comes back. Each route
//! refuses an unauthenticated caller (`identity` is `None`) with
//! `Unauthorized` before it touches the repository.
use vstd::prelude::*;
use crate::auth::{Authorization, Permission, Resource, UserIdentity, authorization_outcome};
use crate::errors::{ApiError, api_error_of};
use crate::health::{HealthRepository, HealthResponse, IsHealthy};
use crate::ids::{AuthorId, ChannelId, MessageId};
use crate::message::{
    CreateMessageRequest,
    InsertMessageInput,
    Message,
    UpdateMessageInput,
    UpdateMessageRequest,
    attachment_views,
    is_blank,
    validate_content,
};
use crate::pagination::{GetPaginated, page_of, page_skip, page_take};
use crate::repository::{
    has_id,
    in_channel,
    inserted_newest_first,
    lookup,
    message_views,
    opt_view,
    position_of,
    updated_record,
};
use crate::response::{PaginatedResponse, Response};
use crate::service::Service;

verus! {

/// Whether a request to update carries blank content.
pub open spec fn blank_request(request: UpdateMessageRequest) -> bool {
    match request.content {
        Some(c) => is_blank(c@),
        None => false,
    }
}

/// Whether the stored message with this id was written by `user`.
pub open spec fn is_author(service: Service, id: MessageId, user: u128) -> bool {
    lookup(service.message_repository.records(), id) matches Some(m) && m.author_id.0 == user
}

/// The error that blank content is reported as.
pub open spec fn is_blank_content_error(e: ApiError) -> bool {
    e matches ApiError::BadRequest { msg } && msg@ == "Server name cannot be empty"@
}

/// Only the author of a message may change or delete it: anyone else is
/// `Forbidden`.
pub fn check_author(message: &Message, identity: &UserIdentity) -> (r: Result<(), ApiError>)
    ensures
        r is Ok <==> message.author_id.0 == identity.user_id,
        r matches Err(e) ==> e is Forbidden,
{
    if message.author_id.0 != identity.user_id {
        Err(ApiError::Forbidden)
    } else {
        Ok(())
    }
}

/// The input that posting `request` as `identity` stores, under a fresh
/// random id; blank content is `BadRequest`.
pub fn prepare_create(request: CreateMessageRequest, identity: &UserIdentity) -> (r: Result<
    InsertMessageInput,
    ApiError,
>)
    ensures
        is_blank(request.content@) ==> (r matches Err(e) && is_blank_content_error(e)),
        !is_blank(request.content@) ==> (r matches Ok(input) && input.author_id == AuthorId(
            identity.user_id,
        ) && input.channel_id == request.channel_id && input.content == request.content
            && input.reply_to_message_id == request.reply_to_message_id && input.attachments
            == request.attachments),
{
    match validate_content(&request.content) {
        Ok(()) => Ok(request.into_input(AuthorId(identity.user_id))),
        Err(e) => Err(ApiError::from_core(e)),
    }
}

/// The stored message that `identity` may change or delete: a missing one is
/// `NotFound`, another author's `Forbidden`.
pub fn writable_by(found: Option<Message>, identity: &UserIdentity) -> (r: Result<
    Message,
    ApiError,
>)
    ensures
        found is None ==> (r matches Err(e) && e is NotFound),
        found matches Some(m) ==> (m.author_id.0 != identity.user_id ==> (r matches Err(e)
            && e is Forbidden)),
        found matches Some(m) ==> (m.author_id.0 == identity.user_id ==> r == Ok::<
            Message,
            ApiError,
        >(m)),
{
    match found {
        None => Err(ApiError::NotFound),
        Some(m) => match check_author(&m, identity) {
            Ok(()) => Ok(m),
            Err(e) => Err(e),
        },
    }
}

/// The change that `request` asks of message `id`; blank content is
/// `BadRequest`.
pub fn prepare_update(request: UpdateMessageRequest, id: MessageId) -> (r: Result<
    UpdateMessageInput,
    ApiError,
>)
    ensures
        blank_request(request) ==> (r matches Err(e) && is_blank_content_error(e)),
        !blank_request(request) ==> (r matches Ok(input) && input.id == id && input.content
            == request.content && input.is_pinned == request.is_pinned),
{
    match &request.content {
        Some(c) => match validate_content(c) {
            Ok(()) => {},
            Err(e) => {
                return Err(ApiError::from_core(e));
            },
        },
        None => {},
    }
    Ok(request.into_input(id))
}

/// The health report for a probe outcome: 200 with a healthy report, or
/// `ServiceUnavailable` when the store did not answer.
pub fn health_report(outcome: IsHealthy, timestamp: String) -> (r: Result<
    Response<HealthResponse>,
    ApiError,
>)
    ensures
        outcome.healthy() ==> (r matches Ok(resp) && resp.status_code == 200
            && resp.data.status@ == "healthy"@ && resp.data.database_status@ == "connected"@
            && resp.data.timestamp == timestamp),
        !outcome.healthy() ==> (r matches Err(ApiError::ServiceUnavailable { msg }) && msg@
            == "Service is unhealthy"@),
{
    match outcome.to_result() {
        Ok(h) => Ok(Response::ok(HealthResponse::new(h.value(), timestamp))),
        Err(e) => Err(ApiError::from_core(e)),
    }
}

/// The 200 response for a page of messages.
pub fn list_response(messages: Vec<Message>, total: u64, page: u32) -> (r: Response<
    PaginatedResponse<Message>,
>)
    ensures
        r.status_code == 200,
        r.data.data == messages,
        r.data.total == total,
        r.data.page == page,
{
    Response::ok(PaginatedResponse { data: messages, total, page })
}

/// `POST /messages`: posts a message as the caller, in a channel where the
/// caller may send messages.
pub fn create_message<A: Authorization>(
    service: &mut Service,
    authz: &A,
    identity: Option<UserIdentity>,
    request: CreateMessageRequest,
) -> (r: Result<Response<Message>, ApiError>)
    requires
        old(service).wf(),
    ensures
        final(service).wf(),
        r is Err ==> final(service).message_repository.records() == old(service).message_repository.records(),
        (r matches Err(e) && e is Unauthorized) <==> identity is None,
        identity matches Some(u) ==> ({
            let a = authz.allows(
                u.user_id,
                Permission::SendMessages,
                Resource::Channel(request.channel_id.0),
            );
            let blank = is_blank(request.content@);
            &&& !a ==> (r matches Err(e) && (e is Forbidden || e is InternalServerError))
            &&& a && blank ==> (r matches Err(e) && (is_blank_content_error(e)
                || e is InternalServerError))
            &&& a && !blank ==> (r is Ok || (r matches Err(e) && e is InternalServerError))
            &&& authz.infallible() && !a ==> (r matches Err(e) && e is Forbidden)
            &&& authz.infallible() && a && blank ==> (r matches Err(e) && is_blank_content_error(e))
        }),
        r matches Ok(resp) ==> ({
            let m = resp.data;
            &&& resp.status_code == 201
            &&& identity matches Some(u) && m.author_id == AuthorId(u.user_id) && authz.allows(
                u.user_id,
                Permission::SendMessages,
                Resource::Channel(request.channel_id.0),
            )
            &&& m.channel_id == request.channel_id
            &&& m.content@ == request.content@
            &&& m.reply_to_message_id == request.reply_to_message_id
            &&& m@.attachments == attachment_views(request.attachments@)
            &&& !m.is_pinned
            &&& m.updated_at is None
            &&& inserted_newest_first(
                old(service).message_repository.records(),
                m@,
                final(service).message_repository.records(),
            )
        }),
{
    let user = match identity {
        Some(u) => u,
        None => {
            return Err(ApiError::Unauthorized);
        },
    };
    let channel = request.channel_id;
    let answer = authz.check(user.user_id, Permission::SendMessages, Resource::Channel(channel.0));
    match authorization_outcome(answer) {
        Ok(()) => {},
        Err(e) => {
            return Err(e);
        },
    }
    let input = match prepare_create(request, &user) {
        Ok(input) => input,
        Err(e) => {
            return Err(e);
        },
    };
    match service.create_message(input) {
        Ok(m) => Ok(Response::created(m)),
        Err(e) => Err(ApiError::from_core(e)),
    }
}

/// `GET /messages/{id}`: the message, when the caller may view its channel.
pub fn get_message<A: Authorization>(
    service: &Service,
    authz: &A,
    identity: Option<UserIdentity>,
    id: MessageId,
) -> (r: Result<Response<Message>, ApiError>)
    requires
        service.wf(),
    ensures
        (r matches Err(e) && e is Unauthorized) <==> identity is None,
        (r matches Err(e) && e is NotFound) <==> (identity is Some && !has_id(
            service.message_repository.records(),
            id,
        )),
        identity matches Some(u) ==> (has_id(service.message_repository.records(), id) ==> ({
            let m = lookup(service.message_repository.records(), id)->0;
            let a = authz.allows(
                u.user_id,
                Permission::ViewChannels,
                Resource::Channel(m.channel_id.0),
            );
            &&& a ==> ((r matches Ok(resp) && resp.status_code == 200 && resp.data@ == m) || (
            r matches Err(e) && e is InternalServerError))
            &&& !a ==> (r matches Err(e) && (e is Forbidden || e is InternalServerError))
            &&& authz.infallible() && a ==> r is Ok
            &&& authz.infallible() && !a ==> (r matches Err(e) && e is Forbidden)
        })),
        r matches Ok(resp) ==> resp.status_code == 200 && Some(resp.data@) == lookup(
            service.message_repository.records(),
            id,
        ),
        r matches Err(e) ==> (e is Unauthorized || e is NotFound || e is Forbidden
            || e is InternalServerError),
{
    let user = match identity {
        Some(u) => u,
        None => {
            return Err(ApiError::Unauthorized);
        },
    };
    let message = match service.get_message(&id) {
        Ok(m) => m,
        Err(e) => {
            return Err(ApiError::from_core(e));
        },
    };
    let answer = authz.check(
        user.user_id,
        Permission::ViewChannels,
        Resource::Channel(message.channel_id.0),
    );
    match authorization_outcome(answer) {
        Ok(()) => Ok(Response::ok(message)),
        Err(e) => Err(e),
    }
}

/// `GET /channels/{channel_id}/messages`: a page of the channel's messages,
/// newest first, when the caller may view the channel.
pub fn list_messages<A: Authorization>(
    service: &Service,
    authz: &A,
    identity: Option<UserIdentity>,
    channel_id: ChannelId,
    pagination: GetPaginated,
) -> (r: Result<Response<PaginatedResponse<Message>>, ApiError>)
    ensures
        (r matches Err(e) && e is Unauthorized) <==> identity is None,
        identity matches Some(u) ==> ({
            let a = authz.allows(u.user_id, Permission::ViewChannels, Resource::Channel(channel_id.0));
            &&& a ==> (r is Ok || (r matches Err(e) && e is InternalServerError))
            &&& !a ==> (r matches Err(e) && (e is Forbidden || e is InternalServerError))
            &&& authz.infallible() && a ==> r is Ok
            &&& authz.infallible() && !a ==> (r matches Err(e) && e is Forbidden)
        }),
        r matches Ok(resp) ==> ({
            let matching = service.message_repository.records().filter(in_channel(channel_id));
            &&& resp.status_code == 200
            &&& message_views(resp.data.data@) == page_of(
                matching,
                page_skip(pagination),
                page_take(pagination),
            )
            &&& resp.data.total == matching.len()
            &&& resp.data.page == pagination.page
        }),
        r matches Err(e) ==> (e is Unauthorized || e is Forbidden || e is InternalServerError),
{
    let user = match identity {
        Some(u) => u,
        None => {
            return Err(ApiError::Unauthorized);
        },
    };
    let answer = authz.check(user.user_id, Permission::ViewChannels, Resource::Channel(channel_id.0));
    match authorization_outcome(answer) {
        Ok(()) => {},
        Err(e) => {
            return Err(e);
        },
    }
    match service.list_messages(&channel_id, &pagination) {
        Ok((messages, total)) => Ok(list_response(messages, total, pagination.page)),
        Err(e) => Err(ApiError::from_core(e)),
    }
}

/// `PUT /messages/{id}`: changes a message that the caller wrote. Another
/// caller's message is `Forbidden`, an unknown id `NotFound`, blank content
/// `BadRequest`; in each case nothing changes.
pub fn update_message(
    service: &mut Service,
    identity: Option<UserIdentity>,
    id: MessageId,
    request: UpdateMessageRequest,
) -> (r: Result<Response<Message>, ApiError>)
    requires
        old(service).wf(),
    ensures
        final(service).wf(),
        r is Err ==> final(service).message_repository.records() == old(service).message_repository.records(),
        (r matches Err(e) && e is Unauthorized) <==> identity is None,
        identity is Some && !has_id(old(service).message_repository.records(), id) ==> (
        r matches Err(e) && e is NotFound),
        identity matches Some(u) ==> (has_id(old(service).message_repository.records(), id)
            && !is_author(*old(service), id, u.user_id) ==> (r matches Err(e) && e is Forbidden)),
        identity matches Some(u) ==> (is_author(*old(service), id, u.user_id) && blank_request(
            request,
        ) ==> (r matches Err(e) && is_blank_content_error(e))),
        identity matches Some(u) ==> (is_author(*old(service), id, u.user_id) && !blank_request(
            request,
        ) ==> ({
            let recs = old(service).message_repository.records();
            let p = position_of(recs, id);
            r matches Ok(resp) && resp.status_code == 200 && resp.data.updated_at is Some
                && resp.data@ == updated_record(
                recs[p],
                opt_view(request.content),
                request.is_pinned,
                resp.data.updated_at->0,
            ) && final(service).message_repository.records() == recs.update(p, resp.data@)
        })),
{
    let user = match identity {
        Some(u) => u,
        None => {
            return Err(ApiError::Unauthorized);
        },
    };
    let found = match service.message_repository.find_by_id(&id) {
        Ok(found) => found,
        Err(e) => {
            return Err(ApiError::from_core(e));
        },
    };
    match writable_by(found, &user) {
        Ok(_) => {},
        Err(e) => {
            return Err(e);
        },
    }
    let input = match prepare_update(request, id) {
        Ok(input) => input,
        Err(e) => {
            return Err(e);
        },
    };
    match service.update_message(input) {
        Ok(m) => Ok(Response::ok(m)),
        Err(e) => Err(ApiError::from_core(e)),
    }
}

/// `DELETE /messages/{id}`: removes a message that the caller wrote. Another
/// caller's message is `Forbidden` and an unknown id `NotFound`; in each case
/// nothing changes.
pub fn delete_message(service: &mut Service, identity: Option<UserIdentity>, id: MessageId) -> (r:
    Result<Response<()>, ApiError>)
    requires
        old(service).wf(),
    ensures
        final(service).wf(),
        r is Err ==> final(service).message_repository.records() == old(service).message_repository.records(),
        (r matches Err(e) && e is Unauthorized) <==> identity is None,
        identity is Some && !has_id(old(service).message_repository.records(), id) ==> (
        r matches Err(e) && e is NotFound),
        identity matches Some(u) ==> (has_id(old(service).message_repository.records(), id)
            && !is_author(*old(service), id, u.user_id) ==> (r matches Err(e) && e is Forbidden)),
        identity matches Some(u) ==> (is_author(*old(service), id, u.user_id) ==> (r matches Ok(
            resp,
        ) && resp.status_code == 200 && final(service).message_repository.records() == old(service).message_repository.records().remove(
            position_of(old(service).message_repository.records(), id),
        ))),
{
    let user = match identity {
        Some(u) => u,
        None => {
            return Err(ApiError::Unauthorized);
        },
    };
    let found = match service.message_repository.find_by_id(&id) {
        Ok(found) => found,
        Err(e) => {
            return Err(ApiError::from_core(e));
        },
    };
    match writable_by(found, &user) {
        Ok(_) => {},
        Err(e) => {
            return Err(e);
        },
    }
    match service.delete_message(&id) {
        Ok(()) => Ok(Response::deleted(())),
        Err(e) => Err(ApiError::from_core(e)),
    }
}

/// `GET /health`: the report for a probe of the backing store. The in-memory
/// store always answers, so the report is healthy.
pub fn health_check(service: &Service, timestamp: String) -> (r: Result<
    Response<HealthResponse>,
    ApiError,
>)
    ensures
        r matches Ok(resp) && resp.status_code == 200 && resp.data.status@ == "healthy"@
            && resp.data.database_status@ == "connected"@ && resp.data.timestamp == timestamp,
{
    let outcome = service.health_repository.ping();
    health_report(outcome, timestamp)
}

} // verus!
