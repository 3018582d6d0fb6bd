use messages_core::auth::{DummyAuthz, UserIdentity};
use messages_core::errors::{ApiError, ErrorBody};
use messages_core::handlers::{create_message, delete_message, get_message, list_messages, update_message};
use messages_core::health::MockHealthRepository;
use messages_core::ids::{ChannelId, MessageId};
use messages_core::message::{CreateMessageRequest, UpdateMessageRequest};
use messages_core::pagination::GetPaginated;
use messages_core::repository::MockMessageRepository;
use messages_core::service::Service;

const USER: u128 = 0x1111;
const CHANNEL: u128 = 0x2222;

fn service() -> Service {
    Service::new(MockMessageRepository::new(), MockHealthRepository::new())
}

fn user(id: u128) -> Option<UserIdentity> {
    Some(UserIdentity { user_id: id })
}

fn post(service: &mut Service, content: &str) -> MessageId {
    let request = CreateMessageRequest {
        channel_id: ChannelId::from(CHANNEL),
        content: content.to_string(),
        reply_to_message_id: None,
        attachments: vec![],
    };
    let resp = create_message(service, &DummyAuthz::new(), user(USER), request).expect("create");
    assert_eq!(resp.status_code, 201);
    resp.data.id
}

fn unauthorized_body() -> ErrorBody {
    ApiError::Unauthorized.into_body()
}

fn assert_unauthorized(e: ApiError) {
    assert_eq!(e.status_code(), 401);
    let body = e.into_body();
    let expected = unauthorized_body();
    assert_eq!(body.message, expected.message);
    assert_eq!(body.error_code, expected.error_code);
    assert_eq!(body.status, expected.status);
}

#[test]
fn test_create_message_unauthorized() {
    let mut s = service();
    let request = CreateMessageRequest {
        channel_id: ChannelId::from(CHANNEL),
        content: "Test Message".into(),
        reply_to_message_id: None,
        attachments: vec![],
    };
    assert_unauthorized(create_message(&mut s, &DummyAuthz::new(), None, request).unwrap_err());
}

#[test]
fn messages_test_create_message_success() {
    let mut s = service();
    let request = CreateMessageRequest {
        channel_id: ChannelId::from(CHANNEL),
        content: "A test message for integration testing".into(),
        reply_to_message_id: None,
        attachments: vec![],
    };
    let resp = create_message(&mut s, &DummyAuthz::new(), user(USER), request).unwrap();
    assert_eq!(resp.status_code, 201);
    assert_eq!(resp.data.content, "A test message for integration testing");
    assert!(resp.data.created_at >= 0, "message must have created_at");
}

#[test]
fn test_create_message_empty_name_fails() {
    let mut s = service();
    let request =
        CreateMessageRequest { channel_id: ChannelId::from(CHANNEL), content: "".into(), reply_to_message_id: None, attachments: vec![] };
    assert_eq!(create_message(&mut s, &DummyAuthz::new(), user(USER), request).unwrap_err().status_code(), 400);
}

#[test]
fn test_create_message_whitespace_name_fails() {
    let mut s = service();
    let request = CreateMessageRequest {
        channel_id: ChannelId::from(CHANNEL),
        content: "   ".into(),
        reply_to_message_id: None,
        attachments: vec![],
    };
    assert_eq!(create_message(&mut s, &DummyAuthz::new(), user(USER), request).unwrap_err().status_code(), 400);
}

#[test]
fn test_list_messages_unauthorized() {
    let s = service();
    let e = list_messages(&s, &DummyAuthz::new(), None, ChannelId::from(CHANNEL), GetPaginated { page: 1, limit: 20 })
        .unwrap_err();
    assert_unauthorized(e);
}

#[test]
fn messages_test_list_messages_success() {
    let mut s = service();
    post(&mut s, "one");
    let resp = list_messages(&s, &DummyAuthz::new(), user(USER), ChannelId::from(CHANNEL), GetPaginated { page: 1, limit: 20 })
        .unwrap();
    assert_eq!(resp.status_code, 200);
    assert_eq!(resp.data.data.len(), 1);
    assert_eq!(resp.data.total, 1);
    assert_eq!(resp.data.page, 1);
}

#[test]
fn messages_test_list_messages_with_pagination() {
    let s = service();
    let resp = list_messages(&s, &DummyAuthz::new(), user(USER), ChannelId::from(CHANNEL), GetPaginated { page: 2, limit: 5 })
        .unwrap();
    assert_eq!(resp.status_code, 200);
    assert_eq!(resp.data.page, 2);
}

#[test]
fn test_get_message_unauthorized() {
    let s = service();
    assert_unauthorized(get_message(&s, &DummyAuthz::new(), None, MessageId::from(5)).unwrap_err());
}

#[test]
fn messages_test_get_message_not_found() {
    let s = service();
    assert_eq!(get_message(&s, &DummyAuthz::new(), user(USER), MessageId::from(5)).unwrap_err().status_code(), 404);
}

#[test]
fn messages_test_get_message_success() {
    let mut s = service();
    let id = post(&mut s, "Message to Get");
    let resp = get_message(&s, &DummyAuthz::new(), user(USER), id).unwrap();
    assert_eq!(resp.status_code, 200);
    assert_eq!(resp.data.content, "Message to Get");
}

#[test]
fn test_update_message_unauthorized() {
    let mut s = service();
    let id = post(&mut s, "x");
    let e = update_message(&mut s, None, id, UpdateMessageRequest { content: Some("Updated Name".into()), is_pinned: None })
        .unwrap_err();
    assert_unauthorized(e);
}

#[test]
fn messages_test_update_message_not_found() {
    let mut s = service();
    let e = update_message(
        &mut s,
        user(USER),
        MessageId::from(77),
        UpdateMessageRequest { content: Some("Updated Name".into()), is_pinned: None },
    )
    .unwrap_err();
    assert_eq!(e.status_code(), 404);
}

#[test]
fn messages_test_update_message_success() {
    let mut s = service();
    let id = post(&mut s, "Original Name");
    let resp = update_message(&mut s, user(USER), id, UpdateMessageRequest { content: Some("Updated Name".into()), is_pinned: Some(true) })
        .unwrap();
    assert_eq!(resp.status_code, 200);
    assert_eq!(resp.data.content, "Updated Name");
    assert!(resp.data.is_pinned);
}

#[test]
fn messages_test_update_message_partial_update() {
    let mut s = service();
    let id = post(&mut s, "Original Message");
    let resp = update_message(&mut s, user(USER), id, UpdateMessageRequest { content: None, is_pinned: Some(true) }).unwrap();
    assert_eq!(resp.status_code, 200);
    assert!(resp.data.is_pinned);
    assert_eq!(resp.data.content, "Original Message");
}

#[test]
fn test_update_message_empty_name_fails() {
    let mut s = service();
    let id = post(&mut s, "Valid Name");
    let e = update_message(&mut s, user(USER), id, UpdateMessageRequest { content: Some("".into()), is_pinned: None }).unwrap_err();
    assert_eq!(e.status_code(), 400);
}

#[test]
fn test_delete_message_unauthorized() {
    let mut s = service();
    let id = post(&mut s, "x");
    assert_unauthorized(delete_message(&mut s, None, id).unwrap_err());
}

#[test]
fn messages_test_delete_message_not_found() {
    let mut s = service();
    assert_eq!(delete_message(&mut s, user(USER), MessageId::from(3)).unwrap_err().status_code(), 404);
}

#[test]
fn messages_test_delete_message_success() {
    let mut s = service();
    let id = post(&mut s, "Message to Delete");
    let resp = delete_message(&mut s, user(USER), id).unwrap();
    assert_eq!(resp.status_code, 200);
    assert_eq!(get_message(&s, &DummyAuthz::new(), user(USER), id).unwrap_err().status_code(), 404);
}
