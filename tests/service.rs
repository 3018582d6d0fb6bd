use messages_core::errors::CoreError;
use messages_core::health::{IsHealthy, MockHealthRepository};
use messages_core::ids::{AttachmentId, AuthorId, ChannelId, MessageId};
use messages_core::message::{Attachment, CreateMessageRequest, InsertMessageInput, UpdateMessageInput};
use messages_core::pagination::GetPaginated;
use messages_core::repository::MockMessageRepository;
use messages_core::service::Service;
use uuid::Uuid;

fn fresh() -> u128 {
    Uuid::new_v4().as_u128()
}

fn new_service() -> Service {
    Service::new(MockMessageRepository::new(), MockHealthRepository::new())
}

fn input_with(id: MessageId, channel: ChannelId, author: AuthorId, content: &str) -> InsertMessageInput {
    InsertMessageInput {
        id,
        channel_id: channel,
        author_id: author,
        content: content.to_string(),
        reply_to_message_id: None,
        attachments: vec![],
    }
}

#[test]
fn mock_repo_crud_flow() {
    let mut repo = MockMessageRepository::new();

    let id = MessageId::from(fresh());
    let channel = ChannelId::from(fresh());
    let author = AuthorId::from(fresh());

    let input = InsertMessageInput {
        id,
        channel_id: channel,
        author_id: author,
        content: "hello world".to_string(),
        reply_to_message_id: None,
        attachments: vec![Attachment {
            id: AttachmentId::from(fresh()),
            name: "file.txt".into(),
            url: "http://example.com/file.txt".into(),
        }],
    };

    let inserted = repo.insert(input.clone()).expect("insert should succeed");
    assert_eq!(inserted.id, id);
    assert_eq!(inserted.content, "hello world");

    let found = repo.find_by_id(&id).expect("find should succeed");
    assert!(found.is_some());
    let found = found.unwrap();
    assert_eq!(found.id, id);

    let (list, total) = repo.list(&channel, &GetPaginated::default()).expect("list should succeed");
    assert!(total >= 1);
    assert!(list.iter().any(|m| m.id == id));

    let update_input = UpdateMessageInput { id, content: Some("updated".into()), is_pinned: Some(true) };
    let updated = repo.update(update_input).expect("update should succeed");
    assert_eq!(updated.content, "updated");
    assert!(updated.is_pinned);

    repo.delete(&id).expect("delete should succeed");
    let after = repo.find_by_id(&id).expect("find after delete should succeed");
    assert!(after.is_none());

    let missing_id = MessageId::from(fresh());
    let res = repo.delete(&missing_id);
    assert!(matches!(res, Err(CoreError::MessageNotFound { .. })));
}

#[test]
fn service_create_get_update_delete_flow() {
    let repo = MockMessageRepository::new();
    let health = MockHealthRepository::new();
    let mut service = Service::new(repo.clone(), health);

    let id = MessageId::from(fresh());
    let channel = ChannelId::from(fresh());
    let author = AuthorId::from(fresh());

    let input = InsertMessageInput {
        id,
        channel_id: channel,
        author_id: author,
        content: "service message".into(),
        reply_to_message_id: None,
        attachments: vec![Attachment { id: AttachmentId::from(fresh()), name: "a".into(), url: "u".into() }],
    };

    let created = service.create_message(input.clone()).expect("create should work");
    assert_eq!(created.id, id);

    let got = service.get_message(&id).expect("get should work");
    assert_eq!(got.content, "service message");

    let update = UpdateMessageInput { id, content: Some("changed".into()), is_pinned: Some(false) };
    let updated = service.update_message(update).expect("update should work");
    assert_eq!(updated.content, "changed");

    service.delete_message(&id).expect("delete should work");

    let res = service.get_message(&id);
    assert!(matches!(res, Err(CoreError::MessageNotFound { .. })));
}

#[test]
fn create_invalid_message_name_rejected() {
    let mut service = new_service();
    let input = InsertMessageInput {
        id: MessageId::from(fresh()),
        channel_id: ChannelId::from(fresh()),
        author_id: AuthorId::from(fresh()),
        content: "  ".into(),
        reply_to_message_id: None,
        attachments: vec![],
    };
    let res = service.create_message(input);
    assert!(matches!(res, Err(CoreError::InvalidMessageName)));
}

#[test]
fn mock_test_test_create_message_success() {
    let mut service = new_service();
    let channel = ChannelId::from(fresh());
    let author = AuthorId::from(fresh());
    let reply = MessageId::from(fresh());
    let input = InsertMessageInput {
        id: MessageId::from(fresh()),
        channel_id: channel,
        author_id: author,
        content: "Test Message".to_string(),
        reply_to_message_id: Some(reply),
        attachments: vec![Attachment {
            id: AttachmentId::from(7),
            name: "picture.png".to_string(),
            url: "https://example.com/picture.png".to_string(),
        }],
    };
    let message = service.create_message(input.clone()).expect("create_message returned an error");
    assert_eq!(message.content, "Test Message", "Expected correct message content");
    assert_eq!(message.author_id, input.author_id, "Expected correct author ID");
    assert_eq!(message.channel_id, channel);
    assert_eq!(message.reply_to_message_id, Some(reply));
    assert_eq!(message.attachments.len(), 1);
    assert_eq!(message.attachments[0].url, "https://example.com/picture.png");
    assert!(!message.is_pinned);
    assert_eq!(message.updated_at, None);
    assert!(message.created_at > 0);
}

#[test]
fn test_create_message_fail_empty_name() {
    let mut service = new_service();
    let input = input_with(MessageId::from(fresh()), ChannelId::from(fresh()), AuthorId::from(fresh()), "");
    let error = service.create_message(input).expect_err("create_message should have returned an error");
    assert_eq!(error.message(), "Message name cannot be empty", "Expected invalid message name error");
    assert_eq!(service.message_repository.len(), 0);
}

#[test]
fn test_create_message_fail_whitespace_name() {
    let mut service = new_service();
    let input = input_with(MessageId::from(fresh()), ChannelId::from(fresh()), AuthorId::from(fresh()), "   ");
    let error = service.create_message(input).expect_err("create_message should have returned an error");
    assert_eq!(error.message(), "Message name cannot be empty", "Expected invalid message name error");
    assert_eq!(service.message_repository.len(), 0);
}

#[test]
fn create_rejects_unicode_white_space_only() {
    let mut service = new_service();
    let input = input_with(
        MessageId::from(fresh()),
        ChannelId::from(fresh()),
        AuthorId::from(fresh()),
        "\t\n\u{a0}\u{3000} \r",
    );
    assert!(matches!(service.create_message(input), Err(CoreError::InvalidMessageName)));
    let ok = input_with(MessageId::from(fresh()), ChannelId::from(fresh()), AuthorId::from(fresh()), "  x  ");
    assert!(service.create_message(ok).is_ok());
}

#[test]
fn create_with_taken_id_fails() {
    let mut service = new_service();
    let id = MessageId::from(fresh());
    let channel = ChannelId::from(fresh());
    let author = AuthorId::from(fresh());
    service.create_message(input_with(id, channel, author, "first")).unwrap();
    let err = service.create_message(input_with(id, channel, author, "second")).unwrap_err();
    assert!(matches!(err, CoreError::FailedToInsertMessage { ref name } if name == "second"));
    assert_eq!(err.message(), "Failed to insert message with name second");
    assert_eq!(service.get_message(&id).unwrap().content, "first");
    assert_eq!(service.message_repository.len(), 1);
}

#[test]
fn mock_test_test_get_message_success() {
    let mut service = new_service();
    let id = MessageId::from(fresh());
    service
        .create_message(input_with(id, ChannelId::from(fresh()), AuthorId::from(fresh()), "Test Message"))
        .unwrap();
    let message = service.get_message(&id).expect("get_message returned an error");
    assert_eq!(message.id, id, "Expected same message ID");
    assert_eq!(message.content, "Test Message", "Expected correct message content");
}

#[test]
fn mock_test_test_get_message_not_found() {
    let service = new_service();
    let id = MessageId::from(fresh());
    let error = service.get_message(&id).expect_err("get_message should have returned an error");
    assert!(error.message().contains("not found"), "Expected message not found error");
    assert!(matches!(error, CoreError::MessageNotFound { id: e } if e == id));
}

#[test]
fn round_trip_keeps_every_field() {
    let mut service = new_service();
    let id = MessageId::from(fresh());
    let input = InsertMessageInput {
        id,
        channel_id: ChannelId::from(11),
        author_id: AuthorId::from(12),
        content: "round trip".to_string(),
        reply_to_message_id: Some(MessageId::from(13)),
        attachments: vec![
            Attachment { id: AttachmentId::from(14), name: "a.txt".into(), url: "http://x/a".into() },
            Attachment { id: AttachmentId::from(15), name: "b.txt".into(), url: "http://x/b".into() },
        ],
    };
    let created = service.message_repository.insert_at(input.clone(), 1_000).unwrap();
    let got = service.get_message(&id).unwrap();
    assert_eq!(got.id, id);
    assert_eq!(got.channel_id, input.channel_id);
    assert_eq!(got.author_id, input.author_id);
    assert_eq!(got.content, input.content);
    assert_eq!(got.reply_to_message_id, input.reply_to_message_id);
    assert_eq!(got.attachments.len(), 2);
    assert_eq!(got.attachments[1].id, AttachmentId::from(15));
    assert_eq!(got.attachments[1].name, "b.txt");
    assert_eq!(got.attachments[1].url, "http://x/b");
    assert!(!got.is_pinned);
    assert_eq!(got.created_at, 1_000);
    assert_eq!(created.created_at, got.created_at);
    assert_eq!(got.updated_at, None);
}

#[test]
fn mock_test_test_list_messages_success() {
    let mut service = new_service();
    let channel = ChannelId::from(fresh());
    for i in 0..3 {
        let content = format!("Test Message {}", i);
        service
            .create_message(input_with(MessageId::from(fresh()), channel, AuthorId::from(fresh()), &content))
            .unwrap();
    }
    let (messages, total) =
        service.list_messages(&channel, &GetPaginated::default()).expect("list_messages returned an error");
    assert_eq!(messages.len(), 3, "Expected 3 messages in the list");
    assert_eq!(total, 3, "Expected total count to be 3");
}

#[test]
fn mock_test_test_list_messages_with_pagination() {
    let mut service = new_service();
    let channel = ChannelId::from(fresh());
    for i in 0..25i64 {
        let content = format!("Test Message {}", i);
        service
            .message_repository
            .insert_at(input_with(MessageId::from(fresh()), channel, AuthorId::from(1), &content), 1_000 + i)
            .unwrap();
    }
    let (page1, total1) = service
        .list_messages(&channel, &GetPaginated { page: 1, limit: 10 })
        .expect("list_messages page 1 returned an error");
    assert_eq!(page1.len(), 10, "Expected 10 messages on page 1");
    assert_eq!(total1, 25, "Expected total count to be 25");

    let (page2, total2) = service
        .list_messages(&channel, &GetPaginated { page: 2, limit: 10 })
        .expect("list_messages page 2 returned an error");
    assert_eq!(page2.len(), 10, "Expected 10 messages on page 2");
    assert_eq!(total2, 25);

    let (page3, total3) = service
        .list_messages(&channel, &GetPaginated { page: 3, limit: 10 })
        .expect("list_messages page 3 returned an error");
    assert_eq!(page3.len(), 5, "Expected 5 messages on page 3");
    assert_eq!(total3, 25);

    // newest first across pages
    assert_eq!(page1[0].content, "Test Message 24");
    assert_eq!(page2[0].content, "Test Message 14");
    assert_eq!(page3[4].content, "Test Message 0");
    let all: Vec<i64> = page1.iter().chain(page2.iter()).chain(page3.iter()).map(|m| m.created_at).collect();
    assert!(all.windows(2).all(|w| w[0] >= w[1]));
}

#[test]
fn list_orders_by_creation_time_not_insertion_order() {
    let mut repo = MockMessageRepository::new();
    let channel = ChannelId::from(5);
    for (n, t) in [(1u128, 300i64), (2, 100), (3, 200), (4, 200)] {
        repo.insert_at(input_with(MessageId::from(n), channel, AuthorId::from(9), "m"), t).unwrap();
    }
    let (page, total) = repo.list(&channel, &GetPaginated { page: 1, limit: 10 }).unwrap();
    assert_eq!(total, 4);
    let ids: Vec<u128> = page.iter().map(|m| m.id.0).collect();
    assert_eq!(ids, vec![1, 4, 3, 2]);
}

#[test]
fn list_filters_by_channel_and_clamps_limit() {
    let mut repo = MockMessageRepository::new();
    for i in 0..60u128 {
        repo.insert_at(input_with(MessageId::from(i), ChannelId::from(1), AuthorId::from(9), "a"), i as i64).unwrap();
    }
    repo.insert_at(input_with(MessageId::from(1000), ChannelId::from(2), AuthorId::from(9), "b"), 5).unwrap();
    let (page, total) = repo.list(&ChannelId::from(1), &GetPaginated { page: 1, limit: 100 }).unwrap();
    assert_eq!(page.len(), 50);
    assert_eq!(total, 60);
    let (other, other_total) = repo.list(&ChannelId::from(2), &GetPaginated { page: 1, limit: 100 }).unwrap();
    assert_eq!(other.len(), 1);
    assert_eq!(other_total, 1);
    assert_eq!(other[0].id, MessageId::from(1000));
    let (beyond, _) = repo.list(&ChannelId::from(1), &GetPaginated { page: 9, limit: 10 }).unwrap();
    assert!(beyond.is_empty());
}

#[test]
fn large_limit_pages_tile_by_clamped_size() {
    let mut repo = MockMessageRepository::new();
    let channel = ChannelId::from(1);
    for i in 0..120u128 {
        repo.insert_at(input_with(MessageId::from(i), channel, AuthorId::from(9), "a"), i as i64).unwrap();
    }
    let (page2, total) = repo.list(&channel, &GetPaginated { page: 2, limit: 100 }).unwrap();
    assert_eq!(total, 120);
    assert_eq!(page2.len(), 50);
    assert_eq!(page2[0].id, MessageId::from(69));
    assert_eq!(page2[49].id, MessageId::from(20));
    let (page3, _) = repo.list(&channel, &GetPaginated { page: 3, limit: 100 }).unwrap();
    assert_eq!(page3.len(), 20);
    assert_eq!(page3[19].id, MessageId::from(0));
}

#[test]
fn test_list_messages_empty() {
    let service = new_service();
    let (messages, total) = service
        .list_messages(&ChannelId::from(fresh()), &GetPaginated::default())
        .expect("list_messages returned an error");
    assert!(messages.is_empty(), "Expected empty message list");
    assert_eq!(total, 0, "Expected total count to be 0");
}

#[test]
fn pagination_window_values() {
    assert_eq!(GetPaginated { page: 2, limit: 10 }.window(), (10, 10));
    assert_eq!(GetPaginated { page: 3, limit: 100 }.window(), (100, 50));
    assert_eq!(GetPaginated { page: 0, limit: 7 }.window(), (0, 7));
    assert_eq!(GetPaginated { page: u32::MAX, limit: u32::MAX }.window().1, 50);
    let d = GetPaginated::default();
    assert_eq!((d.page, d.limit), (1, 20));
}

#[test]
fn mock_test_test_update_message_success() {
    let mut service = new_service();
    let id = MessageId::from(fresh());
    service
        .create_message(input_with(id, ChannelId::from(fresh()), AuthorId::from(fresh()), "Original Message"))
        .unwrap();
    let updated = service
        .update_message(UpdateMessageInput { id, content: Some("Updated Message".into()), is_pinned: Some(true) })
        .expect("update_message returned an error");
    assert_eq!(updated.content, "Updated Message", "Expected updated content");
    assert!(updated.is_pinned, "Expected updated pin");
    assert!(updated.updated_at.is_some(), "Expected updated_at to be set");
}

#[test]
fn mock_test_test_update_message_partial_update() {
    let mut service = new_service();
    let id = MessageId::from(fresh());
    let channel = ChannelId::from(fresh());
    let author = AuthorId::from(fresh());
    service.message_repository.insert_at(input_with(id, channel, author, "Original Message"), 50).unwrap();
    let updated = service
        .update_message(UpdateMessageInput { id, content: None, is_pinned: Some(true) })
        .expect("update_message returned an error");
    assert!(updated.is_pinned, "Expected updated pin");
    assert_eq!(updated.content, "Original Message", "Expected unchanged content");
    assert_eq!(updated.channel_id, channel);
    assert_eq!(updated.author_id, author);
    assert_eq!(updated.created_at, 50);
    assert!(updated.updated_at.is_some());

    let again = service
        .update_message(UpdateMessageInput { id, content: Some("New content".into()), is_pinned: None })
        .unwrap();
    assert_eq!(again.content, "New content");
    assert!(again.is_pinned, "Expected unchanged pin");
    let stored = service.get_message(&id).unwrap();
    assert_eq!(stored.content, "New content");
    assert!(stored.is_pinned);
}

#[test]
fn update_at_sets_given_time() {
    let mut repo = MockMessageRepository::new();
    let id = MessageId::from(3);
    repo.insert_at(input_with(id, ChannelId::from(1), AuthorId::from(2), "x"), 10).unwrap();
    let m = repo.update_at(UpdateMessageInput { id, content: None, is_pinned: None }, 77).unwrap();
    assert_eq!(m.updated_at, Some(77));
    assert_eq!(m.content, "x");
    assert_eq!(m.created_at, 10);
}

#[test]
fn mock_test_test_update_message_not_found() {
    let mut service = new_service();
    let error = service
        .update_message(UpdateMessageInput {
            id: MessageId::from(fresh()),
            content: Some("Updated Message".into()),
            is_pinned: None,
        })
        .expect_err("update_message should have returned an error");
    assert!(error.message().contains("not found"), "Expected message not found error");
}

#[test]
fn test_update_message_fail_empty_name() {
    let mut service = new_service();
    let id = MessageId::from(fresh());
    service
        .create_message(input_with(id, ChannelId::from(fresh()), AuthorId::from(fresh()), "Original Message"))
        .unwrap();
    let error = service
        .update_message(UpdateMessageInput { id, content: Some("".into()), is_pinned: Some(true) })
        .expect_err("update_message should have returned an error");
    assert_eq!(error.message(), "Message name cannot be empty", "Expected invalid message name error");
    let stored = service.get_message(&id).unwrap();
    assert_eq!(stored.content, "Original Message");
    assert!(!stored.is_pinned);
    assert_eq!(stored.updated_at, None);
    let blank = service.update_message(UpdateMessageInput { id, content: Some(" \t ".into()), is_pinned: None });
    assert!(matches!(blank, Err(CoreError::InvalidMessageName)));
}

#[test]
fn mock_test_test_delete_message_success() {
    let mut service = new_service();
    let id = MessageId::from(fresh());
    service
        .create_message(input_with(id, ChannelId::from(fresh()), AuthorId::from(fresh()), "Test Message"))
        .unwrap();
    service.delete_message(&id).expect("delete_message returned an error");
    assert!(service.get_message(&id).is_err(), "Expected message to be deleted");
}

#[test]
fn mock_test_test_delete_message_not_found() {
    let mut service = new_service();
    let error = service
        .delete_message(&MessageId::from(fresh()))
        .expect_err("delete_message should have returned an error");
    assert!(error.message().contains("not found"), "Expected message not found error");
}

#[test]
fn delete_keeps_other_records() {
    let mut service = new_service();
    let channel = ChannelId::from(4);
    for i in 1..=3u128 {
        service.message_repository.insert_at(input_with(MessageId::from(i), channel, AuthorId::from(1), "m"), i as i64).unwrap();
    }
    service.delete_message(&MessageId::from(2)).unwrap();
    let (page, total) = service.list_messages(&channel, &GetPaginated::default()).unwrap();
    assert_eq!(total, 2);
    let ids: Vec<u128> = page.iter().map(|m| m.id.0).collect();
    assert_eq!(ids, vec![3, 1]);
    assert!(matches!(service.delete_message(&MessageId::from(2)), Err(CoreError::MessageNotFound { .. })));
}

#[test]
fn pin_is_idempotent_and_listed() {
    let mut service = new_service();
    let channel = ChannelId::from(8);
    for i in 1..=4u128 {
        service.message_repository.insert_at(input_with(MessageId::from(i), channel, AuthorId::from(1), "m"), i as i64).unwrap();
    }
    service.pin_message(&MessageId::from(1)).unwrap();
    service.pin_message(&MessageId::from(3)).unwrap();
    service.pin_message(&MessageId::from(3)).unwrap();
    let stored = service.get_message(&MessageId::from(3)).unwrap();
    assert!(stored.is_pinned);
    assert_eq!(stored.updated_at, None);
    let (pins, total) = service.list_pins(&channel, None, None).unwrap();
    assert_eq!(total, 2);
    let ids: Vec<u128> = pins.iter().map(|m| m.id.0).collect();
    assert_eq!(ids, vec![3, 1]);
    let (second, _) = service.list_pins(&channel, Some(1), Some(1)).unwrap();
    assert_eq!(second.len(), 1);
    assert_eq!(second[0].id, MessageId::from(1));
    assert!(matches!(service.pin_message(&MessageId::from(99)), Err(CoreError::MessageNotFound { .. })));
}

#[test]
fn fresh_ids_differ() {
    let req = CreateMessageRequest {
        channel_id: ChannelId::from(1),
        content: "x".into(),
        reply_to_message_id: None,
        attachments: vec![],
    };
    let a = req.clone().into_input(AuthorId::from(2));
    let b = req.into_input(AuthorId::from(2));
    assert_ne!(a.id, b.id);
    assert_eq!(a.author_id, AuthorId::from(2));
    assert_eq!(a.content, "x");
}

#[test]
fn health_checks() {
    let service = new_service();
    let h = service.check_health().unwrap();
    assert!(h.value());
    assert!(matches!(IsHealthy::new(false).to_result(), Err(CoreError::Unhealthy)));
    assert!(IsHealthy::new(true).to_result().unwrap().value());
}

#[test]
fn core_error_texts() {
    let e = CoreError::MessageNotFound { id: MessageId::from(0x67e55044_10b1_426f_9247_bb680e5fe0c8) };
    assert_eq!(e.message(), "Message with id 67e55044-10b1-426f-9247-bb680e5fe0c8 not found");
    assert_eq!(CoreError::Unhealthy.message(), "Health check failed");
    assert_eq!(CoreError::ServiceUnavailable("x".into()).message(), "Service is currently unavailable");
    assert_eq!(CoreError::DatabaseError { msg: "boom".into() }.message(), "Database error: boom");
    assert_eq!(CoreError::SerializationError { msg: "s".into() }.message(), "Serialization error: s");
    assert_eq!(CoreError::UnknownError { message: "u".into() }.message(), "An unknown error occurred: u");
}
