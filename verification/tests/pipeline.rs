use echora::models::{Attachment, Message, ReplyPreview};
use echora::services::message::{
    check_params, check_reply_target, CreateMessageParams, MessagePipeline, Reply, Request, Stage,
};
use echora::shared::error::{AppError, ErrorKind};

fn params(content: Option<&str>, reply_to_id: Option<u128>, attachments: usize, rest: bool) -> CreateMessageParams {
    CreateMessageParams {
        user_id: 1,
        username: "alice".to_string(),
        channel_id: 20,
        content: content.map(|c| c.to_string()),
        reply_to_id,
        attachment_ids: (0..attachments as u128).map(|i| 500 + i).collect(),
        validate_reply_channel: rest,
    }
}

fn message_in(channel_id: u128) -> Message {
    Message::with_identity(77, 1, "orig".to_string(), "bob".to_string(), 2, channel_id, None, None)
}

fn attachment(id: u128) -> Attachment {
    Attachment {
        id,
        filename: "a.png".to_string(),
        content_type: "image/png".to_string(),
        size: 3,
        storage_path: "attachments/a.png".to_string(),
        uploader_id: 1,
        message_id: None,
        created_at: 0,
    }
}

fn fail(request: Request) -> AppError {
    match request {
        Request::Fail(e) => e,
        other => panic!("expected a failure, got {:?}", other),
    }
}

#[test]
fn plain_message_goes_straight_to_insert() {
    let (mut p, first) = MessagePipeline::start(params(Some("hello"), None, 0, true)).unwrap();
    assert!(matches!(first, Request::Insert));
    assert_eq!(p.stage, Stage::Persisting);
    let m = p.message.as_ref().unwrap();
    assert_eq!(m.content, "hello");
    assert_eq!(m.author, "alice");
    assert_eq!(m.author_id, 1);
    assert_eq!(m.channel_id, 20);
    assert!(m.reply_to_id.is_none() && m.reply_to.is_none() && m.attachments.is_none());
    assert!(matches!(p.advance(Reply::Inserted), Request::Complete));
    assert_eq!(p.stage, Stage::Ready);
    let (result, job) = p.finish().unwrap();
    assert_eq!(result.channel_id, 20);
    assert_eq!(result.message.author_id, 1);
    let job = job.unwrap();
    assert_eq!(job.message_id, result.message.id);
    assert_eq!(job.channel_id, 20);
    assert_eq!(job.content, "hello");
}

#[test]
fn validation_comes_first() {
    let err = MessagePipeline::start(params(None, None, 0, true)).unwrap_err();
    assert_eq!(err.error_kind(), ErrorKind::BadRequest);
    assert_eq!(err.message(), "Message must have content or attachments");
    let long = "x".repeat(4001);
    let err = MessagePipeline::start(params(Some(&long), None, 0, true)).unwrap_err();
    assert_eq!(err.message(), "Message must be between 1 and 4000 characters");
    let err = MessagePipeline::start(params(Some("hi"), None, 6, true)).unwrap_err();
    assert_eq!(err.error_kind(), ErrorKind::BadRequest);
    assert_eq!(err.message(), "Maximum 5 attachments per message");
    assert!(check_params(&params(Some("hi"), None, 5, true)).is_ok());
    assert!(check_params(&params(None, None, 1, true)).is_ok());
    assert!(check_params(&params(Some(&"y".repeat(4000)), None, 0, false)).is_ok());
}

#[test]
fn cross_channel_reply_is_rejected_over_rest() {
    let (mut p, first) = MessagePipeline::start(params(Some("re"), Some(77), 0, true)).unwrap();
    match first {
        Request::FetchMessage(id) => assert_eq!(id, 77),
        other => panic!("unexpected {:?}", other),
    }
    assert_eq!(p.stage, Stage::CheckingReply);
    let err = fail(p.advance(Reply::RepliedMessage(Some(message_in(10)))));
    assert_eq!(err.status_code(), 400);
    assert_eq!(err.message(), "Cannot reply to a message in a different channel");
    assert_eq!(p.stage, Stage::Failed);
    assert!(p.finish().is_none());
}

#[test]
fn missing_reply_target_is_not_found_over_rest() {
    let (mut p, _) = MessagePipeline::start(params(Some("re"), Some(77), 0, true)).unwrap();
    let err = fail(p.advance(Reply::RepliedMessage(None)));
    assert_eq!(err.error_kind(), ErrorKind::NotFound);
    assert_eq!(err.message(), "Replied-to message not found");
    assert!(check_reply_target(&Some(message_in(20)), 20).is_ok());
}

#[test]
fn same_channel_reply_resolves_its_preview() {
    let (mut p, _) = MessagePipeline::start(params(Some("re"), Some(77), 0, true)).unwrap();
    match p.advance(Reply::RepliedMessage(Some(message_in(20)))) {
        Request::FetchReplyPreview(id) => assert_eq!(id, 77),
        other => panic!("unexpected {:?}", other),
    }
    let preview = ReplyPreview { id: 77, author: "bob".to_string(), content: "orig".to_string() };
    assert!(matches!(p.advance(Reply::ReplyPreview(Some(preview))), Request::Insert));
    let m = p.message.as_ref().unwrap();
    assert_eq!(m.reply_to_id, Some(77));
    assert_eq!(m.reply_to.as_ref().unwrap().author, "bob");
}

#[test]
fn socket_reply_skips_the_channel_check() {
    let (mut p, first) = MessagePipeline::start(params(Some("re"), Some(77), 0, false)).unwrap();
    match first {
        Request::FetchReplyPreview(id) => assert_eq!(id, 77),
        other => panic!("unexpected {:?}", other),
    }
    assert!(matches!(p.advance(Reply::ReplyPreview(None)), Request::Insert));
    let m = p.message.as_ref().unwrap();
    assert_eq!(m.reply_to_id, Some(77));
    assert!(m.reply_to.is_none());
    assert!(matches!(p.advance(Reply::Inserted), Request::Complete));
    assert!(p.finish().is_some());
}

#[test]
fn attachments_are_linked_after_insert() {
    let (mut p, first) = MessagePipeline::start(params(None, None, 2, true)).unwrap();
    assert!(matches!(first, Request::Insert));
    let id = p.message.as_ref().unwrap().id;
    match p.advance(Reply::Inserted) {
        Request::LinkAttachments { message_id, uploader_id } => {
            assert_eq!(message_id, id);
            assert_eq!(uploader_id, 1);
        }
        other => panic!("unexpected {:?}", other),
    }
    assert_eq!(p.stage, Stage::Linking);
    assert!(matches!(p.advance(Reply::Linked(vec![attachment(500)])), Request::Complete));
    let (result, job) = p.finish().unwrap();
    assert_eq!(result.message.attachments.as_ref().unwrap().len(), 1);
    assert_eq!(result.message.content, "");
    assert!(job.is_none());
}

#[test]
fn attachments_that_fail_to_link_are_dropped() {
    let (mut p, _) = MessagePipeline::start(params(Some("with file"), None, 1, true)).unwrap();
    p.advance(Reply::Inserted);
    assert!(matches!(p.advance(Reply::Linked(vec![])), Request::Complete));
    let (result, job) = p.finish().unwrap();
    assert!(result.message.attachments.is_none());
    assert!(job.is_some());
}

#[test]
fn store_failures_end_the_pipeline() {
    let (mut p, _) = MessagePipeline::start(params(Some("hello"), None, 0, true)).unwrap();
    let err = fail(p.advance(Reply::StoreFailed(AppError::internal("db down"))));
    assert_eq!(err.error_kind(), ErrorKind::Internal);
    assert_eq!(err.message(), "db down");
    assert_eq!(p.stage, Stage::Failed);
    let err = fail(p.advance(Reply::Inserted));
    assert_eq!(err.message(), "Message pipeline answered out of turn");
}

#[test]
fn answers_out_of_turn_end_the_pipeline() {
    let (mut p, _) = MessagePipeline::start(params(Some("hello"), None, 0, true)).unwrap();
    let err = fail(p.advance(Reply::Linked(vec![])));
    assert_eq!(err.error_kind(), ErrorKind::Internal);
    assert_eq!(err.message(), "Message pipeline answered out of turn");
    let (mut q, _) = MessagePipeline::start(params(Some("hello"), None, 1, true)).unwrap();
    assert!(q.finish().is_none());
    let (mut r, _) = MessagePipeline::start(params(Some("hello"), Some(7), 0, true)).unwrap();
    assert!(matches!(r.advance(Reply::ReplyPreview(None)), Request::Fail(_)));
    let (mut s, _) = MessagePipeline::start(params(Some("hello"), None, 0, true)).unwrap();
    assert!(matches!(s.advance(Reply::RepliedMessage(None)), Request::Fail(_)));
    q = s;
    assert_eq!(q.stage, Stage::Failed);
}
