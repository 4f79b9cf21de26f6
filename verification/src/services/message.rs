//! The message pipeline: validate, resolve the reply, persist, link the
//! attachments, and hand the link-preview work on. The pipeline decides;
//! its caller talks to the store and feeds each answer back.

use vstd::prelude::*;
use crate::ids::Id;
use crate::models::{Attachment, Message, ReplyPreview};
use crate::shared::error::{AppError, ErrorKind};
use crate::shared::validation::{
    opt_view, optional_content_ok, validate_message_content_optional,
    MAX_ATTACHMENTS_PER_MESSAGE,
};
use crate::shared::text::trimmed;

verus! {

/// What a caller asks the pipeline to post.
#[derive(Debug)]
pub struct CreateMessageParams {
    pub user_id: Id,
    pub username: String,
    pub channel_id: Id,
    pub content: Option<String>,
    pub reply_to_id: Option<Id>,
    pub attachment_ids: Vec<Id>,
    /// If true, a reply must be to a message of the same channel (REST).
    /// If false, the reply's channel is not looked at (socket).
    pub validate_reply_channel: bool,
}

/// What the pipeline hands back when it is done.
#[derive(Debug)]
pub struct CreateMessageResult {
    pub message: Message,
    pub channel_id: Id,
}

/// The link-preview work that follows a message with a body.
#[derive(Debug)]
pub struct PreviewJob {
    pub message_id: Id,
    pub channel_id: Id,
    pub content: String,
}

/// Where a pipeline stands.
#[derive(Debug, Clone, Copy, PartialEq, Eq, Structural)]
pub enum Stage {
    /// Waiting for the replied-to message, to compare channels.
    CheckingReply,
    /// Waiting for the snapshot of the replied-to message.
    ResolvingReply,
    /// Waiting for the message to be stored.
    Persisting,
    /// Waiting for the attachments to be linked.
    Linking,
    /// The message is stored and complete.
    Ready,
    /// The pipeline failed; nothing more happens.
    Failed,
}

/// What the caller must do next.
#[derive(Debug)]
pub enum Request {
    /// Fetch the message with this id and answer with `Reply::RepliedMessage`.
    FetchMessage(Id),
    /// Fetch the reply snapshot of this message and answer with
    /// `Reply::ReplyPreview`.
    FetchReplyPreview(Id),
    /// Store the pipeline's message and answer with `Reply::Inserted`.
    Insert,
    /// Link the listed attachments to the message, where the uploader owns
    /// them and they are not linked yet, and answer with `Reply::Linked`.
    LinkAttachments { message_id: Id, uploader_id: Id },
    /// Take the result with `finish`.
    Complete,
    /// Report this error; the pipeline is over.
    Fail(AppError),
}

/// What the caller answers.
#[derive(Debug)]
pub enum Reply {
    RepliedMessage(Option<Message>),
    ReplyPreview(Option<ReplyPreview>),
    Inserted,
    Linked(Vec<Attachment>),
    /// The store failed; the error is reported as it is.
    StoreFailed(AppError),
}

/// A message on its way through the pipeline.
#[derive(Debug)]
pub struct MessagePipeline {
    pub params: CreateMessageParams,
    pub stage: Stage,
    pub message: Option<Message>,
}

/// Whether a request may enter the pipeline: its body is acceptable and it
/// has at most five attachments.
pub open spec fn params_ok(params: CreateMessageParams) -> bool {
    optional_content_ok(opt_view(params.content), params.attachment_ids@.len() > 0)
        && params.attachment_ids@.len() <= MAX_ATTACHMENTS_PER_MESSAGE
}

/// The body a message is stored with: the submitted one, or the empty one.
pub open spec fn body_of(content: Option<String>) -> Seq<char> {
    match content {
        Some(c) => c@,
        None => Seq::empty(),
    }
}

/// Whether `m` is the message the pipeline makes of `params` and a reply
/// snapshot. Its identifier and its time are the only things left open.
pub open spec fn is_message_of(
    m: Message,
    params: CreateMessageParams,
    reply_to: Option<ReplyPreview>,
) -> bool {
    &&& m.content@ == body_of(params.content)
    &&& m.author@ == params.username@
    &&& m.author_id == params.user_id
    &&& m.channel_id == params.channel_id
    &&& m.edited_at is None
    &&& m.reply_to_id == params.reply_to_id
    &&& m.reply_to == reply_to
    &&& m.reactions is None
    &&& m.link_previews is None
    &&& m.attachments is None
}

/// What a request that may not enter the pipeline is answered with.
pub open spec fn rejection_text(params: CreateMessageParams) -> Seq<char> {
    if !optional_content_ok(opt_view(params.content), params.attachment_ids@.len() > 0) {
        if params.content is Some && trimmed(params.content->Some_0@).len() > 0 {
            "Message must be between 1 and 4000 characters"@
        } else {
            "Message must have content or attachments"@
        }
    } else {
        "Maximum 5 attachments per message"@
    }
}

/// Checks a request before anything is fetched or stored.
pub fn check_params(params: &CreateMessageParams) -> (r: Result<(), AppError>)
    ensures
        params_ok(*params) ==> r is Ok,
        !params_ok(*params) ==> r is Err && r->Err_0.is(
            ErrorKind::BadRequest,
            rejection_text(*params),
        ),
{
    let has_attachments = params.attachment_ids.len() > 0;
    match validate_message_content_optional(&params.content, has_attachments) {
        Ok(()) => {},
        Err(e) => {
            return Err(e);
        },
    }
    if params.attachment_ids.len() > MAX_ATTACHMENTS_PER_MESSAGE {
        return Err(AppError::bad_request("Maximum 5 attachments per message"));
    }
    Ok(())
}

/// Checks the message a REST reply points at: it must exist, in the channel
/// that is posted to.
pub fn check_reply_target(replied: &Option<Message>, channel_id: Id) -> (r: Result<(), AppError>)
    ensures
        replied is None ==> r is Err && r->Err_0.is(
            ErrorKind::NotFound,
            "Replied-to message not found"@,
        ),
        replied is Some && replied->Some_0.channel_id != channel_id ==> r is Err && r->Err_0.is(
            ErrorKind::BadRequest,
            "Cannot reply to a message in a different channel"@,
        ),
        replied is Some && replied->Some_0.channel_id == channel_id ==> r is Ok,
{
    match replied {
        None => Err(AppError::not_found("Replied-to message not found")),
        Some(m) => {
            if m.channel_id != channel_id {
                Err(AppError::bad_request("Cannot reply to a message in a different channel"))
            } else {
                Ok(())
            }
        },
    }
}

impl MessagePipeline {
    /// Whether the pipeline holds a message exactly when it has made one.
    pub open spec fn wf(&self) -> bool {
        match self.stage {
            Stage::Persisting | Stage::Linking | Stage::Ready => self.message is Some,
            _ => true,
        }
    }

    /// The message the pipeline makes of its request and a reply snapshot.
    fn build(&mut self, reply_to: Option<ReplyPreview>)
        ensures
            final(self).params == old(self).params,
            final(self).stage == Stage::Persisting,
            final(self).message is Some,
            is_message_of(final(self).message->Some_0, old(self).params, reply_to),
    {
        let content = match &self.params.content {
            Some(c) => c.clone(),
            None => String::new(),
        };
        let m = Message::new(
            content,
            self.params.username.clone(),
            self.params.user_id,
            self.params.channel_id,
            self.params.reply_to_id,
            reply_to,
        );
        self.message = Some(m);
        self.stage = Stage::Persisting;
    }

    /// Starts a pipeline. A request that fails validation is refused at
    /// once; otherwise the first thing to do is returned with the pipeline.
    pub fn start(params: CreateMessageParams) -> (r: Result<(MessagePipeline, Request), AppError>)
        ensures
            !params_ok(params) ==> r is Err && r->Err_0.is(
                ErrorKind::BadRequest,
                rejection_text(params),
            ),
            params_ok(params) ==> r is Ok && r->Ok_0.0.params == params && r->Ok_0.0.wf()
                && match params.reply_to_id {
                Some(reply_id) => if params.validate_reply_channel {
                    r->Ok_0.0.stage == Stage::CheckingReply && r->Ok_0.0.message is None
                        && r->Ok_0.1 == Request::FetchMessage(reply_id)
                } else {
                    r->Ok_0.0.stage == Stage::ResolvingReply && r->Ok_0.0.message is None
                        && r->Ok_0.1 == Request::FetchReplyPreview(reply_id)
                },
                None => r->Ok_0.0.stage == Stage::Persisting && r->Ok_0.1 == Request::Insert
                    && r->Ok_0.0.message is Some && is_message_of(
                    r->Ok_0.0.message->Some_0,
                    params,
                    None,
                ),
            },
    {
        match check_params(&params) {
            Ok(()) => {},
            Err(e) => {
                return Err(e);
            },
        }
        let reply_to_id = params.reply_to_id;
        let validate = params.validate_reply_channel;
        let mut pipeline = MessagePipeline { params, stage: Stage::CheckingReply, message: None };
        match reply_to_id {
            Some(reply_id) => {
                if validate {
                    Ok((pipeline, Request::FetchMessage(reply_id)))
                } else {
                    pipeline.stage = Stage::ResolvingReply;
                    Ok((pipeline, Request::FetchReplyPreview(reply_id)))
                }
            },
            None => {
                pipeline.build(None);
                Ok((pipeline, Request::Insert))
            },
        }
    }

    /// Takes the caller's answer and says what to do next. An answer that
    /// does not fit the stage, and any failure of the store, ends the
    /// pipeline.
    pub fn advance(&mut self, reply: Reply) -> (next: Request)
        ensures
            final(self).wf(),
            final(self).params == old(self).params,
            advanced(*old(self), reply, *final(self), next),
    {
        match reply {
            Reply::StoreFailed(e) => {
                self.stage = Stage::Failed;
                Request::Fail(e)
            },
            Reply::RepliedMessage(found) => {
                match (self.stage, self.params.reply_to_id) {
                    (Stage::CheckingReply, Some(reply_id)) => {
                        match check_reply_target(&found, self.params.channel_id) {
                            Ok(()) => {
                                self.stage = Stage::ResolvingReply;
                                Request::FetchReplyPreview(reply_id)
                            },
                            Err(e) => {
                                self.stage = Stage::Failed;
                                Request::Fail(e)
                            },
                        }
                    },
                    _ => self.out_of_turn(),
                }
            },
            Reply::ReplyPreview(preview) => {
                match self.stage {
                    Stage::ResolvingReply => {
                        self.build(preview);
                        Request::Insert
                    },
                    _ => self.out_of_turn(),
                }
            },
            Reply::Inserted => {
                match (self.stage, &self.message) {
                    (Stage::Persisting, Some(m)) => {
                        if self.params.attachment_ids.len() > 0 {
                            let message_id = m.id;
                            self.stage = Stage::Linking;
                            Request::LinkAttachments {
                                message_id,
                                uploader_id: self.params.user_id,
                            }
                        } else {
                            self.stage = Stage::Ready;
                            Request::Complete
                        }
                    },
                    _ => self.out_of_turn(),
                }
            },
            Reply::Linked(attachments) => {
                match self.stage {
                    Stage::Linking => {
                        match self.message.take() {
                            Some(mut m) => {
                                if attachments.len() > 0 {
                                    m.attachments = Some(attachments);
                                }
                                self.message = Some(m);
                                self.stage = Stage::Ready;
                                Request::Complete
                            },
                            None => self.out_of_turn(),
                        }
                    },
                    _ => self.out_of_turn(),
                }
            },
        }
    }

    /// Ends the pipeline on an answer that does not fit its stage.
    fn out_of_turn(&mut self) -> (next: Request)
        ensures
            final(self).params == old(self).params,
            final(self).message == old(self).message,
            final(self).stage == Stage::Failed,
            fails_with(next, ErrorKind::Internal, "Message pipeline answered out of turn"@),
    {
        self.stage = Stage::Failed;
        Request::Fail(AppError::internal("Message pipeline answered out of turn"))
    }

    /// Hands out the stored message, and the link-preview work if the
    /// message has a body. `None` before the pipeline is ready.
    pub fn finish(self) -> (r: Option<(CreateMessageResult, Option<PreviewJob>)>)
        ensures
            self.stage == Stage::Ready && self.message is Some ==> r is Some && r->Some_0.0
                == (CreateMessageResult {
                message: self.message->Some_0,
                channel_id: self.params.channel_id,
            }) && (self.message->Some_0.content@.len() == 0 ==> r->Some_0.1 is None) && (
            self.message->Some_0.content@.len() > 0 ==> r->Some_0.1 is Some && r->Some_0.1->Some_0.message_id
                == self.message->Some_0.id && r->Some_0.1->Some_0.channel_id
                == self.params.channel_id && r->Some_0.1->Some_0.content@
                == self.message->Some_0.content@),
            !(self.stage == Stage::Ready && self.message is Some) ==> r is None,
    {
        match (self.stage, self.message) {
            (Stage::Ready, Some(message)) => {
                let channel_id = self.params.channel_id;
                let job = if message.content.as_str().unicode_len() > 0 {
                    Some(
                        PreviewJob {
                            message_id: message.id,
                            channel_id,
                            content: message.content.clone(),
                        },
                    )
                } else {
                    None
                };
                Some((CreateMessageResult { message, channel_id }, job))
            },
            _ => None,
        }
    }
}

/// A message carries the id of the user who sent it.
pub proof fn message_keeps_its_author(
    m: Message,
    params: CreateMessageParams,
    reply_to: Option<ReplyPreview>,
)
    requires
        is_message_of(m, params, reply_to),
    ensures
        m.author_id == params.user_id,
        m.channel_id == params.channel_id,
{
}

/// Whether a request is a failure of the given kind and message.
pub open spec fn fails_with(next: Request, kind: ErrorKind, text: Seq<char>) -> bool {
    next is Fail && next->Fail_0.is(kind, text)
}

/// What each answer does at each stage.
pub open spec fn advanced(
    before: MessagePipeline,
    reply: Reply,
    after: MessagePipeline,
    next: Request,
) -> bool {
    let out_of_turn = after.stage == Stage::Failed && after.message == before.message
        && fails_with(next, ErrorKind::Internal, "Message pipeline answered out of turn"@);
    match reply {
        Reply::StoreFailed(e) => after.stage == Stage::Failed && next == Request::Fail(e),
        Reply::RepliedMessage(found) => if before.stage == Stage::CheckingReply
            && before.params.reply_to_id is Some {
            after.message == before.message && match found {
                None => after.stage == Stage::Failed && fails_with(
                    next,
                    ErrorKind::NotFound,
                    "Replied-to message not found"@,
                ),
                Some(m) => if m.channel_id != before.params.channel_id {
                    after.stage == Stage::Failed && fails_with(
                        next,
                        ErrorKind::BadRequest,
                        "Cannot reply to a message in a different channel"@,
                    )
                } else {
                    after.stage == Stage::ResolvingReply && next == Request::FetchReplyPreview(
                        before.params.reply_to_id->Some_0,
                    )
                },
            }
        } else {
            out_of_turn
        },
        Reply::ReplyPreview(preview) => if before.stage == Stage::ResolvingReply {
            after.stage == Stage::Persisting && next == Request::Insert && after.message is Some
                && is_message_of(after.message->Some_0, before.params, preview)
        } else {
            out_of_turn
        },
        Reply::Inserted => if before.stage == Stage::Persisting && before.message is Some {
            after.message == before.message && if before.params.attachment_ids@.len() > 0 {
                after.stage == Stage::Linking && next == (Request::LinkAttachments {
                    message_id: before.message->Some_0.id,
                    uploader_id: before.params.user_id,
                })
            } else {
                after.stage == Stage::Ready && next == Request::Complete
            }
        } else {
            out_of_turn
        },
        Reply::Linked(attachments) => if before.stage == Stage::Linking && before.message is Some {
            after.stage == Stage::Ready && next == Request::Complete && after.message == Some(
                (Message {
                    attachments: if attachments@.len() > 0 {
                        Some(attachments)
                    } else {
                        before.message->Some_0.attachments
                    },
                    ..before.message->Some_0
                }),
            )
        } else {
            out_of_turn
        },
    }
}

} // verus!
