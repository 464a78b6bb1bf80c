//! Sending text messages.

use vstd::prelude::*;
use crate::methods::{ChatId, ReplyMarkup, TgMethod};
use crate::types::message::MessageEntity;

verus! {

/// Sends a text message.
pub struct SendMessage {
    pub chat_id: ChatId,
    pub message_thread_id: Option<u64>,
    pub text: String,
    pub parse_mode: Option<String>,
    pub entities: Option<Vec<MessageEntity>>,
    pub disable_web_page_preview: Option<bool>,
    pub disable_notification: Option<bool>,
    pub protect_content: Option<bool>,
    pub reply_to_message_id: Option<u64>,
    pub allow_sending_without_reply: Option<bool>,
    pub reply_markup: Option<ReplyMarkup>,
}

/// Collects the fields of a [`SendMessage`].
pub struct SendMessageBuilder {
    chat_id: ChatId,
    message_thread_id: Option<u64>,
    text: String,
    parse_mode: Option<String>,
    entities: Option<Vec<MessageEntity>>,
    disable_web_page_preview: Option<bool>,
    disable_notification: Option<bool>,
    protect_content: Option<bool>,
    reply_to_message_id: Option<u64>,
    allow_sending_without_reply: Option<bool>,
    reply_markup: Option<ReplyMarkup>,
}

impl SendMessageBuilder {
    /// The value that [`build`](Self::build) hands out at this point.
    pub closed spec fn built(self) -> SendMessage {
        SendMessage {
            chat_id: self.chat_id,
            message_thread_id: self.message_thread_id,
            text: self.text,
            parse_mode: self.parse_mode,
            entities: self.entities,
            disable_web_page_preview: self.disable_web_page_preview,
            disable_notification: self.disable_notification,
            protect_content: self.protect_content,
            reply_to_message_id: self.reply_to_message_id,
            allow_sending_without_reply: self.allow_sending_without_reply,
            reply_markup: self.reply_markup,
        }
    }

    /// Starts with the fields that every [`SendMessage`] has; the others are left out.
    pub fn new(chat_id: ChatId, text: &str) -> (builder: Self)
        ensures
            builder.built().chat_id == chat_id,
            builder.built().message_thread_id is None,
            builder.built().text@ == text@,
            builder.built().parse_mode is None,
            builder.built().entities is None,
            builder.built().disable_web_page_preview is None,
            builder.built().disable_notification is None,
            builder.built().protect_content is None,
            builder.built().reply_to_message_id is None,
            builder.built().allow_sending_without_reply is None,
            builder.built().reply_markup is None,
    {
        Self {
            chat_id,
            message_thread_id: None,
            text: text.to_owned(),
            parse_mode: None,
            entities: None,
            disable_web_page_preview: None,
            disable_notification: None,
            protect_content: None,
            reply_to_message_id: None,
            allow_sending_without_reply: None,
            reply_markup: None,
        }
    }

    pub fn message_thread_id(self, message_thread_id: u64) -> (builder: Self)
        ensures
            builder.built() == (SendMessage {
                message_thread_id: Some(message_thread_id),
                ..self.built()
            }),
    {
        Self { message_thread_id: Some(message_thread_id), ..self }
    }

    pub fn parse_mode(self, parse_mode: &str) -> (builder: Self)
        ensures
            builder.built().parse_mode matches Some(set) && set@ == parse_mode@,
            builder.built() == (SendMessage {
                parse_mode: builder.built().parse_mode,
                ..self.built()
            }),
    {
        Self { parse_mode: Some(parse_mode.to_owned()), ..self }
    }

    pub fn entities(self, entities: Vec<MessageEntity>) -> (builder: Self)
        ensures
            builder.built() == (SendMessage { entities: Some(entities), ..self.built() }),
    {
        Self { entities: Some(entities), ..self }
    }

    pub fn disable_web_page_preview(self, disable_web_page_preview: bool) -> (builder: Self)
        ensures
            builder.built() == (SendMessage {
                disable_web_page_preview: Some(disable_web_page_preview),
                ..self.built()
            }),
    {
        Self { disable_web_page_preview: Some(disable_web_page_preview), ..self }
    }

    pub fn disable_notification(self, disable_notification: bool) -> (builder: Self)
        ensures
            builder.built() == (SendMessage {
                disable_notification: Some(disable_notification),
                ..self.built()
            }),
    {
        Self { disable_notification: Some(disable_notification), ..self }
    }

    pub fn protect_content(self, protect_content: bool) -> (builder: Self)
        ensures
            builder.built() == (SendMessage {
                protect_content: Some(protect_content),
                ..self.built()
            }),
    {
        Self { protect_content: Some(protect_content), ..self }
    }

    pub fn reply_to_message_id(self, reply_to_message_id: u64) -> (builder: Self)
        ensures
            builder.built() == (SendMessage {
                reply_to_message_id: Some(reply_to_message_id),
                ..self.built()
            }),
    {
        Self { reply_to_message_id: Some(reply_to_message_id), ..self }
    }

    pub fn allow_sending_without_reply(self, allow_sending_without_reply: bool) -> (builder: Self)
        ensures
            builder.built() == (SendMessage {
                allow_sending_without_reply: Some(allow_sending_without_reply),
                ..self.built()
            }),
    {
        Self { allow_sending_without_reply: Some(allow_sending_without_reply), ..self }
    }

    pub fn reply_markup(self, reply_markup: ReplyMarkup) -> (builder: Self)
        ensures
            builder.built() == (SendMessage { reply_markup: Some(reply_markup), ..self.built() }),
    {
        Self { reply_markup: Some(reply_markup), ..self }
    }

    pub fn build(self) -> (built: SendMessage)
        ensures
            built == self.built(),
    {
        SendMessage {
            chat_id: self.chat_id,
            message_thread_id: self.message_thread_id,
            text: self.text,
            parse_mode: self.parse_mode,
            entities: self.entities,
            disable_web_page_preview: self.disable_web_page_preview,
            disable_notification: self.disable_notification,
            protect_content: self.protect_content,
            reply_to_message_id: self.reply_to_message_id,
            allow_sending_without_reply: self.allow_sending_without_reply,
            reply_markup: self.reply_markup,
        }
    }
}

impl TgMethod for SendMessage {
    open spec fn name() -> Seq<char> {
        "sendMessage"@
    }

    fn method_name() -> (name: String) {
        "sendMessage".to_owned()
    }
}

} // verus!
