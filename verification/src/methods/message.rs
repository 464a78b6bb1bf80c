//! Sending, forwarding, copying and editing messages.

use vstd::prelude::*;
use crate::methods::{ChatId, ReplyMarkup, TgMethod};
use crate::types::message::MessageEntity;
use crate::types::InlineKeyboardMarkup;

verus! {

/// Sends a text message.
pub struct SendMessage {
    pub chat_id: ChatId,
    pub message_thread_id: Option<u64>,
    pub text: String,
    pub parse_mode: Option<String>,
    pub entities: Option<Vec<MessageEntity>>,
    pub disable_web_page_preview: Option<bool>,
    pub disable_notification: Option<bool>,
    pub protect_content: Option<bool>,
    pub reply_to_message_id: Option<u64>,
    pub allow_sending_without_reply: Option<bool>,
    pub reply_markup: Option<ReplyMarkup>,
}

/// Collects the fields of a [`SendMessage`].
pub struct SendMessageBuilder {
    chat_id: ChatId,
    message_thread_id: Option<u64>,
    text: String,
    parse_mode: Option<String>,
    entities: Option<Vec<MessageEntity>>,
    disable_web_page_preview: Option<bool>,
    disable_notification: Option<bool>,
    protect_content: Option<bool>,
    reply_to_message_id: Option<u64>,
    allow_sending_without_reply: Option<bool>,
    reply_markup: Option<ReplyMarkup>,
}

impl SendMessageBuilder {
    /// The value that [`build`](Self::build) hands out at this point.
    pub closed spec fn built(self) -> SendMessage {
        SendMessage {
            chat_id: self.chat_id,
            message_thread_id: self.message_thread_id,
            text: self.text,
            parse_mode: self.parse_mode,
            entities: self.entities,
            disable_web_page_preview: self.disable_web_page_preview,
            disable_notification: self.disable_notification,
            protect_content: self.protect_content,
            reply_to_message_id: self.reply_to_message_id,
            allow_sending_without_reply: self.allow_sending_without_reply,
            reply_markup: self.reply_markup,
        }
    }

    /// Starts with the fields that every [`SendMessage`] has; the others are left out.
    pub fn new(chat_id: ChatId, text: &str) -> (builder: Self)
        ensures
            builder.built().chat_id == chat_id,
            builder.built().message_thread_id is None,
            builder.built().text@ == text@,
            builder.built().parse_mode is None,
            builder.built().entities is None,
            builder.built().disable_web_page_preview is None,
            builder.built().disable_notification is None,
            builder.built().protect_content is None,
            builder.built().reply_to_message_id is None,
            builder.built().allow_sending_without_reply is None,
            builder.built().reply_markup is None,
    {
        Self {
            chat_id,
            message_thread_id: None,
            text: text.to_owned(),
            parse_mode: None,
            entities: None,
            disable_web_page_preview: None,
            disable_notification: None,
            protect_content: None,
            reply_to_message_id: None,
            allow_sending_without_reply: None,
            reply_markup: None,
        }
    }

    pub fn message_thread_id(self, message_thread_id: u64) -> (builder: Self)
        ensures
            builder.built() == (SendMessage {
                message_thread_id: Some(message_thread_id),
                ..self.built()
            }),
    {
        Self { message_thread_id: Some(message_thread_id), ..self }
    }

    pub fn parse_mode(self, parse_mode: &str) -> (builder: Self)
        ensures
            builder.built().parse_mode matches Some(set) && set@ == parse_mode@,
            builder.built() == (SendMessage {
                parse_mode: builder.built().parse_mode,
                ..self.built()
            }),
    {
        Self { parse_mode: Some(parse_mode.to_owned()), ..self }
    }

    pub fn entities(self, entities: Vec<MessageEntity>) -> (builder: Self)
        ensures
            builder.built() == (SendMessage { entities: Some(entities), ..self.built() }),
    {
        Self { entities: Some(entities), ..self }
    }

    pub fn disable_web_page_preview(self, disable_web_page_preview: bool) -> (builder: Self)
        ensures
            builder.built() == (SendMessage {
                disable_web_page_preview: Some(disable_web_page_preview),
                ..self.built()
            }),
    {
        Self { disable_web_page_preview: Some(disable_web_page_preview), ..self }
    }

    pub fn disable_notification(self, disable_notification: bool) -> (builder: Self)
        ensures
            builder.built() == (SendMessage {
                disable_notification: Some(disable_notification),
                ..self.built()
            }),
    {
        Self { disable_notification: Some(disable_notification), ..self }
    }

    pub fn protect_content(self, protect_content: bool) -> (builder: Self)
        ensures
            builder.built() == (SendMessage {
                protect_content: Some(protect_content),
                ..self.built()
            }),
    {
        Self { protect_content: Some(protect_content), ..self }
    }

    pub fn reply_to_message_id(self, reply_to_message_id: u64) -> (builder: Self)
        ensures
            builder.built() == (SendMessage {
                reply_to_message_id: Some(reply_to_message_id),
                ..self.built()
            }),
    {
        Self { reply_to_message_id: Some(reply_to_message_id), ..self }
    }

    pub fn allow_sending_without_reply(self, allow_sending_without_reply: bool) -> (builder: Self)
        ensures
            builder.built() == (SendMessage {
                allow_sending_without_reply: Some(allow_sending_without_reply),
                ..self.built()
            }),
    {
        Self { allow_sending_without_reply: Some(allow_sending_without_reply), ..self }
    }

    pub fn reply_markup(self, reply_markup: ReplyMarkup) -> (builder: Self)
        ensures
            builder.built() == (SendMessage { reply_markup: Some(reply_markup), ..self.built() }),
    {
        Self { reply_markup: Some(reply_markup), ..self }
    }

    pub fn build(self) -> (built: SendMessage)
        ensures
            built == self.built(),
    {
        SendMessage {
            chat_id: self.chat_id,
            message_thread_id: self.message_thread_id,
            text: self.text,
            parse_mode: self.parse_mode,
            entities: self.entities,
            disable_web_page_preview: self.disable_web_page_preview,
            disable_notification: self.disable_notification,
            protect_content: self.protect_content,
            reply_to_message_id: self.reply_to_message_id,
            allow_sending_without_reply: self.allow_sending_without_reply,
            reply_markup: self.reply_markup,
        }
    }
}

impl TgMethod for SendMessage {
    open spec fn name() -> Seq<char> {
        "sendMessage"@
    }

    fn method_name() -> (name: String) {
        "sendMessage".to_owned()
    }
}

/// Forwards a message of any kind.
pub struct ForwardMessage {
    pub chat_id: ChatId,
    pub message_thread_id: Option<u64>,
    pub from_chat_id: ChatId,
    pub disable_notification: Option<bool>,
    pub protect_content: Option<bool>,
    pub message_id: u64,
}

/// Collects the fields of a [`ForwardMessage`].
pub struct ForwardMessageBuilder {
    chat_id: ChatId,
    message_thread_id: Option<u64>,
    from_chat_id: ChatId,
    disable_notification: Option<bool>,
    protect_content: Option<bool>,
    message_id: u64,
}

impl ForwardMessageBuilder {
    /// The value that [`build`](Self::build) hands out at this point.
    pub closed spec fn built(self) -> ForwardMessage {
        ForwardMessage {
            chat_id: self.chat_id,
            message_thread_id: self.message_thread_id,
            from_chat_id: self.from_chat_id,
            disable_notification: self.disable_notification,
            protect_content: self.protect_content,
            message_id: self.message_id,
        }
    }

    /// Starts with the fields that every [`ForwardMessage`] has; the others are left out.
    pub fn new(chat_id: ChatId, from_chat_id: ChatId, message_id: u64) -> (builder: Self)
        ensures
            builder.built().chat_id == chat_id,
            builder.built().message_thread_id is None,
            builder.built().from_chat_id == from_chat_id,
            builder.built().disable_notification is None,
            builder.built().protect_content is None,
            builder.built().message_id == message_id,
    {
        Self {
            chat_id,
            message_thread_id: None,
            from_chat_id,
            disable_notification: None,
            protect_content: None,
            message_id,
        }
    }

    pub fn message_thread_id(self, message_thread_id: u64) -> (builder: Self)
        ensures
            builder.built() == (ForwardMessage {
                message_thread_id: Some(message_thread_id),
                ..self.built()
            }),
    {
        Self { message_thread_id: Some(message_thread_id), ..self }
    }

    pub fn disable_notification(self, disable_notification: bool) -> (builder: Self)
        ensures
            builder.built() == (ForwardMessage {
                disable_notification: Some(disable_notification),
                ..self.built()
            }),
    {
        Self { disable_notification: Some(disable_notification), ..self }
    }

    pub fn protect_content(self, protect_content: bool) -> (builder: Self)
        ensures
            builder.built() == (ForwardMessage {
                protect_content: Some(protect_content),
                ..self.built()
            }),
    {
        Self { protect_content: Some(protect_content), ..self }
    }

    pub fn build(self) -> (built: ForwardMessage)
        ensures
            built == self.built(),
    {
        ForwardMessage {
            chat_id: self.chat_id,
            message_thread_id: self.message_thread_id,
            from_chat_id: self.from_chat_id,
            disable_notification: self.disable_notification,
            protect_content: self.protect_content,
            message_id: self.message_id,
        }
    }
}

impl TgMethod for ForwardMessage {
    open spec fn name() -> Seq<char> {
        "forwardMessage"@
    }

    fn method_name() -> (name: String) {
        "forwardMessage".to_owned()
    }
}

/// Copies a message of any kind.
pub struct CopyMessage {
    pub chat_id: ChatId,
    pub message_thread_id: Option<u64>,
    pub from_chat_id: ChatId,
    pub message_id: u64,
    pub caption: Option<String>,
    pub parse_mode: Option<String>,
    pub caption_entities: Option<Vec<MessageEntity>>,
    pub disable_notification: Option<bool>,
    pub protect_content: Option<bool>,
    pub reply_to_message_id: Option<u64>,
    pub allow_sending_without_reply: Option<bool>,
    pub reply_markup: Option<ReplyMarkup>,
}

/// Collects the fields of a [`CopyMessage`].
pub struct CopyMessageBuilder {
    chat_id: ChatId,
    message_thread_id: Option<u64>,
    from_chat_id: ChatId,
    message_id: u64,
    caption: Option<String>,
    parse_mode: Option<String>,
    caption_entities: Option<Vec<MessageEntity>>,
    disable_notification: Option<bool>,
    protect_content: Option<bool>,
    reply_to_message_id: Option<u64>,
    allow_sending_without_reply: Option<bool>,
    reply_markup: Option<ReplyMarkup>,
}

impl CopyMessageBuilder {
    /// The value that [`build`](Self::build) hands out at this point.
    pub closed spec fn built(self) -> CopyMessage {
        CopyMessage {
            chat_id: self.chat_id,
            message_thread_id: self.message_thread_id,
            from_chat_id: self.from_chat_id,
            message_id: self.message_id,
            caption: self.caption,
            parse_mode: self.parse_mode,
            caption_entities: self.caption_entities,
            disable_notification: self.disable_notification,
            protect_content: self.protect_content,
            reply_to_message_id: self.reply_to_message_id,
            allow_sending_without_reply: self.allow_sending_without_reply,
            reply_markup: self.reply_markup,
        }
    }

    /// Starts with the fields that every [`CopyMessage`] has; the others are left out.
    pub fn new(chat_id: ChatId, from_chat_id: ChatId, message_id: u64) -> (builder: Self)
        ensures
            builder.built().chat_id == chat_id,
            builder.built().message_thread_id is None,
            builder.built().from_chat_id == from_chat_id,
            builder.built().message_id == message_id,
            builder.built().caption is None,
            builder.built().parse_mode is None,
            builder.built().caption_entities is None,
            builder.built().disable_notification is None,
            builder.built().protect_content is None,
            builder.built().reply_to_message_id is None,
            builder.built().allow_sending_without_reply is None,
            builder.built().reply_markup is None,
    {
        Self {
            chat_id,
            message_thread_id: None,
            from_chat_id,
            message_id,
            caption: None,
            parse_mode: None,
            caption_entities: None,
            disable_notification: None,
            protect_content: None,
            reply_to_message_id: None,
            allow_sending_without_reply: None,
            reply_markup: None,
        }
    }

    pub fn message_thread_id(self, message_thread_id: u64) -> (builder: Self)
        ensures
            builder.built() == (CopyMessage {
                message_thread_id: Some(message_thread_id),
                ..self.built()
            }),
    {
        Self { message_thread_id: Some(message_thread_id), ..self }
    }

    pub fn caption(self, caption: &str) -> (builder: Self)
        ensures
            builder.built().caption matches Some(set) && set@ == caption@,
            builder.built() == (CopyMessage { caption: builder.built().caption, ..self.built() }),
    {
        Self { caption: Some(caption.to_owned()), ..self }
    }

    pub fn parse_mode(self, parse_mode: &str) -> (builder: Self)
        ensures
            builder.built().parse_mode matches Some(set) && set@ == parse_mode@,
            builder.built() == (CopyMessage {
                parse_mode: builder.built().parse_mode,
                ..self.built()
            }),
    {
        Self { parse_mode: Some(parse_mode.to_owned()), ..self }
    }

    pub fn caption_entities(self, caption_entities: Vec<MessageEntity>) -> (builder: Self)
        ensures
            builder.built() == (CopyMessage {
                caption_entities: Some(caption_entities),
                ..self.built()
            }),
    {
        Self { caption_entities: Some(caption_entities), ..self }
    }

    pub fn disable_notification(self, disable_notification: bool) -> (builder: Self)
        ensures
            builder.built() == (CopyMessage {
                disable_notification: Some(disable_notification),
                ..self.built()
            }),
    {
        Self { disable_notification: Some(disable_notification), ..self }
    }

    pub fn protect_content(self, protect_content: bool) -> (builder: Self)
        ensures
            builder.built() == (CopyMessage {
                protect_content: Some(protect_content),
                ..self.built()
            }),
    {
        Self { protect_content: Some(protect_content), ..self }
    }

    pub fn reply_to_message_id(self, reply_to_message_id: u64) -> (builder: Self)
        ensures
            builder.built() == (CopyMessage {
                reply_to_message_id: Some(reply_to_message_id),
                ..self.built()
            }),
    {
        Self { reply_to_message_id: Some(reply_to_message_id), ..self }
    }

    pub fn allow_sending_without_reply(self, allow_sending_without_reply: bool) -> (builder: Self)
        ensures
            builder.built() == (CopyMessage {
                allow_sending_without_reply: Some(allow_sending_without_reply),
                ..self.built()
            }),
    {
        Self { allow_sending_without_reply: Some(allow_sending_without_reply), ..self }
    }

    pub fn reply_markup(self, reply_markup: ReplyMarkup) -> (builder: Self)
        ensures
            builder.built() == (CopyMessage { reply_markup: Some(reply_markup), ..self.built() }),
    {
        Self { reply_markup: Some(reply_markup), ..self }
    }

    pub fn build(self) -> (built: CopyMessage)
        ensures
            built == self.built(),
    {
        CopyMessage {
            chat_id: self.chat_id,
            message_thread_id: self.message_thread_id,
            from_chat_id: self.from_chat_id,
            message_id: self.message_id,
            caption: self.caption,
            parse_mode: self.parse_mode,
            caption_entities: self.caption_entities,
            disable_notification: self.disable_notification,
            protect_content: self.protect_content,
            reply_to_message_id: self.reply_to_message_id,
            allow_sending_without_reply: self.allow_sending_without_reply,
            reply_markup: self.reply_markup,
        }
    }
}

impl TgMethod for CopyMessage {
    open spec fn name() -> Seq<char> {
        "copyMessage"@
    }

    fn method_name() -> (name: String) {
        "copyMessage".to_owned()
    }
}

/// Edits the text of a message.
pub struct EditMessageText {
    pub chat_id: Option<ChatId>,
    pub message_id: Option<u64>,
    pub inline_message_id: Option<String>,
    pub text: String,
    pub parse_mode: Option<String>,
    pub entities: Option<Vec<MessageEntity>>,
    pub disable_web_page_preview: Option<bool>,
    pub reply_markup: Option<InlineKeyboardMarkup>,
}

/// Collects the fields of an [`EditMessageText`].
pub struct EditMessageTextBuilder {
    chat_id: Option<ChatId>,
    message_id: Option<u64>,
    inline_message_id: Option<String>,
    text: String,
    parse_mode: Option<String>,
    entities: Option<Vec<MessageEntity>>,
    disable_web_page_preview: Option<bool>,
    reply_markup: Option<InlineKeyboardMarkup>,
}

impl EditMessageTextBuilder {
    /// The value that [`build`](Self::build) hands out at this point.
    pub closed spec fn built(self) -> EditMessageText {
        EditMessageText {
            chat_id: self.chat_id,
            message_id: self.message_id,
            inline_message_id: self.inline_message_id,
            text: self.text,
            parse_mode: self.parse_mode,
            entities: self.entities,
            disable_web_page_preview: self.disable_web_page_preview,
            reply_markup: self.reply_markup,
        }
    }

    /// Starts with the fields that every [`EditMessageText`] has; the others are left out.
    pub fn new(text: &str) -> (builder: Self)
        ensures
            builder.built().chat_id is None,
            builder.built().message_id is None,
            builder.built().inline_message_id is None,
            builder.built().text@ == text@,
            builder.built().parse_mode is None,
            builder.built().entities is None,
            builder.built().disable_web_page_preview is None,
            builder.built().reply_markup is None,
    {
        Self {
            chat_id: None,
            message_id: None,
            inline_message_id: None,
            text: text.to_owned(),
            parse_mode: None,
            entities: None,
            disable_web_page_preview: None,
            reply_markup: None,
        }
    }

    pub fn chat_id(self, chat_id: ChatId) -> (builder: Self)
        ensures
            builder.built() == (EditMessageText { chat_id: Some(chat_id), ..self.built() }),
    {
        Self { chat_id: Some(chat_id), ..self }
    }

    pub fn message_id(self, message_id: u64) -> (builder: Self)
        ensures
            builder.built() == (EditMessageText { message_id: Some(message_id), ..self.built() }),
    {
        Self { message_id: Some(message_id), ..self }
    }

    pub fn inline_message_id(self, inline_message_id: &str) -> (builder: Self)
        ensures
            builder.built().inline_message_id matches Some(set) && set@ == inline_message_id@,
            builder.built() == (EditMessageText {
                inline_message_id: builder.built().inline_message_id,
                ..self.built()
            }),
    {
        Self { inline_message_id: Some(inline_message_id.to_owned()), ..self }
    }

    pub fn parse_mode(self, parse_mode: &str) -> (builder: Self)
        ensures
            builder.built().parse_mode matches Some(set) && set@ == parse_mode@,
            builder.built() == (EditMessageText {
                parse_mode: builder.built().parse_mode,
                ..self.built()
            }),
    {
        Self { parse_mode: Some(parse_mode.to_owned()), ..self }
    }

    pub fn entities(self, entities: Vec<MessageEntity>) -> (builder: Self)
        ensures
            builder.built() == (EditMessageText { entities: Some(entities), ..self.built() }),
    {
        Self { entities: Some(entities), ..self }
    }

    pub fn disable_web_page_preview(self, disable_web_page_preview: bool) -> (builder: Self)
        ensures
            builder.built() == (EditMessageText {
                disable_web_page_preview: Some(disable_web_page_preview),
                ..self.built()
            }),
    {
        Self { disable_web_page_preview: Some(disable_web_page_preview), ..self }
    }

    pub fn reply_markup(self, reply_markup: InlineKeyboardMarkup) -> (builder: Self)
        ensures
            builder.built() == (EditMessageText {
                reply_markup: Some(reply_markup),
                ..self.built()
            }),
    {
        Self { reply_markup: Some(reply_markup), ..self }
    }

    pub fn build(self) -> (built: EditMessageText)
        ensures
            built == self.built(),
    {
        EditMessageText {
            chat_id: self.chat_id,
            message_id: self.message_id,
            inline_message_id: self.inline_message_id,
            text: self.text,
            parse_mode: self.parse_mode,
            entities: self.entities,
            disable_web_page_preview: self.disable_web_page_preview,
            reply_markup: self.reply_markup,
        }
    }
}

impl TgMethod for EditMessageText {
    open spec fn name() -> Seq<char> {
        "editMessageText"@
    }

    fn method_name() -> (name: String) {
        "editMessageText".to_owned()
    }
}

} // verus!
