//! Sending single media files.

use vstd::prelude::*;
use crate::methods::{ChatId, ReplyMarkup, SendFile, TgMethod, TgMultipartMethod, UploadFile};
use crate::types::message::MessageEntity;

verus! {

/// Sends a photo.
pub struct SendPhoto {
    pub chat_id: ChatId,
    pub message_thread_id: Option<u64>,
    pub photo: SendFile,
    pub caption: Option<String>,
    pub parse_mode: Option<String>,
    pub caption_entities: Option<Vec<MessageEntity>>,
    pub has_spoiler: Option<bool>,
    pub disable_notification: Option<bool>,
    pub protect_content: Option<bool>,
    pub reply_to_message_id: Option<u64>,
    pub allow_sending_without_reply: Option<bool>,
    pub reply_markup: Option<ReplyMarkup>,
}

/// Collects the fields of a [`SendPhoto`].
pub struct SendPhotoBuilder {
    chat_id: ChatId,
    message_thread_id: Option<u64>,
    photo: SendFile,
    caption: Option<String>,
    parse_mode: Option<String>,
    caption_entities: Option<Vec<MessageEntity>>,
    has_spoiler: Option<bool>,
    disable_notification: Option<bool>,
    protect_content: Option<bool>,
    reply_to_message_id: Option<u64>,
    allow_sending_without_reply: Option<bool>,
    reply_markup: Option<ReplyMarkup>,
}

impl SendPhotoBuilder {
    /// The value that [`build`](Self::build) hands out at this point.
    pub closed spec fn built(self) -> SendPhoto {
        SendPhoto {
            chat_id: self.chat_id,
            message_thread_id: self.message_thread_id,
            photo: self.photo,
            caption: self.caption,
            parse_mode: self.parse_mode,
            caption_entities: self.caption_entities,
            has_spoiler: self.has_spoiler,
            disable_notification: self.disable_notification,
            protect_content: self.protect_content,
            reply_to_message_id: self.reply_to_message_id,
            allow_sending_without_reply: self.allow_sending_without_reply,
            reply_markup: self.reply_markup,
        }
    }

    /// Starts with the fields that every [`SendPhoto`] has; the others are left out.
    pub fn new(chat_id: ChatId, photo: SendFile) -> (builder: Self)
        ensures
            builder.built().chat_id == chat_id,
            builder.built().message_thread_id is None,
            builder.built().photo == photo,
            builder.built().caption is None,
            builder.built().parse_mode is None,
            builder.built().caption_entities is None,
            builder.built().has_spoiler is None,
            builder.built().disable_notification is None,
            builder.built().protect_content is None,
            builder.built().reply_to_message_id is None,
            builder.built().allow_sending_without_reply is None,
            builder.built().reply_markup is None,
    {
        Self {
            chat_id,
            message_thread_id: None,
            photo,
            caption: None,
            parse_mode: None,
            caption_entities: None,
            has_spoiler: None,
            disable_notification: None,
            protect_content: None,
            reply_to_message_id: None,
            allow_sending_without_reply: None,
            reply_markup: None,
        }
    }

    pub fn message_thread_id(self, message_thread_id: u64) -> (builder: Self)
        ensures
            builder.built() == (SendPhoto {
                message_thread_id: Some(message_thread_id),
                ..self.built()
            }),
    {
        Self { message_thread_id: Some(message_thread_id), ..self }
    }

    pub fn caption(self, caption: &str) -> (builder: Self)
        ensures
            builder.built().caption matches Some(set) && set@ == caption@,
            builder.built() == (SendPhoto { caption: builder.built().caption, ..self.built() }),
    {
        Self { caption: Some(caption.to_owned()), ..self }
    }

    pub fn parse_mode(self, parse_mode: &str) -> (builder: Self)
        ensures
            builder.built().parse_mode matches Some(set) && set@ == parse_mode@,
            builder.built() == (SendPhoto {
                parse_mode: builder.built().parse_mode,
                ..self.built()
            }),
    {
        Self { parse_mode: Some(parse_mode.to_owned()), ..self }
    }

    pub fn caption_entities(self, caption_entities: Vec<MessageEntity>) -> (builder: Self)
        ensures
            builder.built() == (SendPhoto {
                caption_entities: Some(caption_entities),
                ..self.built()
            }),
    {
        Self { caption_entities: Some(caption_entities), ..self }
    }

    pub fn has_spoiler(self, has_spoiler: bool) -> (builder: Self)
        ensures
            builder.built() == (SendPhoto { has_spoiler: Some(has_spoiler), ..self.built() }),
    {
        Self { has_spoiler: Some(has_spoiler), ..self }
    }

    pub fn disable_notification(self, disable_notification: bool) -> (builder: Self)
        ensures
            builder.built() == (SendPhoto {
                disable_notification: Some(disable_notification),
                ..self.built()
            }),
    {
        Self { disable_notification: Some(disable_notification), ..self }
    }

    pub fn protect_content(self, protect_content: bool) -> (builder: Self)
        ensures
            builder.built() == (SendPhoto {
                protect_content: Some(protect_content),
                ..self.built()
            }),
    {
        Self { protect_content: Some(protect_content), ..self }
    }

    pub fn reply_to_message_id(self, reply_to_message_id: u64) -> (builder: Self)
        ensures
            builder.built() == (SendPhoto {
                reply_to_message_id: Some(reply_to_message_id),
                ..self.built()
            }),
    {
        Self { reply_to_message_id: Some(reply_to_message_id), ..self }
    }

    pub fn allow_sending_without_reply(self, allow_sending_without_reply: bool) -> (builder: Self)
        ensures
            builder.built() == (SendPhoto {
                allow_sending_without_reply: Some(allow_sending_without_reply),
                ..self.built()
            }),
    {
        Self { allow_sending_without_reply: Some(allow_sending_without_reply), ..self }
    }

    pub fn reply_markup(self, reply_markup: ReplyMarkup) -> (builder: Self)
        ensures
            builder.built() == (SendPhoto { reply_markup: Some(reply_markup), ..self.built() }),
    {
        Self { reply_markup: Some(reply_markup), ..self }
    }

    pub fn build(self) -> (built: SendPhoto)
        ensures
            built == self.built(),
    {
        SendPhoto {
            chat_id: self.chat_id,
            message_thread_id: self.message_thread_id,
            photo: self.photo,
            caption: self.caption,
            parse_mode: self.parse_mode,
            caption_entities: self.caption_entities,
            has_spoiler: self.has_spoiler,
            disable_notification: self.disable_notification,
            protect_content: self.protect_content,
            reply_to_message_id: self.reply_to_message_id,
            allow_sending_without_reply: self.allow_sending_without_reply,
            reply_markup: self.reply_markup,
        }
    }
}

impl SendPhoto {
    /// Whether the request carries a file to upload.
    pub fn is_multipart(&self) -> (multipart: bool)
        ensures
            multipart == (self.photo is UploadInput),
    {
        matches!(self.photo, SendFile::UploadInput(_))
    }
}

impl TgMethod for SendPhoto {
    open spec fn name() -> Seq<char> {
        "sendPhoto"@
    }

    fn method_name() -> (name: String) {
        "sendPhoto".to_owned()
    }
}

impl TgMultipartMethod for SendPhoto {
    open spec fn name() -> Seq<char> {
        "sendPhoto"@
    }

    fn method_name() -> (name: String) {
        "sendPhoto".to_owned()
    }

    open spec fn uploads(&self) -> bool {
        self.photo is UploadInput
    }

    fn is_multipart(&self) -> (multipart: bool) {
        matches!(self.photo, SendFile::UploadInput(_))
    }
}

/// Sends an audio file that clients show in the music player.
pub struct SendAudio {
    pub chat_id: ChatId,
    pub message_thread_id: Option<u64>,
    pub audio: SendFile,
    pub caption: Option<String>,
    pub parse_mode: Option<String>,
    pub caption_entities: Option<Vec<MessageEntity>>,
    pub duration: Option<usize>,
    pub performer: Option<String>,
    pub title: Option<String>,
    pub thumbnail: Option<SendFile>,
    pub disable_notification: Option<bool>,
    pub protect_content: Option<bool>,
    pub reply_to_message_id: Option<u64>,
    pub allow_sending_without_reply: Option<bool>,
    pub reply_markup: Option<ReplyMarkup>,
}

/// Collects the fields of a [`SendAudio`].
pub struct SendAudioBuilder {
    chat_id: ChatId,
    message_thread_id: Option<u64>,
    audio: SendFile,
    caption: Option<String>,
    parse_mode: Option<String>,
    caption_entities: Option<Vec<MessageEntity>>,
    duration: Option<usize>,
    performer: Option<String>,
    title: Option<String>,
    thumbnail: Option<SendFile>,
    disable_notification: Option<bool>,
    protect_content: Option<bool>,
    reply_to_message_id: Option<u64>,
    allow_sending_without_reply: Option<bool>,
    reply_markup: Option<ReplyMarkup>,
}

impl SendAudioBuilder {
    /// The value that [`build`](Self::build) hands out at this point.
    pub closed spec fn built(self) -> SendAudio {
        SendAudio {
            chat_id: self.chat_id,
            message_thread_id: self.message_thread_id,
            audio: self.audio,
            caption: self.caption,
            parse_mode: self.parse_mode,
            caption_entities: self.caption_entities,
            duration: self.duration,
            performer: self.performer,
            title: self.title,
            thumbnail: self.thumbnail,
            disable_notification: self.disable_notification,
            protect_content: self.protect_content,
            reply_to_message_id: self.reply_to_message_id,
            allow_sending_without_reply: self.allow_sending_without_reply,
            reply_markup: self.reply_markup,
        }
    }

    /// Starts with the fields that every [`SendAudio`] has; the others are left out.
    pub fn new(chat_id: ChatId, audio: SendFile) -> (builder: Self)
        ensures
            builder.built().chat_id == chat_id,
            builder.built().message_thread_id is None,
            builder.built().audio == audio,
            builder.built().caption is None,
            builder.built().parse_mode is None,
            builder.built().caption_entities is None,
            builder.built().duration is None,
            builder.built().performer is None,
            builder.built().title is None,
            builder.built().thumbnail is None,
            builder.built().disable_notification is None,
            builder.built().protect_content is None,
            builder.built().reply_to_message_id is None,
            builder.built().allow_sending_without_reply is None,
            builder.built().reply_markup is None,
    {
        Self {
            chat_id,
            message_thread_id: None,
            audio,
            caption: None,
            parse_mode: None,
            caption_entities: None,
            duration: None,
            performer: None,
            title: None,
            thumbnail: None,
            disable_notification: None,
            protect_content: None,
            reply_to_message_id: None,
            allow_sending_without_reply: None,
            reply_markup: None,
        }
    }

    pub fn message_thread_id(self, message_thread_id: u64) -> (builder: Self)
        ensures
            builder.built() == (SendAudio {
                message_thread_id: Some(message_thread_id),
                ..self.built()
            }),
    {
        Self { message_thread_id: Some(message_thread_id), ..self }
    }

    pub fn caption(self, caption: &str) -> (builder: Self)
        ensures
            builder.built().caption matches Some(set) && set@ == caption@,
            builder.built() == (SendAudio { caption: builder.built().caption, ..self.built() }),
    {
        Self { caption: Some(caption.to_owned()), ..self }
    }

    pub fn parse_mode(self, parse_mode: &str) -> (builder: Self)
        ensures
            builder.built().parse_mode matches Some(set) && set@ == parse_mode@,
            builder.built() == (SendAudio {
                parse_mode: builder.built().parse_mode,
                ..self.built()
            }),
    {
        Self { parse_mode: Some(parse_mode.to_owned()), ..self }
    }

    pub fn caption_entities(self, caption_entities: Vec<MessageEntity>) -> (builder: Self)
        ensures
            builder.built() == (SendAudio {
                caption_entities: Some(caption_entities),
                ..self.built()
            }),
    {
        Self { caption_entities: Some(caption_entities), ..self }
    }

    pub fn duration(self, duration: usize) -> (builder: Self)
        ensures
            builder.built() == (SendAudio { duration: Some(duration), ..self.built() }),
    {
        Self { duration: Some(duration), ..self }
    }

    pub fn performer(self, performer: &str) -> (builder: Self)
        ensures
            builder.built().performer matches Some(set) && set@ == performer@,
            builder.built() == (SendAudio { performer: builder.built().performer, ..self.built() }),
    {
        Self { performer: Some(performer.to_owned()), ..self }
    }

    pub fn title(self, title: &str) -> (builder: Self)
        ensures
            builder.built().title matches Some(set) && set@ == title@,
            builder.built() == (SendAudio { title: builder.built().title, ..self.built() }),
    {
        Self { title: Some(title.to_owned()), ..self }
    }

    pub fn disable_notification(self, disable_notification: bool) -> (builder: Self)
        ensures
            builder.built() == (SendAudio {
                disable_notification: Some(disable_notification),
                ..self.built()
            }),
    {
        Self { disable_notification: Some(disable_notification), ..self }
    }

    pub fn protect_content(self, protect_content: bool) -> (builder: Self)
        ensures
            builder.built() == (SendAudio {
                protect_content: Some(protect_content),
                ..self.built()
            }),
    {
        Self { protect_content: Some(protect_content), ..self }
    }

    pub fn reply_to_message_id(self, reply_to_message_id: u64) -> (builder: Self)
        ensures
            builder.built() == (SendAudio {
                reply_to_message_id: Some(reply_to_message_id),
                ..self.built()
            }),
    {
        Self { reply_to_message_id: Some(reply_to_message_id), ..self }
    }

    pub fn allow_sending_without_reply(self, allow_sending_without_reply: bool) -> (builder: Self)
        ensures
            builder.built() == (SendAudio {
                allow_sending_without_reply: Some(allow_sending_without_reply),
                ..self.built()
            }),
    {
        Self { allow_sending_without_reply: Some(allow_sending_without_reply), ..self }
    }

    pub fn reply_markup(self, reply_markup: ReplyMarkup) -> (builder: Self)
        ensures
            builder.built() == (SendAudio { reply_markup: Some(reply_markup), ..self.built() }),
    {
        Self { reply_markup: Some(reply_markup), ..self }
    }

    pub fn build(self) -> (built: SendAudio)
        ensures
            built == self.built(),
    {
        SendAudio {
            chat_id: self.chat_id,
            message_thread_id: self.message_thread_id,
            audio: self.audio,
            caption: self.caption,
            parse_mode: self.parse_mode,
            caption_entities: self.caption_entities,
            duration: self.duration,
            performer: self.performer,
            title: self.title,
            thumbnail: self.thumbnail,
            disable_notification: self.disable_notification,
            protect_content: self.protect_content,
            reply_to_message_id: self.reply_to_message_id,
            allow_sending_without_reply: self.allow_sending_without_reply,
            reply_markup: self.reply_markup,
        }
    }
}

impl SendAudioBuilder {
    /// Sets the thumbnail, which is always uploaded.
    pub fn thumbnail(self, file: UploadFile) -> (with: Self)
        ensures
            with.built() == (SendAudio {
                thumbnail: Some(SendFile::UploadInput(file)),
                ..self.built()
            }),
    {
        Self { thumbnail: Some(SendFile::UploadInput(file)), ..self }
    }
}

impl SendAudio {
    /// Whether the request carries a file to upload.
    pub fn is_multipart(&self) -> (multipart: bool)
        ensures
            multipart == (self.audio is UploadInput
                || self.thumbnail matches Some(SendFile::UploadInput(_))),
    {
        matches!(self.audio, SendFile::UploadInput(_))
            || matches!(self.thumbnail, Some(SendFile::UploadInput(_)))
    }
}

impl TgMethod for SendAudio {
    open spec fn name() -> Seq<char> {
        "sendAudio"@
    }

    fn method_name() -> (name: String) {
        "sendAudio".to_owned()
    }
}

impl TgMultipartMethod for SendAudio {
    open spec fn name() -> Seq<char> {
        "sendAudio"@
    }

    fn method_name() -> (name: String) {
        "sendAudio".to_owned()
    }

    open spec fn uploads(&self) -> bool {
        self.audio is UploadInput
            || self.thumbnail matches Some(SendFile::UploadInput(_))
    }

    fn is_multipart(&self) -> (multipart: bool) {
        matches!(self.audio, SendFile::UploadInput(_))
            || matches!(self.thumbnail, Some(SendFile::UploadInput(_)))
    }
}

/// Sends a general file.
pub struct SendDocument {
    pub chat_id: ChatId,
    pub message_thread_id: Option<u64>,
    pub document: SendFile,
    pub thumbnail: Option<SendFile>,
    pub caption: Option<String>,
    pub parse_mode: Option<String>,
    pub caption_entities: Option<Vec<MessageEntity>>,
    pub disable_content_type_detection: Option<bool>,
    pub disable_notification: Option<bool>,
    pub protect_content: Option<bool>,
    pub reply_to_message_id: Option<u64>,
    pub allow_sending_without_reply: Option<bool>,
    pub reply_markup: Option<ReplyMarkup>,
}

/// Collects the fields of a [`SendDocument`].
pub struct SendDocumentBuilder {
    chat_id: ChatId,
    message_thread_id: Option<u64>,
    document: SendFile,
    thumbnail: Option<SendFile>,
    caption: Option<String>,
    parse_mode: Option<String>,
    caption_entities: Option<Vec<MessageEntity>>,
    disable_content_type_detection: Option<bool>,
    disable_notification: Option<bool>,
    protect_content: Option<bool>,
    reply_to_message_id: Option<u64>,
    allow_sending_without_reply: Option<bool>,
    reply_markup: Option<ReplyMarkup>,
}

impl SendDocumentBuilder {
    /// The value that [`build`](Self::build) hands out at this point.
    pub closed spec fn built(self) -> SendDocument {
        SendDocument {
            chat_id: self.chat_id,
            message_thread_id: self.message_thread_id,
            document: self.document,
            thumbnail: self.thumbnail,
            caption: self.caption,
            parse_mode: self.parse_mode,
            caption_entities: self.caption_entities,
            disable_content_type_detection: self.disable_content_type_detection,
            disable_notification: self.disable_notification,
            protect_content: self.protect_content,
            reply_to_message_id: self.reply_to_message_id,
            allow_sending_without_reply: self.allow_sending_without_reply,
            reply_markup: self.reply_markup,
        }
    }

    /// Starts with the fields that every [`SendDocument`] has; the others are left out.
    pub fn new(chat_id: ChatId, document: SendFile) -> (builder: Self)
        ensures
            builder.built().chat_id == chat_id,
            builder.built().message_thread_id is None,
            builder.built().document == document,
            builder.built().thumbnail is None,
            builder.built().caption is None,
            builder.built().parse_mode is None,
            builder.built().caption_entities is None,
            builder.built().disable_content_type_detection is None,
            builder.built().disable_notification is None,
            builder.built().protect_content is None,
            builder.built().reply_to_message_id is None,
            builder.built().allow_sending_without_reply is None,
            builder.built().reply_markup is None,
    {
        Self {
            chat_id,
            message_thread_id: None,
            document,
            thumbnail: None,
            caption: None,
            parse_mode: None,
            caption_entities: None,
            disable_content_type_detection: None,
            disable_notification: None,
            protect_content: None,
            reply_to_message_id: None,
            allow_sending_without_reply: None,
            reply_markup: None,
        }
    }

    pub fn message_thread_id(self, message_thread_id: u64) -> (builder: Self)
        ensures
            builder.built() == (SendDocument {
                message_thread_id: Some(message_thread_id),
                ..self.built()
            }),
    {
        Self { message_thread_id: Some(message_thread_id), ..self }
    }

    pub fn caption(self, caption: &str) -> (builder: Self)
        ensures
            builder.built().caption matches Some(set) && set@ == caption@,
            builder.built() == (SendDocument { caption: builder.built().caption, ..self.built() }),
    {
        Self { caption: Some(caption.to_owned()), ..self }
    }

    pub fn parse_mode(self, parse_mode: &str) -> (builder: Self)
        ensures
            builder.built().parse_mode matches Some(set) && set@ == parse_mode@,
            builder.built() == (SendDocument {
                parse_mode: builder.built().parse_mode,
                ..self.built()
            }),
    {
        Self { parse_mode: Some(parse_mode.to_owned()), ..self }
    }

    pub fn caption_entities(self, caption_entities: Vec<MessageEntity>) -> (builder: Self)
        ensures
            builder.built() == (SendDocument {
                caption_entities: Some(caption_entities),
                ..self.built()
            }),
    {
        Self { caption_entities: Some(caption_entities), ..self }
    }

    pub fn disable_content_type_detection(
        self,
        disable_content_type_detection: bool,
    ) -> (builder: Self)
        ensures
            builder.built() == (SendDocument {
                disable_content_type_detection: Some(disable_content_type_detection),
                ..self.built()
            }),
    {
        Self { disable_content_type_detection: Some(disable_content_type_detection), ..self }
    }

    pub fn disable_notification(self, disable_notification: bool) -> (builder: Self)
        ensures
            builder.built() == (SendDocument {
                disable_notification: Some(disable_notification),
                ..self.built()
            }),
    {
        Self { disable_notification: Some(disable_notification), ..self }
    }

    pub fn protect_content(self, protect_content: bool) -> (builder: Self)
        ensures
            builder.built() == (SendDocument {
                protect_content: Some(protect_content),
                ..self.built()
            }),
    {
        Self { protect_content: Some(protect_content), ..self }
    }

    pub fn reply_to_message_id(self, reply_to_message_id: u64) -> (builder: Self)
        ensures
            builder.built() == (SendDocument {
                reply_to_message_id: Some(reply_to_message_id),
                ..self.built()
            }),
    {
        Self { reply_to_message_id: Some(reply_to_message_id), ..self }
    }

    pub fn allow_sending_without_reply(self, allow_sending_without_reply: bool) -> (builder: Self)
        ensures
            builder.built() == (SendDocument {
                allow_sending_without_reply: Some(allow_sending_without_reply),
                ..self.built()
            }),
    {
        Self { allow_sending_without_reply: Some(allow_sending_without_reply), ..self }
    }

    pub fn reply_markup(self, reply_markup: ReplyMarkup) -> (builder: Self)
        ensures
            builder.built() == (SendDocument { reply_markup: Some(reply_markup), ..self.built() }),
    {
        Self { reply_markup: Some(reply_markup), ..self }
    }

    pub fn build(self) -> (built: SendDocument)
        ensures
            built == self.built(),
    {
        SendDocument {
            chat_id: self.chat_id,
            message_thread_id: self.message_thread_id,
            document: self.document,
            thumbnail: self.thumbnail,
            caption: self.caption,
            parse_mode: self.parse_mode,
            caption_entities: self.caption_entities,
            disable_content_type_detection: self.disable_content_type_detection,
            disable_notification: self.disable_notification,
            protect_content: self.protect_content,
            reply_to_message_id: self.reply_to_message_id,
            allow_sending_without_reply: self.allow_sending_without_reply,
            reply_markup: self.reply_markup,
        }
    }
}

impl SendDocumentBuilder {
    /// Sets the thumbnail, which is always uploaded.
    pub fn thumbnail(self, file: UploadFile) -> (with: Self)
        ensures
            with.built() == (SendDocument {
                thumbnail: Some(SendFile::UploadInput(file)),
                ..self.built()
            }),
    {
        Self { thumbnail: Some(SendFile::UploadInput(file)), ..self }
    }
}

impl TgMethod for SendDocument {
    open spec fn name() -> Seq<char> {
        "sendDocument"@
    }

    fn method_name() -> (name: String) {
        "sendDocument".to_owned()
    }
}

impl TgMultipartMethod for SendDocument {
    open spec fn name() -> Seq<char> {
        "sendDocument"@
    }

    fn method_name() -> (name: String) {
        "sendDocument".to_owned()
    }

    open spec fn uploads(&self) -> bool {
        self.document is UploadInput
            || self.thumbnail matches Some(SendFile::UploadInput(_))
    }

    fn is_multipart(&self) -> (multipart: bool) {
        matches!(self.document, SendFile::UploadInput(_))
            || matches!(self.thumbnail, Some(SendFile::UploadInput(_)))
    }
}

/// Sends a video file.
pub struct SendVideo {
    pub chat_id: ChatId,
    pub message_thread_id: Option<u64>,
    pub video: SendFile,
    pub duration: Option<usize>,
    pub width: Option<usize>,
    pub height: Option<usize>,
    pub thumbnail: Option<SendFile>,
    pub caption: Option<String>,
    pub parse_mode: Option<String>,
    pub caption_entities: Option<Vec<MessageEntity>>,
    pub has_spoiler: Option<bool>,
    pub supports_streaming: Option<bool>,
    pub disable_notification: Option<bool>,
    pub protect_content: Option<bool>,
    pub allow_sending_without_reply: Option<bool>,
    pub reply_markup: Option<ReplyMarkup>,
}

/// Collects the fields of a [`SendVideo`].
pub struct SendVideoBuilder {
    chat_id: ChatId,
    message_thread_id: Option<u64>,
    video: SendFile,
    duration: Option<usize>,
    width: Option<usize>,
    height: Option<usize>,
    thumbnail: Option<SendFile>,
    caption: Option<String>,
    parse_mode: Option<String>,
    caption_entities: Option<Vec<MessageEntity>>,
    has_spoiler: Option<bool>,
    supports_streaming: Option<bool>,
    disable_notification: Option<bool>,
    protect_content: Option<bool>,
    allow_sending_without_reply: Option<bool>,
    reply_markup: Option<ReplyMarkup>,
}

impl SendVideoBuilder {
    /// The value that [`build`](Self::build) hands out at this point.
    pub closed spec fn built(self) -> SendVideo {
        SendVideo {
            chat_id: self.chat_id,
            message_thread_id: self.message_thread_id,
            video: self.video,
            duration: self.duration,
            width: self.width,
            height: self.height,
            thumbnail: self.thumbnail,
            caption: self.caption,
            parse_mode: self.parse_mode,
            caption_entities: self.caption_entities,
            has_spoiler: self.has_spoiler,
            supports_streaming: self.supports_streaming,
            disable_notification: self.disable_notification,
            protect_content: self.protect_content,
            allow_sending_without_reply: self.allow_sending_without_reply,
            reply_markup: self.reply_markup,
        }
    }

    /// Starts with the fields that every [`SendVideo`] has; the others are left out.
    pub fn new(chat_id: ChatId, video: SendFile) -> (builder: Self)
        ensures
            builder.built().chat_id == chat_id,
            builder.built().message_thread_id is None,
            builder.built().video == video,
            builder.built().duration is None,
            builder.built().width is None,
            builder.built().height is None,
            builder.built().thumbnail is None,
            builder.built().caption is None,
            builder.built().parse_mode is None,
            builder.built().caption_entities is None,
            builder.built().has_spoiler is None,
            builder.built().supports_streaming is None,
            builder.built().disable_notification is None,
            builder.built().protect_content is None,
            builder.built().allow_sending_without_reply is None,
            builder.built().reply_markup is None,
    {
        Self {
            chat_id,
            message_thread_id: None,
            video,
            duration: None,
            width: None,
            height: None,
            thumbnail: None,
            caption: None,
            parse_mode: None,
            caption_entities: None,
            has_spoiler: None,
            supports_streaming: None,
            disable_notification: None,
            protect_content: None,
            allow_sending_without_reply: None,
            reply_markup: None,
        }
    }

    pub fn message_thread_id(self, message_thread_id: u64) -> (builder: Self)
        ensures
            builder.built() == (SendVideo {
                message_thread_id: Some(message_thread_id),
                ..self.built()
            }),
    {
        Self { message_thread_id: Some(message_thread_id), ..self }
    }

    pub fn duration(self, duration: usize) -> (builder: Self)
        ensures
            builder.built() == (SendVideo { duration: Some(duration), ..self.built() }),
    {
        Self { duration: Some(duration), ..self }
    }

    pub fn width(self, width: usize) -> (builder: Self)
        ensures
            builder.built() == (SendVideo { width: Some(width), ..self.built() }),
    {
        Self { width: Some(width), ..self }
    }

    pub fn height(self, height: usize) -> (builder: Self)
        ensures
            builder.built() == (SendVideo { height: Some(height), ..self.built() }),
    {
        Self { height: Some(height), ..self }
    }

    pub fn caption(self, caption: &str) -> (builder: Self)
        ensures
            builder.built().caption matches Some(set) && set@ == caption@,
            builder.built() == (SendVideo { caption: builder.built().caption, ..self.built() }),
    {
        Self { caption: Some(caption.to_owned()), ..self }
    }

    pub fn parse_mode(self, parse_mode: &str) -> (builder: Self)
        ensures
            builder.built().parse_mode matches Some(set) && set@ == parse_mode@,
            builder.built() == (SendVideo {
                parse_mode: builder.built().parse_mode,
                ..self.built()
            }),
    {
        Self { parse_mode: Some(parse_mode.to_owned()), ..self }
    }

    pub fn caption_entities(self, caption_entities: Vec<MessageEntity>) -> (builder: Self)
        ensures
            builder.built() == (SendVideo {
                caption_entities: Some(caption_entities),
                ..self.built()
            }),
    {
        Self { caption_entities: Some(caption_entities), ..self }
    }

    pub fn has_spoiler(self, has_spoiler: bool) -> (builder: Self)
        ensures
            builder.built() == (SendVideo { has_spoiler: Some(has_spoiler), ..self.built() }),
    {
        Self { has_spoiler: Some(has_spoiler), ..self }
    }

    pub fn supports_streaming(self, supports_streaming: bool) -> (builder: Self)
        ensures
            builder.built() == (SendVideo {
                supports_streaming: Some(supports_streaming),
                ..self.built()
            }),
    {
        Self { supports_streaming: Some(supports_streaming), ..self }
    }

    pub fn disable_notification(self, disable_notification: bool) -> (builder: Self)
        ensures
            builder.built() == (SendVideo {
                disable_notification: Some(disable_notification),
                ..self.built()
            }),
    {
        Self { disable_notification: Some(disable_notification), ..self }
    }

    pub fn protect_content(self, protect_content: bool) -> (builder: Self)
        ensures
            builder.built() == (SendVideo {
                protect_content: Some(protect_content),
                ..self.built()
            }),
    {
        Self { protect_content: Some(protect_content), ..self }
    }

    pub fn allow_sending_without_reply(self, allow_sending_without_reply: bool) -> (builder: Self)
        ensures
            builder.built() == (SendVideo {
                allow_sending_without_reply: Some(allow_sending_without_reply),
                ..self.built()
            }),
    {
        Self { allow_sending_without_reply: Some(allow_sending_without_reply), ..self }
    }

    pub fn reply_markup(self, reply_markup: ReplyMarkup) -> (builder: Self)
        ensures
            builder.built() == (SendVideo { reply_markup: Some(reply_markup), ..self.built() }),
    {
        Self { reply_markup: Some(reply_markup), ..self }
    }

    pub fn build(self) -> (built: SendVideo)
        ensures
            built == self.built(),
    {
        SendVideo {
            chat_id: self.chat_id,
            message_thread_id: self.message_thread_id,
            video: self.video,
            duration: self.duration,
            width: self.width,
            height: self.height,
            thumbnail: self.thumbnail,
            caption: self.caption,
            parse_mode: self.parse_mode,
            caption_entities: self.caption_entities,
            has_spoiler: self.has_spoiler,
            supports_streaming: self.supports_streaming,
            disable_notification: self.disable_notification,
            protect_content: self.protect_content,
            allow_sending_without_reply: self.allow_sending_without_reply,
            reply_markup: self.reply_markup,
        }
    }
}

impl SendVideoBuilder {
    /// Sets the thumbnail, which is always uploaded.
    pub fn thumbnail(self, file: UploadFile) -> (with: Self)
        ensures
            with.built() == (SendVideo {
                thumbnail: Some(SendFile::UploadInput(file)),
                ..self.built()
            }),
    {
        Self { thumbnail: Some(SendFile::UploadInput(file)), ..self }
    }
}

impl TgMethod for SendVideo {
    open spec fn name() -> Seq<char> {
        "sendVideo"@
    }

    fn method_name() -> (name: String) {
        "sendVideo".to_owned()
    }
}

impl TgMultipartMethod for SendVideo {
    open spec fn name() -> Seq<char> {
        "sendVideo"@
    }

    fn method_name() -> (name: String) {
        "sendVideo".to_owned()
    }

    open spec fn uploads(&self) -> bool {
        self.video is UploadInput
            || self.thumbnail matches Some(SendFile::UploadInput(_))
    }

    fn is_multipart(&self) -> (multipart: bool) {
        matches!(self.video, SendFile::UploadInput(_))
            || matches!(self.thumbnail, Some(SendFile::UploadInput(_)))
    }
}

/// Sends an animation file.
pub struct SendAnimation {
    pub chat_id: ChatId,
    pub message_thread_id: Option<u64>,
    pub animation: SendFile,
    pub duration: Option<usize>,
    pub width: Option<usize>,
    pub height: Option<usize>,
    pub thumbnail: Option<SendFile>,
    pub caption: Option<String>,
    pub parse_mode: Option<String>,
    pub caption_entities: Option<Vec<MessageEntity>>,
    pub has_spoiler: Option<bool>,
    pub disable_notification: Option<bool>,
    pub protect_content: Option<bool>,
    pub reply_to_message_id: Option<u64>,
    pub allow_sending_without_reply: Option<bool>,
    pub reply_markup: Option<ReplyMarkup>,
}

/// Collects the fields of a [`SendAnimation`].
pub struct SendAnimationBuilder {
    chat_id: ChatId,
    message_thread_id: Option<u64>,
    animation: SendFile,
    duration: Option<usize>,
    width: Option<usize>,
    height: Option<usize>,
    thumbnail: Option<SendFile>,
    caption: Option<String>,
    parse_mode: Option<String>,
    caption_entities: Option<Vec<MessageEntity>>,
    has_spoiler: Option<bool>,
    disable_notification: Option<bool>,
    protect_content: Option<bool>,
    reply_to_message_id: Option<u64>,
    allow_sending_without_reply: Option<bool>,
    reply_markup: Option<ReplyMarkup>,
}

impl SendAnimationBuilder {
    /// The value that [`build`](Self::build) hands out at this point.
    pub closed spec fn built(self) -> SendAnimation {
        SendAnimation {
            chat_id: self.chat_id,
            message_thread_id: self.message_thread_id,
            animation: self.animation,
            duration: self.duration,
            width: self.width,
            height: self.height,
            thumbnail: self.thumbnail,
            caption: self.caption,
            parse_mode: self.parse_mode,
            caption_entities: self.caption_entities,
            has_spoiler: self.has_spoiler,
            disable_notification: self.disable_notification,
            protect_content: self.protect_content,
            reply_to_message_id: self.reply_to_message_id,
            allow_sending_without_reply: self.allow_sending_without_reply,
            reply_markup: self.reply_markup,
        }
    }

    /// Starts with the fields that every [`SendAnimation`] has; the others are left out.
    pub fn new(chat_id: ChatId, animation: SendFile) -> (builder: Self)
        ensures
            builder.built().chat_id == chat_id,
            builder.built().message_thread_id is None,
            builder.built().animation == animation,
            builder.built().duration is None,
            builder.built().width is None,
            builder.built().height is None,
            builder.built().thumbnail is None,
            builder.built().caption is None,
            builder.built().parse_mode is None,
            builder.built().caption_entities is None,
            builder.built().has_spoiler is None,
            builder.built().disable_notification is None,
            builder.built().protect_content is None,
            builder.built().reply_to_message_id is None,
            builder.built().allow_sending_without_reply is None,
            builder.built().reply_markup is None,
    {
        Self {
            chat_id,
            message_thread_id: None,
            animation,
            duration: None,
            width: None,
            height: None,
            thumbnail: None,
            caption: None,
            parse_mode: None,
            caption_entities: None,
            has_spoiler: None,
            disable_notification: None,
            protect_content: None,
            reply_to_message_id: None,
            allow_sending_without_reply: None,
            reply_markup: None,
        }
    }

    pub fn message_thread_id(self, message_thread_id: u64) -> (builder: Self)
        ensures
            builder.built() == (SendAnimation {
                message_thread_id: Some(message_thread_id),
                ..self.built()
            }),
    {
        Self { message_thread_id: Some(message_thread_id), ..self }
    }

    pub fn duration(self, duration: usize) -> (builder: Self)
        ensures
            builder.built() == (SendAnimation { duration: Some(duration), ..self.built() }),
    {
        Self { duration: Some(duration), ..self }
    }

    pub fn width(self, width: usize) -> (builder: Self)
        ensures
            builder.built() == (SendAnimation { width: Some(width), ..self.built() }),
    {
        Self { width: Some(width), ..self }
    }

    pub fn height(self, height: usize) -> (builder: Self)
        ensures
            builder.built() == (SendAnimation { height: Some(height), ..self.built() }),
    {
        Self { height: Some(height), ..self }
    }

    pub fn caption(self, caption: &str) -> (builder: Self)
        ensures
            builder.built().caption matches Some(set) && set@ == caption@,
            builder.built() == (SendAnimation { caption: builder.built().caption, ..self.built() }),
    {
        Self { caption: Some(caption.to_owned()), ..self }
    }

    pub fn parse_mode(self, parse_mode: &str) -> (builder: Self)
        ensures
            builder.built().parse_mode matches Some(set) && set@ == parse_mode@,
            builder.built() == (SendAnimation {
                parse_mode: builder.built().parse_mode,
                ..self.built()
            }),
    {
        Self { parse_mode: Some(parse_mode.to_owned()), ..self }
    }

    pub fn caption_entities(self, caption_entities: Vec<MessageEntity>) -> (builder: Self)
        ensures
            builder.built() == (SendAnimation {
                caption_entities: Some(caption_entities),
                ..self.built()
            }),
    {
        Self { caption_entities: Some(caption_entities), ..self }
    }

    pub fn has_spoiler(self, has_spoiler: bool) -> (builder: Self)
        ensures
            builder.built() == (SendAnimation { has_spoiler: Some(has_spoiler), ..self.built() }),
    {
        Self { has_spoiler: Some(has_spoiler), ..self }
    }

    pub fn disable_notification(self, disable_notification: bool) -> (builder: Self)
        ensures
            builder.built() == (SendAnimation {
                disable_notification: Some(disable_notification),
                ..self.built()
            }),
    {
        Self { disable_notification: Some(disable_notification), ..self }
    }

    pub fn protect_content(self, protect_content: bool) -> (builder: Self)
        ensures
            builder.built() == (SendAnimation {
                protect_content: Some(protect_content),
                ..self.built()
            }),
    {
        Self { protect_content: Some(protect_content), ..self }
    }

    pub fn reply_to_message_id(self, reply_to_message_id: u64) -> (builder: Self)
        ensures
            builder.built() == (SendAnimation {
                reply_to_message_id: Some(reply_to_message_id),
                ..self.built()
            }),
    {
        Self { reply_to_message_id: Some(reply_to_message_id), ..self }
    }

    pub fn allow_sending_without_reply(self, allow_sending_without_reply: bool) -> (builder: Self)
        ensures
            builder.built() == (SendAnimation {
                allow_sending_without_reply: Some(allow_sending_without_reply),
                ..self.built()
            }),
    {
        Self { allow_sending_without_reply: Some(allow_sending_without_reply), ..self }
    }

    pub fn reply_markup(self, reply_markup: ReplyMarkup) -> (builder: Self)
        ensures
            builder.built() == (SendAnimation { reply_markup: Some(reply_markup), ..self.built() }),
    {
        Self { reply_markup: Some(reply_markup), ..self }
    }

    pub fn build(self) -> (built: SendAnimation)
        ensures
            built == self.built(),
    {
        SendAnimation {
            chat_id: self.chat_id,
            message_thread_id: self.message_thread_id,
            animation: self.animation,
            duration: self.duration,
            width: self.width,
            height: self.height,
            thumbnail: self.thumbnail,
            caption: self.caption,
            parse_mode: self.parse_mode,
            caption_entities: self.caption_entities,
            has_spoiler: self.has_spoiler,
            disable_notification: self.disable_notification,
            protect_content: self.protect_content,
            reply_to_message_id: self.reply_to_message_id,
            allow_sending_without_reply: self.allow_sending_without_reply,
            reply_markup: self.reply_markup,
        }
    }
}

impl SendAnimationBuilder {
    /// Sets the thumbnail, which is always uploaded.
    pub fn thumbnail(self, file: UploadFile) -> (with: Self)
        ensures
            with.built() == (SendAnimation {
                thumbnail: Some(SendFile::UploadInput(file)),
                ..self.built()
            }),
    {
        Self { thumbnail: Some(SendFile::UploadInput(file)), ..self }
    }
}

impl TgMethod for SendAnimation {
    open spec fn name() -> Seq<char> {
        "sendAnimation"@
    }

    fn method_name() -> (name: String) {
        "sendAnimation".to_owned()
    }
}

impl TgMultipartMethod for SendAnimation {
    open spec fn name() -> Seq<char> {
        "sendAnimation"@
    }

    fn method_name() -> (name: String) {
        "sendAnimation".to_owned()
    }

    open spec fn uploads(&self) -> bool {
        self.animation is UploadInput
            || self.thumbnail matches Some(SendFile::UploadInput(_))
    }

    fn is_multipart(&self) -> (multipart: bool) {
        matches!(self.animation, SendFile::UploadInput(_))
            || matches!(self.thumbnail, Some(SendFile::UploadInput(_)))
    }
}

/// Sends an audio file that clients show as a playable voice message.
pub struct SendVoice {
    pub chat_id: ChatId,
    pub message_thread_id: Option<u64>,
    pub voice: SendFile,
    pub caption: Option<String>,
    pub parse_mode: Option<String>,
    pub caption_entities: Option<Vec<MessageEntity>>,
    pub duration: Option<usize>,
    pub disable_notification: Option<bool>,
    pub protect_content: Option<bool>,
    pub reply_to_message_id: Option<u64>,
    pub allow_sending_without_reply: Option<bool>,
    pub reply_markup: Option<ReplyMarkup>,
}

/// Collects the fields of a [`SendVoice`].
pub struct SendVoiceBuilder {
    chat_id: ChatId,
    message_thread_id: Option<u64>,
    voice: SendFile,
    caption: Option<String>,
    parse_mode: Option<String>,
    caption_entities: Option<Vec<MessageEntity>>,
    duration: Option<usize>,
    disable_notification: Option<bool>,
    protect_content: Option<bool>,
    reply_to_message_id: Option<u64>,
    allow_sending_without_reply: Option<bool>,
    reply_markup: Option<ReplyMarkup>,
}

impl SendVoiceBuilder {
    /// The value that [`build`](Self::build) hands out at this point.
    pub closed spec fn built(self) -> SendVoice {
        SendVoice {
            chat_id: self.chat_id,
            message_thread_id: self.message_thread_id,
            voice: self.voice,
            caption: self.caption,
            parse_mode: self.parse_mode,
            caption_entities: self.caption_entities,
            duration: self.duration,
            disable_notification: self.disable_notification,
            protect_content: self.protect_content,
            reply_to_message_id: self.reply_to_message_id,
            allow_sending_without_reply: self.allow_sending_without_reply,
            reply_markup: self.reply_markup,
        }
    }

    /// Starts with the fields that every [`SendVoice`] has; the others are left out.
    pub fn new(chat_id: ChatId, voice: SendFile) -> (builder: Self)
        ensures
            builder.built().chat_id == chat_id,
            builder.built().message_thread_id is None,
            builder.built().voice == voice,
            builder.built().caption is None,
            builder.built().parse_mode is None,
            builder.built().caption_entities is None,
            builder.built().duration is None,
            builder.built().disable_notification is None,
            builder.built().protect_content is None,
            builder.built().reply_to_message_id is None,
            builder.built().allow_sending_without_reply is None,
            builder.built().reply_markup is None,
    {
        Self {
            chat_id,
            message_thread_id: None,
            voice,
            caption: None,
            parse_mode: None,
            caption_entities: None,
            duration: None,
            disable_notification: None,
            protect_content: None,
            reply_to_message_id: None,
            allow_sending_without_reply: None,
            reply_markup: None,
        }
    }

    pub fn message_thread_id(self, message_thread_id: u64) -> (builder: Self)
        ensures
            builder.built() == (SendVoice {
                message_thread_id: Some(message_thread_id),
                ..self.built()
            }),
    {
        Self { message_thread_id: Some(message_thread_id), ..self }
    }

    pub fn caption(self, caption: &str) -> (builder: Self)
        ensures
            builder.built().caption matches Some(set) && set@ == caption@,
            builder.built() == (SendVoice { caption: builder.built().caption, ..self.built() }),
    {
        Self { caption: Some(caption.to_owned()), ..self }
    }

    pub fn parse_mode(self, parse_mode: &str) -> (builder: Self)
        ensures
            builder.built().parse_mode matches Some(set) && set@ == parse_mode@,
            builder.built() == (SendVoice {
                parse_mode: builder.built().parse_mode,
                ..self.built()
            }),
    {
        Self { parse_mode: Some(parse_mode.to_owned()), ..self }
    }

    pub fn caption_entities(self, caption_entities: Vec<MessageEntity>) -> (builder: Self)
        ensures
            builder.built() == (SendVoice {
                caption_entities: Some(caption_entities),
                ..self.built()
            }),
    {
        Self { caption_entities: Some(caption_entities), ..self }
    }

    pub fn duration(self, duration: usize) -> (builder: Self)
        ensures
            builder.built() == (SendVoice { duration: Some(duration), ..self.built() }),
    {
        Self { duration: Some(duration), ..self }
    }

    pub fn disable_notification(self, disable_notification: bool) -> (builder: Self)
        ensures
            builder.built() == (SendVoice {
                disable_notification: Some(disable_notification),
                ..self.built()
            }),
    {
        Self { disable_notification: Some(disable_notification), ..self }
    }

    pub fn protect_content(self, protect_content: bool) -> (builder: Self)
        ensures
            builder.built() == (SendVoice {
                protect_content: Some(protect_content),
                ..self.built()
            }),
    {
        Self { protect_content: Some(protect_content), ..self }
    }

    pub fn reply_to_message_id(self, reply_to_message_id: u64) -> (builder: Self)
        ensures
            builder.built() == (SendVoice {
                reply_to_message_id: Some(reply_to_message_id),
                ..self.built()
            }),
    {
        Self { reply_to_message_id: Some(reply_to_message_id), ..self }
    }

    pub fn allow_sending_without_reply(self, allow_sending_without_reply: bool) -> (builder: Self)
        ensures
            builder.built() == (SendVoice {
                allow_sending_without_reply: Some(allow_sending_without_reply),
                ..self.built()
            }),
    {
        Self { allow_sending_without_reply: Some(allow_sending_without_reply), ..self }
    }

    pub fn reply_markup(self, reply_markup: ReplyMarkup) -> (builder: Self)
        ensures
            builder.built() == (SendVoice { reply_markup: Some(reply_markup), ..self.built() }),
    {
        Self { reply_markup: Some(reply_markup), ..self }
    }

    pub fn build(self) -> (built: SendVoice)
        ensures
            built == self.built(),
    {
        SendVoice {
            chat_id: self.chat_id,
            message_thread_id: self.message_thread_id,
            voice: self.voice,
            caption: self.caption,
            parse_mode: self.parse_mode,
            caption_entities: self.caption_entities,
            duration: self.duration,
            disable_notification: self.disable_notification,
            protect_content: self.protect_content,
            reply_to_message_id: self.reply_to_message_id,
            allow_sending_without_reply: self.allow_sending_without_reply,
            reply_markup: self.reply_markup,
        }
    }
}

impl TgMethod for SendVoice {
    open spec fn name() -> Seq<char> {
        "sendVoice"@
    }

    fn method_name() -> (name: String) {
        "sendVoice".to_owned()
    }
}

impl TgMultipartMethod for SendVoice {
    open spec fn name() -> Seq<char> {
        "sendVoice"@
    }

    fn method_name() -> (name: String) {
        "sendVoice".to_owned()
    }

    open spec fn uploads(&self) -> bool {
        self.voice is UploadInput
    }

    fn is_multipart(&self) -> (multipart: bool) {
        matches!(self.voice, SendFile::UploadInput(_))
    }
}

/// Sends a video message.
pub struct SendVideoNote {
    pub chat_id: ChatId,
    pub message_thread_id: Option<u64>,
    pub video_note: SendFile,
    pub duration: Option<usize>,
    pub length: Option<usize>,
    pub thumbnail: Option<SendFile>,
    pub disable_notification: Option<bool>,
    pub protect_content: Option<bool>,
    pub reply_to_message_id: Option<u64>,
    pub allow_sending_without_reply: Option<bool>,
    pub reply_markup: Option<ReplyMarkup>,
}

/// Collects the fields of a [`SendVideoNote`].
pub struct SendVideoNoteBuilder {
    chat_id: ChatId,
    message_thread_id: Option<u64>,
    video_note: SendFile,
    duration: Option<usize>,
    length: Option<usize>,
    thumbnail: Option<SendFile>,
    disable_notification: Option<bool>,
    protect_content: Option<bool>,
    reply_to_message_id: Option<u64>,
    allow_sending_without_reply: Option<bool>,
    reply_markup: Option<ReplyMarkup>,
}

impl SendVideoNoteBuilder {
    /// The value that [`build`](Self::build) hands out at this point.
    pub closed spec fn built(self) -> SendVideoNote {
        SendVideoNote {
            chat_id: self.chat_id,
            message_thread_id: self.message_thread_id,
            video_note: self.video_note,
            duration: self.duration,
            length: self.length,
            thumbnail: self.thumbnail,
            disable_notification: self.disable_notification,
            protect_content: self.protect_content,
            reply_to_message_id: self.reply_to_message_id,
            allow_sending_without_reply: self.allow_sending_without_reply,
            reply_markup: self.reply_markup,
        }
    }

    /// Starts with the fields that every [`SendVideoNote`] has; the others are left out.
    pub fn new(chat_id: ChatId, video_note: SendFile) -> (builder: Self)
        ensures
            builder.built().chat_id == chat_id,
            builder.built().message_thread_id is None,
            builder.built().video_note == video_note,
            builder.built().duration is None,
            builder.built().length is None,
            builder.built().thumbnail is None,
            builder.built().disable_notification is None,
            builder.built().protect_content is None,
            builder.built().reply_to_message_id is None,
            builder.built().allow_sending_without_reply is None,
            builder.built().reply_markup is None,
    {
        Self {
            chat_id,
            message_thread_id: None,
            video_note,
            duration: None,
            length: None,
            thumbnail: None,
            disable_notification: None,
            protect_content: None,
            reply_to_message_id: None,
            allow_sending_without_reply: None,
            reply_markup: None,
        }
    }

    pub fn message_thread_id(self, message_thread_id: u64) -> (builder: Self)
        ensures
            builder.built() == (SendVideoNote {
                message_thread_id: Some(message_thread_id),
                ..self.built()
            }),
    {
        Self { message_thread_id: Some(message_thread_id), ..self }
    }

    pub fn duration(self, duration: usize) -> (builder: Self)
        ensures
            builder.built() == (SendVideoNote { duration: Some(duration), ..self.built() }),
    {
        Self { duration: Some(duration), ..self }
    }

    pub fn length(self, length: usize) -> (builder: Self)
        ensures
            builder.built() == (SendVideoNote { length: Some(length), ..self.built() }),
    {
        Self { length: Some(length), ..self }
    }

    pub fn disable_notification(self, disable_notification: bool) -> (builder: Self)
        ensures
            builder.built() == (SendVideoNote {
                disable_notification: Some(disable_notification),
                ..self.built()
            }),
    {
        Self { disable_notification: Some(disable_notification), ..self }
    }

    pub fn protect_content(self, protect_content: bool) -> (builder: Self)
        ensures
            builder.built() == (SendVideoNote {
                protect_content: Some(protect_content),
                ..self.built()
            }),
    {
        Self { protect_content: Some(protect_content), ..self }
    }

    pub fn reply_to_message_id(self, reply_to_message_id: u64) -> (builder: Self)
        ensures
            builder.built() == (SendVideoNote {
                reply_to_message_id: Some(reply_to_message_id),
                ..self.built()
            }),
    {
        Self { reply_to_message_id: Some(reply_to_message_id), ..self }
    }

    pub fn allow_sending_without_reply(self, allow_sending_without_reply: bool) -> (builder: Self)
        ensures
            builder.built() == (SendVideoNote {
                allow_sending_without_reply: Some(allow_sending_without_reply),
                ..self.built()
            }),
    {
        Self { allow_sending_without_reply: Some(allow_sending_without_reply), ..self }
    }

    pub fn reply_markup(self, reply_markup: ReplyMarkup) -> (builder: Self)
        ensures
            builder.built() == (SendVideoNote { reply_markup: Some(reply_markup), ..self.built() }),
    {
        Self { reply_markup: Some(reply_markup), ..self }
    }

    pub fn build(self) -> (built: SendVideoNote)
        ensures
            built == self.built(),
    {
        SendVideoNote {
            chat_id: self.chat_id,
            message_thread_id: self.message_thread_id,
            video_note: self.video_note,
            duration: self.duration,
            length: self.length,
            thumbnail: self.thumbnail,
            disable_notification: self.disable_notification,
            protect_content: self.protect_content,
            reply_to_message_id: self.reply_to_message_id,
            allow_sending_without_reply: self.allow_sending_without_reply,
            reply_markup: self.reply_markup,
        }
    }
}

impl SendVideoNote {
    /// Sets the thumbnail, which is always uploaded.
    pub fn thumbnail(self, file: UploadFile) -> (with: Self)
        ensures
            with == (SendVideoNote { thumbnail: Some(SendFile::UploadInput(file)), ..self }),
    {
        Self { thumbnail: Some(SendFile::UploadInput(file)), ..self }
    }
}

impl TgMethod for SendVideoNote {
    open spec fn name() -> Seq<char> {
        "sendVideoNote"@
    }

    fn method_name() -> (name: String) {
        "sendVideoNote".to_owned()
    }
}

impl TgMultipartMethod for SendVideoNote {
    open spec fn name() -> Seq<char> {
        "sendVideoNote"@
    }

    fn method_name() -> (name: String) {
        "sendVideoNote".to_owned()
    }

    open spec fn uploads(&self) -> bool {
        self.video_note is UploadInput
            || self.thumbnail matches Some(SendFile::UploadInput(_))
    }

    fn is_multipart(&self) -> (multipart: bool) {
        matches!(self.video_note, SendFile::UploadInput(_))
            || matches!(self.thumbnail, Some(SendFile::UploadInput(_)))
    }
}

} // verus!
