//! Sending photos and audio files.

use vstd::prelude::*;
use crate::methods::{ChatId, ReplyMarkup, SendFile, TgMultipartMethod, UploadFile};
use crate::types::message::MessageEntity;

verus! {

/// Sends a photo.
pub struct SendPhoto {
    pub chat_id: ChatId,
    pub message_thread_id: Option<u64>,
    pub photo: SendFile,
    pub caption: Option<String>,
    pub parse_mode: Option<String>,
    pub caption_entities: Option<Vec<MessageEntity>>,
    pub has_spoiler: Option<bool>,
    pub disable_notification: Option<bool>,
    pub protect_content: Option<bool>,
    pub reply_to_message_id: Option<u64>,
    pub allow_sending_without_reply: Option<bool>,
    pub reply_markup: Option<ReplyMarkup>,
}

/// Collects the fields of a [`SendPhoto`].
pub struct SendPhotoBuilder {
    chat_id: ChatId,
    message_thread_id: Option<u64>,
    photo: SendFile,
    caption: Option<String>,
    parse_mode: Option<String>,
    caption_entities: Option<Vec<MessageEntity>>,
    has_spoiler: Option<bool>,
    disable_notification: Option<bool>,
    protect_content: Option<bool>,
    reply_to_message_id: Option<u64>,
    allow_sending_without_reply: Option<bool>,
    reply_markup: Option<ReplyMarkup>,
}

impl SendPhotoBuilder {
    /// The value that [`build`](Self::build) hands out at this point.
    pub closed spec fn built(self) -> SendPhoto {
        SendPhoto {
            chat_id: self.chat_id,
            message_thread_id: self.message_thread_id,
            photo: self.photo,
            caption: self.caption,
            parse_mode: self.parse_mode,
            caption_entities: self.caption_entities,
            has_spoiler: self.has_spoiler,
            disable_notification: self.disable_notification,
            protect_content: self.protect_content,
            reply_to_message_id: self.reply_to_message_id,
            allow_sending_without_reply: self.allow_sending_without_reply,
            reply_markup: self.reply_markup,
        }
    }

    /// Starts with the fields that every [`SendPhoto`] has; the others are left out.
    pub fn new(chat_id: ChatId, photo: SendFile) -> (builder: Self)
        ensures
            builder.built().chat_id == chat_id,
            builder.built().message_thread_id is None,
            builder.built().photo == photo,
            builder.built().caption is None,
            builder.built().parse_mode is None,
            builder.built().caption_entities is None,
            builder.built().has_spoiler is None,
            builder.built().disable_notification is None,
            builder.built().protect_content is None,
            builder.built().reply_to_message_id is None,
            builder.built().allow_sending_without_reply is None,
            builder.built().reply_markup is None,
    {
        Self {
            chat_id,
            message_thread_id: None,
            photo,
            caption: None,
            parse_mode: None,
            caption_entities: None,
            has_spoiler: None,
            disable_notification: None,
            protect_content: None,
            reply_to_message_id: None,
            allow_sending_without_reply: None,
            reply_markup: None,
        }
    }

    pub fn message_thread_id(self, message_thread_id: u64) -> (builder: Self)
        ensures
            builder.built() == (SendPhoto {
                message_thread_id: Some(message_thread_id),
                ..self.built()
            }),
    {
        Self { message_thread_id: Some(message_thread_id), ..self }
    }

    pub fn caption(self, caption: &str) -> (builder: Self)
        ensures
            builder.built().caption matches Some(set) && set@ == caption@,
            builder.built() == (SendPhoto { caption: builder.built().caption, ..self.built() }),
    {
        Self { caption: Some(caption.to_owned()), ..self }
    }

    pub fn parse_mode(self, parse_mode: &str) -> (builder: Self)
        ensures
            builder.built().parse_mode matches Some(set) && set@ == parse_mode@,
            builder.built() == (SendPhoto {
                parse_mode: builder.built().parse_mode,
                ..self.built()
            }),
    {
        Self { parse_mode: Some(parse_mode.to_owned()), ..self }
    }

    pub fn caption_entities(self, caption_entities: Vec<MessageEntity>) -> (builder: Self)
        ensures
            builder.built() == (SendPhoto {
                caption_entities: Some(caption_entities),
                ..self.built()
            }),
    {
        Self { caption_entities: Some(caption_entities), ..self }
    }

    pub fn has_spoiler(self, has_spoiler: bool) -> (builder: Self)
        ensures
            builder.built() == (SendPhoto { has_spoiler: Some(has_spoiler), ..self.built() }),
    {
        Self { has_spoiler: Some(has_spoiler), ..self }
    }

    pub fn disable_notification(self, disable_notification: bool) -> (builder: Self)
        ensures
            builder.built() == (SendPhoto {
                disable_notification: Some(disable_notification),
                ..self.built()
            }),
    {
        Self { disable_notification: Some(disable_notification), ..self }
    }

    pub fn protect_content(self, protect_content: bool) -> (builder: Self)
        ensures
            builder.built() == (SendPhoto {
                protect_content: Some(protect_content),
                ..self.built()
            }),
    {
        Self { protect_content: Some(protect_content), ..self }
    }

    pub fn reply_to_message_id(self, reply_to_message_id: u64) -> (builder: Self)
        ensures
            builder.built() == (SendPhoto {
                reply_to_message_id: Some(reply_to_message_id),
                ..self.built()
            }),
    {
        Self { reply_to_message_id: Some(reply_to_message_id), ..self }
    }

    pub fn allow_sending_without_reply(self, allow_sending_without_reply: bool) -> (builder: Self)
        ensures
            builder.built() == (SendPhoto {
                allow_sending_without_reply: Some(allow_sending_without_reply),
                ..self.built()
            }),
    {
        Self { allow_sending_without_reply: Some(allow_sending_without_reply), ..self }
    }

    pub fn reply_markup(self, reply_markup: ReplyMarkup) -> (builder: Self)
        ensures
            builder.built() == (SendPhoto { reply_markup: Some(reply_markup), ..self.built() }),
    {
        Self { reply_markup: Some(reply_markup), ..self }
    }

    pub fn build(self) -> (built: SendPhoto)
        ensures
            built == self.built(),
    {
        SendPhoto {
            chat_id: self.chat_id,
            message_thread_id: self.message_thread_id,
            photo: self.photo,
            caption: self.caption,
            parse_mode: self.parse_mode,
            caption_entities: self.caption_entities,
            has_spoiler: self.has_spoiler,
            disable_notification: self.disable_notification,
            protect_content: self.protect_content,
            reply_to_message_id: self.reply_to_message_id,
            allow_sending_without_reply: self.allow_sending_without_reply,
            reply_markup: self.reply_markup,
        }
    }
}

impl SendPhoto {
    /// Whether the request carries a file to upload.
    pub fn is_multipart(&self) -> (multipart: bool)
        ensures
            multipart == (self.photo is UploadInput),
    {
        matches!(self.photo, SendFile::UploadInput(_))
    }
}

impl TgMultipartMethod for SendPhoto {
    open spec fn name() -> Seq<char> {
        "sendPhoto"@
    }

    fn method_name() -> (name: String) {
        "sendPhoto".to_owned()
    }

    /// No field of this request is marked as a file, so that the request
    /// never asks to be sent as a form.
    open spec fn uploads(&self) -> bool {
        false
    }

    fn is_multipart(&self) -> (multipart: bool) {
        false
    }
}

/// Sends an audio file that clients show in the music player.
pub struct SendAudio {
    pub chat_id: ChatId,
    pub message_thread_id: Option<u64>,
    pub audio: SendFile,
    pub caption: Option<String>,
    pub parse_mode: Option<String>,
    pub caption_entities: Option<Vec<MessageEntity>>,
    pub duration: Option<usize>,
    pub performer: Option<String>,
    pub title: Option<String>,
    pub thumbnail: Option<SendFile>,
    pub disable_notification: Option<bool>,
    pub protect_content: Option<bool>,
    pub reply_to_message_id: Option<u64>,
    pub allow_sending_without_reply: Option<bool>,
    pub reply_markup: Option<ReplyMarkup>,
}

/// Collects the fields of a [`SendAudio`].
pub struct SendAudioBuilder {
    chat_id: ChatId,
    message_thread_id: Option<u64>,
    audio: SendFile,
    caption: Option<String>,
    parse_mode: Option<String>,
    caption_entities: Option<Vec<MessageEntity>>,
    duration: Option<usize>,
    performer: Option<String>,
    title: Option<String>,
    thumbnail: Option<SendFile>,
    disable_notification: Option<bool>,
    protect_content: Option<bool>,
    reply_to_message_id: Option<u64>,
    allow_sending_without_reply: Option<bool>,
    reply_markup: Option<ReplyMarkup>,
}

impl SendAudioBuilder {
    /// The value that [`build`](Self::build) hands out at this point.
    pub closed spec fn built(self) -> SendAudio {
        SendAudio {
            chat_id: self.chat_id,
            message_thread_id: self.message_thread_id,
            audio: self.audio,
            caption: self.caption,
            parse_mode: self.parse_mode,
            caption_entities: self.caption_entities,
            duration: self.duration,
            performer: self.performer,
            title: self.title,
            thumbnail: self.thumbnail,
            disable_notification: self.disable_notification,
            protect_content: self.protect_content,
            reply_to_message_id: self.reply_to_message_id,
            allow_sending_without_reply: self.allow_sending_without_reply,
            reply_markup: self.reply_markup,
        }
    }

    /// Starts with the fields that every [`SendAudio`] has; the others are left out.
    pub fn new(chat_id: ChatId, audio: SendFile) -> (builder: Self)
        ensures
            builder.built().chat_id == chat_id,
            builder.built().message_thread_id is None,
            builder.built().audio == audio,
            builder.built().caption is None,
            builder.built().parse_mode is None,
            builder.built().caption_entities is None,
            builder.built().duration is None,
            builder.built().performer is None,
            builder.built().title is None,
            builder.built().thumbnail is None,
            builder.built().disable_notification is None,
            builder.built().protect_content is None,
            builder.built().reply_to_message_id is None,
            builder.built().allow_sending_without_reply is None,
            builder.built().reply_markup is None,
    {
        Self {
            chat_id,
            message_thread_id: None,
            audio,
            caption: None,
            parse_mode: None,
            caption_entities: None,
            duration: None,
            performer: None,
            title: None,
            thumbnail: None,
            disable_notification: None,
            protect_content: None,
            reply_to_message_id: None,
            allow_sending_without_reply: None,
            reply_markup: None,
        }
    }

    pub fn message_thread_id(self, message_thread_id: u64) -> (builder: Self)
        ensures
            builder.built() == (SendAudio {
                message_thread_id: Some(message_thread_id),
                ..self.built()
            }),
    {
        Self { message_thread_id: Some(message_thread_id), ..self }
    }

    pub fn caption(self, caption: &str) -> (builder: Self)
        ensures
            builder.built().caption matches Some(set) && set@ == caption@,
            builder.built() == (SendAudio { caption: builder.built().caption, ..self.built() }),
    {
        Self { caption: Some(caption.to_owned()), ..self }
    }

    pub fn parse_mode(self, parse_mode: &str) -> (builder: Self)
        ensures
            builder.built().parse_mode matches Some(set) && set@ == parse_mode@,
            builder.built() == (SendAudio {
                parse_mode: builder.built().parse_mode,
                ..self.built()
            }),
    {
        Self { parse_mode: Some(parse_mode.to_owned()), ..self }
    }

    pub fn caption_entities(self, caption_entities: Vec<MessageEntity>) -> (builder: Self)
        ensures
            builder.built() == (SendAudio {
                caption_entities: Some(caption_entities),
                ..self.built()
            }),
    {
        Self { caption_entities: Some(caption_entities), ..self }
    }

    pub fn duration(self, duration: usize) -> (builder: Self)
        ensures
            builder.built() == (SendAudio { duration: Some(duration), ..self.built() }),
    {
        Self { duration: Some(duration), ..self }
    }

    pub fn performer(self, performer: &str) -> (builder: Self)
        ensures
            builder.built().performer matches Some(set) && set@ == performer@,
            builder.built() == (SendAudio { performer: builder.built().performer, ..self.built() }),
    {
        Self { performer: Some(performer.to_owned()), ..self }
    }

    pub fn title(self, title: &str) -> (builder: Self)
        ensures
            builder.built().title matches Some(set) && set@ == title@,
            builder.built() == (SendAudio { title: builder.built().title, ..self.built() }),
    {
        Self { title: Some(title.to_owned()), ..self }
    }

    pub fn disable_notification(self, disable_notification: bool) -> (builder: Self)
        ensures
            builder.built() == (SendAudio {
                disable_notification: Some(disable_notification),
                ..self.built()
            }),
    {
        Self { disable_notification: Some(disable_notification), ..self }
    }

    pub fn protect_content(self, protect_content: bool) -> (builder: Self)
        ensures
            builder.built() == (SendAudio {
                protect_content: Some(protect_content),
                ..self.built()
            }),
    {
        Self { protect_content: Some(protect_content), ..self }
    }

    pub fn reply_to_message_id(self, reply_to_message_id: u64) -> (builder: Self)
        ensures
            builder.built() == (SendAudio {
                reply_to_message_id: Some(reply_to_message_id),
                ..self.built()
            }),
    {
        Self { reply_to_message_id: Some(reply_to_message_id), ..self }
    }

    pub fn allow_sending_without_reply(self, allow_sending_without_reply: bool) -> (builder: Self)
        ensures
            builder.built() == (SendAudio {
                allow_sending_without_reply: Some(allow_sending_without_reply),
                ..self.built()
            }),
    {
        Self { allow_sending_without_reply: Some(allow_sending_without_reply), ..self }
    }

    pub fn reply_markup(self, reply_markup: ReplyMarkup) -> (builder: Self)
        ensures
            builder.built() == (SendAudio { reply_markup: Some(reply_markup), ..self.built() }),
    {
        Self { reply_markup: Some(reply_markup), ..self }
    }

    pub fn build(self) -> (built: SendAudio)
        ensures
            built == self.built(),
    {
        SendAudio {
            chat_id: self.chat_id,
            message_thread_id: self.message_thread_id,
            audio: self.audio,
            caption: self.caption,
            parse_mode: self.parse_mode,
            caption_entities: self.caption_entities,
            duration: self.duration,
            performer: self.performer,
            title: self.title,
            thumbnail: self.thumbnail,
            disable_notification: self.disable_notification,
            protect_content: self.protect_content,
            reply_to_message_id: self.reply_to_message_id,
            allow_sending_without_reply: self.allow_sending_without_reply,
            reply_markup: self.reply_markup,
        }
    }
}

impl SendAudioBuilder {
    /// Sets the thumbnail, which is always uploaded.
    pub fn thumbnail(self, file: UploadFile) -> (with: Self)
        ensures
            with.built() == (SendAudio {
                thumbnail: Some(SendFile::UploadInput(file)),
                ..self.built()
            }),
    {
        Self { thumbnail: Some(SendFile::UploadInput(file)), ..self }
    }
}

impl TgMultipartMethod for SendAudio {
    open spec fn name() -> Seq<char> {
        "sendAudio"@
    }

    fn method_name() -> (name: String) {
        "sendAudio".to_owned()
    }

    open spec fn uploads(&self) -> bool {
        self.audio is UploadInput
            || self.thumbnail matches Some(SendFile::UploadInput(_))
    }

    fn is_multipart(&self) -> (multipart: bool) {
        matches!(self.audio, SendFile::UploadInput(_))
            || matches!(self.thumbnail, Some(SendFile::UploadInput(_)))
    }
}

} // verus!
