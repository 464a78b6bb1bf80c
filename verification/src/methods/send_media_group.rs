//! Sending albums.

use vstd::prelude::*;
use crate::methods::{
    ChatId, Part, SendFile, TgMultipartMethod, UploadFile, attach_name, attach_reference,
};
use crate::types::message::MessageEntity;

verus! {

/// Sends a group of photos, videos, documents or audios as an album.
pub struct SendMediaGroup {
    pub chat_id: ChatId,
    pub message_thread_id: Option<u64>,
    pub media: Vec<Media>,
    pub disable_notification: Option<bool>,
    pub protect_content: Option<bool>,
    pub reply_to_message_id: Option<u64>,
    pub allow_sending_without_reply: Option<bool>,
}

/// Collects the fields of a [`SendMediaGroup`].
pub struct SendMediaGroupBuilder {
    chat_id: ChatId,
    message_thread_id: Option<u64>,
    media: Vec<Media>,
    disable_notification: Option<bool>,
    protect_content: Option<bool>,
    reply_to_message_id: Option<u64>,
    allow_sending_without_reply: Option<bool>,
}

impl SendMediaGroupBuilder {
    /// The value that [`build`](Self::build) hands out at this point.
    pub closed spec fn built(self) -> SendMediaGroup {
        SendMediaGroup {
            chat_id: self.chat_id,
            message_thread_id: self.message_thread_id,
            media: self.media,
            disable_notification: self.disable_notification,
            protect_content: self.protect_content,
            reply_to_message_id: self.reply_to_message_id,
            allow_sending_without_reply: self.allow_sending_without_reply,
        }
    }

    /// Starts with the fields that every [`SendMediaGroup`] has; the others are left out.
    pub fn new(chat_id: ChatId, media: Vec<Media>) -> (builder: Self)
        ensures
            builder.built().chat_id == chat_id,
            builder.built().message_thread_id is None,
            builder.built().media == media,
            builder.built().disable_notification is None,
            builder.built().protect_content is None,
            builder.built().reply_to_message_id is None,
            builder.built().allow_sending_without_reply is None,
    {
        Self {
            chat_id,
            message_thread_id: None,
            media,
            disable_notification: None,
            protect_content: None,
            reply_to_message_id: None,
            allow_sending_without_reply: None,
        }
    }

    pub fn message_thread_id(self, message_thread_id: u64) -> (builder: Self)
        ensures
            builder.built() == (SendMediaGroup {
                message_thread_id: Some(message_thread_id),
                ..self.built()
            }),
    {
        Self { message_thread_id: Some(message_thread_id), ..self }
    }

    pub fn disable_notification(self, disable_notification: bool) -> (builder: Self)
        ensures
            builder.built() == (SendMediaGroup {
                disable_notification: Some(disable_notification),
                ..self.built()
            }),
    {
        Self { disable_notification: Some(disable_notification), ..self }
    }

    pub fn protect_content(self, protect_content: bool) -> (builder: Self)
        ensures
            builder.built() == (SendMediaGroup {
                protect_content: Some(protect_content),
                ..self.built()
            }),
    {
        Self { protect_content: Some(protect_content), ..self }
    }

    pub fn reply_to_message_id(self, reply_to_message_id: u64) -> (builder: Self)
        ensures
            builder.built() == (SendMediaGroup {
                reply_to_message_id: Some(reply_to_message_id),
                ..self.built()
            }),
    {
        Self { reply_to_message_id: Some(reply_to_message_id), ..self }
    }

    pub fn allow_sending_without_reply(self, allow_sending_without_reply: bool) -> (builder: Self)
        ensures
            builder.built() == (SendMediaGroup {
                allow_sending_without_reply: Some(allow_sending_without_reply),
                ..self.built()
            }),
    {
        Self { allow_sending_without_reply: Some(allow_sending_without_reply), ..self }
    }

    pub fn build(self) -> (built: SendMediaGroup)
        ensures
            built == self.built(),
    {
        SendMediaGroup {
            chat_id: self.chat_id,
            message_thread_id: self.message_thread_id,
            media: self.media,
            disable_notification: self.disable_notification,
            protect_content: self.protect_content,
            reply_to_message_id: self.reply_to_message_id,
            allow_sending_without_reply: self.allow_sending_without_reply,
        }
    }
}

impl TgMultipartMethod for SendMediaGroup {
    open spec fn name() -> Seq<char> {
        "sendMediaGroup"@
    }

    fn method_name() -> (name: String) {
        "sendMediaGroup".to_string()
    }

    open spec fn uploads(&self) -> bool {
        exists|i: int|
            0 <= i < self.media@.len() && (#[trigger] self.media@[i]).media() is UploadInput
    }

    fn is_multipart(&self) -> (multipart: bool) {
        let mut i: usize = 0;
        while i < self.media.len()
            invariant
                i <= self.media@.len(),
                forall|j: int| 0 <= j < i ==> !((#[trigger] self.media@[j]).media() is UploadInput),
            decreases self.media@.len() - i,
        {
            if self.media[i].is_multipart() {
                return true;
            }
            i += 1;
        }
        false
    }
}

impl SendMediaGroup {
    /// Takes the files to upload out of the album, in the order of its
    /// items: each comes back as a part under the name of the file, and
    /// the item is left referring to that part.
    pub fn take_file_parts(&mut self) -> (parts: Vec<(String, Part)>)
        ensures
            final(self).media@.len() == old(self).media@.len(),
            forall|i: int|
                0 <= i < old(self).media@.len() ==> old(self).media@[i].leaves(
                    #[trigger] final(self).media@[i],
                ),
            parts@.len() == uploads(old(self).media@).len(),
            forall|k: int|
                0 <= k < parts@.len() ==> carries(
                    #[trigger] parts@[k],
                    uploads(old(self).media@)[k],
                ),
            *final(self) == (SendMediaGroup { media: final(self).media, ..*old(self) }),
    {
        let mut parts: Vec<(String, Part)> = Vec::new();
        let mut i: usize = 0;
        let n = self.media.len();
        proof {
            assert(old(self).media@.take(0) =~= Seq::<Media>::empty());
        }
        while i < n
            invariant
                i <= n,
                n == self.media@.len(),
                self.media@.len() == old(self).media@.len(),
                forall|j: int|
                    0 <= j < i ==> old(self).media@[j].leaves(#[trigger] self.media@[j]),
                forall|j: int| i <= j < n ==> (#[trigger] self.media@[j]) == old(self).media@[j],
                parts@.len() == uploads(old(self).media@.take(i as int)).len(),
                forall|k: int|
                    0 <= k < parts@.len() ==> carries(
                        #[trigger] parts@[k],
                        uploads(old(self).media@.take(i as int))[k],
                    ),
                *self == (SendMediaGroup { media: self.media, ..*old(self) }),
            decreases n - i,
        {
            let ghost before = old(self).media@.take(i as int);
            let ghost item = old(self).media@[i as int];
            proof {
                assert(old(self).media@.take(i + 1) =~= before.push(item));
                assert(before.push(item).drop_last() =~= before);
            }
            let taken = self.media[i].get_file_part();
            if let Some(part) = taken {
                parts.push(part);
            }
            i += 1;
        }
        proof {
            assert(old(self).media@.take(n as int) =~= old(self).media@);
        }
        parts
    }
}

/// The files to upload that the items of an album hold, in the order of
/// the items.
pub open spec fn uploads(media: Seq<Media>) -> Seq<UploadFile>
    decreases media.len(),
{
    if media.len() == 0 {
        Seq::empty()
    } else {
        match media.last().media() {
            SendFile::UploadInput(upload) => uploads(media.drop_last()).push(upload),
            SendFile::FileIdOrUrl(_) => uploads(media.drop_last()),
        }
    }
}

/// Whether `part` carries the file `upload` under the name of the file.
pub open spec fn carries(part: (String, Part), upload: UploadFile) -> bool {
    &&& part.0@ == upload.file_name@
    &&& part.1 matches Part::File { file_name, bytes }
    &&& file_name@ == upload.file_name@
    &&& bytes == upload.file_bytes
}

/// One item of an album.
pub enum Media {
    Audio(InputMediaAudio),
    Document(InputMediaDocument),
    Photo(InputMediaPhoto),
    Video(InputMediaVideo),
}

impl Media {
    /// The file of the item.
    pub open spec fn media(self) -> SendFile {
        match self {
            Media::Audio(m) => m.media,
            Media::Document(m) => m.media,
            Media::Photo(m) => m.media,
            Media::Video(m) => m.media,
        }
    }

    /// The item with `media` as its file.
    pub open spec fn with_media(self, media: SendFile) -> Media {
        match self {
            Media::Audio(m) => Media::Audio(InputMediaAudio { media, ..m }),
            Media::Document(m) => Media::Document(InputMediaDocument { media, ..m }),
            Media::Photo(m) => Media::Photo(InputMediaPhoto { media, ..m }),
            Media::Video(m) => Media::Video(InputMediaVideo { media, ..m }),
        }
    }

    /// Whether `other` is this item but for its file, which is a
    /// reference to the attachment named like the file that this item
    /// uploads.
    pub open spec fn refers_to_upload_of(self, other: Media) -> bool {
        &&& self.media() matches SendFile::UploadInput(upload)
        &&& other.media() matches SendFile::FileIdOrUrl(reference)
        &&& reference@ == attach_name(upload.file_name@)
        &&& other == self.with_media(other.media())
    }

    /// Whether `after` is what taking the file to upload out of this
    /// item leaves: the item referring to the attachment, or the item
    /// itself where it uploads nothing.
    pub open spec fn leaves(self, after: Media) -> bool {
        match self.media() {
            SendFile::UploadInput(_) => self.refers_to_upload_of(after),
            SendFile::FileIdOrUrl(_) => after == self,
        }
    }

    fn get_media_mut(&mut self) -> (media: &mut SendFile)
        ensures
            *media == old(self).media(),
            *final(self) == old(self).with_media(*final(media)),
    {
        match self {
            Media::Audio(m) => &mut m.media,
            Media::Document(m) => &mut m.media,
            Media::Photo(m) => &mut m.media,
            Media::Video(m) => &mut m.media,
        }
    }

    /// The file of the item.
    pub fn get_media(&self) -> (media: &SendFile)
        ensures
            *media == self.media(),
    {
        match self {
            Media::Audio(m) => &m.media,
            Media::Document(m) => &m.media,
            Media::Photo(m) => &m.media,
            Media::Video(m) => &m.media,
        }
    }

    /// Whether the item holds a file to upload.
    pub fn is_multipart(&self) -> (multipart: bool)
        ensures
            multipart == (self.media() is UploadInput),
    {
        matches!(self.get_media(), SendFile::UploadInput(_))
    }

    /// Takes the file to upload out of the item, if it holds one: the
    /// file comes back as a part under its own name, and the item is
    /// left referring to that part. An item that uploads nothing stays
    /// as it is.
    pub fn get_file_part(&mut self) -> (part: Option<(String, Part)>)
        ensures
            old(self).leaves(*final(self)),
            match old(self).media() {
                SendFile::UploadInput(upload) => part matches Some(named) && carries(named, upload),
                SendFile::FileIdOrUrl(_) => part is None,
            },
    {
        let media = self.get_media_mut();
        let mut taken = SendFile::FileIdOrUrl(String::new());
        std::mem::swap(media, &mut taken);
        match taken {
            SendFile::UploadInput(UploadFile { file_name, file_bytes }) => {
                let attach_name = file_name.clone();
                *media = SendFile::FileIdOrUrl(attach_reference(attach_name.as_str()));
                Some((attach_name, Part::File { file_name, bytes: file_bytes }))
            },
            other => {
                *media = other;
                None
            },
        }
    }
}

/// An audio file to be sent as part of an album.
pub struct InputMediaAudio {
    pub media_type: String,
    /// file_id / http_url / attach
    pub media: SendFile,
    pub thumbnail: Option<String>,
    pub caption: Option<String>,
    pub parse_mode: Option<String>,
    pub caption_entities: Option<Vec<MessageEntity>>,
    pub duration: Option<u64>,
    pub performer: Option<String>,
    pub title: Option<String>,
}

/// Collects the fields of an [`InputMediaAudio`].
pub struct InputMediaAudioBuilder {
    media_type: String,
    media: SendFile,
    thumbnail: Option<String>,
    caption: Option<String>,
    parse_mode: Option<String>,
    caption_entities: Option<Vec<MessageEntity>>,
    duration: Option<u64>,
    performer: Option<String>,
    title: Option<String>,
}

impl InputMediaAudioBuilder {
    /// The value that [`build`](Self::build) hands out at this point.
    pub closed spec fn built(self) -> InputMediaAudio {
        InputMediaAudio {
            media_type: self.media_type,
            media: self.media,
            thumbnail: self.thumbnail,
            caption: self.caption,
            parse_mode: self.parse_mode,
            caption_entities: self.caption_entities,
            duration: self.duration,
            performer: self.performer,
            title: self.title,
        }
    }

    /// Starts with the fields that every [`InputMediaAudio`] has; the others are left out.
    pub fn new(media: SendFile) -> (builder: Self)
        ensures
            builder.built().media_type@ == "audio"@,
            builder.built().media == media,
            builder.built().thumbnail is None,
            builder.built().caption is None,
            builder.built().parse_mode is None,
            builder.built().caption_entities is None,
            builder.built().duration is None,
            builder.built().performer is None,
            builder.built().title is None,
    {
        Self {
            media_type: "audio".to_owned(),
            media,
            thumbnail: None,
            caption: None,
            parse_mode: None,
            caption_entities: None,
            duration: None,
            performer: None,
            title: None,
        }
    }

    pub fn thumbnail(self, thumbnail: &str) -> (builder: Self)
        ensures
            builder.built().thumbnail matches Some(set) && set@ == thumbnail@,
            builder.built() == (InputMediaAudio {
                thumbnail: builder.built().thumbnail,
                ..self.built()
            }),
    {
        Self { thumbnail: Some(thumbnail.to_owned()), ..self }
    }

    pub fn caption(self, caption: &str) -> (builder: Self)
        ensures
            builder.built().caption matches Some(set) && set@ == caption@,
            builder.built() == (InputMediaAudio {
                caption: builder.built().caption,
                ..self.built()
            }),
    {
        Self { caption: Some(caption.to_owned()), ..self }
    }

    pub fn parse_mode(self, parse_mode: &str) -> (builder: Self)
        ensures
            builder.built().parse_mode matches Some(set) && set@ == parse_mode@,
            builder.built() == (InputMediaAudio {
                parse_mode: builder.built().parse_mode,
                ..self.built()
            }),
    {
        Self { parse_mode: Some(parse_mode.to_owned()), ..self }
    }

    pub fn caption_entities(self, caption_entities: Vec<MessageEntity>) -> (builder: Self)
        ensures
            builder.built() == (InputMediaAudio {
                caption_entities: Some(caption_entities),
                ..self.built()
            }),
    {
        Self { caption_entities: Some(caption_entities), ..self }
    }

    pub fn duration(self, duration: u64) -> (builder: Self)
        ensures
            builder.built() == (InputMediaAudio { duration: Some(duration), ..self.built() }),
    {
        Self { duration: Some(duration), ..self }
    }

    pub fn performer(self, performer: &str) -> (builder: Self)
        ensures
            builder.built().performer matches Some(set) && set@ == performer@,
            builder.built() == (InputMediaAudio {
                performer: builder.built().performer,
                ..self.built()
            }),
    {
        Self { performer: Some(performer.to_owned()), ..self }
    }

    pub fn title(self, title: &str) -> (builder: Self)
        ensures
            builder.built().title matches Some(set) && set@ == title@,
            builder.built() == (InputMediaAudio { title: builder.built().title, ..self.built() }),
    {
        Self { title: Some(title.to_owned()), ..self }
    }

    pub fn build(self) -> (built: InputMediaAudio)
        ensures
            built == self.built(),
    {
        InputMediaAudio {
            media_type: self.media_type,
            media: self.media,
            thumbnail: self.thumbnail,
            caption: self.caption,
            parse_mode: self.parse_mode,
            caption_entities: self.caption_entities,
            duration: self.duration,
            performer: self.performer,
            title: self.title,
        }
    }
}

/// A general file to be sent as part of an album.
pub struct InputMediaDocument {
    pub media_type: String,
    /// file_id / http_url / attach
    pub media: SendFile,
    pub thumbnail: Option<String>,
    pub caption: Option<String>,
    pub parse_mode: Option<String>,
    pub caption_entities: Option<Vec<MessageEntity>>,
    pub disable_content_type_detection: Option<bool>,
}

/// Collects the fields of an [`InputMediaDocument`].
pub struct InputMediaDocumentBuilder {
    media_type: String,
    media: SendFile,
    thumbnail: Option<String>,
    caption: Option<String>,
    parse_mode: Option<String>,
    caption_entities: Option<Vec<MessageEntity>>,
    disable_content_type_detection: Option<bool>,
}

impl InputMediaDocumentBuilder {
    /// The value that [`build`](Self::build) hands out at this point.
    pub closed spec fn built(self) -> InputMediaDocument {
        InputMediaDocument {
            media_type: self.media_type,
            media: self.media,
            thumbnail: self.thumbnail,
            caption: self.caption,
            parse_mode: self.parse_mode,
            caption_entities: self.caption_entities,
            disable_content_type_detection: self.disable_content_type_detection,
        }
    }

    /// Starts with the fields that every [`InputMediaDocument`] has; the others are left out.
    pub fn new(media: SendFile) -> (builder: Self)
        ensures
            builder.built().media_type@ == "document"@,
            builder.built().media == media,
            builder.built().thumbnail is None,
            builder.built().caption is None,
            builder.built().parse_mode is None,
            builder.built().caption_entities is None,
            builder.built().disable_content_type_detection is None,
    {
        Self {
            media_type: "document".to_owned(),
            media,
            thumbnail: None,
            caption: None,
            parse_mode: None,
            caption_entities: None,
            disable_content_type_detection: None,
        }
    }

    pub fn thumbnail(self, thumbnail: &str) -> (builder: Self)
        ensures
            builder.built().thumbnail matches Some(set) && set@ == thumbnail@,
            builder.built() == (InputMediaDocument {
                thumbnail: builder.built().thumbnail,
                ..self.built()
            }),
    {
        Self { thumbnail: Some(thumbnail.to_owned()), ..self }
    }

    pub fn caption(self, caption: &str) -> (builder: Self)
        ensures
            builder.built().caption matches Some(set) && set@ == caption@,
            builder.built() == (InputMediaDocument {
                caption: builder.built().caption,
                ..self.built()
            }),
    {
        Self { caption: Some(caption.to_owned()), ..self }
    }

    pub fn parse_mode(self, parse_mode: &str) -> (builder: Self)
        ensures
            builder.built().parse_mode matches Some(set) && set@ == parse_mode@,
            builder.built() == (InputMediaDocument {
                parse_mode: builder.built().parse_mode,
                ..self.built()
            }),
    {
        Self { parse_mode: Some(parse_mode.to_owned()), ..self }
    }

    pub fn caption_entities(self, caption_entities: Vec<MessageEntity>) -> (builder: Self)
        ensures
            builder.built() == (InputMediaDocument {
                caption_entities: Some(caption_entities),
                ..self.built()
            }),
    {
        Self { caption_entities: Some(caption_entities), ..self }
    }

    pub fn disable_content_type_detection(
        self,
        disable_content_type_detection: bool,
    ) -> (builder: Self)
        ensures
            builder.built() == (InputMediaDocument {
                disable_content_type_detection: Some(disable_content_type_detection),
                ..self.built()
            }),
    {
        Self { disable_content_type_detection: Some(disable_content_type_detection), ..self }
    }

    pub fn build(self) -> (built: InputMediaDocument)
        ensures
            built == self.built(),
    {
        InputMediaDocument {
            media_type: self.media_type,
            media: self.media,
            thumbnail: self.thumbnail,
            caption: self.caption,
            parse_mode: self.parse_mode,
            caption_entities: self.caption_entities,
            disable_content_type_detection: self.disable_content_type_detection,
        }
    }
}

/// A photo to be sent as part of an album.
pub struct InputMediaPhoto {
    pub media_type: String,
    /// file_id / http_url / attach
    pub media: SendFile,
    pub caption: Option<String>,
    pub parse_mode: Option<String>,
    pub caption_entities: Option<Vec<MessageEntity>>,
    pub has_spoiler: Option<bool>,
}

/// Collects the fields of an [`InputMediaPhoto`].
pub struct InputMediaPhotoBuilder {
    media_type: String,
    media: SendFile,
    caption: Option<String>,
    parse_mode: Option<String>,
    caption_entities: Option<Vec<MessageEntity>>,
    has_spoiler: Option<bool>,
}

impl InputMediaPhotoBuilder {
    /// The value that [`build`](Self::build) hands out at this point.
    pub closed spec fn built(self) -> InputMediaPhoto {
        InputMediaPhoto {
            media_type: self.media_type,
            media: self.media,
            caption: self.caption,
            parse_mode: self.parse_mode,
            caption_entities: self.caption_entities,
            has_spoiler: self.has_spoiler,
        }
    }

    /// Starts with the fields that every [`InputMediaPhoto`] has; the others are left out.
    pub fn new(media: SendFile) -> (builder: Self)
        ensures
            builder.built().media_type@ == "photo"@,
            builder.built().media == media,
            builder.built().caption is None,
            builder.built().parse_mode is None,
            builder.built().caption_entities is None,
            builder.built().has_spoiler is None,
    {
        Self {
            media_type: "photo".to_owned(),
            media,
            caption: None,
            parse_mode: None,
            caption_entities: None,
            has_spoiler: None,
        }
    }

    pub fn caption(self, caption: &str) -> (builder: Self)
        ensures
            builder.built().caption matches Some(set) && set@ == caption@,
            builder.built() == (InputMediaPhoto {
                caption: builder.built().caption,
                ..self.built()
            }),
    {
        Self { caption: Some(caption.to_owned()), ..self }
    }

    pub fn parse_mode(self, parse_mode: &str) -> (builder: Self)
        ensures
            builder.built().parse_mode matches Some(set) && set@ == parse_mode@,
            builder.built() == (InputMediaPhoto {
                parse_mode: builder.built().parse_mode,
                ..self.built()
            }),
    {
        Self { parse_mode: Some(parse_mode.to_owned()), ..self }
    }

    pub fn caption_entities(self, caption_entities: Vec<MessageEntity>) -> (builder: Self)
        ensures
            builder.built() == (InputMediaPhoto {
                caption_entities: Some(caption_entities),
                ..self.built()
            }),
    {
        Self { caption_entities: Some(caption_entities), ..self }
    }

    pub fn has_spoiler(self, has_spoiler: bool) -> (builder: Self)
        ensures
            builder.built() == (InputMediaPhoto { has_spoiler: Some(has_spoiler), ..self.built() }),
    {
        Self { has_spoiler: Some(has_spoiler), ..self }
    }

    pub fn build(self) -> (built: InputMediaPhoto)
        ensures
            built == self.built(),
    {
        InputMediaPhoto {
            media_type: self.media_type,
            media: self.media,
            caption: self.caption,
            parse_mode: self.parse_mode,
            caption_entities: self.caption_entities,
            has_spoiler: self.has_spoiler,
        }
    }
}

/// A video to be sent as part of an album.
pub struct InputMediaVideo {
    pub media_type: String,
    /// file_id / http_url / attach
    pub media: SendFile,
    pub thumbnail: Option<String>,
    pub caption: Option<String>,
    pub parse_mode: Option<String>,
    pub caption_entities: Option<Vec<MessageEntity>>,
    pub width: Option<usize>,
    pub height: Option<usize>,
    pub duration: Option<usize>,
    pub supports_streaming: Option<bool>,
    pub has_spoiler: Option<bool>,
}

/// Collects the fields of an [`InputMediaVideo`].
pub struct InputMediaVideoBuilder {
    media_type: String,
    media: SendFile,
    thumbnail: Option<String>,
    caption: Option<String>,
    parse_mode: Option<String>,
    caption_entities: Option<Vec<MessageEntity>>,
    width: Option<usize>,
    height: Option<usize>,
    duration: Option<usize>,
    supports_streaming: Option<bool>,
    has_spoiler: Option<bool>,
}

impl InputMediaVideoBuilder {
    /// The value that [`build`](Self::build) hands out at this point.
    pub closed spec fn built(self) -> InputMediaVideo {
        InputMediaVideo {
            media_type: self.media_type,
            media: self.media,
            thumbnail: self.thumbnail,
            caption: self.caption,
            parse_mode: self.parse_mode,
            caption_entities: self.caption_entities,
            width: self.width,
            height: self.height,
            duration: self.duration,
            supports_streaming: self.supports_streaming,
            has_spoiler: self.has_spoiler,
        }
    }

    /// Starts with the fields that every [`InputMediaVideo`] has; the others are left out.
    pub fn new(media: SendFile) -> (builder: Self)
        ensures
            builder.built().media_type@ == "video"@,
            builder.built().media == media,
            builder.built().thumbnail is None,
            builder.built().caption is None,
            builder.built().parse_mode is None,
            builder.built().caption_entities is None,
            builder.built().width is None,
            builder.built().height is None,
            builder.built().duration is None,
            builder.built().supports_streaming is None,
            builder.built().has_spoiler is None,
    {
        Self {
            media_type: "video".to_owned(),
            media,
            thumbnail: None,
            caption: None,
            parse_mode: None,
            caption_entities: None,
            width: None,
            height: None,
            duration: None,
            supports_streaming: None,
            has_spoiler: None,
        }
    }

    pub fn thumbnail(self, thumbnail: &str) -> (builder: Self)
        ensures
            builder.built().thumbnail matches Some(set) && set@ == thumbnail@,
            builder.built() == (InputMediaVideo {
                thumbnail: builder.built().thumbnail,
                ..self.built()
            }),
    {
        Self { thumbnail: Some(thumbnail.to_owned()), ..self }
    }

    pub fn caption(self, caption: &str) -> (builder: Self)
        ensures
            builder.built().caption matches Some(set) && set@ == caption@,
            builder.built() == (InputMediaVideo {
                caption: builder.built().caption,
                ..self.built()
            }),
    {
        Self { caption: Some(caption.to_owned()), ..self }
    }

    pub fn parse_mode(self, parse_mode: &str) -> (builder: Self)
        ensures
            builder.built().parse_mode matches Some(set) && set@ == parse_mode@,
            builder.built() == (InputMediaVideo {
                parse_mode: builder.built().parse_mode,
                ..self.built()
            }),
    {
        Self { parse_mode: Some(parse_mode.to_owned()), ..self }
    }

    pub fn caption_entities(self, caption_entities: Vec<MessageEntity>) -> (builder: Self)
        ensures
            builder.built() == (InputMediaVideo {
                caption_entities: Some(caption_entities),
                ..self.built()
            }),
    {
        Self { caption_entities: Some(caption_entities), ..self }
    }

    pub fn width(self, width: usize) -> (builder: Self)
        ensures
            builder.built() == (InputMediaVideo { width: Some(width), ..self.built() }),
    {
        Self { width: Some(width), ..self }
    }

    pub fn height(self, height: usize) -> (builder: Self)
        ensures
            builder.built() == (InputMediaVideo { height: Some(height), ..self.built() }),
    {
        Self { height: Some(height), ..self }
    }

    pub fn duration(self, duration: usize) -> (builder: Self)
        ensures
            builder.built() == (InputMediaVideo { duration: Some(duration), ..self.built() }),
    {
        Self { duration: Some(duration), ..self }
    }

    pub fn supports_streaming(self, supports_streaming: bool) -> (builder: Self)
        ensures
            builder.built() == (InputMediaVideo {
                supports_streaming: Some(supports_streaming),
                ..self.built()
            }),
    {
        Self { supports_streaming: Some(supports_streaming), ..self }
    }

    pub fn has_spoiler(self, has_spoiler: bool) -> (builder: Self)
        ensures
            builder.built() == (InputMediaVideo { has_spoiler: Some(has_spoiler), ..self.built() }),
    {
        Self { has_spoiler: Some(has_spoiler), ..self }
    }

    pub fn build(self) -> (built: InputMediaVideo)
        ensures
            built == self.built(),
    {
        InputMediaVideo {
            media_type: self.media_type,
            media: self.media,
            thumbnail: self.thumbnail,
            caption: self.caption,
            parse_mode: self.parse_mode,
            caption_entities: self.caption_entities,
            width: self.width,
            height: self.height,
            duration: self.duration,
            supports_streaming: self.supports_streaming,
            has_spoiler: self.has_spoiler,
        }
    }
}

} // verus!
