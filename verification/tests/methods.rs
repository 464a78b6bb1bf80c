use tgbotool::methods::answer_callback_query::AnswerCallbackQueryBuilder;
use tgbotool::methods::get_file::GetFile;
use tgbotool::methods::get_updates::{GetUpdates, GetUpdatesBuilder};
use tgbotool::methods::send_media::{SendAudioBuilder, SendPhotoBuilder};
use tgbotool::methods::send_media_group::{
    InputMediaAudioBuilder, InputMediaPhotoBuilder, Media, SendMediaGroupBuilder,
};
use tgbotool::methods::send_message::{SendMessage, SendMessageBuilder};
use tgbotool::methods::{
    attach_reference, form_parts, ChatId, FilePart, MultipartType, Part, ReplyMarkup, SendFile,
    TgMethod, TgMultipartMethod, UploadFile,
};
use tgbotool::types::message::{MessageEntityBuilder, MessageEntityType};
use tgbotool::types::{InlineKeyboardButtonBuilder, InlineKeyboardMarkup};

#[test]
fn answer_callback_query_builder_sets_what_is_given() {
    let plain = AnswerCallbackQueryBuilder::new("q1").build();
    assert_eq!(plain.callback_query_id, "q1");
    assert_eq!(plain.text, None);
    assert_eq!(plain.show_alert, None);
    assert_eq!(plain.url, None);
    assert_eq!(plain.cache_time, None);
    let full = AnswerCallbackQueryBuilder::new("q2")
        .text("done")
        .show_alert(true)
        .url("https://example.org")
        .cache_time(30)
        .build();
    assert_eq!(full.callback_query_id, "q2");
    assert_eq!(full.text.as_deref(), Some("done"));
    assert_eq!(full.show_alert, Some(true));
    assert_eq!(full.url.as_deref(), Some("https://example.org"));
    assert_eq!(full.cache_time, Some(30));
}

#[test]
fn get_file_holds_the_identifier() {
    assert_eq!(GetFile::new("abc").file_id, "abc");
    assert_eq!(GetFile::method_name(), "getFile");
}

#[test]
fn get_updates_builder_and_default() {
    let none = GetUpdates::default();
    assert_eq!(none.offset, None);
    assert_eq!(none.limit, None);
    assert_eq!(none.timeout, None);
    assert!(none.allowed_updates.is_none());
    let some = GetUpdatesBuilder::new()
        .offset(8)
        .limit(5)
        .timeout(30)
        .allowed_updates(vec!["message".to_string()])
        .build();
    assert_eq!(some.offset, Some(8));
    assert_eq!(some.limit, Some(5));
    assert_eq!(some.timeout, Some(30));
    assert_eq!(some.allowed_updates, Some(vec!["message".to_string()]));
    assert_eq!(GetUpdates::method_name(), "getUpdates");
}

#[test]
fn send_message_builder_keeps_earlier_fields() {
    let message = SendMessageBuilder::new(ChatId::Chat(5), "hello")
        .parse_mode("MarkdownV2")
        .disable_notification(true)
        .reply_to_message_id(77)
        .build();
    assert!(matches!(message.chat_id, ChatId::Chat(5)));
    assert_eq!(message.text, "hello");
    assert_eq!(message.parse_mode.as_deref(), Some("MarkdownV2"));
    assert_eq!(message.disable_notification, Some(true));
    assert_eq!(message.reply_to_message_id, Some(77));
    assert_eq!(message.protect_content, None);
    assert!(message.entities.is_none());
    assert_eq!(SendMessage::method_name(), "sendMessage");
}

#[test]
fn message_entity_builder() {
    let entity = MessageEntityBuilder::new(MessageEntityType::TextLink, 3, 4)
        .url("https://example.org")
        .build();
    assert_eq!(entity.entity_type, MessageEntityType::TextLink);
    assert_eq!(entity.offset, 3);
    assert_eq!(entity.length, 4);
    assert_eq!(entity.url.as_deref(), Some("https://example.org"));
    assert!(entity.user.is_none());
    assert!(entity.language.is_none());
}

#[test]
fn inline_keyboard_of_buttons() {
    let button = InlineKeyboardButtonBuilder::new("ok").callback_data("yes").build();
    assert_eq!(button.text, "ok");
    assert_eq!(button.callback_data.as_deref(), Some("yes"));
    assert!(button.url.is_none());
    match ReplyMarkup::inline_keyboard(vec![vec![button]]) {
        ReplyMarkup::InlineKeyboardMarkup(markup) => {
            assert_eq!(markup.inline_keyboard.len(), 1);
            assert_eq!(markup.inline_keyboard[0].len(), 1);
            assert_eq!(markup.inline_keyboard[0][0].text, "ok");
        }
        _ => panic!("expected an inline keyboard"),
    }
    assert!(InlineKeyboardMarkup::default().inline_keyboard.is_empty());
    assert_eq!(InlineKeyboardMarkup::new(vec![vec![], vec![]]).inline_keyboard.len(), 2);
}

#[test]
fn files_to_send() {
    match SendFile::id_or_url("file-id") {
        SendFile::FileIdOrUrl(id) => assert_eq!(id, "file-id"),
        _ => panic!("expected an identifier"),
    }
    match SendFile::id_or_url(String::from("https://example.org/a.png")) {
        SendFile::FileIdOrUrl(id) => assert_eq!(id, "https://example.org/a.png"),
        _ => panic!("expected a URL"),
    }
    match SendFile::upload("a.png", vec![1, 2]) {
        SendFile::UploadInput(upload) => {
            assert_eq!(upload.file_name, "a.png");
            assert_eq!(upload.file_bytes, [1, 2]);
        }
        _ => panic!("expected an upload"),
    }
    let upload = UploadFile::new("b.png", vec![3]);
    assert_eq!(upload.file_name, "b.png");
    assert_eq!(upload.file_bytes, [3]);
}

#[test]
fn photo_is_multipart_only_when_uploaded() {
    let by_id = SendPhotoBuilder::new(ChatId::Chat(1), SendFile::id_or_url("id")).build();
    assert!(!by_id.is_multipart());
    let uploaded = SendPhotoBuilder::new(ChatId::Chat(1), SendFile::upload("a.png", vec![1]))
        .caption("a photo")
        .build();
    assert!(uploaded.is_multipart());
    assert_eq!(uploaded.caption.as_deref(), Some("a photo"));
}

#[test]
fn audio_is_multipart_when_file_or_thumbnail_is_uploaded() {
    let by_id = SendAudioBuilder::new(ChatId::Chat(1), SendFile::id_or_url("id")).build();
    assert!(!TgMultipartMethod::is_multipart(&by_id));
    let with_thumbnail = SendAudioBuilder::new(ChatId::Chat(1), SendFile::id_or_url("id"))
        .thumbnail(UploadFile::new("t.jpg", vec![9]))
        .build();
    assert!(TgMultipartMethod::is_multipart(&with_thumbnail));
    match &with_thumbnail.thumbnail {
        Some(SendFile::UploadInput(upload)) => assert_eq!(upload.file_name, "t.jpg"),
        _ => panic!("expected an uploaded thumbnail"),
    }
    let uploaded =
        SendAudioBuilder::new(ChatId::Chat(1), SendFile::upload("a.mp3", vec![1])).build();
    assert!(TgMultipartMethod::is_multipart(&uploaded));
}

#[test]
fn part_of_a_field() {
    match Part::from(SendFile::upload("a.png", vec![1, 2])) {
        Part::File { file_name, bytes } => {
            assert_eq!(file_name, "a.png");
            assert_eq!(bytes, [1, 2]);
        }
        _ => panic!("expected a file"),
    }
    match Part::from(SendFile::id_or_url("id")) {
        Part::Text(text) => assert_eq!(text, "id"),
        _ => panic!("expected a text"),
    }
}

#[test]
fn parts_of_an_attachment() {
    assert_eq!(attach_reference("a.png"), "attach://a.png");
    let parts = Vec::<FilePart>::from(SendFile::upload("a.png", vec![1, 2]));
    assert_eq!(parts.len(), 2);
    match &parts[0] {
        FilePart::Simple(Part::Text(reference)) => assert_eq!(reference, "attach://a.png"),
        _ => panic!("expected a reference"),
    }
    match &parts[1] {
        FilePart::Complex((name, Part::File { file_name, bytes })) => {
            assert_eq!(name, "a.png");
            assert_eq!(file_name, "a.png");
            assert_eq!(bytes, &[1, 2]);
        }
        _ => panic!("expected a named file"),
    }
    let parts = Vec::<FilePart>::from(SendFile::id_or_url("id"));
    assert_eq!(parts.len(), 1);
    assert!(matches!(&parts[0], FilePart::Simple(Part::Text(text)) if text == "id"));
}

#[test]
fn form_parts_by_kind() {
    let normal = form_parts("photo", SendFile::upload("a.png", vec![1]), MultipartType::Normal);
    assert_eq!(normal.len(), 1);
    assert_eq!(normal[0].0, "photo");
    assert!(matches!(&normal[0].1, Part::File { file_name, .. } if file_name == "a.png"));

    let attached =
        form_parts("thumbnail", SendFile::upload("t.jpg", vec![7]), MultipartType::Attach);
    assert_eq!(attached.len(), 2);
    assert_eq!(attached[0].0, "thumbnail");
    assert!(matches!(&attached[0].1, Part::Text(text) if text == "attach://t.jpg"));
    assert_eq!(attached[1].0, "t.jpg");
    assert!(matches!(&attached[1].1, Part::File { file_name, bytes }
        if file_name == "t.jpg" && bytes == &[7]));

    let by_id = form_parts("thumbnail", SendFile::id_or_url("id"), MultipartType::Attach);
    assert_eq!(by_id.len(), 1);
    assert_eq!(by_id[0].0, "thumbnail");
    assert!(matches!(&by_id[0].1, Part::Text(text) if text == "id"));
}

fn album() -> Vec<Media> {
    vec![
        Media::Photo(InputMediaPhotoBuilder::new(SendFile::upload("a.png", vec![1])).build()),
        Media::Photo(InputMediaPhotoBuilder::new(SendFile::id_or_url("known")).build()),
        Media::Audio(
            InputMediaAudioBuilder::new(SendFile::upload("b.mp3", vec![2, 3]))
                .title("song")
                .build(),
        ),
    ]
}

#[test]
fn input_media_knows_its_kind() {
    let photo = InputMediaPhotoBuilder::new(SendFile::id_or_url("known")).build();
    assert_eq!(photo.media_type, "photo");
    let audio = InputMediaAudioBuilder::new(SendFile::id_or_url("known")).build();
    assert_eq!(audio.media_type, "audio");
}

#[test]
fn media_file_part_is_taken_once() {
    let mut items = album();
    assert!(items[0].is_multipart());
    let part = items[0].get_file_part();
    match part {
        Some((name, Part::File { file_name, bytes })) => {
            assert_eq!(name, "a.png");
            assert_eq!(file_name, "a.png");
            assert_eq!(bytes, [1]);
        }
        _ => panic!("expected a file"),
    }
    assert!(!items[0].is_multipart());
    assert!(matches!(items[0].get_media(), SendFile::FileIdOrUrl(r) if r == "attach://a.png"));
    assert!(items[0].get_file_part().is_none());
    assert!(items[1].get_file_part().is_none());
    assert!(matches!(items[1].get_media(), SendFile::FileIdOrUrl(r) if r == "known"));
}

#[test]
fn album_is_multipart_when_an_item_is_uploaded() {
    let group = SendMediaGroupBuilder::new(ChatId::Chat(1), album()).build();
    assert!(group.is_multipart());
    let known = vec![Media::Photo(
        InputMediaPhotoBuilder::new(SendFile::id_or_url("known")).build(),
    )];
    let group = SendMediaGroupBuilder::new(ChatId::Chat(1), known).build();
    assert!(!group.is_multipart());
    let empty = SendMediaGroupBuilder::new(ChatId::Chat(1), vec![]).build();
    assert!(!empty.is_multipart());
}

#[test]
fn album_hands_out_its_uploads_in_order() {
    let mut group = SendMediaGroupBuilder::new(ChatId::Channel("@news".to_string()), album())
        .disable_notification(true)
        .build();
    let parts = group.take_file_parts();
    assert_eq!(parts.len(), 2);
    assert_eq!(parts[0].0, "a.png");
    assert_eq!(parts[1].0, "b.mp3");
    assert!(matches!(&parts[1].1, Part::File { file_name, bytes }
        if file_name == "b.mp3" && bytes == &[2, 3]));
    assert_eq!(group.media.len(), 3);
    assert!(matches!(group.media[0].get_media(), SendFile::FileIdOrUrl(r) if r == "attach://a.png"));
    assert!(matches!(group.media[1].get_media(), SendFile::FileIdOrUrl(r) if r == "known"));
    assert!(matches!(group.media[2].get_media(), SendFile::FileIdOrUrl(r) if r == "attach://b.mp3"));
    assert!(matches!(&group.media[2], Media::Audio(audio) if audio.title.as_deref() == Some("song")));
    assert_eq!(group.disable_notification, Some(true));
    assert!(matches!(&group.chat_id, ChatId::Channel(name) if name == "@news"));
    assert!(!group.is_multipart());
    assert!(group.take_file_parts().is_empty());
}
