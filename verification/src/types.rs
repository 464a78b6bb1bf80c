//! The objects that the API sends and receives.

pub mod chat;
pub mod game;
pub mod message;
pub mod passport;
pub mod payment;
pub mod user;

use vstd::prelude::*;
use crate::types::message::MessageEntity;
use crate::types::user::User;

verus! {

/// An answer of a user in a non-anonymous poll.
pub struct PollAnswer {
    pub poll_id: String,
    pub user: User,
    pub optins_ids: Vec<usize>,
}

/// What is known about one member of a chat, by the member's status.
#[allow(inconsistent_fields)]
pub enum ChatMember {
    Owner {
        status: String,
        user: User,
        is_anonymous: bool,
        custom_title: Option<String>,
    },
    Administrator {
        status: String,
        user: User,
        can_be_edited: bool,
        is_anonymous: bool,
        can_manage_chat: bool,
        can_delete_messages: bool,
        can_manage_video_chats: bool,
        can_restrict_members: bool,
        can_promote_members: bool,
        can_change_info: bool,
        can_invite_users: bool,
        can_post_messages: Option<bool>,
        can_edit_messages: Option<bool>,
        can_pin_messages: Option<bool>,
        can_menage_topics: Option<bool>,
        custom_title: Option<String>,
    },
    Member {
        status: String,
        user: User,
    },
    Restricted {
        status: String,
        user: User,
        is_member: bool,
        can_send_messges: bool,
        can_send_audios: bool,
        can_send_documents: bool,
        can_send_photos: bool,
        can_send_videos: bool,
        can_send_video_notes: bool,
        can_send_polls: bool,
        can_send_other_messages: bool,
        can_add_web_page_previews: bool,
        can_change_info: bool,
        can_invite_users: bool,
        can_pin_messages: bool,
        can_manage_topics: bool,
        until_date: u64,
    },
    Left {
        status: String,
        user: User,
    },
    Banned {
        status: String,
        user: User,
        until_date: u64,
    },
}

/// An invite link for a chat.
pub struct ChatInviteLink {
    pub invite_link: String,
    pub creator: User,
    pub creates_join_request: bool,
    pub is_primary: bool,
    pub is_revoked: bool,
    pub name: Option<String>,
    pub expire_date: Option<u64>,
    pub member_limit: Option<usize>,
    pub pending_join_reqeust_count: Option<usize>,
}

/// An animation file: a GIF or a video without sound.
pub struct Animation {
    pub file_id: String,
    pub file_unique_id: String,
    pub width: usize,
    pub height: usize,
    pub duration: u64,
    pub thumbnail: Option<PhotoSize>,
    pub file_name: Option<String>,
    pub mime_type: Option<String>,
    pub file_size: Option<u64>,
}

/// An audio file that clients treat as music.
pub struct Audio {
    pub file_id: String,
    pub file_unique_id: String,
    pub duration: usize,
    pub performer: Option<String>,
    pub title: Option<String>,
    pub file_name: Option<String>,
    pub mime_type: Option<String>,
    pub file_size: Option<u64>,
    pub thumbnail: Option<PhotoSize>,
}

/// A general file, as opposed to photos, voice messages and audio files.
pub struct Document {
    pub file_id: String,
    pub file_unique_id: String,
    pub thumbnail: Option<PhotoSize>,
    pub file_name: Option<String>,
    pub mime_type: Option<String>,
    pub file_size: Option<u64>,
}

/// One size of a photo, or of the thumbnail of a file or sticker.
pub struct PhotoSize {
    pub file_id: String,
    pub file_unique_id: String,
    pub width: usize,
    pub height: usize,
    pub file_size: Option<u64>,
}

/// A file that is ready to be downloaded.
pub struct File {
    pub file_id: String,
    pub file_unique_id: String,
    pub file_size: Option<u64>,
    pub file_path: Option<String>,
}

/// The kinds of sticker.
pub enum StickerType {
    Regular,
    Mask,
    CustomEmoji,
}

/// A video file.
pub struct Video {
    pub file_id: String,
    pub file_unique_id: String,
    pub width: usize,
    pub height: usize,
    pub thumbnail: Option<PhotoSize>,
    pub file_name: Option<String>,
    pub mime_type: Option<String>,
    pub file_size: Option<u64>,
}

/// A video message.
pub struct VideoNote {
    pub file_id: String,
    pub file_unique_id: String,
    pub length: usize,
    pub duration: usize,
    pub thumbnail: Option<PhotoSize>,
    pub file_size: Option<u64>,
}

/// A voice note.
pub struct Voice {
    pub file_id: String,
    pub file_unique_id: String,
    pub duration: usize,
    pub mime_type: Option<String>,
    pub file_size: Option<usize>,
}

/// A phone contact.
pub struct Contact {
    pub phone_number: String,
    pub first_name: String,
    pub last_name: Option<String>,
    pub user_id: Option<u64>,
    pub vcard: Option<String>,
}

/// An animated emoji that shows a random value.
pub struct Dice {
    pub emoji: String,
    pub value: usize,
}

/// What is known about a poll.
pub struct Poll {
    pub id: String,
    pub question: String,
    pub options: Vec<PollOption>,
    pub total_voter_count: usize,
    pub is_closed: bool,
    pub is_anonymous: bool,
    pub poll_type: String,
    pub allows_multiple_anwsers: bool,
    pub correct_option_id: Option<u64>,
    pub explanation: Option<String>,
    pub explanation_entities: Vec<MessageEntity>,
    pub open_period: Option<usize>,
    pub close_date: Option<usize>,
}

/// One answer option of a poll.
pub struct PollOption {
    pub text: Option<String>,
    pub voter_count: usize,
}

/// A service message about a change of the auto-delete timer.
pub struct MessageAutoDeleteTimerChanged {
    pub message_auto_delete_time: usize,
}

/// The user that was shared with the bot through a request button.
pub struct UserShared {
    pub request_id: u64,
    pub user_id: u64,
}

/// The chat that was shared with the bot through a request button.
pub struct ChatShared {
    pub request_id: u64,
    pub chat_id: u64,
}

/// A service message about a user who allowed the bot to write messages.
pub struct WriteAccessAllowed {
    pub web_app_name: Option<String>,
}

/// A service message sent when one user in a chat triggers the proximity alert of another.
pub struct ProximityAlertTriggered {
    pub traveler: User,
    pub watcher: User,
    pub distance: usize,
}

/// A service message about a new forum topic.
pub struct ForumTopicCreated {
    pub name: String,
    pub icon_color: usize,
    pub icon_custom_emoji_id: Option<String>,
}

/// A service message about an edited forum topic.
pub struct ForumTopicEdited {
    pub name: Option<String>,
    pub icon_custom_emoji_id: Option<String>,
}

/// A service message about a forum topic that was closed.
pub struct ForumTopicClosed {}

/// A service message about a forum topic that was reopened.
pub struct ForumTopicReopened {}

/// A service message about the General forum topic being hidden.
pub struct GeneralForumTopicHidden {}

/// A service message about the General forum topic being shown again.
pub struct GeneralForumTopicUnHidden {}

/// A service message about a video chat that was scheduled.
pub struct VideoChatScheduled {
    pub start_date: u64,
}

/// A service message about a video chat that started.
pub struct VideoChatStarted {}

/// A service message about a video chat that ended.
pub struct VideoChatEnded {
    pub duration: u64,
}

/// A service message about new members invited to a video chat.
pub struct VideoChatParticipantsInvited {
    pub users: Vec<User>,
}

/// Data that a Web App sent to the bot.
pub struct WebAppData {
    pub data: String,
    pub button_text: String,
}

/// An inline keyboard that appears next to the message it belongs to.
pub struct InlineKeyboardMarkup {
    pub inline_keyboard: Vec<Vec<InlineKeyboardButton>>,
}

impl InlineKeyboardMarkup {
    pub fn new(inline_keyboard: Vec<Vec<InlineKeyboardButton>>) -> (markup: Self)
        ensures
            markup.inline_keyboard == inline_keyboard,
    {
        Self { inline_keyboard }
    }
}

impl Default for InlineKeyboardMarkup {
    fn default() -> (markup: Self)
        ensures
            markup.inline_keyboard@.len() == 0,
    {
        Self { inline_keyboard: Vec::new() }
    }
}

/// A custom keyboard with reply options.
pub struct ReplyKeyboardMarkup {}

/// Asks clients to remove the current custom keyboard.
pub struct ReplyKeyboardRemove {}

/// Asks clients to show a reply interface to the user.
pub struct ForceReply {}

/// One button of an inline keyboard.
pub struct InlineKeyboardButton {
    pub text: String,
    pub url: Option<String>,
    pub callback_data: Option<String>,
    pub web_app: Option<WebAppInfo>,
    pub login_url: Option<LoginUrl>,
    pub switch_inline_query: Option<String>,
    pub switch_inline_query_current_chat: Option<String>,
    pub switch_inline_query_chosen_chat: Option<SwitchInlineQueryChosenChat>,
    pub callback_game: Option<CallbackGame>,
    pub pay: Option<bool>,
}

/// Collects the fields of an [`InlineKeyboardButton`].
pub struct InlineKeyboardButtonBuilder {
    text: String,
    url: Option<String>,
    callback_data: Option<String>,
    web_app: Option<WebAppInfo>,
    login_url: Option<LoginUrl>,
    switch_inline_query: Option<String>,
    switch_inline_query_current_chat: Option<String>,
    switch_inline_query_chosen_chat: Option<SwitchInlineQueryChosenChat>,
    callback_game: Option<CallbackGame>,
    pay: Option<bool>,
}

impl InlineKeyboardButtonBuilder {
    /// The value that [`build`](Self::build) hands out at this point.
    pub closed spec fn built(self) -> InlineKeyboardButton {
        InlineKeyboardButton {
            text: self.text,
            url: self.url,
            callback_data: self.callback_data,
            web_app: self.web_app,
            login_url: self.login_url,
            switch_inline_query: self.switch_inline_query,
            switch_inline_query_current_chat: self.switch_inline_query_current_chat,
            switch_inline_query_chosen_chat: self.switch_inline_query_chosen_chat,
            callback_game: self.callback_game,
            pay: self.pay,
        }
    }

    /// Starts with the fields that every [`InlineKeyboardButton`] has; the others are left out.
    pub fn new(text: &str) -> (builder: Self)
        ensures
            builder.built().text@ == text@,
            builder.built().url is None,
            builder.built().callback_data is None,
            builder.built().web_app is None,
            builder.built().login_url is None,
            builder.built().switch_inline_query is None,
            builder.built().switch_inline_query_current_chat is None,
            builder.built().switch_inline_query_chosen_chat is None,
            builder.built().callback_game is None,
            builder.built().pay is None,
    {
        Self {
            text: text.to_owned(),
            url: None,
            callback_data: None,
            web_app: None,
            login_url: None,
            switch_inline_query: None,
            switch_inline_query_current_chat: None,
            switch_inline_query_chosen_chat: None,
            callback_game: None,
            pay: None,
        }
    }

    pub fn url(self, url: &str) -> (builder: Self)
        ensures
            builder.built().url matches Some(set) && set@ == url@,
            builder.built() == (InlineKeyboardButton { url: builder.built().url, ..self.built() }),
    {
        Self { url: Some(url.to_owned()), ..self }
    }

    pub fn callback_data(self, callback_data: &str) -> (builder: Self)
        ensures
            builder.built().callback_data matches Some(set) && set@ == callback_data@,
            builder.built() == (InlineKeyboardButton {
                callback_data: builder.built().callback_data,
                ..self.built()
            }),
    {
        Self { callback_data: Some(callback_data.to_owned()), ..self }
    }

    pub fn web_app(self, web_app: WebAppInfo) -> (builder: Self)
        ensures
            builder.built() == (InlineKeyboardButton { web_app: Some(web_app), ..self.built() }),
    {
        Self { web_app: Some(web_app), ..self }
    }

    pub fn login_url(self, login_url: LoginUrl) -> (builder: Self)
        ensures
            builder.built() == (InlineKeyboardButton {
                login_url: Some(login_url),
                ..self.built()
            }),
    {
        Self { login_url: Some(login_url), ..self }
    }

    pub fn switch_inline_query(self, switch_inline_query: &str) -> (builder: Self)
        ensures
            builder.built().switch_inline_query matches Some(set) && set@ == switch_inline_query@,
            builder.built() == (InlineKeyboardButton {
                switch_inline_query: builder.built().switch_inline_query,
                ..self.built()
            }),
    {
        Self { switch_inline_query: Some(switch_inline_query.to_owned()), ..self }
    }

    pub fn switch_inline_query_current_chat(
        self,
        switch_inline_query_current_chat: &str,
    ) -> (builder: Self)
        ensures
            builder.built().switch_inline_query_current_chat matches Some(set) && set@
                == switch_inline_query_current_chat@,
            builder.built() == (InlineKeyboardButton {
                switch_inline_query_current_chat: builder.built().switch_inline_query_current_chat,
                ..self.built()
            }),
    {
        Self {
            switch_inline_query_current_chat: Some(switch_inline_query_current_chat.to_owned()),
            ..self
        }
    }

    pub fn switch_inline_query_chosen_chat(
        self,
        switch_inline_query_chosen_chat: SwitchInlineQueryChosenChat,
    ) -> (builder: Self)
        ensures
            builder.built() == (InlineKeyboardButton {
                switch_inline_query_chosen_chat: Some(switch_inline_query_chosen_chat),
                ..self.built()
            }),
    {
        Self { switch_inline_query_chosen_chat: Some(switch_inline_query_chosen_chat), ..self }
    }

    pub fn callback_game(self, callback_game: CallbackGame) -> (builder: Self)
        ensures
            builder.built() == (InlineKeyboardButton {
                callback_game: Some(callback_game),
                ..self.built()
            }),
    {
        Self { callback_game: Some(callback_game), ..self }
    }

    pub fn pay(self, pay: bool) -> (builder: Self)
        ensures
            builder.built() == (InlineKeyboardButton { pay: Some(pay), ..self.built() }),
    {
        Self { pay: Some(pay), ..self }
    }

    pub fn build(self) -> (built: InlineKeyboardButton)
        ensures
            built == self.built(),
    {
        InlineKeyboardButton {
            text: self.text,
            url: self.url,
            callback_data: self.callback_data,
            web_app: self.web_app,
            login_url: self.login_url,
            switch_inline_query: self.switch_inline_query,
            switch_inline_query_current_chat: self.switch_inline_query_current_chat,
            switch_inline_query_chosen_chat: self.switch_inline_query_chosen_chat,
            callback_game: self.callback_game,
            pay: self.pay,
        }
    }
}

/// A Web App.
pub struct WebAppInfo {
    pub url: String,
}

/// What a button needs to log a user in automatically.
pub struct LoginUrl {
    pub url: String,
    pub forward_text: Option<String>,
    pub bot_username: Option<String>,
    pub request_write_access: Option<bool>,
}

/// An inline button that switches the user to inline mode in a chat they choose.
pub struct SwitchInlineQueryChosenChat {
    pub query: Option<String>,
    pub allow_user_chats: Option<bool>,
    pub allow_bot_chats: Option<bool>,
    pub allow_group_chats: Option<bool>,
    pub allow_channel_chats: Option<bool>,
}

/// A placeholder for a game button.
pub struct CallbackGame {}

} // verus!
