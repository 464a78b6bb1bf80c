//! Sending polls.

use vstd::prelude::*;
use crate::methods::{ChatId, ReplyMarkup, TgMethod};
use crate::types::message::MessageEntity;

verus! {

/// Sends a native poll.
pub struct SendPoll {
    pub chat_id: ChatId,
    pub message_thread_id: Option<u64>,
    pub question: String,
    pub options: Vec<String>,
    pub is_anonymous: Option<bool>,
    pub poll_type: Option<PollType>,
    pub allows_multiple_answers: Option<bool>,
    pub correct_option_id: Option<u64>,
    pub explanation: Option<String>,
    pub explanation_parse_mode: Option<String>,
    pub explanation_entities: Option<Vec<MessageEntity>>,
    pub open_period: Option<u16>,
    pub close_date: Option<u64>,
    pub is_closed: Option<bool>,
    pub disable_notification: Option<bool>,
    pub protect_content: Option<bool>,
    pub reply_to_message_id: Option<u64>,
    pub allow_sendign_without_reply: Option<bool>,
    pub reply_markup: Option<ReplyMarkup>,
}

/// Collects the fields of a [`SendPoll`].
pub struct SendPollBuilder {
    chat_id: ChatId,
    message_thread_id: Option<u64>,
    question: String,
    options: Vec<String>,
    is_anonymous: Option<bool>,
    poll_type: Option<PollType>,
    allows_multiple_answers: Option<bool>,
    correct_option_id: Option<u64>,
    explanation: Option<String>,
    explanation_parse_mode: Option<String>,
    explanation_entities: Option<Vec<MessageEntity>>,
    open_period: Option<u16>,
    close_date: Option<u64>,
    is_closed: Option<bool>,
    disable_notification: Option<bool>,
    protect_content: Option<bool>,
    reply_to_message_id: Option<u64>,
    allow_sendign_without_reply: Option<bool>,
    reply_markup: Option<ReplyMarkup>,
}

impl SendPollBuilder {
    /// The value that [`build`](Self::build) hands out at this point.
    pub closed spec fn built(self) -> SendPoll {
        SendPoll {
            chat_id: self.chat_id,
            message_thread_id: self.message_thread_id,
            question: self.question,
            options: self.options,
            is_anonymous: self.is_anonymous,
            poll_type: self.poll_type,
            allows_multiple_answers: self.allows_multiple_answers,
            correct_option_id: self.correct_option_id,
            explanation: self.explanation,
            explanation_parse_mode: self.explanation_parse_mode,
            explanation_entities: self.explanation_entities,
            open_period: self.open_period,
            close_date: self.close_date,
            is_closed: self.is_closed,
            disable_notification: self.disable_notification,
            protect_content: self.protect_content,
            reply_to_message_id: self.reply_to_message_id,
            allow_sendign_without_reply: self.allow_sendign_without_reply,
            reply_markup: self.reply_markup,
        }
    }

    /// Starts with the fields that every [`SendPoll`] has; the others are left out.
    pub fn new(chat_id: ChatId, question: &str, options: Vec<String>) -> (builder: Self)
        ensures
            builder.built().chat_id == chat_id,
            builder.built().message_thread_id is None,
            builder.built().question@ == question@,
            builder.built().options == options,
            builder.built().is_anonymous is None,
            builder.built().poll_type is None,
            builder.built().allows_multiple_answers is None,
            builder.built().correct_option_id is None,
            builder.built().explanation is None,
            builder.built().explanation_parse_mode is None,
            builder.built().explanation_entities is None,
            builder.built().open_period is None,
            builder.built().close_date is None,
            builder.built().is_closed is None,
            builder.built().disable_notification is None,
            builder.built().protect_content is None,
            builder.built().reply_to_message_id is None,
            builder.built().allow_sendign_without_reply is None,
            builder.built().reply_markup is None,
    {
        Self {
            chat_id,
            message_thread_id: None,
            question: question.to_owned(),
            options,
            is_anonymous: None,
            poll_type: None,
            allows_multiple_answers: None,
            correct_option_id: None,
            explanation: None,
            explanation_parse_mode: None,
            explanation_entities: None,
            open_period: None,
            close_date: None,
            is_closed: None,
            disable_notification: None,
            protect_content: None,
            reply_to_message_id: None,
            allow_sendign_without_reply: None,
            reply_markup: None,
        }
    }

    pub fn message_thread_id(self, message_thread_id: u64) -> (builder: Self)
        ensures
            builder.built() == (SendPoll {
                message_thread_id: Some(message_thread_id),
                ..self.built()
            }),
    {
        Self { message_thread_id: Some(message_thread_id), ..self }
    }

    pub fn is_anonymous(self, is_anonymous: bool) -> (builder: Self)
        ensures
            builder.built() == (SendPoll { is_anonymous: Some(is_anonymous), ..self.built() }),
    {
        Self { is_anonymous: Some(is_anonymous), ..self }
    }

    pub fn poll_type(self, poll_type: PollType) -> (builder: Self)
        ensures
            builder.built() == (SendPoll { poll_type: Some(poll_type), ..self.built() }),
    {
        Self { poll_type: Some(poll_type), ..self }
    }

    pub fn allows_multiple_answers(self, allows_multiple_answers: bool) -> (builder: Self)
        ensures
            builder.built() == (SendPoll {
                allows_multiple_answers: Some(allows_multiple_answers),
                ..self.built()
            }),
    {
        Self { allows_multiple_answers: Some(allows_multiple_answers), ..self }
    }

    pub fn correct_option_id(self, correct_option_id: u64) -> (builder: Self)
        ensures
            builder.built() == (SendPoll {
                correct_option_id: Some(correct_option_id),
                ..self.built()
            }),
    {
        Self { correct_option_id: Some(correct_option_id), ..self }
    }

    pub fn explanation(self, explanation: &str) -> (builder: Self)
        ensures
            builder.built().explanation matches Some(set) && set@ == explanation@,
            builder.built() == (SendPoll {
                explanation: builder.built().explanation,
                ..self.built()
            }),
    {
        Self { explanation: Some(explanation.to_owned()), ..self }
    }

    pub fn explanation_parse_mode(self, explanation_parse_mode: &str) -> (builder: Self)
        ensures
            builder.built().explanation_parse_mode matches Some(set) && set@
                == explanation_parse_mode@,
            builder.built() == (SendPoll {
                explanation_parse_mode: builder.built().explanation_parse_mode,
                ..self.built()
            }),
    {
        Self { explanation_parse_mode: Some(explanation_parse_mode.to_owned()), ..self }
    }

    pub fn explanation_entities(self, explanation_entities: Vec<MessageEntity>) -> (builder: Self)
        ensures
            builder.built() == (SendPoll {
                explanation_entities: Some(explanation_entities),
                ..self.built()
            }),
    {
        Self { explanation_entities: Some(explanation_entities), ..self }
    }

    pub fn open_period(self, open_period: u16) -> (builder: Self)
        ensures
            builder.built() == (SendPoll { open_period: Some(open_period), ..self.built() }),
    {
        Self { open_period: Some(open_period), ..self }
    }

    pub fn close_date(self, close_date: u64) -> (builder: Self)
        ensures
            builder.built() == (SendPoll { close_date: Some(close_date), ..self.built() }),
    {
        Self { close_date: Some(close_date), ..self }
    }

    pub fn is_closed(self, is_closed: bool) -> (builder: Self)
        ensures
            builder.built() == (SendPoll { is_closed: Some(is_closed), ..self.built() }),
    {
        Self { is_closed: Some(is_closed), ..self }
    }

    pub fn disable_notification(self, disable_notification: bool) -> (builder: Self)
        ensures
            builder.built() == (SendPoll {
                disable_notification: Some(disable_notification),
                ..self.built()
            }),
    {
        Self { disable_notification: Some(disable_notification), ..self }
    }

    pub fn protect_content(self, protect_content: bool) -> (builder: Self)
        ensures
            builder.built() == (SendPoll {
                protect_content: Some(protect_content),
                ..self.built()
            }),
    {
        Self { protect_content: Some(protect_content), ..self }
    }

    pub fn reply_to_message_id(self, reply_to_message_id: u64) -> (builder: Self)
        ensures
            builder.built() == (SendPoll {
                reply_to_message_id: Some(reply_to_message_id),
                ..self.built()
            }),
    {
        Self { reply_to_message_id: Some(reply_to_message_id), ..self }
    }

    pub fn allow_sendign_without_reply(self, allow_sendign_without_reply: bool) -> (builder: Self)
        ensures
            builder.built() == (SendPoll {
                allow_sendign_without_reply: Some(allow_sendign_without_reply),
                ..self.built()
            }),
    {
        Self { allow_sendign_without_reply: Some(allow_sendign_without_reply), ..self }
    }

    pub fn reply_markup(self, reply_markup: ReplyMarkup) -> (builder: Self)
        ensures
            builder.built() == (SendPoll { reply_markup: Some(reply_markup), ..self.built() }),
    {
        Self { reply_markup: Some(reply_markup), ..self }
    }

    pub fn build(self) -> (built: SendPoll)
        ensures
            built == self.built(),
    {
        SendPoll {
            chat_id: self.chat_id,
            message_thread_id: self.message_thread_id,
            question: self.question,
            options: self.options,
            is_anonymous: self.is_anonymous,
            poll_type: self.poll_type,
            allows_multiple_answers: self.allows_multiple_answers,
            correct_option_id: self.correct_option_id,
            explanation: self.explanation,
            explanation_parse_mode: self.explanation_parse_mode,
            explanation_entities: self.explanation_entities,
            open_period: self.open_period,
            close_date: self.close_date,
            is_closed: self.is_closed,
            disable_notification: self.disable_notification,
            protect_content: self.protect_content,
            reply_to_message_id: self.reply_to_message_id,
            allow_sendign_without_reply: self.allow_sendign_without_reply,
            reply_markup: self.reply_markup,
        }
    }
}

impl TgMethod for SendPoll {
    open spec fn name() -> Seq<char> {
        "sendPoll"@
    }

    fn method_name() -> (name: String) {
        "sendPoll".to_owned()
    }
}

/// The kinds of poll.
pub enum PollType {
    Quiz,
    Regular,
}

} // verus!
