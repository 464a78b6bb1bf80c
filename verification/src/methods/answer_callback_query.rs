use vstd::prelude::*;

verus! {

/// Collects the fields of an [`AnswerCallbackQuery`].
pub struct AnswerCallbackQueryBuilder {
    callback_query_id: String,
    text: Option<String>,
    show_alert: Option<bool>,
    url: Option<String>,
    cache_time: Option<u64>,
}

impl AnswerCallbackQueryBuilder {
    /// The request that [`build`](Self::build) hands out at this point.
    pub closed spec fn built(self) -> AnswerCallbackQuery {
        AnswerCallbackQuery {
            callback_query_id: self.callback_query_id,
            text: self.text,
            show_alert: self.show_alert,
            url: self.url,
            cache_time: self.cache_time,
        }
    }

    pub fn new(callback_query_id: &str) -> (builder: Self)
        ensures
            builder.built().callback_query_id@ == callback_query_id@,
            builder.built().text is None,
            builder.built().show_alert is None,
            builder.built().url is None,
            builder.built().cache_time is None,
    {
        Self {
            callback_query_id: callback_query_id.to_owned(),
            text: None,
            show_alert: None,
            url: None,
            cache_time: None,
        }
    }

    pub fn text(self, text: &str) -> (builder: Self)
        ensures
            builder.built().text matches Some(set) && set@ == text@,
            builder.built() == (AnswerCallbackQuery { text: builder.built().text, ..self.built() }),
    {
        Self { text: Some(text.to_owned()), ..self }
    }

    pub fn show_alert(self, show_alert: bool) -> (builder: Self)
        ensures
            builder.built() == (AnswerCallbackQuery {
                show_alert: Some(show_alert),
                ..self.built()
            }),
    {
        Self { show_alert: Some(show_alert), ..self }
    }

    pub fn url(self, url: &str) -> (builder: Self)
        ensures
            builder.built().url matches Some(set) && set@ == url@,
            builder.built() == (AnswerCallbackQuery { url: builder.built().url, ..self.built() }),
    {
        Self { url: Some(url.to_owned()), ..self }
    }

    pub fn cache_time(self, cache_time: u64) -> (builder: Self)
        ensures
            builder.built() == (AnswerCallbackQuery {
                cache_time: Some(cache_time),
                ..self.built()
            }),
    {
        Self { cache_time: Some(cache_time), ..self }
    }

    pub fn build(self) -> (request: AnswerCallbackQuery)
        ensures
            request == self.built(),
    {
        AnswerCallbackQuery {
            callback_query_id: self.callback_query_id,
            text: self.text,
            show_alert: self.show_alert,
            url: self.url,
            cache_time: self.cache_time,
        }
    }
}

/// Answers a callback query sent from an inline keyboard.
#[derive(Debug)]
pub struct AnswerCallbackQuery {
    pub callback_query_id: String,
    pub text: Option<String>,
    pub show_alert: Option<bool>,
    pub url: Option<String>,
    pub cache_time: Option<u64>,
}

} // verus!
