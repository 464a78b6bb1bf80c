use vstd::prelude::*;

verus! {

/// A user or a bot.
#[derive(Debug, Clone)]
pub struct User {
    /// Unique identifier of this user or bot.
    pub id: u64,
    /// Whether this user is a bot.
    pub is_bot: bool,
    /// First name of the user or bot.
    pub first_name: String,
    /// Last name of the user or bot.
    pub last_name: Option<String>,
    /// Username of the user or bot.
    pub username: Option<String>,
    /// IETF language tag of the user's language.
    pub language_code: Option<String>,
    /// Whether this user is a premium user.
    pub is_premium: Option<bool>,
    /// Whether this user added the bot to the attachment menu.
    pub added_to_attachment_menu: Option<bool>,
    /// Whether the bot can be invited to groups.
    pub can_join_groups: Option<bool>,
    /// Whether privacy mode is disabled for the bot.
    pub can_read_all_group_messages: Option<bool>,
    /// Whether the bot supports inline queries.
    pub supports_inline_queries: Option<bool>,
}

} // verus!
