//! Games.

use vstd::prelude::*;
use crate::types::message::MessageEntity;
use crate::types::{Animation, PhotoSize};

verus! {

/// A game.
pub struct Game {
    pub title: String,
    pub description: String,
    pub photo: Vec<PhotoSize>,
    pub text: Option<String>,
    pub text_entites: Vec<MessageEntity>,
    pub animation: Option<Animation>,
}

} // verus!
