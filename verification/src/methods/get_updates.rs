//! Long polling for updates.

use vstd::prelude::*;
use crate::methods::TgMethod;

verus! {

/// Asks for incoming updates by long polling.
pub struct GetUpdates {
    pub offset: Option<u64>,
    pub limit: Option<u8>,
    pub timeout: Option<u16>,
    pub allowed_updates: Option<Vec<String>>,
}

impl Default for GetUpdates {
    fn default() -> (request: Self)
        ensures
            request.offset is None,
            request.limit is None,
            request.timeout is None,
            request.allowed_updates is None,
    {
        Self { offset: None, limit: None, timeout: None, allowed_updates: None }
    }
}

/// Collects the fields of a [`GetUpdates`].
pub struct GetUpdatesBuilder {
    offset: Option<u64>,
    limit: Option<u8>,
    timeout: Option<u16>,
    allowed_updates: Option<Vec<String>>,
}

impl GetUpdatesBuilder {
    /// The value that [`build`](Self::build) hands out at this point.
    pub closed spec fn built(self) -> GetUpdates {
        GetUpdates {
            offset: self.offset,
            limit: self.limit,
            timeout: self.timeout,
            allowed_updates: self.allowed_updates,
        }
    }

    /// Starts with every field left out.
    pub fn new() -> (builder: Self)
        ensures
            builder.built().offset is None,
            builder.built().limit is None,
            builder.built().timeout is None,
            builder.built().allowed_updates is None,
    {
        Self {
            offset: None,
            limit: None,
            timeout: None,
            allowed_updates: None,
        }
    }

    pub fn offset(self, offset: u64) -> (builder: Self)
        ensures
            builder.built() == (GetUpdates { offset: Some(offset), ..self.built() }),
    {
        Self { offset: Some(offset), ..self }
    }

    pub fn limit(self, limit: u8) -> (builder: Self)
        ensures
            builder.built() == (GetUpdates { limit: Some(limit), ..self.built() }),
    {
        Self { limit: Some(limit), ..self }
    }

    pub fn timeout(self, timeout: u16) -> (builder: Self)
        ensures
            builder.built() == (GetUpdates { timeout: Some(timeout), ..self.built() }),
    {
        Self { timeout: Some(timeout), ..self }
    }

    pub fn allowed_updates(self, allowed_updates: Vec<String>) -> (builder: Self)
        ensures
            builder.built() == (GetUpdates {
                allowed_updates: Some(allowed_updates),
                ..self.built()
            }),
    {
        Self { allowed_updates: Some(allowed_updates), ..self }
    }

    pub fn build(self) -> (built: GetUpdates)
        ensures
            built == self.built(),
    {
        GetUpdates {
            offset: self.offset,
            limit: self.limit,
            timeout: self.timeout,
            allowed_updates: self.allowed_updates,
        }
    }
}

impl TgMethod for GetUpdates {
    open spec fn name() -> Seq<char> {
        "getUpdates"@
    }

    fn method_name() -> (name: String) {
        "getUpdates".to_owned()
    }
}

} // verus!
