//! Preparing a file for download.

use vstd::prelude::*;
use crate::methods::TgMethod;

verus! {

/// Asks for the basic facts about a file, to prepare it for downloading.
pub struct GetFile {
    pub file_id: String,
}

impl GetFile {
    pub fn new(file_id: &str) -> (request: Self)
        ensures
            request.file_id@ == file_id@,
    {
        Self { file_id: file_id.to_owned() }
    }
}

impl TgMethod for GetFile {
    open spec fn name() -> Seq<char> {
        "getFile"@
    }

    fn method_name() -> (name: String) {
        "getFile".to_owned()
    }
}

} // verus!
