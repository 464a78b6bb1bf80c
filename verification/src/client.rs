//! What a client of the API decides without talking to the network: the
//! addresses it asks, and what it makes of the answers.

use vstd::prelude::*;
use vstd::string::StringExecFns;
use crate::types::File;

verus! {

/// Why a request failed.
#[derive(Debug)]
pub enum Error {
    Request(String),
    Response(String),
    Io(String),
}

impl Error {
    /// What the error says.
    pub open spec fn message(self) -> Seq<char> {
        match self {
            Error::Request(reason) => "Request error: "@ + reason@,
            Error::Response(reason) => "Response error: "@ + reason@,
            Error::Io(reason) => "I/O error: "@ + reason@,
        }
    }

    /// What the error says.
    pub fn to_string(&self) -> (message: String)
        ensures
            message@ == self.message(),
    {
        match self {
            Error::Request(reason) => "Request error: ".to_owned().concat(reason.as_str()),
            Error::Response(reason) => "Response error: ".to_owned().concat(reason.as_str()),
            Error::Io(reason) => "I/O error: ".to_owned().concat(reason.as_str()),
        }
    }
}

/// What the API answers: a result, or an error.
pub enum TgResponse<T> {
    Success(OkResponse<T>),
    Failure(ErrResponse),
}

/// The answer to a request that succeeded.
pub struct OkResponse<T> {
    pub ok: bool,
    pub result: T,
}

/// The answer to a request that failed.
pub struct ErrResponse {
    pub ok: bool,
    pub error_code: u16,
    pub description: String,
}

/// The decimal digit for `d`, which is below ten.
pub open spec fn digit(d: nat) -> char {
    if d == 0 {
        '0'
    } else if d == 1 {
        '1'
    } else if d == 2 {
        '2'
    } else if d == 3 {
        '3'
    } else if d == 4 {
        '4'
    } else if d == 5 {
        '5'
    } else if d == 6 {
        '6'
    } else if d == 7 {
        '7'
    } else if d == 8 {
        '8'
    } else {
        '9'
    }
}

/// The number in decimal digits, without leading zeros.
pub open spec fn decimal(n: nat) -> Seq<char>
    decreases n,
{
    if n < 10 {
        seq![digit(n)]
    } else {
        decimal(n / 10).push(digit(n % 10))
    }
}

fn digit_text(d: u16) -> (text: &'static str)
    requires
        d < 10,
    ensures
        text@ == seq![digit(d as nat)],
{
    proof {
        reveal_strlit("0");
        reveal_strlit("1");
        reveal_strlit("2");
        reveal_strlit("3");
        reveal_strlit("4");
        reveal_strlit("5");
        reveal_strlit("6");
        reveal_strlit("7");
        reveal_strlit("8");
        reveal_strlit("9");
    }
    let text = if d == 0 {
        "0"
    } else if d == 1 {
        "1"
    } else if d == 2 {
        "2"
    } else if d == 3 {
        "3"
    } else if d == 4 {
        "4"
    } else if d == 5 {
        "5"
    } else if d == 6 {
        "6"
    } else if d == 7 {
        "7"
    } else if d == 8 {
        "8"
    } else {
        "9"
    };
    assert(text@ =~= seq![digit(d as nat)]);
    text
}

/// The number in decimal digits.
pub fn decimal_text(n: u16) -> (text: String)
    ensures
        text@ == decimal(n as nat),
    decreases n,
{
    if n < 10 {
        digit_text(n).to_owned()
    } else {
        let head = decimal_text(n / 10);
        let text = head.concat(digit_text(n % 10));
        assert(text@ =~= decimal(n as nat));
        text
    }
}

/// What is reported of a request that the API refused: the HTTP status,
/// the error code and the description that came with it.
pub open spec fn refusal(status: Seq<char>, error_code: u16, description: Seq<char>) -> Seq<char> {
    "status: "@ + status + ": "@ + decimal(error_code as nat) + " "@ + description
}

impl ErrResponse {
    /// The error that stands for this answer, which came with the given
    /// HTTP status.
    pub fn into_error(self, status: &str) -> (error: Error)
        ensures
            error matches Error::Response(reason) && reason@ == refusal(
                status@,
                self.error_code,
                self.description@,
            ),
    {
        let reason = "status: ".to_owned().concat(status).concat(": ").concat(
            decimal_text(self.error_code).as_str(),
        ).concat(" ").concat(self.description.as_str());
        Error::Response(reason)
    }
}

impl<T> TgResponse<T> {
    /// The result that the answer holds, or the error that stands for
    /// the answer, which came with the given HTTP status.
    pub fn into_result(self, status: &str) -> (result: Result<T, Error>)
        ensures
            match self {
                TgResponse::Success(answer) => result == Ok::<T, Error>(answer.result),
                TgResponse::Failure(answer) => result matches Err(Error::Response(reason))
                    && reason@ == refusal(status@, answer.error_code, answer.description@),
            },
    {
        match self {
            TgResponse::Success(answer) => Ok(answer.result),
            TgResponse::Failure(answer) => Err(answer.into_error(status)),
        }
    }
}

/// The address under which the methods of the API are reached with the
/// given token.
pub open spec fn api_address(bot_token: Seq<char>) -> Seq<char> {
    "https://api.telegram.org/bot"@ + bot_token
}

/// The address from which a file is downloaded with the given token.
pub open spec fn file_address(bot_token: Seq<char>, file_path: Seq<char>) -> Seq<char> {
    "https://api.telegram.org/file/bot"@ + bot_token + "/"@ + file_path
}

/// The address under which the methods of the API are reached with the
/// given token.
pub fn api_url(bot_token: &str) -> (url: String)
    ensures
        url@ == api_address(bot_token@),
{
    "https://api.telegram.org/bot".to_owned().concat(bot_token)
}

/// The address of one method of the API.
pub fn method_url(api_url: &str, method_name: &str) -> (url: String)
    ensures
        url@ == api_url@ + "/"@ + method_name@,
{
    api_url.to_owned().concat("/").concat(method_name)
}

/// The address from which the file is downloaded, if the servers have
/// prepared it for that.
pub fn download_url(bot_token: &str, file: &File) -> (url: Option<String>)
    ensures
        match file.file_path {
            None => url is None,
            Some(file_path) => url matches Some(url) && url@ == file_address(
                bot_token@,
                file_path@,
            ),
        },
{
    match &file.file_path {
        None => None,
        Some(file_path) => Some(
            "https://api.telegram.org/file/bot".to_owned().concat(bot_token).concat("/").concat(
                file_path.as_str(),
            ),
        ),
    }
}

/// What a download gives: the bytes that came where the HTTP status
/// stands for success, else an error that shows the status.
pub fn downloaded(success: bool, status: &str, bytes: Vec<u8>) -> (result: Result<
    Option<Vec<u8>>,
    Error,
>)
    ensures
        success ==> result == Ok::<Option<Vec<u8>>, Error>(Some(bytes)),
        !success ==> (result matches Err(Error::Response(reason)) && reason@
            == "download file error: "@ + status@),
{
    if !success {
        return Err(Error::Response("download file error: ".to_owned().concat(status)));
    }
    Ok(Some(bytes))
}

} // verus!
