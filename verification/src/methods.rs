//! The requests that the API accepts, and what goes into all of them.

pub mod answer_callback_query;
pub mod get_file;
pub mod get_updates;
pub mod media;
pub mod message;
pub mod poll;
pub mod send_media;
pub mod send_media_group;
pub mod send_message;
pub mod send_photo;

use vstd::prelude::*;
use vstd::std_specs::convert::{FromSpecImpl, IntoSpec};
use vstd::string::StringExecFns;
use crate::types::{
    ForceReply, InlineKeyboardButton, InlineKeyboardMarkup, ReplyKeyboardMarkup,
    ReplyKeyboardRemove,
};

verus! {

/// A request that is sent as JSON.
pub trait TgMethod {
    /// The name of the API method that takes the request.
    spec fn name() -> Seq<char>;

    /// The name of the API method that takes the request.
    fn method_name() -> (name: String)
        ensures
            name@ == Self::name(),
    ;
}

/// A request that is sent as JSON, or as a multipart form where it
/// carries a file to upload.
pub trait TgMultipartMethod {
    /// The name of the API method that takes the request.
    spec fn name() -> Seq<char>;

    /// The name of the API method that takes the request.
    fn method_name() -> (name: String)
        ensures
            name@ == Self::name(),
    ;

    /// Whether the request carries a file to upload.
    spec fn uploads(&self) -> bool;

    /// Whether the request carries a file to upload.
    fn is_multipart(&self) -> (multipart: bool)
        ensures
            multipart == self.uploads(),
    ;
}

/// The chat that a request is about: by its identifier, or, for a
/// channel, by its username.
pub enum ChatId {
    Chat(u64),
    Channel(String),
}

/// The interface options that can go with a message.
pub enum ReplyMarkup {
    InlineKeyboardMarkup(InlineKeyboardMarkup),
    ReplyKeyboardMarkup(ReplyKeyboardMarkup),
    ReplyKeyboardRemove(ReplyKeyboardRemove),
    ForceReply(ForceReply),
}

impl ReplyMarkup {
    /// An inline keyboard of the given rows of buttons.
    pub fn inline_keyboard(keyboard: Vec<Vec<InlineKeyboardButton>>) -> (markup: Self)
        ensures
            markup == ReplyMarkup::InlineKeyboardMarkup(
                InlineKeyboardMarkup { inline_keyboard: keyboard },
            ),
    {
        Self::InlineKeyboardMarkup(InlineKeyboardMarkup::new(keyboard))
    }
}

/// A file to send: one to upload, or one that the servers have or can
/// fetch, named by its identifier or its URL.
pub enum SendFile {
    UploadInput(UploadFile),
    FileIdOrUrl(String),
}

/// A file to upload: its name and its bytes.
pub struct UploadFile {
    pub file_name: String,
    pub file_bytes: Vec<u8>,
}

impl UploadFile {
    pub fn new(file_name: &str, file_bytes: Vec<u8>) -> (file: Self)
        ensures
            file.file_name@ == file_name@,
            file.file_bytes == file_bytes,
    {
        Self { file_name: file_name.to_owned(), file_bytes }
    }
}

/// What one part of a multipart form is made from: a text, or the name
/// and the bytes of a file.
pub enum Part {
    Text(String),
    File { file_name: String, bytes: Vec<u8> },
}

/// A part of a multipart form that stands for a file: one that goes
/// under the name of the field it belongs to, or one that brings a name
/// of its own.
pub enum FilePart {
    Simple(Part),
    Complex((String, Part)),
}

impl SendFile {
    /// A file that the servers have or can fetch. The identifier or URL
    /// is what `id` converts into.
    pub fn id_or_url<S>(id: S) -> (file: Self) where S: Into<String>
        ensures
            file is FileIdOrUrl,
            S::obeys_into_spec() ==> file == SendFile::FileIdOrUrl(id.into_spec()),
    {
        Self::FileIdOrUrl(id.into())
    }

    /// A file to upload.
    pub fn upload(file_name: &str, input: Vec<u8>) -> (file: Self)
        ensures
            file matches SendFile::UploadInput(upload) && upload.file_name@ == file_name@
                && upload.file_bytes == input,
    {
        Self::UploadInput(UploadFile { file_name: file_name.to_string(), file_bytes: input })
    }
}

/// The name by which a form refers to a file that it carries in a part
/// of its own.
pub open spec fn attach_name(file_name: Seq<char>) -> Seq<char> {
    "attach://"@ + file_name
}

/// The reference to the attached file of the given name.
pub fn attach_reference(file_name: &str) -> (reference: String)
    ensures
        reference@ == attach_name(file_name@),
{
    "attach://".to_owned().concat(file_name)
}

/// The part that carries a file in a form field of its own: the file
/// itself where it is uploaded, its identifier or URL as text where not.
pub open spec fn field_part(file: SendFile) -> Part {
    match file {
        SendFile::UploadInput(upload) => Part::File {
            file_name: upload.file_name,
            bytes: upload.file_bytes,
        },
        SendFile::FileIdOrUrl(s) => Part::Text(s),
    }
}

/// The part that carries a file in a form field of its own.
impl From<SendFile> for Part {
    fn from(this: SendFile) -> (part: Part) {
        match this {
            SendFile::UploadInput(UploadFile { file_name, file_bytes }) => Part::File {
                file_name,
                bytes: file_bytes,
            },
            SendFile::FileIdOrUrl(s) => Part::Text(s),
        }
    }
}

impl FromSpecImpl<SendFile> for Part {
    open spec fn obeys_from_spec() -> bool {
        true
    }

    open spec fn from_spec(this: SendFile) -> Part {
        field_part(this)
    }
}

/// How a file goes into a multipart form: in the part of its own field,
/// or, as an attachment, in a part of its own that the field refers to.
#[derive(Debug, Clone, Copy, PartialEq, Eq, Structural)]
pub enum MultipartType {
    Normal,
    Attach,
}

/// Whether `parts`, each with the name it goes under, are the parts
/// that carry `file` for the field `field` in the given way.
pub open spec fn carries_field(
    field: Seq<char>,
    file: SendFile,
    how: MultipartType,
    parts: Seq<(String, Part)>,
) -> bool {
    match (how, file) {
        (MultipartType::Attach, SendFile::UploadInput(upload)) => {
            &&& parts.len() == 2
            &&& parts[0].0@ == field
            &&& parts[0].1 matches Part::Text(reference)
            &&& reference@ == attach_name(upload.file_name@)
            &&& parts[1].0@ == upload.file_name@
            &&& parts[1].1 matches Part::File { file_name, bytes }
            &&& file_name@ == upload.file_name@
            &&& bytes == upload.file_bytes
        },
        _ => {
            &&& parts.len() == 1
            &&& parts[0].0@ == field
            &&& parts[0].1 == field_part(file)
        },
    }
}

/// The parts of a form, each with the name it goes under, that carry
/// `file` for the field `field` in the given way.
pub fn form_parts(field: &str, file: SendFile, how: MultipartType) -> (parts: Vec<(String, Part)>)
    ensures
        carries_field(field@, file, how, parts@),
{
    let mut parts: Vec<(String, Part)> = Vec::new();
    match how {
        MultipartType::Normal => {
            parts.push((field.to_owned(), Part::from(file)));
        },
        MultipartType::Attach => {
            let mut attached: Vec<FilePart> = Vec::from(file);
            let second = attached.pop();
            let first = attached.pop();
            match (first, second) {
                (Some(FilePart::Simple(part)), Some(FilePart::Complex((name, content)))) => {
                    parts.push((field.to_owned(), part));
                    parts.push((name, content));
                },
                (None, Some(FilePart::Simple(part))) => {
                    parts.push((field.to_owned(), part));
                },
                _ => {
                    assert(false);
                },
            }
        },
    }
    parts
}

/// Whether `parts` are the parts that carry `file` as an attachment: for
/// a file to upload, a text that refers to the attachment by name, and
/// the file under that name; for any other, its identifier or URL as
/// text.
pub open spec fn attaches(file: SendFile, parts: Seq<FilePart>) -> bool {
    match file {
        SendFile::UploadInput(upload) => {
            &&& parts.len() == 2
            &&& parts[0] matches FilePart::Simple(Part::Text(reference))
            &&& reference@ == attach_name(upload.file_name@)
            &&& parts[1] matches FilePart::Complex((name, Part::File { file_name, bytes }))
            &&& name@ == upload.file_name@
            &&& file_name@ == upload.file_name@
            &&& bytes == upload.file_bytes
        },
        SendFile::FileIdOrUrl(s) => parts == seq![FilePart::Simple(Part::Text(s))],
    }
}

/// The parts that carry a file as an attachment.
impl From<SendFile> for Vec<FilePart> {
    fn from(this: SendFile) -> (parts: Vec<FilePart>)
        ensures
            attaches(this, parts@),
    {
        let mut res = Vec::new();
        match this {
            SendFile::UploadInput(UploadFile { file_name, file_bytes }) => {
                res.push(FilePart::Simple(Part::Text(attach_reference(file_name.as_str()))));
                res.push(
                    FilePart::Complex(
                        (file_name.clone(), Part::File { file_name, bytes: file_bytes }),
                    ),
                );
            },
            SendFile::FileIdOrUrl(s) => {
                res.push(FilePart::Simple(Part::Text(s)));
                assert(res@ =~= seq![FilePart::Simple(Part::Text(s))]);
            },
        }
        res
    }
}

impl FromSpecImpl<SendFile> for Vec<FilePart> {
    open spec fn obeys_from_spec() -> bool {
        false
    }

    open spec fn from_spec(this: SendFile) -> Vec<FilePart> {
        arbitrary()
    }
}

} // verus!
