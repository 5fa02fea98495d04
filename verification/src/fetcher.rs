//! What becomes of a fetched payload: the name it is stored under and the
//! bytes that are written.

use vstd::prelude::*;
use vstd::string::StrSliceExecFns;
use vstd::utf8::decode_utf8;
use vstd::utf8::encode_utf8;
use vstd::utf8::encode_utf8_decode_utf8;
use vstd::utf8::encode_utf8_valid_utf8;
use vstd::utf8::valid_utf8;
use crate::failure::Failure;
use crate::web_url::parse_url;
use crate::web_url::path_segments_of;
use crate::web_url::texts;
use crate::web_url::url_parse;
use crate::web_url::url_path_segments;

verus! {

/// How a fetched payload is to be read.
#[derive(Clone, Copy, Debug, PartialEq, Eq, Structural)]
pub enum FetchMode {
    /// The payload is decoded into text.
    Text,
    /// The payload is taken as raw bytes.
    Binary,
}

/// The body of a response, read in one of the two modes.
#[derive(Clone, Debug, PartialEq, Eq)]
pub enum Payload {
    /// The body, decoded into text.
    Text(String),
    /// The body as it came.
    Binary(Vec<u8>),
}

impl Payload {
    /// The mode in which the body was read.
    pub open spec fn mode(self) -> FetchMode {
        match self {
            Payload::Text(_) => FetchMode::Text,
            Payload::Binary(_) => FetchMode::Binary,
        }
    }

    /// The bytes that storing the payload writes: a binary body as it is, a
    /// text in its UTF-8 encoding.
    pub open spec fn bytes(self) -> Seq<u8> {
        match self {
            Payload::Text(text) => encode_utf8(text@),
            Payload::Binary(body) => body@,
        }
    }

    /// The mode in which the body was read.
    pub fn kind(&self) -> (mode: FetchMode)
        ensures
            mode == self.mode(),
    {
        match self {
            Payload::Text(_) => FetchMode::Text,
            Payload::Binary(_) => FetchMode::Binary,
        }
    }

    /// The bytes to write for this payload.
    pub fn into_bytes(self) -> (bytes: Vec<u8>)
        ensures
            bytes@ == self.bytes(),
    {
        match self {
            Payload::Text(text) => text.as_str().as_bytes_vec(),
            Payload::Binary(body) => body,
        }
    }
}

/// The name given to a file when the address it came from offers none.
pub open spec fn placeholder_name() -> Seq<char> {
    "tmp.bin"@
}

/// The file name that a list of path segments gives: the last segment, unless
/// there is none or it is empty.
pub open spec fn name_from_segments(segments: Option<Seq<Seq<char>>>) -> Seq<char> {
    match segments {
        Some(list) => if list.len() > 0 && list.last().len() > 0 {
            list.last()
        } else {
            placeholder_name()
        },
        None => placeholder_name(),
    }
}

/// The file name for what was fetched from `url`, the address that finally
/// answered: the last segment of its path, or the placeholder where the text
/// is no address, the address has no path segments, or the last one is empty.
pub open spec fn file_name_of(url: Seq<char>) -> Seq<char> {
    if url_parse(url) is Ok {
        name_from_segments(url_path_segments(url))
    } else {
        placeholder_name()
    }
}

/// Picks the file name from the path segments of an address.
pub fn choose_file_name(segments: Option<&Vec<String>>) -> (name: String)
    ensures
        name@ == name_from_segments(
            match segments {
                Some(list) => Some(texts(list@)),
                None => None,
            },
        ),
{
    match segments {
        Some(list) => {
            if list.len() > 0 && !list[list.len() - 1].as_str().is_empty() {
                list[list.len() - 1].clone()
            } else {
                "tmp.bin".to_owned()
            }
        },
        None => "tmp.bin".to_owned(),
    }
}

/// The file name for what was fetched from `url`.
pub fn file_name_for(url: &str) -> (name: String)
    ensures
        name@ == file_name_of(url@),
{
    match parse_url(url) {
        Ok(_) => {
            let segments = path_segments_of(url);
            choose_file_name(segments.as_ref())
        },
        Err(_) => "tmp.bin".to_owned(),
    }
}

/// A file to be written into the working directory.
#[derive(Clone, Debug, PartialEq, Eq)]
pub struct StoreOrder {
    /// The name of the file, without any directory.
    pub file_name: String,
    /// What the file is to hold.
    pub bytes: Vec<u8>,
}

/// The fetching side of a conversion: the working directory that fetched
/// files are collected in, and the mode in which the next payload is read.
#[derive(Clone, Debug, PartialEq, Eq)]
pub struct Downloader {
    /// The working directory.
    pub path: String,
    /// The mode of the next fetch.
    pub file_type: FetchMode,
}

impl Downloader {
    /// A downloader that collects into `path` and reads in mode `file_type`.
    pub fn new(path: String, file_type: FetchMode) -> (downloader: Downloader)
        ensures
            downloader.path == path,
            downloader.file_type == file_type,
    {
        Downloader { path, file_type }
    }

    /// Decides how a response is stored: under the file name that the
    /// answering address gives, holding the payload's bytes unchanged.
    ///
    /// A payload that was read in another mode than the downloader's is
    /// refused.
    pub fn place(&self, final_url: &str, payload: Payload) -> (outcome: Result<StoreOrder, Failure>)
        ensures
            match outcome {
                Ok(order) => {
                    &&& payload.mode() == self.file_type
                    &&& order.file_name@ == file_name_of(final_url@)
                    &&& order.bytes@ == payload.bytes()
                },
                Err(failure) => payload.mode() != self.file_type && failure
                    == Failure::UnexpectedEvent,
            },
            outcome is Ok && payload is Binary ==> outcome->Ok_0.bytes@ == payload->Binary_0@,
            outcome is Ok && payload is Text ==> valid_utf8(outcome->Ok_0.bytes@) && decode_utf8(
                outcome->Ok_0.bytes@,
            ) == payload->Text_0@,
    {
        let same = match (payload.kind(), self.file_type) {
            (FetchMode::Text, FetchMode::Text) => true,
            (FetchMode::Binary, FetchMode::Binary) => true,
            _ => false,
        };
        if !same {
            return Err(Failure::UnexpectedEvent);
        }
        proof {
            lemma_stored_text_reads_back(payload);
        }
        let file_name = file_name_for(final_url);
        Ok(StoreOrder { file_name, bytes: payload.into_bytes() })
    }
}

/// The bytes written for a binary payload are the body itself.
pub proof fn lemma_stored_bytes_are_the_body(payload: Payload)
    requires
        payload is Binary,
    ensures
        payload.bytes() == payload->Binary_0@,
{
}

/// The bytes written for a text are valid UTF-8 and decode to that text.
pub proof fn lemma_stored_text_reads_back(payload: Payload)
    ensures
        payload matches Payload::Text(text) ==> valid_utf8(payload.bytes()) && decode_utf8(
            payload.bytes(),
        ) == text@,
{
    if let Payload::Text(text) = payload {
        encode_utf8_valid_utf8(text@);
        encode_utf8_decode_utf8(text@);
    }
}

} // verus!
