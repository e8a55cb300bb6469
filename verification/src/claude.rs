//! The messages API of the classifier model: requests and failures.

use crate::text::concat;
use vstd::prelude::*;

verus! {

/// Who wrote a message of a conversation.
#[derive(Clone, Copy, Debug, PartialEq, Eq, Structural)]
pub enum Role {
    User,
    Assistant,
}

impl Role {
    /// The role as the API names it.
    pub fn as_str(&self) -> (out: &'static str)
        ensures
            out@ == match self {
                Role::User => "user"@,
                Role::Assistant => "assistant"@,
            },
    {
        match self {
            Role::User => "user",
            Role::Assistant => "assistant",
        }
    }
}

/// One message of a conversation.
#[derive(Clone, Debug)]
pub struct Message {
    pub role: Role,
    pub content: String,
}

/// The models that the bot calls.
#[derive(Clone, Copy, Debug, PartialEq, Eq, Structural)]
pub enum Model {
    Haiku,
    Sonnet,
}

impl Model {
    /// The name of the model within its family: tier, version and date.
    pub open spec fn id(self) -> Seq<char> {
        match self {
            Model::Haiku => "haiku-4-5-20251001"@,
            Model::Sonnet => "sonnet-4-5-20250929"@,
        }
    }

    /// The name of the model within its family. The API names a model by
    /// the family's name, a hyphen and this name.
    pub fn as_str(&self) -> (out: &'static str)
        ensures
            out@ == self.id(),
    {
        match self {
            Model::Haiku => "haiku-4-5-20251001",
            Model::Sonnet => "sonnet-4-5-20250929",
        }
    }
}

/// Why a call of the API failed.
#[derive(Clone, Debug)]
pub enum Error {
    /// The request did not go through.
    Http(String),
    /// The API answered with a failure status.
    Api(String),
    /// The answer could not be read.
    Parse(String),
    /// The answer held no content.
    Empty,
}

impl Error {
    /// The failure in words.
    pub open spec fn text(self) -> Seq<char> {
        match self {
            Error::Http(e) => "HTTP error: "@ + e@,
            Error::Api(e) => "API error: "@ + e@,
            Error::Parse(e) => "Parse error: "@ + e@,
            Error::Empty => "Empty response"@,
        }
    }

    /// Describes the failure.
    pub fn describe(&self) -> (out: String)
        ensures
            out@ == self.text(),
    {
        match self {
            Error::Http(e) => concat("HTTP error: ", e.as_str()),
            Error::Api(e) => concat("API error: ", e.as_str()),
            Error::Parse(e) => concat("Parse error: ", e.as_str()),
            Error::Empty => "Empty response".to_owned(),
        }
    }
}

/// The answer of the API to a request: the text of its first content block.
pub fn first_text(blocks: Vec<String>) -> (r: Result<String, Error>)
    ensures
        match r {
            Ok(text) => blocks@.len() > 0 && text == blocks@[0],
            Err(e) => blocks@.len() == 0 && e is Empty,
        },
{
    let mut blocks = blocks;
    if blocks.len() == 0 {
        Err(Error::Empty)
    } else {
        Ok(blocks.swap_remove(0))
    }
}

/// The failure that the API reports with a status and a body.
pub fn api_failure(status: &str, body: &str) -> (e: Error)
    ensures
        e matches Error::Api(text) && text@ == status@ + ": "@ + body@,
{
    let mut buf: Vec<char> = Vec::new();
    crate::text::push_str(&mut buf, status);
    crate::text::push_str(&mut buf, ": ");
    crate::text::push_str(&mut buf, body);
    Error::Api(crate::text::string_of(&buf))
}

} // verus!
