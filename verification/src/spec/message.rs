//! Messages and what describes them.
use crate::spec::common::{Either, ExternalDocumentation, RefOr, Tag};
use crate::spec::name_map::NameMap;
use schemars::schema::Schema;
use vstd::prelude::*;

verus! {

/// The messages of a channel or of the components, by name.
pub type Messages = NameMap<RefOr<Message>>;

/// A schema in the document's own format, or one in a named format.
pub type AnySchema = Either<Schema, MultiFormatSchema>;

/// A message that a channel carries.
#[derive(Clone, Debug, PartialEq)]
pub struct Message {
    /// The schema of the application headers: a map of keys to values,
    /// without the headers of the protocol.
    pub headers: Option<RefOr<AnySchema>>,
    /// The schema of the payload.
    pub payload: Option<RefOr<AnySchema>>,
    /// The identifier by which messages are traced or matched.
    pub correlation_id: Option<RefOr<CorrelationId>>,
    /// The media type of the payload, such as `application/json`. Without
    /// it the document's default content type holds.
    pub content_type: Option<String>,
    /// A name for machines.
    pub name: Option<String>,
    /// A title for people.
    pub title: Option<String>,
    /// A short summary of what the message is about.
    pub summary: Option<String>,
    /// A longer explanation of the message. CommonMark may be used.
    pub description: Option<String>,
    /// Tags for grouping messages.
    pub tags: Vec<Tag>,
    /// Further documentation of the message.
    pub external_docs: Option<RefOr<ExternalDocumentation>>,
    /// What each protocol defines for the message.
    pub bindings: Option<RefOr<MessageBindings>>,
    /// Examples of the message.
    pub examples: Vec<MessageExample>,
    /// Traits to merge into the message.
    pub traits: Vec<RefOr<MessageTrait>>,
}

/// A schema together with the name of the format it is written in.
#[derive(Clone, Debug, PartialEq)]
pub struct MultiFormatSchema {
    /// The name of the schema format, such as a media type of Avro or of
    /// JSON Schema.
    pub schema_format: String,
    /// The schema itself, in that format.
    pub schema: serde_json::Value,
}

/// Where in a message the identifier for tracing and matching is found.
#[derive(Clone, Debug, PartialEq)]
pub struct CorrelationId {
    /// A description of the identifier. CommonMark may be used.
    pub description: Option<String>,
    /// A runtime expression for the place of the identifier.
    pub location: String,
}

/// What each protocol defines for a message. No protocol is modelled yet.
#[derive(Clone, Debug, PartialEq)]
pub struct MessageBindings {
}

/// An example of a message: headers, a payload, or both.
#[derive(Clone, Debug, PartialEq)]
pub struct MessageExample {
    /// Example headers, valid against the message's headers schema.
    pub headers: NameMap<serde_json::Value>,
    /// An example payload, valid against the message's payload schema.
    pub payload: NameMap<serde_json::Value>,
    /// A name for machines.
    pub name: Option<String>,
    /// A short summary of what the example shows.
    pub summary: Option<String>,
}

/// What several messages have in common: any property of a message but
/// its payload and its traits.
#[derive(Clone, Debug, PartialEq)]
pub struct MessageTrait {
    /// The schema of the application headers.
    pub headers: Option<RefOr<AnySchema>>,
    /// The identifier by which messages are traced or matched.
    pub correlation_id: Option<RefOr<CorrelationId>>,
    /// The media type of the payload.
    pub content_type: Option<String>,
    /// A name for machines.
    pub name: Option<String>,
    /// A title for people.
    pub title: Option<String>,
    /// A short summary of what the message is about.
    pub summary: Option<String>,
    /// A longer explanation of the message. CommonMark may be used.
    pub description: Option<String>,
    /// Tags for grouping messages.
    pub tags: Vec<Tag>,
    /// Further documentation of the message.
    pub external_docs: Option<RefOr<ExternalDocumentation>>,
    /// What each protocol defines for the message.
    pub bindings: Option<RefOr<MessageBindings>>,
    /// Examples of the message.
    pub examples: Vec<MessageExample>,
}

} // verus!
