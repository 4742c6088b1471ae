//! Operations: what the application does on a channel.
use crate::spec::common::{Either, ExternalDocumentation, RefOr, ReferenceObject, Tag};
use crate::spec::name_map::NameMap;
use crate::spec::security::SecurityScheme;
use schemars::schema::Schema;
use vstd::prelude::*;

verus! {

/// The operations of a document, by name.
pub type Operations = NameMap<RefOr<Operation>>;

/// One direction of communication over one channel.
#[derive(Clone, Debug, PartialEq)]
pub struct Operation {
    /// Whether the application sends to the channel or receives from it.
    pub action: OperationAction,
    /// A pointer to the channel of the operation.
    pub channel: ReferenceObject,
    /// A title for people.
    pub title: Option<String>,
    /// A short summary of what the operation is about.
    pub summary: Option<String>,
    /// A longer explanation of the operation. CommonMark may be used.
    pub description: Option<String>,
    /// The security schemes of which one must be satisfied.
    pub security: Vec<RefOr<SecurityScheme>>,
    /// Tags for grouping operations.
    pub tags: Vec<Tag>,
    /// Further documentation of the operation.
    pub external_docs: Option<RefOr<ExternalDocumentation>>,
    /// What each protocol defines for the operation.
    pub bindings: Option<RefOr<OperationBindings>>,
    /// Traits to merge into the operation.
    pub traits: Vec<RefOr<OperationTrait>>,
    /// Pointers to the messages of the channel that the operation
    /// handles; all of them where this is absent.
    pub messages: Option<Vec<ReferenceObject>>,
    /// The reply, where the operation is a request.
    pub reply: Option<RefOr<OperationReply>>,
}

/// What an operation holds, its lists as mathematical values and each
/// pointer as its text.
pub struct OperationView {
    pub action: OperationAction,
    pub channel: Seq<char>,
    pub title: Option<String>,
    pub summary: Option<String>,
    pub description: Option<String>,
    pub security: Seq<RefOr<SecurityScheme>>,
    pub tags: Seq<Tag>,
    pub external_docs: Option<RefOr<ExternalDocumentation>>,
    pub bindings: Option<RefOr<OperationBindings>>,
    pub traits: Seq<RefOr<OperationTrait>>,
    pub messages: Option<Seq<Seq<char>>>,
    pub reply: Option<RefOr<OperationReplyView>>,
}

/// The text of each pointer of a list.
pub open spec fn pointer_texts(pointers: Seq<ReferenceObject>) -> Seq<Seq<char>> {
    pointers.map_values(|pointer: ReferenceObject| pointer.reference@)
}

impl View for Operation {
    type V = OperationView;

    open spec fn view(&self) -> OperationView {
        OperationView {
            action: self.action,
            channel: self.channel.reference@,
            title: self.title,
            summary: self.summary,
            description: self.description,
            security: self.security@,
            tags: self.tags@,
            external_docs: self.external_docs,
            bindings: self.bindings,
            traits: self.traits@,
            messages: match self.messages {
                Some(pointers) => Some(pointer_texts(pointers@)),
                None => None,
            },
            reply: match self.reply {
                Some(Either::Left(pointer)) => Some(Either::Left(pointer)),
                Some(Either::Right(reply)) => Some(Either::Right(reply@)),
                None => None,
            },
        }
    }
}

/// An operation written in place, or a pointer to one, as a mathematical
/// value.
pub open spec fn operation_entry_view(entry: RefOr<Operation>) -> RefOr<OperationView> {
    match entry {
        Either::Left(pointer) => Either::Left(pointer),
        Either::Right(operation) => Either::Right(operation@),
    }
}

/// The operations of a map, each as a mathematical value.
pub open spec fn operations_view(operations: Map<Seq<char>, RefOr<Operation>>) -> Map<
    Seq<char>,
    RefOr<OperationView>,
> {
    operations.map_values(|entry: RefOr<Operation>| operation_entry_view(entry))
}

/// The direction of an operation.
#[derive(Clone, Copy, Debug, PartialEq)]
pub enum OperationAction {
    Send,
    Receive,
}

/// What each protocol defines for an operation.
#[derive(Clone, Debug, PartialEq)]
pub struct OperationBindings {
    /// For a WebSockets operation.
    pub ws: Option<WebSocketOperationBinding>,
    /// For a NATS operation.
    pub nats: Option<NatsOperationBinding>,
    /// For an HTTP operation.
    pub http: Option<HttpOperationBinding>,
}

/// The method of an HTTP request.
#[derive(Clone, Copy, Debug, PartialEq)]
pub enum HttpOperationMethod {
    Get,
    Post,
    Put,
    Patch,
    Delete,
    Head,
    Options,
    Connect,
    Trace,
}

/// What HTTP defines for an operation.
#[derive(Clone, Debug, PartialEq)]
pub struct HttpOperationBinding {
    /// The method of the request.
    pub method: HttpOperationMethod,
    /// An object schema with one property for each query parameter.
    pub query: Option<RefOr<Schema>>,
    /// The version of this binding.
    pub binding_version: Option<String>,
}

/// Reserved for what WebSockets defines for an operation.
#[derive(Clone, Debug, PartialEq)]
pub struct WebSocketOperationBinding;

/// What NATS defines for an operation.
#[derive(Clone, Debug, PartialEq)]
pub struct NatsOperationBinding {
    /// The name of the queue to use, of 255 characters at most.
    pub queue: String,
    /// The version of this binding.
    pub binding_version: Option<String>,
}

impl NatsOperationBinding {
    /// The version of this binding; `latest` where none is given.
    pub fn binding_version(&self) -> (r: &str)
        ensures
            r@ == match self.binding_version {
                Some(version) => version@,
                None => "latest"@,
            },
    {
        match &self.binding_version {
            Some(version) => version.as_str(),
            None => "latest",
        }
    }
}

/// What several operations have in common: any property of an operation
/// but its action, its channel and its traits.
#[derive(Clone, Debug, PartialEq)]
pub struct OperationTrait {
    /// A title for people.
    pub title: Option<String>,
    /// A short summary of what the operation is about.
    pub summary: Option<String>,
    /// A longer explanation of the operation. CommonMark may be used.
    pub description: Option<String>,
    /// The security scheme of the operation.
    pub security: Option<RefOr<SecurityScheme>>,
    /// Tags for grouping operations.
    pub tags: Vec<Tag>,
    /// Further documentation of the operation.
    pub external_docs: Option<RefOr<ExternalDocumentation>>,
    /// What each protocol defines for the operation.
    pub bindings: Option<RefOr<OperationBindings>>,
}

/// The reply to a request: where it goes and what it may be.
#[derive(Clone, Debug, PartialEq)]
pub struct OperationReply {
    /// Where the reply is to be sent.
    pub address: Option<RefOr<OperationReplyAddress>>,
    /// A pointer to the channel on which the reply travels.
    pub channel: Option<ReferenceObject>,
    /// Pointers to the messages of that channel that may be the reply.
    pub messages: Vec<ReferenceObject>,
}

/// What a reply holds, each pointer as its text.
pub struct OperationReplyView {
    pub address: Option<RefOr<OperationReplyAddress>>,
    pub channel: Option<Seq<char>>,
    pub messages: Seq<Seq<char>>,
}

impl View for OperationReply {
    type V = OperationReplyView;

    open spec fn view(&self) -> OperationReplyView {
        OperationReplyView {
            address: self.address,
            channel: match self.channel {
                Some(pointer) => Some(pointer.reference@),
                None => None,
            },
            messages: pointer_texts(self.messages@),
        }
    }
}

/// Where the address for a reply is found at run time.
#[derive(Clone, Debug, PartialEq)]
pub struct OperationReplyAddress {
    /// A description of the address. CommonMark may be used.
    pub description: Option<String>,
    /// A runtime expression for the place of the reply address.
    pub location: String,
}

} // verus!
