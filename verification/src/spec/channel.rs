//! Channels: the paths along which messages travel.
use crate::spec::common::{Either, ExternalDocumentation, RefOr, ReferenceObject, Tag};
use crate::spec::message::{Message, Messages};
use crate::spec::name_map::NameMap;
use schemars::schema::Schema;
use vstd::prelude::*;

verus! {

/// The channels of a document, by name.
pub type Channels = NameMap<RefOr<Channel>>;

/// The parameters of a channel address, by name.
pub type Parameters = NameMap<RefOr<Parameter>>;

/// A path along which messages travel, with the messages it may carry.
#[derive(Clone, Debug, PartialEq)]
pub struct Channel {
    /// The address of the channel: a topic, a routing key, a path.
    /// Absent where it is unknown or made at run time.
    pub address: Option<String>,
    /// The messages that may be sent to this channel, by name.
    pub messages: Messages,
    /// A title for people.
    pub title: Option<String>,
    /// A short summary of the channel.
    pub summary: Option<String>,
    /// A description of the channel. CommonMark may be used.
    pub description: Option<String>,
    /// Pointers to the servers on which the channel is available; on all
    /// of them where the list is empty.
    pub servers: Vec<ReferenceObject>,
    /// The parameters that the address holds, by name.
    pub parameters: Parameters,
    /// Tags for grouping channels.
    pub tags: Vec<Tag>,
    /// Further documentation of the channel.
    pub external_docs: Option<RefOr<ExternalDocumentation>>,
    /// What each protocol defines for the channel.
    pub bindings: Option<RefOr<ChannelBindings>>,
}

/// What a channel holds, its maps and lists as mathematical values.
pub struct ChannelView {
    pub address: Option<String>,
    pub messages: Map<Seq<char>, RefOr<Message>>,
    pub title: Option<String>,
    pub summary: Option<String>,
    pub description: Option<String>,
    pub servers: Seq<ReferenceObject>,
    pub parameters: Map<Seq<char>, RefOr<Parameter>>,
    pub tags: Seq<Tag>,
    pub external_docs: Option<RefOr<ExternalDocumentation>>,
    pub bindings: Option<RefOr<ChannelBindings>>,
}

impl View for Channel {
    type V = ChannelView;

    open spec fn view(&self) -> ChannelView {
        ChannelView {
            address: self.address,
            messages: self.messages@,
            title: self.title,
            summary: self.summary,
            description: self.description,
            servers: self.servers@,
            parameters: self.parameters@,
            tags: self.tags@,
            external_docs: self.external_docs,
            bindings: self.bindings,
        }
    }
}

/// A channel written in place, or a pointer to one, as a mathematical
/// value.
pub open spec fn channel_entry_view(entry: RefOr<Channel>) -> RefOr<ChannelView> {
    match entry {
        Either::Left(pointer) => Either::Left(pointer),
        Either::Right(channel) => Either::Right(channel@),
    }
}

/// The channels of a map, each as a mathematical value.
pub open spec fn channels_view(channels: Map<Seq<char>, RefOr<Channel>>) -> Map<
    Seq<char>,
    RefOr<ChannelView>,
> {
    channels.map_values(|entry: RefOr<Channel>| channel_entry_view(entry))
}

/// A parameter of a channel address.
#[derive(Clone, Debug, PartialEq)]
pub struct Parameter {
    /// The values the parameter may take, where they are few.
    pub enum_values: Option<Vec<String>>,
    /// The value used where none is supplied.
    pub default: Option<String>,
    /// A description of the parameter. CommonMark may be used.
    pub description: Option<String>,
    /// Examples of values.
    pub examples: Vec<String>,
    /// A runtime expression for the place of the value.
    pub location: Option<String>,
}

/// What each protocol defines for a channel.
#[derive(Clone, Debug, PartialEq)]
pub struct ChannelBindings {
    /// For a WebSockets channel.
    pub ws: Option<WebSocketChannelBinding>,
    /// For a NATS channel.
    pub nats: Option<NatsChannelBinding>,
    /// For an HTTP channel.
    pub http: Option<HttpChannelBinding>,
}

/// The HTTP method of a WebSockets handshake.
#[derive(Clone, Copy, Debug, Eq, PartialEq)]
pub enum WebSocketHttpMethod {
    Get,
    Post,
}

/// A WebSockets channel is the connection itself; this describes the HTTP
/// handshake that opens it.
#[derive(Clone, Debug, PartialEq)]
pub struct WebSocketChannelBinding {
    /// The HTTP method of the handshake.
    pub method: Option<WebSocketHttpMethod>,
    /// An object schema with one property for each query parameter.
    pub query: Option<RefOr<Schema>>,
    /// An object schema with one property for each HTTP header.
    pub headers: Option<RefOr<Schema>>,
    /// The version of this binding.
    pub binding_version: Option<String>,
}

impl WebSocketChannelBinding {
    /// The version of this binding; `latest` where none is given.
    pub fn binding_version(&self) -> (r: &str)
        ensures
            r@ == match self.binding_version {
                Some(version) => version@,
                None => "latest"@,
            },
    {
        match &self.binding_version {
            Some(version) => version.as_str(),
            None => "latest",
        }
    }
}

/// Reserved for what NATS defines for a channel.
#[derive(Clone, Copy, Debug, PartialEq)]
pub struct NatsChannelBinding;

/// Reserved for what HTTP defines for a channel.
#[derive(Clone, Copy, Debug, PartialEq)]
pub struct HttpChannelBinding;

} // verus!
