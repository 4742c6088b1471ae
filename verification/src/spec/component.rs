//! The components of a document: objects to be used by reference.
use crate::spec::channel::{Channel, ChannelBindings, Parameter};
use crate::spec::common::{ExternalDocumentation, RefOr, Tag};
use crate::spec::message::{AnySchema, CorrelationId, Message, MessageBindings, MessageTrait};
use crate::spec::name_map::NameMap;
use crate::spec::operation::{
    Operation,
    OperationBindings,
    OperationReply,
    OperationReplyAddress,
    OperationTrait,
};
use crate::spec::security::SecurityScheme;
use crate::spec::server::{Server, ServerBinding, Variable};
use vstd::prelude::*;

verus! {

/// Reusable objects, one map for each kind. An object here has no effect
/// until something outside the components points to it.
#[derive(Clone, Debug, PartialEq)]
pub struct Components {
    /// Reusable schemas.
    pub schemas: NameMap<RefOr<AnySchema>>,
    /// Reusable servers.
    pub servers: NameMap<RefOr<Server>>,
    /// Reusable channels.
    pub channels: NameMap<RefOr<Channel>>,
    /// Reusable operations.
    pub operations: NameMap<RefOr<Operation>>,
    /// Reusable messages.
    pub messages: NameMap<RefOr<Message>>,
    /// Reusable security schemes.
    pub security_schemes: NameMap<RefOr<SecurityScheme>>,
    /// Reusable server variables.
    pub server_variables: NameMap<RefOr<Variable>>,
    /// Reusable channel parameters.
    pub parameters: NameMap<RefOr<Parameter>>,
    /// Reusable correlation identifiers.
    pub correlation_ids: NameMap<RefOr<CorrelationId>>,
    /// Reusable replies.
    pub replies: NameMap<RefOr<OperationReply>>,
    /// Reusable reply addresses.
    pub reply_addresses: NameMap<RefOr<OperationReplyAddress>>,
    /// Reusable links to documentation.
    pub external_docs: NameMap<RefOr<ExternalDocumentation>>,
    /// Reusable tags.
    pub tags: NameMap<RefOr<Tag>>,
    /// Reusable operation traits.
    pub operation_traits: NameMap<RefOr<OperationTrait>>,
    /// Reusable message traits.
    pub message_traits: NameMap<RefOr<MessageTrait>>,
    /// Reusable server bindings.
    pub server_bindings: NameMap<RefOr<ServerBinding>>,
    /// Reusable channel bindings.
    pub channel_bindings: NameMap<RefOr<ChannelBindings>>,
    /// Reusable operation bindings.
    pub operation_bindings: NameMap<RefOr<OperationBindings>>,
    /// Reusable message bindings.
    pub message_bindings: NameMap<RefOr<MessageBindings>>,
}

/// What the components hold, each map as a mathematical value.
pub struct ComponentsView {
    pub schemas: Map<Seq<char>, RefOr<AnySchema>>,
    pub servers: Map<Seq<char>, RefOr<Server>>,
    pub channels: Map<Seq<char>, RefOr<Channel>>,
    pub operations: Map<Seq<char>, RefOr<Operation>>,
    pub messages: Map<Seq<char>, RefOr<Message>>,
    pub security_schemes: Map<Seq<char>, RefOr<SecurityScheme>>,
    pub server_variables: Map<Seq<char>, RefOr<Variable>>,
    pub parameters: Map<Seq<char>, RefOr<Parameter>>,
    pub correlation_ids: Map<Seq<char>, RefOr<CorrelationId>>,
    pub replies: Map<Seq<char>, RefOr<OperationReply>>,
    pub reply_addresses: Map<Seq<char>, RefOr<OperationReplyAddress>>,
    pub external_docs: Map<Seq<char>, RefOr<ExternalDocumentation>>,
    pub tags: Map<Seq<char>, RefOr<Tag>>,
    pub operation_traits: Map<Seq<char>, RefOr<OperationTrait>>,
    pub message_traits: Map<Seq<char>, RefOr<MessageTrait>>,
    pub server_bindings: Map<Seq<char>, RefOr<ServerBinding>>,
    pub channel_bindings: Map<Seq<char>, RefOr<ChannelBindings>>,
    pub operation_bindings: Map<Seq<char>, RefOr<OperationBindings>>,
    pub message_bindings: Map<Seq<char>, RefOr<MessageBindings>>,
}

impl ComponentsView {
    /// Components without any object.
    pub open spec fn empty() -> ComponentsView {
        ComponentsView {
            schemas: Map::empty(),
            servers: Map::empty(),
            channels: Map::empty(),
            operations: Map::empty(),
            messages: Map::empty(),
            security_schemes: Map::empty(),
            server_variables: Map::empty(),
            parameters: Map::empty(),
            correlation_ids: Map::empty(),
            replies: Map::empty(),
            reply_addresses: Map::empty(),
            external_docs: Map::empty(),
            tags: Map::empty(),
            operation_traits: Map::empty(),
            message_traits: Map::empty(),
            server_bindings: Map::empty(),
            channel_bindings: Map::empty(),
            operation_bindings: Map::empty(),
            message_bindings: Map::empty(),
        }
    }
}

impl View for Components {
    type V = ComponentsView;

    open spec fn view(&self) -> ComponentsView {
        ComponentsView {
            schemas: self.schemas@,
            servers: self.servers@,
            channels: self.channels@,
            operations: self.operations@,
            messages: self.messages@,
            security_schemes: self.security_schemes@,
            server_variables: self.server_variables@,
            parameters: self.parameters@,
            correlation_ids: self.correlation_ids@,
            replies: self.replies@,
            reply_addresses: self.reply_addresses@,
            external_docs: self.external_docs@,
            tags: self.tags@,
            operation_traits: self.operation_traits@,
            message_traits: self.message_traits@,
            server_bindings: self.server_bindings@,
            channel_bindings: self.channel_bindings@,
            operation_bindings: self.operation_bindings@,
            message_bindings: self.message_bindings@,
        }
    }
}

impl Default for Components {
    /// Components without any object.
    fn default() -> (r: Self)
        ensures
            r@ == ComponentsView::empty(),
    {
        Components {
            schemas: NameMap::new(),
            servers: NameMap::new(),
            channels: NameMap::new(),
            operations: NameMap::new(),
            messages: NameMap::new(),
            security_schemes: NameMap::new(),
            server_variables: NameMap::new(),
            parameters: NameMap::new(),
            correlation_ids: NameMap::new(),
            replies: NameMap::new(),
            reply_addresses: NameMap::new(),
            external_docs: NameMap::new(),
            tags: NameMap::new(),
            operation_traits: NameMap::new(),
            message_traits: NameMap::new(),
            server_bindings: NameMap::new(),
            channel_bindings: NameMap::new(),
            operation_bindings: NameMap::new(),
            message_bindings: NameMap::new(),
        }
    }
}

} // verus!
