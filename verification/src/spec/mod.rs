//! The AsyncAPI document model.
use crate::spec::channel::{channels_view, ChannelView, Channels};
use crate::spec::common::RefOr;
use crate::spec::component::{Components, ComponentsView};
use crate::spec::info::Info;
use crate::spec::operation::{operations_view, OperationView, Operations};
use crate::spec::server::{Server, Servers};
use vstd::prelude::*;

pub mod channel;
pub mod common;
pub mod component;
pub mod info;
pub mod message;
pub mod name_map;
pub mod operation;
pub mod schema;
pub mod security;
pub mod server;

verus! {

/// A document, tagged with the version of the format it is written in.
#[allow(non_camel_case_types)]
#[derive(Clone, Debug, PartialEq)]
pub enum AsyncApiSpec {
    /// A document of version 3.0.0.
    V3_0_0(AsyncApiV3Spec),
}

/// A document of version 3.0.0.
#[derive(Clone, Debug, PartialEq)]
pub struct AsyncApiV3Spec {
    /// An identifier of the application that the document describes.
    pub id: Option<String>,
    /// Metadata about the API.
    pub info: Info,
    /// How to connect to the servers, by name.
    pub servers: Servers,
    /// The content type of payloads for which a message names none.
    pub default_content_type: Option<String>,
    /// The channels that the application uses, by name.
    pub channels: Channels,
    /// The operations that the application implements, by name.
    pub operations: Operations,
    /// Objects to be used by reference.
    pub components: Components,
}

/// What a document holds: its maps as mathematical values, and of each
/// channel and operation what it holds in turn.
pub struct DocumentView {
    pub id: Option<String>,
    pub info: Info,
    pub servers: Map<Seq<char>, RefOr<Server>>,
    pub default_content_type: Option<String>,
    pub channels: Map<Seq<char>, RefOr<ChannelView>>,
    pub operations: Map<Seq<char>, RefOr<OperationView>>,
    pub components: ComponentsView,
}

impl View for AsyncApiV3Spec {
    type V = DocumentView;

    open spec fn view(&self) -> DocumentView {
        DocumentView {
            id: self.id,
            info: self.info,
            servers: self.servers@,
            default_content_type: self.default_content_type,
            channels: channels_view(self.channels@),
            operations: operations_view(self.operations@),
            components: self.components@,
        }
    }
}

} // verus!
