//! Step by step assembly of a document.
use crate::spec::channel::{Channel, Channels};
use crate::spec::common::{Either, ReferenceObject};
use crate::spec::component::{Components, ComponentsView};
use crate::spec::info::Info;
use crate::spec::name_map::NameMap;
use crate::spec::operation::{Operation, Operations};
use crate::spec::server::{Server, Servers};
use crate::spec::{AsyncApiSpec, AsyncApiV3Spec, DocumentView};
use vstd::prelude::*;

pub mod laws;
pub mod operation;

verus! {

/// A document in the making. It is owned by the builder until `build`
/// hands it out.
pub struct AsyncApiV3Builder {
    pub(crate) spec: AsyncApiV3Spec,
}

impl View for AsyncApiV3Builder {
    type V = DocumentView;

    /// What the document in the making holds.
    open spec fn view(&self) -> DocumentView {
        self.document()@
    }
}

impl AsyncApiV3Builder {
    /// The document in the making.
    pub closed spec fn document(&self) -> AsyncApiV3Spec {
        self.spec
    }

    /// Ends the assembly and hands out the document, tagged with the
    /// version of its format.
    pub fn build(self) -> (r: AsyncApiSpec)
        ensures
            r == AsyncApiSpec::V3_0_0(self.document()),
    {
        AsyncApiSpec::V3_0_0(self.spec)
    }

    /// Starts a document that holds `info` and nothing else.
    pub fn new(info: Info) -> (r: Self)
        ensures
            r@ == (DocumentView {
                id: None,
                info,
                servers: Map::empty(),
                default_content_type: None,
                channels: Map::empty(),
                operations: Map::empty(),
                components: ComponentsView::empty(),
            }),
    {
        let r = AsyncApiV3Builder {
            spec: AsyncApiV3Spec {
                id: None,
                info,
                servers: NameMap::new(),
                default_content_type: None,
                channels: NameMap::new(),
                operations: NameMap::new(),
                components: Components::default(),
            },
        };
        assert(r@.channels =~= Map::empty());
        assert(r@.operations =~= Map::empty());
        r
    }

    /// Sets the identifier of the application.
    pub fn id(self, id: String) -> (r: Self)
        ensures
            r.document() == (AsyncApiV3Spec { id: Some(id), ..self.document() }),
    {
        let mut this = self;
        this.spec.id = Some(id);
        this
    }

    /// Sets the content type of payloads for which a message names none.
    pub fn default_content_type(self, default_content_type: String) -> (r: Self)
        ensures
            r.document() == (AsyncApiV3Spec {
                default_content_type: Some(default_content_type),
                ..self.document()
            }),
    {
        let mut this = self;
        this.spec.default_content_type = Some(default_content_type);
        this
    }

    /// Replaces all servers.
    pub fn servers(self, servers: Servers) -> (r: Self)
        ensures
            r.document() == (AsyncApiV3Spec { servers, ..self.document() }),
    {
        let mut this = self;
        this.spec.servers = servers;
        this
    }

    /// Puts `server` under `name`, in place of what was there.
    pub fn register_server(&mut self, name: &str, server: Server)
        ensures
            final(self)@ == (DocumentView {
                servers: old(self)@.servers.insert(name@, Either::Right(server)),
                ..old(self)@
            }),
    {
        self.spec.servers.insert(name.to_owned(), Either::Right(server));
    }

    /// Puts a pointer to a server under `name`, in place of what was there.
    pub fn register_server_ref(&mut self, name: &str, reference: ReferenceObject)
        ensures
            final(self)@ == (DocumentView {
                servers: old(self)@.servers.insert(name@, Either::Left(reference)),
                ..old(self)@
            }),
    {
        self.spec.servers.insert(name.to_owned(), Either::Left(reference));
    }

    /// Replaces all channels.
    pub fn channels(self, channels: Channels) -> (r: Self)
        ensures
            r.document() == (AsyncApiV3Spec { channels, ..self.document() }),
    {
        let mut this = self;
        this.spec.channels = channels;
        this
    }

    /// Puts `channel` under `name`, in place of what was there.
    pub fn register_channel(&mut self, name: &str, channel: Channel)
        ensures
            final(self)@ == (DocumentView {
                channels: old(self)@.channels.insert(name@, Either::Right(channel@)),
                ..old(self)@
            }),
    {
        self.spec.channels.insert(name.to_owned(), Either::Right(channel));
        assert(self@.channels =~= old(self)@.channels.insert(
            name@,
            Either::Right(channel@),
        ));
    }

    /// Puts a pointer to a channel under `name`, in place of what was
    /// there.
    pub fn register_channel_ref(&mut self, name: &str, reference: ReferenceObject)
        ensures
            final(self)@ == (DocumentView {
                channels: old(self)@.channels.insert(name@, Either::Left(reference)),
                ..old(self)@
            }),
    {
        self.spec.channels.insert(name.to_owned(), Either::Left(reference));
        assert(self@.channels =~= old(self)@.channels.insert(
            name@,
            Either::Left(reference),
        ));
    }

    /// Replaces all operations.
    pub fn operations(self, operations: Operations) -> (r: Self)
        ensures
            r.document() == (AsyncApiV3Spec { operations, ..self.document() }),
    {
        let mut this = self;
        this.spec.operations = operations;
        this
    }

    /// Puts `operation` under `name`, in place of what was there.
    pub fn register_operation(&mut self, name: &str, operation: Operation)
        ensures
            final(self)@ == (DocumentView {
                operations: old(self)@.operations.insert(name@, Either::Right(operation@)),
                ..old(self)@
            }),
    {
        self.spec.operations.insert(name.to_owned(), Either::Right(operation));
        assert(self@.operations =~= old(self)@.operations.insert(
            name@,
            Either::Right(operation@),
        ));
    }

    /// Puts a pointer to an operation under `name`, in place of what was
    /// there.
    pub fn register_operation_ref(&mut self, name: &str, reference: ReferenceObject)
        ensures
            final(self)@ == (DocumentView {
                operations: old(self)@.operations.insert(name@, Either::Left(reference)),
                ..old(self)@
            }),
    {
        self.spec.operations.insert(name.to_owned(), Either::Left(reference));
        assert(self@.operations =~= old(self)@.operations.insert(
            name@,
            Either::Left(reference),
        ));
    }

    /// Replaces the components.
    pub fn components(self, components: Components) -> (r: Self)
        ensures
            r.document() == (AsyncApiV3Spec { components, ..self.document() }),
    {
        let mut this = self;
        this.spec.components = components;
        this
    }
}

} // verus!
