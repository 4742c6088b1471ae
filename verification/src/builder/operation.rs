//! Registration of a request and its reply in one step.
use crate::builder::AsyncApiV3Builder;
use crate::error::{Error, ErrorView};
use crate::spec::channel::{Channel, ChannelView};
use crate::spec::common::{
    channel_message_pointer,
    channel_pointer,
    Either,
    RefOr,
    ReferenceObject,
};
use crate::spec::component::ComponentsView;
use crate::spec::message::{AnySchema, Message};
use crate::spec::name_map::NameMap;
use crate::spec::operation::{
    Operation,
    OperationAction,
    OperationReply,
    OperationReplyAddress,
    OperationReplyView,
    OperationView,
};
use crate::spec::schema::{declared_title, schema_same, schema_title};
use crate::spec::DocumentView;
use schemars::schema::Schema;
use vstd::prelude::*;

verus! {

/// A message together with the named schemas that its own schemas point
/// to.
pub struct MessageFullSpec {
    pub message: Message,
    pub definitions: NameMap<Schema>,
}

/// The name of an operation and the address of its channel.
pub struct OperationInfo {
    pub name: String,
    pub address: String,
}

/// Where the reply to a request goes: the name of a channel of the
/// document, and a runtime expression for the place of the reply address.
pub struct ReplyInfo {
    pub channel_name: String,
    pub reply_address_location: String,
}

/// The reusable schemas of a document, by key.
pub type SchemaMap = Map<Seq<char>, RefOr<AnySchema>>;

/// True when `entry` is a schema written in place that equals `schema`.
pub open spec fn holds_schema(entry: RefOr<AnySchema>, schema: Schema) -> bool {
    match entry {
        Either::Right(Either::Left(held)) => schema_same(held, schema),
        _ => false,
    }
}

/// The reusable schemas after `schema` was merged in under `key`: added
/// where the key is new, unchanged where the key holds an equal schema.
/// Nothing where the key holds anything else.
pub open spec fn merge_schema(registry: SchemaMap, key: Seq<char>, schema: Schema) -> Option<
    SchemaMap,
> {
    if !registry.contains_key(key) {
        Some(registry.insert(key, Either::Right(Either::Left(schema))))
    } else if holds_schema(registry[key], schema) {
        Some(registry)
    } else {
        None
    }
}

/// The reusable schemas after the named schemas were merged in one after
/// the other, up to the first that cannot be merged, and the key of that
/// one if there is one. What was merged before it stays.
pub open spec fn merge_schemas(registry: SchemaMap, keys: Seq<Seq<char>>, schemas: Seq<Schema>) -> (
    SchemaMap,
    Option<Seq<char>>,
)
    decreases keys.len(),
{
    if keys.len() == 0 || schemas.len() == 0 {
        (registry, None)
    } else {
        match merge_schema(registry, keys[0], schemas[0]) {
            Some(merged) => merge_schemas(merged, keys.skip(1), schemas.skip(1)),
            None => (registry, Some(keys[0])),
        }
    }
}

/// The document with other reusable schemas.
pub open spec fn with_schemas(document: DocumentView, schemas: SchemaMap) -> DocumentView {
    DocumentView { components: ComponentsView { schemas, ..document.components }, ..document }
}

/// The name under which a message is filed: the title that its payload
/// declares, where the payload is a schema written in place that declares
/// one; else the name of the operation followed by `suffix`.
pub open spec fn message_key(message: Message, operation_name: Seq<char>, suffix: Seq<char>) -> Seq<
    char,
> {
    match message.payload {
        Some(Either::Right(Either::Left(schema))) => match schema_title(schema) {
            Some(title) => title,
            None => operation_name + suffix,
        },
        _ => operation_name + suffix,
    }
}

/// The channel that is made for a request: it has the address, carries
/// the one message and sets nothing else.
pub open spec fn request_channel(
    address: String,
    message_name: Seq<char>,
    message: Message,
) -> ChannelView {
    ChannelView {
        address: Some(address),
        messages: Map::empty().insert(message_name, Either::Right(message)),
        title: None,
        summary: None,
        description: None,
        servers: Seq::empty(),
        parameters: Map::empty(),
        tags: Seq::empty(),
        external_docs: None,
        bindings: None,
    }
}

/// True when the channels hold, under `name`, a channel written in place
/// and not only a pointer to one.
pub open spec fn holds_channel(
    channels: Map<Seq<char>, RefOr<ChannelView>>,
    name: Seq<char>,
) -> bool {
    channels.contains_key(name) && channels[name] is Right
}

/// The channels after `message` was filed under `message_name` in the
/// channel `channel_name`, which they hold written in place.
pub open spec fn with_response(
    channels: Map<Seq<char>, RefOr<ChannelView>>,
    channel_name: Seq<char>,
    message_name: Seq<char>,
    message: Message,
) -> Map<Seq<char>, RefOr<ChannelView>>
    recommends
        holds_channel(channels, channel_name),
{
    let channel = channels[channel_name]->Right_0;
    channels.insert(
        channel_name,
        Either::Right(
            ChannelView {
                messages: channel.messages.insert(message_name, Either::Right(message)),
                ..channel
            },
        ),
    )
}

/// The operation that is made for a request with a reply: it sends on
/// the channel of its own name, points to the request in that channel and
/// to the response in the reply channel, and sets nothing else.
pub open spec fn request_reply_operation(
    name: Seq<char>,
    request_name: Seq<char>,
    reply_channel: Seq<char>,
    response_name: Seq<char>,
    location: String,
) -> OperationView {
    OperationView {
        action: OperationAction::Send,
        channel: channel_pointer(name),
        title: None,
        summary: None,
        description: None,
        security: Seq::empty(),
        tags: Seq::empty(),
        external_docs: None,
        bindings: None,
        traits: Seq::empty(),
        messages: Some(seq![channel_message_pointer(name, request_name)]),
        reply: Some(
            Either::Right(
                OperationReplyView {
                    address: Some(
                        Either::Right(OperationReplyAddress { description: None, location }),
                    ),
                    channel: Some(channel_pointer(reply_channel)),
                    messages: seq![channel_message_pointer(reply_channel, response_name)],
                },
            ),
        ),
    }
}

/// What the last steps of a registration make of a document whose
/// reusable schemas are merged already, and the error they end with, if
/// any.
///
/// The document must hold the reply channel, written in place, before
/// anything is done: without it nothing changes. Else the request channel
/// is put under the name of the operation, in place of what was there;
/// the response is filed in the reply channel; and the operation is put
/// under its name.
///
/// A reply channel of the operation's own name is no exception. It must
/// be in the document beforehand; the request channel then takes its
/// place, and the response is filed there beside the request.
pub open spec fn wiring(
    document: DocumentView,
    operation: OperationInfo,
    reply_info: ReplyInfo,
    request: Message,
    response: Message,
) -> (DocumentView, Option<ErrorView>) {
    let name = operation.name@;
    let reply_channel = reply_info.channel_name@;
    let request_name = message_key(request, name, ".req"@);
    let response_name = message_key(response, name, ".res"@);
    if !holds_channel(document.channels, reply_channel) {
        (document, Some(ErrorView::ChannelNotFound { name: reply_channel }))
    } else {
        (
            DocumentView {
                channels: with_response(
                    document.channels.insert(
                        name,
                        Either::Right(request_channel(operation.address, request_name, request)),
                    ),
                    reply_channel,
                    response_name,
                    response,
                ),
                operations: document.operations.insert(
                    name,
                    Either::Right(
                        request_reply_operation(
                            name,
                            request_name,
                            reply_channel,
                            response_name,
                            reply_info.reply_address_location,
                        ),
                    ),
                ),
                ..document
            },
            None,
        )
    }
}

/// What the registration of a request and its reply makes of a document,
/// and the error it ends with, if any.
///
/// An operation of that name in the document stops it before anything
/// changes. Then the schemas of the request and those of the response are
/// merged into the reusable schemas; the first that cannot be merged stops
/// it, and what was merged before stays. The rest is [`wiring`].
pub open spec fn registration(
    document: DocumentView,
    operation: OperationInfo,
    reply_info: ReplyInfo,
    req: MessageFullSpec,
    res: MessageFullSpec,
) -> (DocumentView, Option<ErrorView>) {
    if document.operations.contains_key(operation.name@) {
        (document, Some(ErrorView::DuplicateOperation { name: operation.name@ }))
    } else {
        let (with_request, conflict) = merge_schemas(
            document.components.schemas,
            req.definitions.names(),
            req.definitions.values(),
        );
        match conflict {
            Some(key) => (
                with_schemas(document, with_request),
                Some(ErrorView::DuplicateDefinition { key }),
            ),
            None => {
                let (with_response, conflict) = merge_schemas(
                    with_request,
                    res.definitions.names(),
                    res.definitions.values(),
                );
                match conflict {
                    Some(key) => (
                        with_schemas(document, with_response),
                        Some(ErrorView::DuplicateDefinition { key }),
                    ),
                    None => wiring(
                        with_schemas(document, with_response),
                        operation,
                        reply_info,
                        req.message,
                        res.message,
                    ),
                }
            },
        }
    }
}

/// The error of a result, if it is one, as a mathematical value.
pub open spec fn error_view(result: Result<(), Error>) -> Option<ErrorView> {
    match result {
        Ok(_) => None,
        Err(error) => Some(error@),
    }
}

/// The declared title where there is one, else the name of the operation
/// followed by `suffix`.
pub fn title_or_default(title: Option<String>, operation_name: &str, suffix: &str) -> (r: String)
    ensures
        r@ == match title {
            Some(t) => t@,
            None => operation_name@ + suffix@,
        },
{
    match title {
        Some(t) => t,
        None => {
            let mut name = operation_name.to_owned();
            name.append(suffix);
            name
        },
    }
}

/// The name under which `message` is filed for the operation
/// `operation_name`.
pub fn message_name(message: &Message, operation_name: &str, suffix: &str) -> (r: String)
    ensures
        r@ == message_key(*message, operation_name@, suffix@),
{
    let title = match &message.payload {
        Some(Either::Right(Either::Left(schema))) => declared_title(schema),
        _ => None,
    };
    title_or_default(title, operation_name, suffix)
}

impl AsyncApiV3Builder {
    /// Registers a request and its reply in one step: an operation named
    /// `operation.name` that sends the request on a new channel of the
    /// same name and expects the response on the channel
    /// `reply_info.channel_name`, which the document must hold already.
    /// The schemas that the two messages bring are merged into the
    /// reusable schemas.
    ///
    /// The outcome is that of [`registration`]. An error leaves the
    /// channels and the operations of the document as they were. An
    /// operation of that name in the document, or a missing reply channel,
    /// is an error; so is a schema that cannot be merged, and then the
    /// schemas that were merged before it stay.
    pub fn register_simple_req_rep_operation(
        &mut self,
        operation: OperationInfo,
        reply_info: ReplyInfo,
        req: MessageFullSpec,
        res: MessageFullSpec,
    ) -> (r: Result<(), Error>)
        ensures
            (final(self)@, error_view(r)) == registration(
                old(self)@,
                operation,
                reply_info,
                req,
                res,
            ),
    {
        if self.spec.operations.contains_key(operation.name.as_str()) {
            return Err(Error::DuplicateOperation { name: operation.name.clone() });
        }
        let MessageFullSpec { message: req_message, definitions: req_definitions } = req;
        let MessageFullSpec { message: res_message, definitions: res_definitions } = res;

        match self.merge_schema_components(req_definitions) {
            Ok(_) => {},
            Err(error) => {
                return Err(error);
            },
        }
        match self.merge_schema_components(res_definitions) {
            Ok(_) => {},
            Err(error) => {
                return Err(error);
            },
        }
        let ghost merged = self@;

        let reply_channel_held = match self.spec.channels.get(reply_info.channel_name.as_str()) {
            Some(Either::Right(_)) => true,
            _ => false,
        };
        if !reply_channel_held {
            return Err(Error::ChannelNotFound { name: reply_info.channel_name.clone() });
        }

        let req_name = message_name(&req_message, operation.name.as_str(), ".req");
        let res_name = message_name(&res_message, operation.name.as_str(), ".res");

        let mut messages = NameMap::new();
        messages.insert(req_name.clone(), Either::Right(req_message));
        let channel = Channel {
            address: Some(operation.address.clone()),
            messages,
            title: None,
            summary: None,
            description: None,
            servers: Vec::new(),
            parameters: NameMap::new(),
            tags: Vec::new(),
            external_docs: None,
            bindings: None,
        };
        assert(channel@ =~= request_channel(operation.address, req_name@, req_message));
        self.spec.channels.insert(operation.name.clone(), Either::Right(channel));
        assert(self@.channels =~= merged.channels.insert(
            operation.name@,
            Either::Right(channel@),
        ));

        let replied = self.register_response(
            reply_info.channel_name.as_str(),
            res_name.as_str(),
            res_message,
        );
        match replied {
            Ok(_) => {},
            Err(error) => {
                return Err(error);
            },
        }
        let ghost filed = self@;

        let request_pointer = ReferenceObject::new_channel_message(
            operation.name.as_str(),
            req_name.as_str(),
        );
        let response_pointer = ReferenceObject::new_channel_message(
            reply_info.channel_name.as_str(),
            res_name.as_str(),
        );
        let mut request_pointers = Vec::new();
        request_pointers.push(request_pointer);
        let mut response_pointers = Vec::new();
        response_pointers.push(response_pointer);
        let registered = Operation {
            action: OperationAction::Send,
            channel: ReferenceObject::new_channel(operation.name.as_str()),
            title: None,
            summary: None,
            description: None,
            security: Vec::new(),
            tags: Vec::new(),
            external_docs: None,
            bindings: None,
            traits: Vec::new(),
            messages: Some(request_pointers),
            reply: Some(
                Either::Right(
                    OperationReply {
                        channel: Some(
                            ReferenceObject::new_channel(reply_info.channel_name.as_str()),
                        ),
                        address: Some(
                            Either::Right(
                                OperationReplyAddress {
                                    description: None,
                                    location: reply_info.reply_address_location,
                                },
                            ),
                        ),
                        messages: response_pointers,
                    },
                ),
            ),
        };
        proof {
            let expected = request_reply_operation(
                operation.name@,
                req_name@,
                reply_info.channel_name@,
                res_name@,
                reply_info.reply_address_location,
            );
            assert(registered@.messages->0 =~= expected.messages->0);
            assert(registered@.reply->0->Right_0.messages =~= expected.reply->0->Right_0.messages);
            assert(registered@ =~= expected);
        }
        self.spec.operations.insert(operation.name.clone(), Either::Right(registered));
        assert(self@.operations =~= filed.operations.insert(
            operation.name@,
            Either::Right(registered@),
        ));
        Ok(())
    }

    /// The reusable schema that the document holds under `key`, if any.
    pub fn schema_component(&self, key: &str) -> (r: Option<&RefOr<AnySchema>>)
        ensures
            match r {
                Some(entry) => self@.components.schemas.contains_key(key@) && *entry
                    == self@.components.schemas[key@],
                None => !self@.components.schemas.contains_key(key@),
            },
    {
        self.spec.components.schemas.get(key)
    }

    /// Merges one schema into the reusable schemas of the document. A key
    /// that holds an equal schema is left as it is; a key that holds
    /// anything else is an error, and nothing changes.
    pub fn insert_schema_component(&mut self, key: String, schema: Schema) -> (r: Result<(), Error>)
        ensures
            match merge_schema(old(self)@.components.schemas, key@, schema) {
                Some(merged) => r is Ok && final(self)@ == with_schemas(old(self)@, merged),
                None => r == Err::<(), Error>(Error::DuplicateDefinition { key }) && final(self)@
                    == old(self)@,
            },
    {
        match self.spec.components.schemas.get(key.as_str()) {
            Some(current) => {
                let same = match current {
                    Either::Right(Either::Left(held)) => *held == schema,
                    _ => false,
                };
                if !same {
                    return Err(Error::DuplicateDefinition { key });
                }
                assert(self@.components.schemas =~= old(self)@.components.schemas);
            },
            None => {
                self.spec.components.schemas.insert(key, Either::Right(Either::Left(schema)));
            },
        }
        Ok(())
    }

    /// Merges the named schemas into the reusable schemas of the
    /// document, in their order. The first that cannot be merged is an
    /// error; what was merged before it stays.
    pub fn merge_schema_components(&mut self, partial: NameMap<Schema>) -> (r: Result<(), Error>)
        ensures
            final(self)@ == with_schemas(
                old(self)@,
                merge_schemas(old(self)@.components.schemas, partial.names(), partial.values()).0,
            ),
            error_view(r) == match merge_schemas(
                old(self)@.components.schemas,
                partial.names(),
                partial.values(),
            ).1 {
                Some(key) => Some(ErrorView::DuplicateDefinition { key }),
                None => None,
            },
    {
        let ghost keys = partial.names();
        let ghost schemas = partial.values();
        let ghost start = self@.components.schemas;
        let entries = partial.into_entries();
        assert(keys.skip(0) =~= keys);
        assert(schemas.skip(0) =~= schemas);
        for entry in it: entries.into_iter()
            invariant
                keys == partial.names(),
                schemas == partial.values(),
                start == old(self)@.components.schemas,
                keys.len() == schemas.len(),
                it.seq().len() == keys.len(),
                forall|i: int|
                    0 <= i < keys.len() ==> (#[trigger] it.seq()[i]).0@ == keys[i] && it.seq()[i].1
                        == schemas[i],
                self@ == with_schemas(old(self)@, self@.components.schemas),
                merge_schemas(
                    self@.components.schemas,
                    keys.skip(it.index() as int),
                    schemas.skip(it.index() as int),
                ) == merge_schemas(start, keys, schemas),
        {
            let ghost at = it.index() as int;
            let ghost before = self@.components.schemas;
            proof {
                assert(keys.skip(at)[0] == keys[at]);
                assert(schemas.skip(at)[0] == schemas[at]);
                assert(keys.skip(at).skip(1) =~= keys.skip(at + 1));
                assert(schemas.skip(at).skip(1) =~= schemas.skip(at + 1));
            }
            let (key, schema) = entry;
            let merged = self.insert_schema_component(key, schema);
            match merged {
                Ok(_) => {
                    assert(merge_schemas(before, keys.skip(at), schemas.skip(at)) == merge_schemas(
                        self@.components.schemas,
                        keys.skip(at + 1),
                        schemas.skip(at + 1),
                    ));
                },
                Err(error) => {
                    assert(merge_schemas(before, keys.skip(at), schemas.skip(at)) == (
                        before,
                        Some(keys[at]),
                    ));
                    return Err(error);
                },
            }
        }
        Ok(())
    }

    /// Files `message` under `res_name` in the channel
    /// `reply_channel_name`. It is an error if the document holds no such
    /// channel or only a pointer to one; then nothing changes.
    fn register_response(
        &mut self,
        reply_channel_name: &str,
        res_name: &str,
        message: Message,
    ) -> (r: Result<(), Error>)
        ensures
            if holds_channel(old(self)@.channels, reply_channel_name@) {
                r is Ok && final(self)@ == (DocumentView {
                    channels: with_response(
                        old(self)@.channels,
                        reply_channel_name@,
                        res_name@,
                        message,
                    ),
                    ..old(self)@
                })
            } else {
                error_view(r) == Some(ErrorView::ChannelNotFound { name: reply_channel_name@ })
                    && final(self)@ == old(self)@
            },
    {
        let r = match self.spec.channels.get_mut(reply_channel_name) {
            Some(Either::Right(channel)) => {
                channel.messages.insert(res_name.to_owned(), Either::Right(message));
                Ok(())
            },
            _ => Err(Error::ChannelNotFound { name: reply_channel_name.to_owned() }),
        };
        proof {
            if holds_channel(old(self)@.channels, reply_channel_name@) {
                assert(self@.channels =~= with_response(
                    old(self)@.channels,
                    reply_channel_name@,
                    res_name@,
                    message,
                ));
            } else {
                assert(self@.channels =~= old(self)@.channels);
            }
        }
        r
    }
}

} // verus!
