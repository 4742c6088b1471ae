use asyncapiv3::builder::operation::{
    message_name, title_or_default, MessageFullSpec, OperationInfo, ReplyInfo,
};
use asyncapiv3::builder::AsyncApiV3Builder;
use asyncapiv3::error::Error;
use asyncapiv3::spec::channel::Channel;
use asyncapiv3::spec::common::{Either, ReferenceObject};
use asyncapiv3::spec::component::Components;
use asyncapiv3::spec::info::Info;
use asyncapiv3::spec::message::{Message, MultiFormatSchema};
use asyncapiv3::spec::name_map::NameMap;
use asyncapiv3::spec::operation::{Operation, OperationAction};
use asyncapiv3::spec::server::Server;
use asyncapiv3::spec::{AsyncApiSpec, AsyncApiV3Spec};
use schemars::gen::{SchemaGenerator, SchemaSettings};
use schemars::schema::{
    InstanceType, Metadata, NumberValidation, Schema, SchemaObject, SingleOrVec,
};
use schemars::JsonSchema;

struct CommonData {
    #[allow(dead_code)]
    number: u32,
    #[allow(dead_code)]
    text: String,
}

struct Req {
    #[allow(dead_code)]
    data: CommonData,
}

struct Res {
    #[allow(dead_code)]
    data: CommonData,
}

impl JsonSchema for CommonData {
    fn schema_name() -> String {
        String::from("CommonData")
    }

    fn json_schema(generator: &mut SchemaGenerator) -> Schema {
        let mut schema = SchemaObject {
            instance_type: Some(InstanceType::Object.into()),
            ..Default::default()
        };
        let number = generator.subschema_for::<u32>();
        let text = generator.subschema_for::<String>();
        let object = schema.object();
        object.properties.insert(String::from("number"), number);
        object.required.insert(String::from("number"));
        object.properties.insert(String::from("text"), text);
        object.required.insert(String::from("text"));
        Schema::Object(schema)
    }
}

fn data_holder_schema(generator: &mut SchemaGenerator) -> Schema {
    let mut schema = SchemaObject {
        instance_type: Some(InstanceType::Object.into()),
        ..Default::default()
    };
    let data = generator.subschema_for::<CommonData>();
    let object = schema.object();
    object.properties.insert(String::from("data"), data);
    object.required.insert(String::from("data"));
    Schema::Object(schema)
}

impl JsonSchema for Req {
    fn schema_name() -> String {
        String::from("Req")
    }

    fn json_schema(generator: &mut SchemaGenerator) -> Schema {
        data_holder_schema(generator)
    }
}

impl JsonSchema for Res {
    fn schema_name() -> String {
        String::from("Res")
    }

    fn json_schema(generator: &mut SchemaGenerator) -> Schema {
        data_holder_schema(generator)
    }
}

fn info() -> Info {
    Info {
        title: String::from("TEST"),
        version: String::from("1.0.0"),
        description: None,
        terms_of_service: None,
        contact: None,
        license: None,
        tags: vec![],
        external_docs: None,
    }
}

fn message(payload: Option<Either<ReferenceObject, Either<Schema, MultiFormatSchema>>>) -> Message {
    Message {
        headers: None,
        payload,
        correlation_id: None,
        content_type: None,
        name: None,
        title: None,
        summary: None,
        description: None,
        tags: vec![],
        external_docs: None,
        bindings: None,
        examples: vec![],
        traits: vec![],
    }
}

fn empty_channel() -> Channel {
    Channel {
        address: None,
        messages: Default::default(),
        title: None,
        summary: None,
        description: None,
        servers: vec![],
        parameters: Default::default(),
        tags: vec![],
        external_docs: None,
        bindings: None,
    }
}

fn full_spec_for<T: JsonSchema>() -> MessageFullSpec {
    let mut settings = SchemaSettings::default();
    settings.definitions_path = String::from("#/components/schemas/");
    let root = SchemaGenerator::new(settings).into_root_schema_for::<T>();
    let mut definitions = NameMap::new();
    for (name, schema) in root.definitions {
        definitions.insert(name, schema);
    }
    MessageFullSpec {
        message: message(Some(Either::Right(Either::Left(Schema::Object(root.schema))))),
        definitions,
    }
}

fn titled(title: &str) -> Schema {
    Schema::Object(SchemaObject {
        metadata: Some(Box::new(Metadata {
            title: Some(String::from(title)),
            ..Default::default()
        })),
        ..Default::default()
    })
}

fn of_type(instance_type: InstanceType) -> Schema {
    Schema::Object(SchemaObject {
        instance_type: Some(SingleOrVec::Single(Box::new(instance_type))),
        ..Default::default()
    })
}

fn bare(payload: Option<Either<ReferenceObject, Either<Schema, MultiFormatSchema>>>) -> MessageFullSpec {
    MessageFullSpec { message: message(payload), definitions: NameMap::new() }
}

fn with_definition(key: &str, schema: Schema) -> MessageFullSpec {
    let mut definitions = NameMap::new();
    definitions.insert(String::from(key), schema);
    MessageFullSpec { message: message(None), definitions }
}

fn operation(name: &str, address: &str) -> OperationInfo {
    OperationInfo { name: String::from(name), address: String::from(address) }
}

fn reply(channel_name: &str, location: &str) -> ReplyInfo {
    ReplyInfo {
        channel_name: String::from(channel_name),
        reply_address_location: String::from(location),
    }
}

fn document(builder: AsyncApiV3Builder) -> AsyncApiV3Spec {
    match builder.build() {
        AsyncApiSpec::V3_0_0(document) => document,
    }
}

fn inline_channel(document: &AsyncApiV3Spec, name: &str) -> Channel {
    match document.channels.get(name) {
        Some(Either::Right(channel)) => channel.clone(),
        other => panic!("no channel written in place under {name}: {other:?}"),
    }
}

fn inline_operation(document: &AsyncApiV3Spec, name: &str) -> Operation {
    match document.operations.get(name) {
        Some(Either::Right(operation)) => operation.clone(),
        other => panic!("no operation written in place under {name}: {other:?}"),
    }
}

#[test]
fn build_spec() {
    let mut spec = AsyncApiV3Builder::new(info());

    let req_message = full_spec_for::<Req>();
    let res_message = full_spec_for::<Res>();

    spec.register_channel("DemoRepl", empty_channel());
    spec.register_simple_req_rep_operation(
        OperationInfo { name: String::from("DemoOp"), address: String::from("demo.operation") },
        ReplyInfo {
            channel_name: String::from("DemoRepl"),
            reply_address_location: String::from("$message.payload#/reply"),
        },
        req_message,
        res_message,
    )
    .unwrap();

    let built = document(spec);
    println!("{:?}", built);
    assert_eq!(built.info, info());
    assert_eq!(built.components.schemas.len(), 1);
    assert!(built.components.schemas.contains_key("CommonData"));
    assert_eq!(inline_channel(&built, "DemoOp").messages.len(), 1);
    assert!(inline_channel(&built, "DemoOp").messages.contains_key("Req"));
    assert!(inline_channel(&built, "DemoRepl").messages.contains_key("Res"));
    assert!(built.operations.contains_key("DemoOp"));
}

#[test]
fn request_reply_pair_end_to_end() {
    let mut builder = AsyncApiV3Builder::new(info());
    builder.register_channel("Repl", empty_channel());
    let outcome = builder.register_simple_req_rep_operation(
        operation("DemoOp", "demo.operation"),
        reply("Repl", "$message.payload#/reply"),
        full_spec_for::<Req>(),
        full_spec_for::<Res>(),
    );
    assert_eq!(outcome, Ok(()));
    let built = document(builder);

    assert_eq!(built.channels.len(), 2);
    let request_channel = inline_channel(&built, "DemoOp");
    assert_eq!(request_channel.address, Some(String::from("demo.operation")));
    assert_eq!(request_channel.messages.len(), 1);
    assert!(matches!(request_channel.messages.get("Req"), Some(Either::Right(_))));
    assert_eq!(request_channel.title, None);
    assert_eq!(request_channel.summary, None);
    assert_eq!(request_channel.description, None);
    assert!(request_channel.servers.is_empty());
    assert!(request_channel.parameters.is_empty());
    assert!(request_channel.tags.is_empty());
    assert_eq!(request_channel.external_docs, None);
    assert_eq!(request_channel.bindings, None);

    let reply_channel = inline_channel(&built, "Repl");
    assert_eq!(reply_channel.address, None);
    assert_eq!(reply_channel.messages.len(), 1);
    assert!(matches!(reply_channel.messages.get("Res"), Some(Either::Right(_))));

    assert_eq!(built.operations.len(), 1);
    let registered = inline_operation(&built, "DemoOp");
    assert_eq!(registered.action, OperationAction::Send);
    assert_eq!(registered.channel.reference, "#/channels/DemoOp");
    assert_eq!(
        registered.messages,
        Some(vec![ReferenceObject { reference: String::from("#/channels/DemoOp/messages/Req") }])
    );
    assert_eq!(registered.title, None);
    assert_eq!(registered.summary, None);
    assert_eq!(registered.description, None);
    assert!(registered.security.is_empty());
    assert!(registered.tags.is_empty());
    assert_eq!(registered.external_docs, None);
    assert_eq!(registered.bindings, None);
    assert!(registered.traits.is_empty());
    let registered_reply = match registered.reply {
        Some(Either::Right(registered_reply)) => registered_reply,
        other => panic!("no reply written in place: {other:?}"),
    };
    assert_eq!(
        registered_reply.channel,
        Some(ReferenceObject { reference: String::from("#/channels/Repl") })
    );
    match registered_reply.address {
        Some(Either::Right(address)) => {
            assert_eq!(address.location, "$message.payload#/reply");
            assert_eq!(address.description, None);
        }
        other => panic!("no reply address written in place: {other:?}"),
    }
    assert_eq!(
        registered_reply.messages,
        vec![ReferenceObject { reference: String::from("#/channels/Repl/messages/Res") }]
    );

    assert_eq!(built.components.schemas.len(), 1);
    assert!(matches!(
        built.components.schemas.get("CommonData"),
        Some(Either::Right(Either::Left(Schema::Object(_))))
    ));
}

#[test]
fn generated_pointers_have_the_fixed_shape() {
    let mut builder = AsyncApiV3Builder::new(info());
    builder.register_channel("Repl", empty_channel());
    builder
        .register_simple_req_rep_operation(
            operation("Op", "op.address"),
            reply("Repl", "$message.header#/replyTo"),
            bare(None),
            bare(None),
        )
        .unwrap();
    let built = document(builder);
    let registered = inline_operation(&built, "Op");
    assert_eq!(registered.channel.reference, "#/channels/Op");
    assert_eq!(
        registered.messages,
        Some(vec![ReferenceObject { reference: String::from("#/channels/Op/messages/Op.req") }])
    );
    match registered.reply {
        Some(Either::Right(registered_reply)) => {
            assert_eq!(registered_reply.messages.len(), 1);
            assert_eq!(
                registered_reply.messages[0].reference,
                "#/channels/Repl/messages/Op.res"
            );
        }
        other => panic!("no reply written in place: {other:?}"),
    }
    assert!(inline_channel(&built, "Op").messages.contains_key("Op.req"));
    assert!(inline_channel(&built, "Repl").messages.contains_key("Op.res"));
}

#[test]
fn second_registration_under_the_same_name_is_rejected() {
    let mut once = AsyncApiV3Builder::new(info());
    once.register_channel("Repl", empty_channel());
    once.register_simple_req_rep_operation(
        operation("Op", "first.address"),
        reply("Repl", "$message.payload#/reply"),
        full_spec_for::<Req>(),
        full_spec_for::<Res>(),
    )
    .unwrap();

    let mut twice = AsyncApiV3Builder::new(info());
    twice.register_channel("Repl", empty_channel());
    twice
        .register_simple_req_rep_operation(
            operation("Op", "first.address"),
            reply("Repl", "$message.payload#/reply"),
            full_spec_for::<Req>(),
            full_spec_for::<Res>(),
        )
        .unwrap();
    let second = twice.register_simple_req_rep_operation(
        operation("Op", "second.address"),
        reply("Elsewhere", "$message.payload#/other"),
        with_definition("Fresh", of_type(InstanceType::String)),
        with_definition("CommonData", of_type(InstanceType::Null)),
    );
    assert_eq!(second, Err(Error::DuplicateOperation { name: String::from("Op") }));

    let after_first = document(once);
    let after_second = document(twice);
    assert_eq!(after_second.operations, after_first.operations);
    assert_eq!(after_second.channels, after_first.channels);
    assert_eq!(after_second, after_first);
}

#[test]
fn merging_the_same_schema_twice_changes_nothing() {
    let mut once = AsyncApiV3Builder::new(info());
    assert_eq!(once.insert_schema_component(String::from("Shared"), titled("Shared")), Ok(()));

    let mut twice = AsyncApiV3Builder::new(info());
    assert_eq!(twice.insert_schema_component(String::from("Shared"), titled("Shared")), Ok(()));
    assert_eq!(twice.insert_schema_component(String::from("Shared"), titled("Shared")), Ok(()));

    let after_first = document(once);
    let after_second = document(twice);
    assert_eq!(after_second.components.schemas.len(), 1);
    assert_eq!(
        after_second.components.schemas.get("Shared"),
        Some(&Either::Right(Either::Left(titled("Shared"))))
    );
    assert_eq!(after_second, after_first);
}

#[test]
fn merging_the_same_definitions_twice_changes_nothing() {
    let mut definitions = NameMap::new();
    definitions.insert(String::from("A"), of_type(InstanceType::String));
    definitions.insert(String::from("B"), of_type(InstanceType::Integer));

    let mut once = AsyncApiV3Builder::new(info());
    assert_eq!(once.merge_schema_components(definitions.clone()), Ok(()));
    let mut twice = AsyncApiV3Builder::new(info());
    assert_eq!(twice.merge_schema_components(definitions.clone()), Ok(()));
    assert_eq!(twice.merge_schema_components(definitions), Ok(()));

    let after_second = document(twice);
    assert_eq!(after_second.components.schemas.len(), 2);
    assert_eq!(after_second, document(once));
}

#[test]
fn differing_schemas_under_one_key_conflict_in_either_order() {
    let mut builder = AsyncApiV3Builder::new(info());
    assert_eq!(
        builder.insert_schema_component(String::from("Shape"), of_type(InstanceType::String)),
        Ok(())
    );
    assert_eq!(
        builder.insert_schema_component(String::from("Shape"), of_type(InstanceType::Integer)),
        Err(Error::DuplicateDefinition { key: String::from("Shape") })
    );
    assert_eq!(
        document(builder).components.schemas.get("Shape"),
        Some(&Either::Right(Either::Left(of_type(InstanceType::String))))
    );

    let mut builder = AsyncApiV3Builder::new(info());
    assert_eq!(
        builder.insert_schema_component(String::from("Shape"), of_type(InstanceType::Integer)),
        Ok(())
    );
    assert_eq!(
        builder.insert_schema_component(String::from("Shape"), of_type(InstanceType::String)),
        Err(Error::DuplicateDefinition { key: String::from("Shape") })
    );
    assert_eq!(
        document(builder).components.schemas.get("Shape"),
        Some(&Either::Right(Either::Left(of_type(InstanceType::Integer))))
    );
}

#[test]
fn schema_that_differs_from_itself_does_not_merge_twice() {
    let not_a_number = || {
        Schema::Object(SchemaObject {
            number: Some(Box::new(NumberValidation {
                multiple_of: Some(f64::NAN),
                ..Default::default()
            })),
            ..Default::default()
        })
    };
    let mut builder = AsyncApiV3Builder::new(info());
    assert_eq!(builder.insert_schema_component(String::from("Odd"), not_a_number()), Ok(()));
    assert_eq!(
        builder.insert_schema_component(String::from("Odd"), not_a_number()),
        Err(Error::DuplicateDefinition { key: String::from("Odd") })
    );
}

#[test]
fn schema_does_not_merge_over_another_kind_of_entry() {
    let mut components = Components::default();
    components.schemas.insert(
        String::from("Pointer"),
        Either::Left(ReferenceObject { reference: String::from("#/components/schemas/Other") }),
    );
    components.schemas.insert(
        String::from("Avro"),
        Either::Right(Either::Right(MultiFormatSchema {
            schema_format: String::from("application/vnd.apache.avro;version=1.9.0"),
            schema: serde_json::Value::Null,
        })),
    );
    let mut builder = AsyncApiV3Builder::new(info()).components(components);
    assert_eq!(
        builder.insert_schema_component(String::from("Pointer"), Schema::Bool(true)),
        Err(Error::DuplicateDefinition { key: String::from("Pointer") })
    );
    assert_eq!(
        builder.insert_schema_component(String::from("Avro"), Schema::Bool(true)),
        Err(Error::DuplicateDefinition { key: String::from("Avro") })
    );
    assert_eq!(document(builder).components.schemas.len(), 2);
}

#[test]
fn merge_stops_at_the_first_conflict_and_keeps_what_came_before() {
    let mut builder = AsyncApiV3Builder::new(info());
    builder.insert_schema_component(String::from("B"), of_type(InstanceType::String)).unwrap();

    let mut definitions = NameMap::new();
    definitions.insert(String::from("A"), of_type(InstanceType::Boolean));
    definitions.insert(String::from("B"), of_type(InstanceType::Integer));
    definitions.insert(String::from("C"), of_type(InstanceType::Number));
    assert_eq!(
        builder.merge_schema_components(definitions),
        Err(Error::DuplicateDefinition { key: String::from("B") })
    );

    let built = document(builder);
    assert_eq!(built.components.schemas.len(), 2);
    assert_eq!(
        built.components.schemas.get("A"),
        Some(&Either::Right(Either::Left(of_type(InstanceType::Boolean))))
    );
    assert_eq!(
        built.components.schemas.get("B"),
        Some(&Either::Right(Either::Left(of_type(InstanceType::String))))
    );
    assert!(!built.components.schemas.contains_key("C"));
}

#[test]
fn conflict_in_the_request_stops_before_channels_and_operations() {
    let mut builder = AsyncApiV3Builder::new(info());
    builder.register_channel("Repl", empty_channel());
    builder.insert_schema_component(String::from("Shared"), of_type(InstanceType::String)).unwrap();
    let outcome = builder.register_simple_req_rep_operation(
        operation("Op", "op.address"),
        reply("Repl", "$message.payload#/reply"),
        with_definition("Shared", of_type(InstanceType::Integer)),
        with_definition("Late", of_type(InstanceType::Integer)),
    );
    assert_eq!(outcome, Err(Error::DuplicateDefinition { key: String::from("Shared") }));
    let built = document(builder);
    assert_eq!(built.channels.len(), 1);
    assert!(built.operations.is_empty());
    assert_eq!(built.components.schemas.len(), 1);
}

#[test]
fn conflict_in_the_response_keeps_the_schemas_of_the_request() {
    let mut builder = AsyncApiV3Builder::new(info());
    builder.register_channel("Repl", empty_channel());
    builder.insert_schema_component(String::from("Shared"), of_type(InstanceType::String)).unwrap();
    let outcome = builder.register_simple_req_rep_operation(
        operation("Op", "op.address"),
        reply("Repl", "$message.payload#/reply"),
        with_definition("Early", of_type(InstanceType::Integer)),
        with_definition("Shared", of_type(InstanceType::Integer)),
    );
    assert_eq!(outcome, Err(Error::DuplicateDefinition { key: String::from("Shared") }));
    let built = document(builder);
    assert!(built.components.schemas.contains_key("Early"));
    assert_eq!(built.components.schemas.len(), 2);
    assert_eq!(built.channels.len(), 1);
    assert!(built.operations.is_empty());
}

#[test]
fn missing_reply_channel_leaves_channels_and_operations_as_they_were() {
    let mut builder = AsyncApiV3Builder::new(info());
    builder.register_channel("Other", empty_channel());
    let outcome = builder.register_simple_req_rep_operation(
        operation("Op", "op.address"),
        reply("Nowhere", "$message.payload#/reply"),
        with_definition("Kept", of_type(InstanceType::Integer)),
        bare(None),
    );
    assert_eq!(outcome, Err(Error::ChannelNotFound { name: String::from("Nowhere") }));
    let built = document(builder);
    assert_eq!(built.channels.len(), 1);
    assert!(!built.channels.contains_key("Op"));
    assert_eq!(built.channels.get("Other"), Some(&Either::Right(empty_channel())));
    assert!(built.operations.is_empty());
    assert!(built.components.schemas.contains_key("Kept"));
}

#[test]
fn missing_reply_channel_keeps_a_channel_of_the_operation_name() {
    let mut standing = empty_channel();
    standing.title = Some(String::from("standing"));
    let mut builder = AsyncApiV3Builder::new(info());
    builder.register_channel("Op", standing.clone());
    let outcome = builder.register_simple_req_rep_operation(
        operation("Op", "op.address"),
        reply("Nowhere", "$message.payload#/reply"),
        bare(None),
        bare(None),
    );
    assert_eq!(outcome, Err(Error::ChannelNotFound { name: String::from("Nowhere") }));
    let built = document(builder);
    assert_eq!(built.channels.len(), 1);
    assert_eq!(built.channels.get("Op"), Some(&Either::Right(standing)));
    assert!(built.operations.is_empty());
}

#[test]
fn reply_channel_that_is_only_a_pointer_is_not_found() {
    let mut builder = AsyncApiV3Builder::new(info());
    builder.register_channel_ref("Repl", ReferenceObject::new_channel("Other"));
    let outcome = builder.register_simple_req_rep_operation(
        operation("Op", "op.address"),
        reply("Repl", "$message.payload#/reply"),
        bare(None),
        bare(None),
    );
    assert_eq!(outcome, Err(Error::ChannelNotFound { name: String::from("Repl") }));
    let built = document(builder);
    assert_eq!(built.channels.len(), 1);
    assert!(!built.channels.contains_key("Op"));
    assert_eq!(
        built.channels.get("Repl"),
        Some(&Either::Left(ReferenceObject { reference: String::from("#/channels/Other") }))
    );
    assert!(built.operations.is_empty());
}

#[test]
fn reply_channel_of_the_operation_name_must_be_there_beforehand() {
    let mut builder = AsyncApiV3Builder::new(info());
    let outcome = builder.register_simple_req_rep_operation(
        operation("Loop", "loop.address"),
        reply("Loop", "$message.payload#/reply"),
        bare(None),
        bare(None),
    );
    assert_eq!(outcome, Err(Error::ChannelNotFound { name: String::from("Loop") }));
    let built = document(builder);
    assert!(built.channels.is_empty());
    assert!(built.operations.is_empty());
}

#[test]
fn reply_on_the_channel_of_the_request_files_both_messages_there() {
    let mut standing = empty_channel();
    standing.title = Some(String::from("standing"));
    standing.messages.insert(String::from("Old"), Either::Right(message(None)));
    let mut builder = AsyncApiV3Builder::new(info());
    builder.register_channel("Loop", standing);
    let outcome = builder.register_simple_req_rep_operation(
        operation("Loop", "loop.address"),
        reply("Loop", "$message.payload#/reply"),
        bare(None),
        bare(None),
    );
    assert_eq!(outcome, Ok(()));
    let built = document(builder);
    assert_eq!(built.channels.len(), 1);
    let channel = inline_channel(&built, "Loop");
    assert_eq!(channel.messages.len(), 2);
    assert!(channel.messages.contains_key("Loop.req"));
    assert!(channel.messages.contains_key("Loop.res"));
    assert!(!channel.messages.contains_key("Old"));
    assert_eq!(channel.address, Some(String::from("loop.address")));
    assert_eq!(channel.title, None);
    let registered = inline_operation(&built, "Loop");
    assert_eq!(registered.channel.reference, "#/channels/Loop");
}

#[test]
fn conflicting_schema_is_reported_before_a_missing_reply_channel() {
    let mut builder = AsyncApiV3Builder::new(info());
    builder.insert_schema_component(String::from("Shared"), of_type(InstanceType::String)).unwrap();
    let outcome = builder.register_simple_req_rep_operation(
        operation("Op", "op.address"),
        reply("Nowhere", "$message.payload#/reply"),
        bare(None),
        with_definition("Shared", of_type(InstanceType::Integer)),
    );
    assert_eq!(outcome, Err(Error::DuplicateDefinition { key: String::from("Shared") }));
    let built = document(builder);
    assert!(built.channels.is_empty());
    assert!(built.operations.is_empty());
}

#[test]
fn registration_replaces_a_channel_of_the_same_name() {
    let mut builder = AsyncApiV3Builder::new(info());
    builder.register_channel("Repl", empty_channel());
    let mut old = empty_channel();
    old.title = Some(String::from("old"));
    builder.register_channel("Op", old);
    builder
        .register_simple_req_rep_operation(
            operation("Op", "op.address"),
            reply("Repl", "$message.payload#/reply"),
            bare(None),
            bare(None),
        )
        .unwrap();
    let built = document(builder);
    assert_eq!(inline_channel(&built, "Op").title, None);
    assert_eq!(built.channels.len(), 2);
}

#[test]
fn message_is_named_by_the_title_of_its_schema() {
    let titled_message = message(Some(Either::Right(Either::Left(titled("Ping")))));
    assert_eq!(message_name(&titled_message, "Op", ".req"), "Ping");
}

#[test]
fn message_without_a_declared_title_is_named_after_the_operation() {
    let untitled = message(Some(Either::Right(Either::Left(of_type(InstanceType::Object)))));
    assert_eq!(message_name(&untitled, "Op", ".req"), "Op.req");
    let boolean = message(Some(Either::Right(Either::Left(Schema::Bool(true)))));
    assert_eq!(message_name(&boolean, "Op", ".res"), "Op.res");
    let metadata_without_title = message(Some(Either::Right(Either::Left(Schema::Object(
        SchemaObject {
            metadata: Some(Box::new(Metadata {
                description: Some(String::from("described")),
                ..Default::default()
            })),
            ..Default::default()
        },
    )))));
    assert_eq!(message_name(&metadata_without_title, "Op", ".req"), "Op.req");
    assert_eq!(message_name(&message(None), "Op", ".req"), "Op.req");
}

#[test]
fn message_whose_payload_is_no_plain_schema_is_named_after_the_operation() {
    let pointer = message(Some(Either::Left(ReferenceObject {
        reference: String::from("#/components/schemas/Ping"),
    })));
    assert_eq!(message_name(&pointer, "Op", ".req"), "Op.req");
    let other_format = message(Some(Either::Right(Either::Right(MultiFormatSchema {
        schema_format: String::from("application/vnd.apache.avro;version=1.9.0"),
        schema: serde_json::Value::String(String::from("Ping")),
    }))));
    assert_eq!(message_name(&other_format, "Op", ".res"), "Op.res");
}

#[test]
fn title_or_default_prefers_the_title() {
    assert_eq!(title_or_default(Some(String::from("Title")), "Op", ".req"), "Title");
    assert_eq!(title_or_default(Some(String::new()), "Op", ".req"), "");
    assert_eq!(title_or_default(None, "Op", ".req"), "Op.req");
    assert_eq!(title_or_default(None, "", ".res"), ".res");
}

#[test]
fn titles_name_the_messages_of_a_registration() {
    let mut builder = AsyncApiV3Builder::new(info());
    builder.register_channel("Repl", empty_channel());
    builder
        .register_simple_req_rep_operation(
            operation("Op", "op.address"),
            reply("Repl", "$message.payload#/reply"),
            bare(Some(Either::Right(Either::Left(titled("Ask"))))),
            bare(Some(Either::Right(Either::Left(titled("Answer"))))),
        )
        .unwrap();
    let built = document(builder);
    assert!(inline_channel(&built, "Op").messages.contains_key("Ask"));
    assert!(inline_channel(&built, "Repl").messages.contains_key("Answer"));
    let registered = inline_operation(&built, "Op");
    assert_eq!(
        registered.messages,
        Some(vec![ReferenceObject { reference: String::from("#/channels/Op/messages/Ask") }])
    );
}

#[test]
fn new_builder_holds_the_info_and_nothing_else() {
    let built = document(AsyncApiV3Builder::new(info()));
    assert_eq!(built.id, None);
    assert_eq!(built.info, info());
    assert!(built.servers.is_empty());
    assert_eq!(built.default_content_type, None);
    assert!(built.channels.is_empty());
    assert!(built.operations.is_empty());
    assert_eq!(built.components, Components::default());
}

#[test]
fn metadata_setters_set_their_field() {
    let built = document(
        AsyncApiV3Builder::new(info())
            .id(String::from("urn:example:app"))
            .default_content_type(String::from("application/json")),
    );
    assert_eq!(built.id, Some(String::from("urn:example:app")));
    assert_eq!(built.default_content_type, Some(String::from("application/json")));
    assert_eq!(built.info, info());
}

fn server(host: &str) -> Server {
    Server {
        host: String::from(host),
        protocol: String::from("nats"),
        protocol_version: None,
        pathname: None,
        description: None,
        title: None,
        summary: None,
        variables: NameMap::new(),
        security: None,
        tags: vec![],
        external_docs: None,
        bindings: None,
    }
}

fn plain_operation(channel: &str) -> Operation {
    Operation {
        action: OperationAction::Receive,
        channel: ReferenceObject::new_channel(channel),
        title: None,
        summary: None,
        description: None,
        security: vec![],
        tags: vec![],
        external_docs: None,
        bindings: None,
        traits: vec![],
        messages: None,
        reply: None,
    }
}

#[test]
fn wholesale_setters_replace_the_map() {
    let mut servers = NameMap::new();
    servers.insert(String::from("main"), Either::Right(server("main.example")));
    let mut channels = NameMap::new();
    channels.insert(String::from("events"), Either::Right(empty_channel()));
    let mut operations = NameMap::new();
    operations.insert(String::from("listen"), Either::Right(plain_operation("events")));
    let mut components = Components::default();
    components.channels.insert(String::from("shared"), Either::Right(empty_channel()));

    let mut builder = AsyncApiV3Builder::new(info());
    builder.register_server("gone", server("gone.example"));
    builder.register_channel("gone", empty_channel());
    builder.register_operation("gone", plain_operation("gone"));
    let built = document(
        builder
            .servers(servers.clone())
            .channels(channels.clone())
            .operations(operations.clone())
            .components(components.clone()),
    );
    assert_eq!(built.servers, servers);
    assert_eq!(built.channels, channels);
    assert_eq!(built.operations, operations);
    assert_eq!(built.components, components);
    assert!(!built.servers.contains_key("gone"));
}

#[test]
fn registering_by_name_inserts_or_overwrites() {
    let mut builder = AsyncApiV3Builder::new(info());
    builder.register_server("main", server("first.example"));
    builder.register_server("main", server("second.example"));
    builder.register_server_ref(
        "backup",
        ReferenceObject { reference: String::from("#/components/servers/backup") },
    );
    builder.register_channel("events", empty_channel());
    builder.register_channel_ref("events", ReferenceObject::new_channel("other"));
    builder.register_operation_ref(
        "listen",
        ReferenceObject { reference: String::from("#/components/operations/listen") },
    );
    builder.register_operation("listen", plain_operation("events"));
    let built = document(builder);

    assert_eq!(built.servers.len(), 2);
    assert_eq!(built.servers.get("main"), Some(&Either::Right(server("second.example"))));
    assert_eq!(
        built.servers.get("backup"),
        Some(&Either::Left(ReferenceObject {
            reference: String::from("#/components/servers/backup")
        }))
    );
    assert_eq!(built.channels.len(), 1);
    assert_eq!(
        built.channels.get("events"),
        Some(&Either::Left(ReferenceObject { reference: String::from("#/channels/other") }))
    );
    assert_eq!(built.operations.len(), 1);
    assert_eq!(built.operations.get("listen"), Some(&Either::Right(plain_operation("events"))));
}

#[test]
fn build_tags_the_document_with_its_version() {
    let built = AsyncApiV3Builder::new(info()).build();
    assert!(matches!(built, AsyncApiSpec::V3_0_0(_)));
}

#[test]
fn schema_component_gives_what_the_key_holds() {
    let mut builder = AsyncApiV3Builder::new(info());
    assert_eq!(builder.schema_component("Shape"), None);
    builder.insert_schema_component(String::from("Shape"), of_type(InstanceType::String)).unwrap();
    assert_eq!(
        builder.schema_component("Shape"),
        Some(&Either::Right(Either::Left(of_type(InstanceType::String))))
    );
    assert_eq!(builder.schema_component("Other"), None);
}

fn definitions(entries: Vec<(&str, Schema)>) -> NameMap<Schema> {
    let mut definitions = NameMap::new();
    for (key, schema) in entries {
        definitions.insert(String::from(key), schema);
    }
    definitions
}

#[test]
fn two_lists_merge_alike_in_either_order() {
    let held = || ("Held", of_type(InstanceType::Boolean));
    let one = || {
        definitions(vec![
            held(),
            ("Shared", of_type(InstanceType::String)),
            ("OnlyOne", of_type(InstanceType::Integer)),
        ])
    };
    let other = || {
        definitions(vec![
            ("OnlyOther", of_type(InstanceType::Number)),
            ("Shared", of_type(InstanceType::String)),
            held(),
        ])
    };

    let mut forward = AsyncApiV3Builder::new(info());
    forward.insert_schema_component(String::from("Held"), of_type(InstanceType::Boolean)).unwrap();
    assert_eq!(forward.merge_schema_components(one()), Ok(()));
    assert_eq!(forward.merge_schema_components(other()), Ok(()));

    let mut backward = AsyncApiV3Builder::new(info());
    backward.insert_schema_component(String::from("Held"), of_type(InstanceType::Boolean)).unwrap();
    assert_eq!(backward.merge_schema_components(other()), Ok(()));
    assert_eq!(backward.merge_schema_components(one()), Ok(()));

    let forward = document(forward);
    let backward = document(backward);
    assert_eq!(forward.components.schemas.len(), 4);
    assert_eq!(forward.components.schemas, backward.components.schemas);
    assert_eq!(forward, backward);
}

#[test]
fn two_lists_that_differ_under_a_shared_key_fail_in_either_order() {
    let one = || {
        definitions(vec![
            ("OnlyOne", of_type(InstanceType::Integer)),
            ("Shared", of_type(InstanceType::String)),
        ])
    };
    let other = || {
        definitions(vec![
            ("Shared", of_type(InstanceType::Object)),
            ("OnlyOther", of_type(InstanceType::Number)),
        ])
    };

    let mut forward = AsyncApiV3Builder::new(info());
    assert_eq!(forward.merge_schema_components(one()), Ok(()));
    assert_eq!(
        forward.merge_schema_components(other()),
        Err(Error::DuplicateDefinition { key: String::from("Shared") })
    );
    let forward = document(forward);
    assert_eq!(
        forward.components.schemas.get("Shared"),
        Some(&Either::Right(Either::Left(of_type(InstanceType::String))))
    );
    assert!(!forward.components.schemas.contains_key("OnlyOther"));

    let mut backward = AsyncApiV3Builder::new(info());
    assert_eq!(backward.merge_schema_components(other()), Ok(()));
    assert_eq!(
        backward.merge_schema_components(one()),
        Err(Error::DuplicateDefinition { key: String::from("Shared") })
    );
    let backward = document(backward);
    assert_eq!(
        backward.components.schemas.get("Shared"),
        Some(&Either::Right(Either::Left(of_type(InstanceType::Object))))
    );
    assert!(backward.components.schemas.contains_key("OnlyOne"));
}
