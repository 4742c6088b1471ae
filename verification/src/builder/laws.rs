//! What holds of merging schemas and of registering operations, whatever
//! the document.
use crate::builder::operation::{
    holds_channel,
    holds_schema,
    merge_schema,
    merge_schemas,
    message_key,
    registration,
    with_schemas,
    MessageFullSpec,
    OperationInfo,
    ReplyInfo,
    SchemaMap,
};
use crate::error::ErrorView;
use crate::spec::common::Either;
use crate::spec::DocumentView;
use crate::spec::schema::schema_same;
use schemars::schema::Schema;
use vstd::prelude::*;

verus! {

/// A schema always merges under a key that the reusable schemas do not
/// hold. Merging a schema that equals itself a second time under the same
/// key succeeds and changes nothing.
pub proof fn lemma_merge_schema_idempotent(registry: SchemaMap, key: Seq<char>, schema: Schema)
    requires
        schema_same(schema, schema),
    ensures
        !registry.contains_key(key) ==> merge_schema(registry, key, schema) is Some,
        merge_schema(registry, key, schema) matches Some(merged) ==> merge_schema(
            merged,
            key,
            schema,
        ) == Some(merged),
{
}

/// Two schemas merge one after the other under one key only if each of
/// them equals what the key then holds: the key held a schema equal to
/// both, or it was new and the first schema equals the second.
pub proof fn lemma_merge_schema_twice(
    registry: SchemaMap,
    key: Seq<char>,
    first: Schema,
    second: Schema,
)
    ensures
        merge_schema(registry, key, first) matches Some(merged) && merge_schema(
            merged,
            key,
            second,
        ) is Some ==> if registry.contains_key(key) {
            holds_schema(registry[key], first) && holds_schema(registry[key], second)
        } else {
            schema_same(first, second)
        },
{
}

/// Two schemas that differ do not both merge under a key that the
/// reusable schemas do not hold yet: whichever comes first is added, and
/// the other is refused.
pub proof fn lemma_merge_schema_conflict(
    registry: SchemaMap,
    key: Seq<char>,
    first: Schema,
    second: Schema,
)
    requires
        !registry.contains_key(key),
        !schema_same(first, second),
        !schema_same(second, first),
    ensures
        merge_schema(registry, key, first) matches Some(merged) && merge_schema(
            merged,
            key,
            second,
        ) is None,
        merge_schema(registry, key, second) matches Some(merged) && merge_schema(
            merged,
            key,
            first,
        ) is None,
{
}

/// True when the reusable schemas hold, under each of the keys, a schema
/// equal to the one that stands with the key.
pub open spec fn holds_all(
    registry: SchemaMap,
    keys: Seq<Seq<char>>,
    schemas: Seq<Schema>,
) -> bool {
    forall|i: int|
        0 <= i < keys.len() && i < schemas.len() ==> registry.contains_key(#[trigger] keys[i])
            && holds_schema(registry[keys[i]], schemas[i])
}

/// Merging never takes a key away nor changes what a key holds. Where the
/// whole list merged, and each of its schemas equals itself, the result
/// holds a schema equal to each of them under its key.
pub proof fn lemma_merge_schemas_extends(
    registry: SchemaMap,
    keys: Seq<Seq<char>>,
    schemas: Seq<Schema>,
)
    ensures
        forall|key: Seq<char>| #[trigger]
            registry.contains_key(key) ==> merge_schemas(registry, keys, schemas).0.contains_key(
                key,
            ) && merge_schemas(registry, keys, schemas).0[key] == registry[key],
        merge_schemas(registry, keys, schemas).1 is None && (forall|i: int|
            0 <= i < schemas.len() ==> schema_same(#[trigger] schemas[i], schemas[i]))
            ==> holds_all(merge_schemas(registry, keys, schemas).0, keys, schemas),
    decreases keys.len(),
{
    if keys.len() == 0 || schemas.len() == 0 {
    } else {
        match merge_schema(registry, keys[0], schemas[0]) {
            Some(merged) => {
                lemma_merge_schemas_extends(merged, keys.skip(1), schemas.skip(1));
                let last = merge_schemas(registry, keys, schemas).0;
                assert(last == merge_schemas(merged, keys.skip(1), schemas.skip(1)).0);
                assert forall|key: Seq<char>| #[trigger] registry.contains_key(key) implies
                    last.contains_key(key) && last[key] == registry[key] by {
                    assert(merged.contains_key(key) && merged[key] == registry[key]);
                }
                if merge_schemas(registry, keys, schemas).1 is None && (forall|i: int|
                    0 <= i < schemas.len() ==> schema_same(#[trigger] schemas[i], schemas[i])) {
                    assert forall|i: int| 0 <= i < keys.len() && i < schemas.len() implies
                        last.contains_key(#[trigger] keys[i]) && holds_schema(
                        last[keys[i]],
                        schemas[i],
                    ) by {
                        if i == 0 {
                            assert(schema_same(schemas[0], schemas[0]));
                            assert(merged.contains_key(keys[0]));
                        } else {
                            assert(forall|j: int|
                                0 <= j < schemas.skip(1).len() ==> schema_same(
                                    #[trigger] schemas.skip(1)[j],
                                    schemas.skip(1)[j],
                                )) by {
                                assert forall|j: int| 0 <= j < schemas.skip(1).len() implies
                                    schema_same(
                                    #[trigger] schemas.skip(1)[j],
                                    schemas.skip(1)[j],
                                ) by {
                                    assert(schemas.skip(1)[j] == schemas[j + 1]);
                                }
                            }
                            assert(keys.skip(1)[i - 1] == keys[i]);
                            assert(schemas.skip(1)[i - 1] == schemas[i]);
                        }
                    }
                }
            },
            None => {},
        }
    }
}

/// Where the reusable schemas hold a schema equal to each one of a list
/// under its key, merging the list succeeds and changes nothing.
pub proof fn lemma_merge_schemas_held(
    registry: SchemaMap,
    keys: Seq<Seq<char>>,
    schemas: Seq<Schema>,
)
    requires
        holds_all(registry, keys, schemas),
    ensures
        merge_schemas(registry, keys, schemas) == (registry, None::<Seq<char>>),
    decreases keys.len(),
{
    if keys.len() == 0 || schemas.len() == 0 {
    } else {
        assert(registry.contains_key(keys[0]) && holds_schema(registry[keys[0]], schemas[0]));
        assert forall|i: int| 0 <= i < keys.skip(1).len() && i < schemas.skip(1).len() implies
            registry.contains_key(#[trigger] keys.skip(1)[i]) && holds_schema(
            registry[keys.skip(1)[i]],
            schemas.skip(1)[i],
        ) by {
            assert(keys.skip(1)[i] == keys[i + 1]);
            assert(schemas.skip(1)[i] == schemas[i + 1]);
        }
        lemma_merge_schemas_held(registry, keys.skip(1), schemas.skip(1));
    }
}

/// Merging a list of named schemas a second time succeeds and changes
/// nothing, provided it merged the first time and each of its schemas
/// equals itself.
pub proof fn lemma_merge_schemas_idempotent(
    registry: SchemaMap,
    keys: Seq<Seq<char>>,
    schemas: Seq<Schema>,
)
    requires
        forall|i: int| 0 <= i < schemas.len() ==> schema_same(#[trigger] schemas[i], schemas[i]),
        merge_schemas(registry, keys, schemas).1 is None,
    ensures
        merge_schemas(merge_schemas(registry, keys, schemas).0, keys, schemas) == (
            merge_schemas(registry, keys, schemas).0,
            None::<Seq<char>>,
        ),
{
    lemma_merge_schemas_extends(registry, keys, schemas);
    lemma_merge_schemas_held(merge_schemas(registry, keys, schemas).0, keys, schemas);
}

/// True when each schema of the list whose key the reusable schemas hold
/// equals what the key holds.
pub open spec fn agrees_with(
    registry: SchemaMap,
    keys: Seq<Seq<char>>,
    schemas: Seq<Schema>,
) -> bool {
    forall|i: int|
        0 <= i < keys.len() && registry.contains_key(#[trigger] keys[i]) ==> holds_schema(
            registry[keys[i]],
            schemas[i],
        )
}

/// The reusable schemas with the list added: what they hold stays, and
/// each key that they do not hold gets the schema that stands with it.
pub open spec fn extended_by(
    registry: SchemaMap,
    keys: Seq<Seq<char>>,
    schemas: Seq<Schema>,
) -> SchemaMap {
    Map::new(
        |key: Seq<char>| registry.contains_key(key) || keys.contains(key),
        |key: Seq<char>|
            if registry.contains_key(key) {
                registry[key]
            } else {
                Either::Right(Either::Left(schemas[keys.index_of(key)]))
            },
    )
}

/// In a list without duplicates, an item is found at its own place.
proof fn lemma_index_of_own_place(keys: Seq<Seq<char>>, i: int)
    requires
        keys.no_duplicates(),
        0 <= i < keys.len(),
    ensures
        keys.contains(keys[i]),
        keys.index_of(keys[i]) == i,
{
    assert(keys.contains(keys[i]));
    let found = keys.index_of(keys[i]);
    assert(0 <= found < keys.len() && keys[found] == keys[i]);
}

/// A list of named schemas, each key once, merges exactly when each of
/// them whose key is held already equals what the key holds. The result
/// is then the reusable schemas with the list added.
pub proof fn lemma_merge_schemas_outcome(
    registry: SchemaMap,
    keys: Seq<Seq<char>>,
    schemas: Seq<Schema>,
)
    requires
        keys.no_duplicates(),
        keys.len() == schemas.len(),
    ensures
        merge_schemas(registry, keys, schemas).1 is None <==> agrees_with(registry, keys, schemas),
        agrees_with(registry, keys, schemas) ==> merge_schemas(registry, keys, schemas).0
            == extended_by(registry, keys, schemas),
    decreases keys.len(),
{
    if keys.len() == 0 {
        assert(extended_by(registry, keys, schemas) =~= registry);
    } else {
        let rest = keys.skip(1);
        let rest_schemas = schemas.skip(1);
        assert forall|i: int| 0 <= i < rest.len() implies rest[i] == keys[i + 1] && rest[i]
            != keys[0] && rest_schemas[i] == schemas[i + 1] by {}
        assert(rest.no_duplicates()) by {
            assert forall|i: int, j: int|
                0 <= i < rest.len() && 0 <= j < rest.len() && i != j implies rest[i] != rest[j] by {
                assert(rest[i] == keys[i + 1] && rest[j] == keys[j + 1]);
            }
        }
        match merge_schema(registry, keys[0], schemas[0]) {
            None => {
                assert(registry.contains_key(keys[0]));
            },
            Some(merged) => {
                lemma_merge_schemas_outcome(merged, rest, rest_schemas);
                if agrees_with(registry, keys, schemas) {
                    assert forall|i: int|
                        0 <= i < rest.len() && merged.contains_key(
                            #[trigger] rest[i],
                        ) implies holds_schema(merged[rest[i]], rest_schemas[i]) by {
                        assert(rest[i] == keys[i + 1]);
                        assert(registry.contains_key(keys[i + 1]));
                    }
                    let left = extended_by(merged, rest, rest_schemas);
                    let right = extended_by(registry, keys, schemas);
                    assert forall|key: Seq<char>| left.contains_key(key) == right.contains_key(
                        key,
                    ) by {
                        if rest.contains(key) {
                            let j = rest.index_of(key);
                            assert(keys[j + 1] == key);
                        }
                        if keys.contains(key) {
                            let j = keys.index_of(key);
                            if j > 0 {
                                assert(rest[j - 1] == key);
                            }
                        }
                        assert(keys.contains(keys[0]));
                    }
                    assert forall|key: Seq<char>| left.contains_key(key) implies left[key]
                        == right[key] by {
                        if registry.contains_key(key) {
                        } else if key == keys[0] {
                            lemma_index_of_own_place(keys, 0);
                        } else {
                            assert(rest.contains(key));
                            let j = rest.index_of(key);
                            assert(rest[j] == key);
                            lemma_index_of_own_place(keys, j + 1);
                        }
                    }
                    assert(left =~= right);
                }
                if agrees_with(merged, rest, rest_schemas) {
                    assert forall|i: int|
                        0 <= i < keys.len() && registry.contains_key(
                            #[trigger] keys[i],
                        ) implies holds_schema(registry[keys[i]], schemas[i]) by {
                        if i > 0 {
                            assert(rest[i - 1] == keys[i]);
                            assert(merged.contains_key(rest[i - 1]));
                        }
                    }
                }
            },
        }
    }
}

/// True when two lists of named schemas can both be merged into the
/// reusable schemas, the first before the second: each schema whose key is
/// held already equals what the key holds, and where the two lists share
/// a key that is not held, the schema of the first equals, compared in
/// that order, the schema of the second.
pub open spec fn consistent(
    registry: SchemaMap,
    keys: Seq<Seq<char>>,
    schemas: Seq<Schema>,
    later_keys: Seq<Seq<char>>,
    later_schemas: Seq<Schema>,
) -> bool {
    &&& agrees_with(registry, keys, schemas)
    &&& agrees_with(registry, later_keys, later_schemas)
    &&& forall|i: int, j: int|
        0 <= i < keys.len() && 0 <= j < later_keys.len() && #[trigger] keys[i]
            == #[trigger] later_keys[j] && !registry.contains_key(keys[i]) ==> schema_same(
            schemas[i],
            later_schemas[j],
        )
}

/// The reusable schemas after two lists of named schemas were merged,
/// one after the other. Nothing where one of the two merges stops at a
/// schema that cannot be merged.
pub open spec fn merge_both(
    registry: SchemaMap,
    keys: Seq<Seq<char>>,
    schemas: Seq<Schema>,
    later_keys: Seq<Seq<char>>,
    later_schemas: Seq<Schema>,
) -> Option<SchemaMap> {
    let first = merge_schemas(registry, keys, schemas);
    let second = merge_schemas(first.0, later_keys, later_schemas);
    if first.1 is None && second.1 is None {
        Some(second.0)
    } else {
        None
    }
}

/// Two lists of named schemas, each key once in its list, merge one after
/// the other exactly when they are consistent with the reusable schemas
/// and with each other. The result is then the reusable schemas with the
/// first list added, and then the second.
pub proof fn lemma_merge_both_outcome(
    registry: SchemaMap,
    keys: Seq<Seq<char>>,
    schemas: Seq<Schema>,
    later_keys: Seq<Seq<char>>,
    later_schemas: Seq<Schema>,
)
    requires
        keys.no_duplicates(),
        keys.len() == schemas.len(),
        later_keys.no_duplicates(),
        later_keys.len() == later_schemas.len(),
    ensures
        merge_both(registry, keys, schemas, later_keys, later_schemas) is Some <==> consistent(
            registry,
            keys,
            schemas,
            later_keys,
            later_schemas,
        ),
        merge_both(registry, keys, schemas, later_keys, later_schemas) matches Some(merged)
            ==> merged == extended_by(
            extended_by(registry, keys, schemas),
            later_keys,
            later_schemas,
        ),
{
    lemma_merge_schemas_outcome(registry, keys, schemas);
    if agrees_with(registry, keys, schemas) {
        let first = extended_by(registry, keys, schemas);
        lemma_merge_schemas_outcome(first, later_keys, later_schemas);
        if agrees_with(first, later_keys, later_schemas) {
            assert forall|j: int|
                0 <= j < later_keys.len() && registry.contains_key(
                    #[trigger] later_keys[j],
                ) implies holds_schema(registry[later_keys[j]], later_schemas[j]) by {
                assert(first.contains_key(later_keys[j]));
            }
            assert forall|i: int, j: int|
                0 <= i < keys.len() && 0 <= j < later_keys.len() && #[trigger] keys[i]
                    == #[trigger] later_keys[j] && !registry.contains_key(
                    keys[i],
                ) implies schema_same(schemas[i], later_schemas[j]) by {
                lemma_index_of_own_place(keys, i);
                assert(first.contains_key(later_keys[j]));
                assert(holds_schema(first[later_keys[j]], later_schemas[j]));
            }
        }
        if consistent(registry, keys, schemas, later_keys, later_schemas) {
            assert forall|j: int|
                0 <= j < later_keys.len() && first.contains_key(
                    #[trigger] later_keys[j],
                ) implies holds_schema(first[later_keys[j]], later_schemas[j]) by {
                if !registry.contains_key(later_keys[j]) {
                    assert(keys.contains(later_keys[j]));
                    let i = keys.index_of(later_keys[j]);
                    assert(keys[i] == later_keys[j]);
                    assert(schema_same(schemas[i], later_schemas[j]));
                }
            }
        }
    }
}

/// True when two maps of reusable schemas hold the same keys and, under
/// each key, the same entry or two schemas of which the first equals the
/// second.
pub open spec fn same_entries(one: SchemaMap, other: SchemaMap) -> bool {
    &&& forall|key: Seq<char>| one.contains_key(key) == other.contains_key(key)
    &&& forall|key: Seq<char>| #[trigger]
        one.contains_key(key) ==> one[key] == other[key] || (other[key] matches Either::Right(
            Either::Left(schema),
        ) && holds_schema(one[key], schema))
}

/// Merging two lists of named schemas does not depend on which comes
/// first, provided that comparing a schema of the one with a schema of
/// the other under the same key gives the same answer in either order:
/// the two lists merge in one order exactly when they merge in the other,
/// and then the results hold the same keys with equal schemas.
pub proof fn lemma_merge_schemas_commute(
    registry: SchemaMap,
    keys: Seq<Seq<char>>,
    schemas: Seq<Schema>,
    other_keys: Seq<Seq<char>>,
    other_schemas: Seq<Schema>,
)
    requires
        keys.no_duplicates(),
        keys.len() == schemas.len(),
        other_keys.no_duplicates(),
        other_keys.len() == other_schemas.len(),
        forall|i: int, j: int|
            0 <= i < keys.len() && 0 <= j < other_keys.len() && #[trigger] keys[i]
                == #[trigger] other_keys[j] ==> schema_same(schemas[i], other_schemas[j])
                == schema_same(other_schemas[j], schemas[i]),
    ensures
        merge_both(registry, keys, schemas, other_keys, other_schemas) is Some <==> merge_both(
            registry,
            other_keys,
            other_schemas,
            keys,
            schemas,
        ) is Some,
        merge_both(registry, keys, schemas, other_keys, other_schemas) is Some ==> same_entries(
            merge_both(registry, keys, schemas, other_keys, other_schemas)->0,
            merge_both(registry, other_keys, other_schemas, keys, schemas)->0,
        ),
{
    lemma_merge_both_outcome(registry, keys, schemas, other_keys, other_schemas);
    lemma_merge_both_outcome(registry, other_keys, other_schemas, keys, schemas);
    if consistent(registry, keys, schemas, other_keys, other_schemas) {
        assert forall|j: int, i: int|
            0 <= j < other_keys.len() && 0 <= i < keys.len() && #[trigger] other_keys[j]
                == #[trigger] keys[i] && !registry.contains_key(
                other_keys[j],
            ) implies schema_same(other_schemas[j], schemas[i]) by {
            assert(schema_same(schemas[i], other_schemas[j]));
        }
    }
    if consistent(registry, other_keys, other_schemas, keys, schemas) {
        assert forall|i: int, j: int|
            0 <= i < keys.len() && 0 <= j < other_keys.len() && #[trigger] keys[i]
                == #[trigger] other_keys[j] && !registry.contains_key(
                keys[i],
            ) implies schema_same(schemas[i], other_schemas[j]) by {
            assert(schema_same(other_schemas[j], schemas[i]));
        }
    }
    if merge_both(registry, keys, schemas, other_keys, other_schemas) is Some {
        let one = extended_by(extended_by(registry, keys, schemas), other_keys, other_schemas);
        let other = extended_by(extended_by(registry, other_keys, other_schemas), keys, schemas);
        assert forall|key: Seq<char>| #[trigger] one.contains_key(key) implies one[key]
            == other[key] || (other[key] matches Either::Right(Either::Left(schema))
            && holds_schema(one[key], schema)) by {
            if !registry.contains_key(key) && keys.contains(key) && other_keys.contains(key) {
                let i = keys.index_of(key);
                let j = other_keys.index_of(key);
                assert(keys[i] == other_keys[j]);
                assert(schema_same(schemas[i], other_schemas[j]));
            }
        }
    }
}

/// A registration that ends with an error leaves the channels and the
/// operations of the document as they were, and everything else but the
/// reusable schemas. An operation of the same name in the document leaves
/// the reusable schemas as they were too.
pub proof fn lemma_failed_registration_is_atomic(
    document: DocumentView,
    operation: OperationInfo,
    reply_info: ReplyInfo,
    req: MessageFullSpec,
    res: MessageFullSpec,
)
    requires
        registration(document, operation, reply_info, req, res).1 is Some,
    ensures
        ({
            let after = registration(document, operation, reply_info, req, res).0;
            &&& after.channels == document.channels
            &&& after.operations == document.operations
            &&& after == with_schemas(document, after.components.schemas)
            &&& document.operations.contains_key(operation.name@) ==> after == document
        }),
{
}

/// A registration ends for want of the reply channel exactly when the
/// document holds no operation of that name, all schemas merge, and the
/// document holds no channel written in place under the reply channel's
/// name. It then names the reply channel, and no channel is made.
pub proof fn lemma_missing_reply_channel(
    document: DocumentView,
    operation: OperationInfo,
    reply_info: ReplyInfo,
    req: MessageFullSpec,
    res: MessageFullSpec,
)
    ensures
        ({
            let (after, error) = registration(document, operation, reply_info, req, res);
            let with_request = merge_schemas(
                document.components.schemas,
                req.definitions.names(),
                req.definitions.values(),
            );
            let with_both = merge_schemas(
                with_request.0,
                res.definitions.names(),
                res.definitions.values(),
            );
            &&& (error matches Some(ErrorView::ChannelNotFound { .. })) <==> {
                &&& !document.operations.contains_key(operation.name@)
                &&& with_request.1 is None
                &&& with_both.1 is None
                &&& !holds_channel(document.channels, reply_info.channel_name@)
            }
            &&& error matches Some(ErrorView::ChannelNotFound { name }) ==> {
                &&& name == reply_info.channel_name@
                &&& after == with_schemas(document, with_both.0)
            }
        }),
{
}

/// After an operation was registered, a second registration under the
/// same name is refused as a duplicate and leaves the document as the
/// first one made it, whatever else the second one brings.
pub proof fn lemma_second_registration_rejected(
    document: DocumentView,
    operation: OperationInfo,
    reply_info: ReplyInfo,
    req: MessageFullSpec,
    res: MessageFullSpec,
    operation2: OperationInfo,
    reply_info2: ReplyInfo,
    req2: MessageFullSpec,
    res2: MessageFullSpec,
)
    requires
        registration(document, operation, reply_info, req, res).1 is None,
        operation2.name@ == operation.name@,
    ensures
        registration(
            registration(document, operation, reply_info, req, res).0,
            operation2,
            reply_info2,
            req2,
            res2,
        ) == (
            registration(document, operation, reply_info, req, res).0,
            Some(ErrorView::DuplicateOperation { name: operation.name@ }),
        ),
{
}

/// After an operation was registered, the document holds it under its
/// name with pointers of the fixed shapes, and each pointer leads to what
/// the document holds: the channel of the operation's name with the
/// request in it, and the reply channel with the response in it.
pub proof fn lemma_registered_pointers(
    document: DocumentView,
    operation: OperationInfo,
    reply_info: ReplyInfo,
    req: MessageFullSpec,
    res: MessageFullSpec,
)
    requires
        registration(document, operation, reply_info, req, res).1 is None,
    ensures
        ({
            let after = registration(document, operation, reply_info, req, res).0;
            let name = operation.name@;
            let reply_channel = reply_info.channel_name@;
            let request_name = message_key(req.message, name, ".req"@);
            let response_name = message_key(res.message, name, ".res"@);
            &&& after.operations.contains_key(name)
            &&& after.operations[name] matches Either::Right(registered)
            &&& registered.channel == "#/channels/"@ + name
            &&& registered.messages == Some(
                seq!["#/channels/"@ + name + "/messages/"@ + request_name],
            )
            &&& registered.reply matches Some(Either::Right(reply))
            &&& reply.channel == Some("#/channels/"@ + reply_channel)
            &&& reply.messages == seq![
                "#/channels/"@ + reply_channel + "/messages/"@ + response_name,
            ]
            &&& after.channels.contains_key(name)
            &&& after.channels[name] matches Either::Right(request_channel)
            &&& request_channel.messages.contains_key(request_name)
            &&& after.channels.contains_key(reply_channel)
            &&& after.channels[reply_channel] matches Either::Right(response_channel)
            &&& response_channel.messages.contains_key(response_name)
        }),
{
}

} // verus!
