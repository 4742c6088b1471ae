//! JSON Schema values, which the document model carries but does not
//! look into. They come from the `schemars` and `serde_json` crates.
use schemars::schema::Schema;
use vstd::prelude::*;

verus! {

/// `schemars::schema::Schema`, a JSON Schema. Opaque to the verifier.
#[verifier::external_type_specification]
#[verifier::external_body]
pub struct ExSchema(schemars::schema::Schema);

/// `serde_json::Value`, any JSON value. Opaque to the verifier.
#[verifier::external_type_specification]
#[verifier::external_body]
pub struct ExJsonValue(serde_json::Value);

/// The title that a schema declares: the `title` of its metadata where
/// the schema is an object schema that has one, nothing otherwise.
pub uninterp spec fn schema_title(schema: Schema) -> Option<Seq<char>>;

/// What `==` of `schemars::schema::Schema` gives for two schemas: their
/// structural equality, field by field.
pub uninterp spec fn schema_same(a: Schema, b: Schema) -> bool;

/// Reads the declared title of a schema. Trusted: the body reads the
/// fields `metadata` and `title` of `schemars::schema::SchemaObject` and
/// `schemars::schema::Metadata`; the contract only names what it finds.
#[verifier::external_body]
pub(crate) fn declared_title(schema: &Schema) -> (r: Option<String>)
    ensures
        match r {
            Some(t) => schema_title(*schema) == Some(t@),
            None => schema_title(*schema) is None,
        },
{
    match schema {
        Schema::Object(object) => object.metadata.as_ref().and_then(|meta| meta.title.clone()),
        Schema::Bool(_) => None,
    }
}

/// `==` of `schemars::schema::Schema`, which the crate derives. Trusted:
/// the contract only names the result.
pub assume_specification[ <Schema as PartialEq>::eq ](a: &Schema, b: &Schema) -> (r: bool)
    ensures
        r == schema_same(*a, *b),
;

/// `clone` of `schemars::schema::Schema`. Nothing is claimed of the copy.
pub assume_specification[ <Schema as Clone>::clone ](schema: &Schema) -> (r: Schema)
;

/// `clone` of `serde_json::Value`. Nothing is claimed of the copy.
pub assume_specification[ <serde_json::Value as Clone>::clone ](value: &serde_json::Value) -> (r:
    serde_json::Value)
;

} // verus!
