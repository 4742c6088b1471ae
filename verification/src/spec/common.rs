//! Types shared by the whole document model.
use vstd::prelude::*;

verus! {

/// One of two alternatives.
#[derive(Debug, PartialEq)]
pub enum Either<L, R> {
    /// The first alternative.
    Left(L),
    /// The second alternative.
    Right(R),
}

impl<L: Clone, R: Clone> Clone for Either<L, R> {
    /// The same alternative, holding a clone of what `self` holds.
    fn clone(&self) -> (r: Self)
        ensures
            match (*self, r) {
                (Either::Left(a), Either::Left(b)) => cloned(a, b),
                (Either::Right(a), Either::Right(b)) => cloned(a, b),
                _ => false,
            },
    {
        match self {
            Either::Left(l) => Either::Left(l.clone()),
            Either::Right(r) => Either::Right(r.clone()),
        }
    }
}

/// A pointer to an object defined elsewhere in the document.
#[derive(Clone, Debug, PartialEq)]
pub struct ReferenceObject {
    /// The pointer: a JSON pointer in URI fragment form.
    pub reference: String,
}

/// Either a pointer to a `T` or a `T` written in place.
pub type RefOr<T> = Either<ReferenceObject, T>;

/// The pointer text of the channel named `channel_name`.
pub open spec fn channel_pointer(channel_name: Seq<char>) -> Seq<char> {
    "#/channels/"@ + channel_name
}

/// The pointer text of the reusable message named `message_name`.
pub open spec fn message_pointer(message_name: Seq<char>) -> Seq<char> {
    "#/components/messages/"@ + message_name
}

/// The pointer text of the message `message_name` of the channel
/// `channel_name`.
pub open spec fn channel_message_pointer(
    channel_name: Seq<char>,
    message_name: Seq<char>,
) -> Seq<char> {
    "#/channels/"@ + channel_name + "/messages/"@ + message_name
}

impl ReferenceObject {
    /// A pointer to a channel of the document.
    pub fn new_channel(channel_name: &str) -> (r: Self)
        ensures
            r.reference@ == channel_pointer(channel_name@),
    {
        let mut reference = String::from_str("#/channels/");
        reference.append(channel_name);
        ReferenceObject { reference }
    }

    /// A pointer to a reusable message of the document's components.
    pub fn new_message(message_name: &str) -> (r: Self)
        ensures
            r.reference@ == message_pointer(message_name@),
    {
        let mut reference = String::from_str("#/components/messages/");
        reference.append(message_name);
        ReferenceObject { reference }
    }

    /// A pointer to a message of a channel of the document.
    pub fn new_channel_message(channel_name: &str, message_name: &str) -> (r: Self)
        ensures
            r.reference@ == channel_message_pointer(channel_name@, message_name@),
    {
        let mut reference = String::from_str("#/channels/");
        reference.append(channel_name);
        reference.append("/messages/");
        reference.append(message_name);
        ReferenceObject { reference }
    }
}

/// A tag, for grouping.
#[derive(Clone, Debug, PartialEq)]
pub struct Tag {
    /// The name of the tag.
    pub name: String,
    /// A short description of the tag. CommonMark may be used.
    pub description: Option<String>,
    /// Further documentation for the tag.
    pub external_docs: Option<RefOr<ExternalDocumentation>>,
}

/// A link to documentation outside the document.
#[derive(Clone, Debug, PartialEq)]
pub struct ExternalDocumentation {
    /// A short description of the target. CommonMark may be used.
    pub description: Option<String>,
    /// The absolute URL of the target.
    pub url: String,
}

} // verus!
