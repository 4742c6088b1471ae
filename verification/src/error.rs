//! What can go wrong while a document is assembled.
use vstd::prelude::*;

verus! {

/// A registration that the builder refused.
#[derive(Clone, Debug, PartialEq, Eq)]
pub enum Error {
    /// The components hold another schema under this key.
    DuplicateDefinition { key: String },
    /// The document holds an operation of this name.
    DuplicateOperation { name: String },
    /// The document holds no channel of this name, or only a pointer.
    ChannelNotFound { name: String },
}

/// An error with its name as a sequence of characters.
pub enum ErrorView {
    DuplicateDefinition { key: Seq<char> },
    DuplicateOperation { name: Seq<char> },
    ChannelNotFound { name: Seq<char> },
}

impl View for Error {
    type V = ErrorView;

    open spec fn view(&self) -> ErrorView {
        match self {
            Error::DuplicateDefinition { key } => ErrorView::DuplicateDefinition { key: key@ },
            Error::DuplicateOperation { name } => ErrorView::DuplicateOperation { name: name@ },
            Error::ChannelNotFound { name } => ErrorView::ChannelNotFound { name: name@ },
        }
    }
}

impl ErrorView {
    /// The sentence that reports the error.
    pub open spec fn message(self) -> Seq<char> {
        match self {
            ErrorView::DuplicateDefinition { key } => "Duplicate definition entry '"@ + key + "'"@,
            ErrorView::DuplicateOperation { name } => "Duplicate operation entry '"@ + name + "'"@,
            ErrorView::ChannelNotFound { name } => "Channel not found '"@ + name + "'"@,
        }
    }
}

impl Error {
    /// The sentence that reports the error.
    pub fn message(&self) -> (r: String)
        ensures
            r@ == self@.message(),
    {
        match self {
            Error::DuplicateDefinition { key } => {
                let mut text = String::from_str("Duplicate definition entry '");
                text.append(key.as_str());
                text.append("'");
                text
            },
            Error::DuplicateOperation { name } => {
                let mut text = String::from_str("Duplicate operation entry '");
                text.append(name.as_str());
                text.append("'");
                text
            },
            Error::ChannelNotFound { name } => {
                let mut text = String::from_str("Channel not found '");
                text.append(name.as_str());
                text.append("'");
                text
            },
        }
    }
}

} // verus!
