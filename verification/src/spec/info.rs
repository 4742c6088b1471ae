//! General information about the described application.
use crate::spec::common::{ExternalDocumentation, RefOr, Tag};
use vstd::prelude::*;

verus! {

/// Metadata about the application: what it is called, which version it
/// has, who stands behind it and under which terms it may be used.
#[derive(Clone, Debug, PartialEq)]
pub struct Info {
    /// The title of the application.
    pub title: String,
    /// The version of the application's API, not of the document format.
    pub version: String,
    /// A short description of the application. CommonMark may be used.
    pub description: Option<String>,
    /// The absolute URL of the terms of service.
    pub terms_of_service: Option<String>,
    /// Whom to contact about the API.
    pub contact: Option<Contact>,
    /// The license of the API.
    pub license: Option<License>,
    /// Tags for grouping applications.
    pub tags: Vec<Tag>,
    /// Further documentation of the API.
    pub external_docs: Option<RefOr<ExternalDocumentation>>,
}

/// A person or an organization to contact.
#[derive(Clone, Debug, PartialEq)]
pub struct Contact {
    /// The name of the person or organization.
    pub name: Option<String>,
    /// The absolute URL of the contact information.
    pub url: Option<String>,
    /// The email address of the person or organization.
    pub email: Option<String>,
}

/// The license of an API.
#[derive(Clone, Debug, PartialEq)]
pub struct License {
    /// The name of the license.
    pub name: String,
    /// The absolute URL of the license text.
    pub url: Option<String>,
}

} // verus!
