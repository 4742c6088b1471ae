//! Servers: the brokers and hosts that the application talks to.
use crate::spec::common::{ExternalDocumentation, RefOr, Tag};
use crate::spec::name_map::NameMap;
use vstd::prelude::*;

verus! {

/// The servers of a document, by name.
pub type Servers = NameMap<RefOr<Server>>;

/// A broker or a host that the application connects to.
#[derive(Clone, Debug, PartialEq)]
pub struct Server {
    /// The host name; it may end in a colon and a number. Variables stand
    /// in braces.
    pub host: String,
    /// The protocol of the connection.
    pub protocol: String,
    /// The version of the protocol.
    pub protocol_version: Option<String>,
    /// The path to a resource on the host. Variables stand in braces.
    pub pathname: Option<String>,
    /// A description of the server. CommonMark may be used.
    pub description: Option<String>,
    /// A title for people.
    pub title: Option<String>,
    /// A short summary of the server.
    pub summary: Option<String>,
    /// The variables of host and path, by name.
    pub variables: NameMap<RefOr<Variable>>,
    /// The security scheme of the server.
    pub security: Option<RefOr<SecurityScheme>>,
    /// Tags for grouping servers.
    pub tags: Vec<Tag>,
    /// Further documentation of the server.
    pub external_docs: Option<RefOr<ExternalDocumentation>>,
    /// What each protocol defines for the server.
    pub bindings: Option<RefOr<ServerBinding>>,
}

/// A variable in the host or the path of a server.
#[derive(Clone, Debug, PartialEq)]
pub struct Variable {
    /// The values the variable may take, where they are few.
    pub enum_values: Option<Vec<String>>,
    /// The value used where none is supplied.
    pub default: Option<String>,
    /// A description of the variable. CommonMark may be used.
    pub description: Option<String>,
    /// Examples of values.
    pub examples: Vec<String>,
}

/// How access to a server is secured.
#[derive(Clone, Debug, PartialEq)]
pub enum SecurityScheme {
    /// A user name and a password.
    UserPassword {
        /// A short description. CommonMark may be used.
        description: Option<String>,
    },
    /// An API key.
    ApiKey {
        /// A short description. CommonMark may be used.
        description: Option<String>,
        /// Where the key is carried.
        location: ApiKeyLocation,
    },
    /// An X.509 certificate.
    X509 {
        /// A short description. CommonMark may be used.
        description: Option<String>,
    },
    /// Symmetric encryption.
    SymmetricEncryption {
        /// A short description. CommonMark may be used.
        description: Option<String>,
    },
    /// Asymmetric encryption.
    AsymmetricEncryption {
        /// A short description. CommonMark may be used.
        description: Option<String>,
    },
    /// An API key carried by HTTP.
    HttpApiKey {
        /// A short description. CommonMark may be used.
        description: Option<String>,
        /// The name of the header, query parameter or cookie.
        name: String,
        /// Where the key is carried.
        location: HttpApiKeyLocation,
    },
    /// HTTP authentication.
    Http {
        /// A short description. CommonMark may be used.
        description: Option<String>,
        /// The name of the HTTP authorization scheme.
        scheme: String,
        /// A hint about the format of a bearer token.
        bearer_format: Option<String>,
    },
    /// OAuth 2.
    Oauth2 {
        /// A short description. CommonMark may be used.
        description: Option<String>,
        /// The flow that is supported, with its configuration.
        flows: OAuthFlows,
        /// The names of the scopes that are needed.
        scopes: Vec<String>,
    },
    /// OpenID Connect.
    OpenIdConnect {
        /// A short description. CommonMark may be used.
        description: Option<String>,
        /// The absolute URL at which the configuration is discovered.
        open_id_connect_url: String,
        /// The names of the scopes that are needed.
        scopes: Vec<String>,
    },
    /// SASL with the mechanism PLAIN.
    Plain {
        /// A short description. CommonMark may be used.
        description: Option<String>,
    },
    /// SASL with the mechanism SCRAM-SHA-256.
    ScramSha256 {
        /// A short description. CommonMark may be used.
        description: Option<String>,
    },
    /// SASL with the mechanism SCRAM-SHA-512.
    ScramSha512 {
        /// A short description. CommonMark may be used.
        description: Option<String>,
    },
    /// SASL with the mechanism GSSAPI.
    Gssapi {
        /// A short description. CommonMark may be used.
        description: Option<String>,
    },
}

/// An OAuth 2 flow with its configuration.
#[derive(Clone, Debug, PartialEq)]
pub enum OAuthFlows {
    /// The implicit flow.
    Implicit {
        /// The absolute URL for authorization.
        authorization_url: String,
        /// The absolute URL at which tokens are refreshed.
        refresh_url: Option<String>,
        /// The scopes on offer, each with a short description.
        available_scopes: NameMap<String>,
    },
    /// The flow with the resource owner's password.
    Password {
        /// The absolute URL at which tokens are issued.
        token_url: String,
        /// The absolute URL at which tokens are refreshed.
        refresh_url: Option<String>,
        /// The scopes on offer, each with a short description.
        available_scopes: NameMap<String>,
    },
    /// The flow with the client's credentials.
    ClientCredentials {
        /// The absolute URL at which tokens are issued.
        token_url: String,
        /// The absolute URL at which tokens are refreshed.
        refresh_url: Option<String>,
        /// The scopes on offer, each with a short description.
        available_scopes: NameMap<String>,
    },
    /// The flow with an authorization code.
    AuthorizationCode {
        /// The absolute URL for authorization.
        authorization_url: String,
        /// The absolute URL at which tokens are issued.
        token_url: String,
        /// The absolute URL at which tokens are refreshed.
        refresh_url: Option<String>,
        /// The scopes on offer, each with a short description.
        available_scopes: NameMap<String>,
    },
}

/// Where an API key is carried.
#[derive(Clone, Debug, PartialEq)]
pub enum ApiKeyLocation {
    User,
    Password,
}

/// Where an API key is carried in an HTTP request.
#[derive(Clone, Debug, PartialEq)]
pub enum HttpApiKeyLocation {
    Query,
    Header,
    Cookie,
}

/// What each protocol defines for a server. No protocol is modelled yet.
#[derive(Clone, Debug, PartialEq)]
pub struct ServerBinding {
}

} // verus!
