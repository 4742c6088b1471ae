//! Security schemes for operations.
use crate::spec::name_map::NameMap;
use vstd::prelude::*;

verus! {

/// How access to an operation is secured.
#[derive(Clone, Debug, PartialEq)]
pub enum SecurityScheme {
    /// A user name and a password.
    UserPassword {
        /// A short description. CommonMark may be used.
        description: Option<String>,
    },
    /// An API key.
    ApiKey {
        /// A short description. CommonMark may be used.
        description: Option<String>,
        /// Where the key is carried.
        location: ApiKeyLocation,
    },
    /// An X.509 certificate.
    X509 {
        /// A short description. CommonMark may be used.
        description: Option<String>,
    },
    /// Symmetric encryption.
    SymmetricEncryption {
        /// A short description. CommonMark may be used.
        description: Option<String>,
    },
    /// Asymmetric encryption.
    AsymmetricEncryption {
        /// A short description. CommonMark may be used.
        description: Option<String>,
    },
    /// An API key carried by HTTP.
    HttpApiKey {
        /// A short description. CommonMark may be used.
        description: Option<String>,
        /// The name of the header, query parameter or cookie.
        name: String,
        /// Where the key is carried.
        location: HttpApiKeyLocation,
    },
    /// HTTP authentication.
    Http {
        /// A short description. CommonMark may be used.
        description: Option<String>,
        /// The name of the HTTP authorization scheme.
        scheme: String,
        /// A hint about the format of a bearer token.
        bearer_format: Option<String>,
    },
    /// OAuth 2.
    Oauth2 {
        /// A short description. CommonMark may be used.
        description: Option<String>,
        /// The flow that is supported, with its configuration.
        flows: OAuthFlows,
        /// The names of the scopes that are needed.
        scopes: Vec<String>,
    },
    /// OpenID Connect.
    OpenIdConnect {
        /// A short description. CommonMark may be used.
        description: Option<String>,
        /// The absolute URL at which the configuration is discovered.
        open_id_connect_url: String,
        /// The names of the scopes that are needed.
        scopes: Vec<String>,
    },
    /// SASL with the mechanism PLAIN.
    Plain {
        /// A short description. CommonMark may be used.
        description: Option<String>,
    },
    /// SASL with the mechanism SCRAM-SHA-256.
    ScramSha256 {
        /// A short description. CommonMark may be used.
        description: Option<String>,
    },
    /// SASL with the mechanism SCRAM-SHA-512.
    ScramSha512 {
        /// A short description. CommonMark may be used.
        description: Option<String>,
    },
    /// SASL with the mechanism GSSAPI.
    Gssapi {
        /// A short description. CommonMark may be used.
        description: Option<String>,
    },
}

/// An OAuth 2 flow with its configuration.
#[derive(Clone, Debug, PartialEq)]
pub enum OAuthFlows {
    /// The implicit flow.
    Implicit {
        /// The absolute URL for authorization.
        authorization_url: String,
        /// The absolute URL at which tokens are refreshed.
        refresh_url: Option<String>,
        /// The scopes on offer, each with a short description.
        available_scopes: NameMap<String>,
    },
    /// The flow with the resource owner's password.
    Password {
        /// The absolute URL at which tokens are issued.
        token_url: String,
        /// The absolute URL at which tokens are refreshed.
        refresh_url: Option<String>,
        /// The scopes on offer, each with a short description.
        available_scopes: NameMap<String>,
    },
    /// The flow with the client's credentials.
    ClientCredentials {
        /// The absolute URL at which tokens are issued.
        token_url: String,
        /// The absolute URL at which tokens are refreshed.
        refresh_url: Option<String>,
        /// The scopes on offer, each with a short description.
        available_scopes: NameMap<String>,
    },
    /// The flow with an authorization code.
    AuthorizationCode {
        /// The absolute URL for authorization.
        authorization_url: String,
        /// The absolute URL at which tokens are issued.
        token_url: String,
        /// The absolute URL at which tokens are refreshed.
        refresh_url: Option<String>,
        /// The scopes on offer, each with a short description.
        available_scopes: NameMap<String>,
    },
}

/// Where an API key is carried.
#[derive(Clone, Debug, PartialEq)]
pub enum ApiKeyLocation {
    User,
    Password,
}

/// Where an API key is carried in an HTTP request.
#[derive(Clone, Debug, PartialEq)]
pub enum HttpApiKeyLocation {
    Query,
    Header,
    Cookie,
}

} // verus!
