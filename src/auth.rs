use vstd::prelude::*;
use crate::error::{auth, client_config, AuthErrorKind, Error, Kind};

verus! {

/// The authority that issues tokens.
pub const AUTHORITY: &'static str = "https://login.microsoftonline.com/";

/// The resource scope asked for by the client-credentials flow.
pub const MANAGEMENT_SCOPE: &'static str = "https://management.core.windows.net/";

/// The delegated scope asked for by the device-code flow.
pub const USER_IMPERSONATION_SCOPE: &'static str =
    "https://management.core.windows.net/user_impersonation";

/// The scope that makes the device-code flow hand out a refresh token.
pub const OFFLINE_ACCESS_SCOPE: &'static str = "offline_access";

/// The token endpoint's path below a tenant.
pub const TOKEN_PATH: &'static str = "/oauth2/token";

/// The path of the token endpoint of the device-code flow below a tenant.
pub const DEVICE_TOKEN_PATH: &'static str = "/oauth2/v2.0/token";

/// The path of the device-authorization endpoint below a tenant.
pub const DEVICE_CODE_PATH: &'static str = "/oauth2/v2.0/devicecode";

/// The ways a client can authenticate.
#[derive(Debug, Clone, Copy, PartialEq, Eq, Structural)]
pub enum Method {
    /// The interactive device-code flow; it yields a refresh token.
    DeviceCode,
    /// The non-interactive client-credentials flow; it needs a client secret.
    ClientCredentials,
}

impl Method {
    /// The method's name.
    pub fn name(&self) -> (r: &'static str)
        ensures
            r@ == (match *self {
                Method::DeviceCode => "DeviceCode"@,
                Method::ClientCredentials => "ClientCredentials"@,
            }),
    {
        match self {
            Method::DeviceCode => "DeviceCode",
            Method::ClientCredentials => "ClientCredentials",
        }
    }
}

/// An access token and, for the device-code flow, a refresh token.
#[derive(Debug, Clone)]
pub struct AuthTokens {
    /// The access token.
    pub access_token: String,
    /// The refresh token, if the flow issued one.
    pub refresh_token: Option<String>,
}

/// A copy of an optional string.
pub(crate) fn copy_optional(s: &Option<String>) -> (r: Option<String>)
    ensures
        r == *s,
{
    match s {
        Some(v) => Some(v.clone()),
        None => None,
    }
}

impl AuthTokens {
    /// A field-for-field copy of the tokens.
    pub fn duplicate(&self) -> (r: AuthTokens)
        ensures
            r == *self,
    {
        AuthTokens {
            access_token: self.access_token.clone(),
            refresh_token: copy_optional(&self.refresh_token),
        }
    }
}

impl Default for AuthTokens {
    fn default() -> (r: Self)
        ensures
            r.access_token@ == "XXX"@,
            r.refresh_token is None,
    {
        AuthTokens { access_token: "XXX".to_owned(), refresh_token: None }
    }
}

/// The credential record that is persisted between runs: the identity and the
/// tokens last obtained for it.
#[derive(Debug, Clone)]
pub struct AzCredentials {
    /// The tenant.
    pub tenant_id: String,
    /// The client (application) identifier.
    pub client_id: String,
    /// The client secret, for the client-credentials flow.
    pub client_secret: Option<String>,
    /// The tokens.
    pub tokens: AuthTokens,
}

impl AzCredentials {
    /// A field-for-field copy of the record.
    pub fn duplicate(&self) -> (r: AzCredentials)
        ensures
            r == *self,
    {
        AzCredentials {
            tenant_id: self.tenant_id.clone(),
            client_id: self.client_id.clone(),
            client_secret: copy_optional(&self.client_secret),
            tokens: self.tokens.duplicate(),
        }
    }
}

/// What an authorization-server exchange needs: the identity and the scopes.
#[derive(Debug, Clone)]
pub struct Configuration {
    /// The tenant.
    pub tenant_id: String,
    /// The client (application) identifier.
    pub client_id: String,
    /// The client secret, present for the client-credentials flow only.
    pub client_secret: Option<String>,
    /// The scopes to ask for.
    pub scopes: Vec<String>,
}

/// `AUTHORITY`, the tenant, then `path`.
pub open spec fn tenant_url(tenant: Seq<char>, path: Seq<char>) -> Seq<char> {
    AUTHORITY@ + tenant + path
}

/// Builds the URL of an endpoint of the tenant.
fn endpoint(tenant: &String, path: &str) -> (r: String)
    ensures
        r@ == tenant_url(tenant@, path@),
{
    let mut url = AUTHORITY.to_owned();
    url.append(tenant.as_str());
    url.append(path);
    url
}

impl Configuration {
    /// A configuration for the given identity that asks for the management scope.
    pub fn new(tenant_id: &str, client_id: &str, client_secret: &Option<String>) -> (r: Self)
        ensures
            r.tenant_id@ == tenant_id@,
            r.client_id@ == client_id@,
            r.client_secret == *client_secret,
            r.scopes@.len() == 1,
            r.scopes@[0]@ == MANAGEMENT_SCOPE@,
    {
        let mut scopes: Vec<String> = Vec::new();
        scopes.push(MANAGEMENT_SCOPE.to_owned());
        Configuration {
            tenant_id: tenant_id.to_owned(),
            client_id: client_id.to_owned(),
            client_secret: copy_optional(client_secret),
            scopes,
        }
    }

    /// The token endpoint of the client-credentials and refresh exchanges.
    pub fn token_url(&self) -> (r: String)
        ensures
            r@ == tenant_url(self.tenant_id@, TOKEN_PATH@),
    {
        endpoint(&self.tenant_id, TOKEN_PATH)
    }

    /// The token endpoint of the device-code flow.
    pub fn device_token_url(&self) -> (r: String)
        ensures
            r@ == tenant_url(self.tenant_id@, DEVICE_TOKEN_PATH@),
    {
        endpoint(&self.tenant_id, DEVICE_TOKEN_PATH)
    }

    /// The device-authorization endpoint of the device-code flow.
    pub fn device_authorization_url(&self) -> (r: String)
        ensures
            r@ == tenant_url(self.tenant_id@, DEVICE_CODE_PATH@),
    {
        endpoint(&self.tenant_id, DEVICE_CODE_PATH)
    }

    /// The scopes the device-code flow asks for: delegated access to the
    /// management API, and offline access so that a refresh token is issued.
    pub fn device_code_scopes() -> (r: Vec<String>)
        ensures
            r@.len() == 2,
            r@[0]@ == USER_IMPERSONATION_SCOPE@,
            r@[1]@ == OFFLINE_ACCESS_SCOPE@,
    {
        let mut r: Vec<String> = Vec::new();
        r.push(USER_IMPERSONATION_SCOPE.to_owned());
        r.push(OFFLINE_ACCESS_SCOPE.to_owned());
        r
    }
}

impl Default for Configuration {
    fn default() -> (r: Self)
        ensures
            r.tenant_id@ == "XXX"@,
            r.client_id@ == "XXX"@,
            r.client_secret is Some,
            r.client_secret->Some_0@ == "XXX"@,
            r.scopes@.len() == 1,
            r.scopes@[0]@ == MANAGEMENT_SCOPE@,
    {
        let mut scopes: Vec<String> = Vec::new();
        scopes.push(MANAGEMENT_SCOPE.to_owned());
        Configuration {
            tenant_id: "XXX".to_owned(),
            client_id: "XXX".to_owned(),
            client_secret: Some("XXX".to_owned()),
            scopes,
        }
    }
}

/// The exchanges with the authorization server.
#[derive(Debug, Clone, Copy, PartialEq, Eq, Structural)]
pub enum Exchange {
    /// A client-credentials login.
    ClientCredentials,
    /// A device-code login.
    DeviceCode,
    /// A refresh-token exchange.
    Refresh,
}

/// How an exchange with the authorization server failed.
#[derive(Debug, Clone, Copy, PartialEq, Eq, Structural)]
pub enum OAuthFailure {
    /// The OAuth2 client could not be built: its authorization or
    /// device-authorization endpoint is malformed.
    InvalidClientConfig,
    /// The token endpoint could not be formed, or the device-code request
    /// could not be set up.
    InvalidEndpoint,
    /// The server rejected the exchange, or the device authorization was denied
    /// or expired.
    Rejected,
}

/// The kind of error reported for a failed exchange: a client that cannot be
/// built is a client-configuration error; a rejected client-credentials login
/// is a bad identity, a rejected refresh a bad refresh, and everything else an
/// authentication bad request.
pub open spec fn failure_kind(exchange: Exchange, failure: OAuthFailure) -> Kind {
    match (exchange, failure) {
        (_, OAuthFailure::InvalidClientConfig) => Kind::ClientCreateError,
        (Exchange::ClientCredentials, OAuthFailure::Rejected) => Kind::AuthenticationError(
            AuthErrorKind::BadCredentials,
        ),
        (Exchange::Refresh, OAuthFailure::Rejected) => Kind::AuthenticationError(
            AuthErrorKind::BadRefresh,
        ),
        _ => Kind::AuthenticationError(AuthErrorKind::BadRequest),
    }
}

/// The error reported for a failed exchange.
pub fn exchange_error(exchange: Exchange, failure: OAuthFailure) -> (r: Error)
    ensures
        r.kind == failure_kind(exchange, failure),
{
    match (exchange, failure) {
        (_, OAuthFailure::InvalidClientConfig) => client_config(
            "could not form a valid authorization endpoint from the configuration",
        ),
        (Exchange::ClientCredentials, OAuthFailure::Rejected) => auth(
            AuthErrorKind::BadCredentials,
            "invalid tenant_id and client_id or secret combination provided",
        ),
        (Exchange::Refresh, OAuthFailure::Rejected) => auth(
            AuthErrorKind::BadRefresh,
            "refresh token provided could not be used to obtain a new access token",
        ),
        (_, OAuthFailure::InvalidEndpoint) => auth(
            AuthErrorKind::BadRequest,
            "could not parse token url or set up the exchange. it is likely invalid",
        ),
        _ => auth(AuthErrorKind::BadRequest, "could not authenticate user with devicecode auth"),
    }
}

} // verus!
