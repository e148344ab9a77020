use vstd::prelude::*;
use crate::auth::{
    copy_optional, exchange_error, failure_kind, AuthTokens, AzCredentials, Configuration,
    Exchange, Method, OAuthFailure, MANAGEMENT_SCOPE,
};
use crate::error::{auth, AuthErrorKind, Error, Kind};

verus! {

/// The token lifecycle manager: an identity, the tokens currently known for it,
/// and the query settings of this installation.
///
/// Network, cache and credential-store work happens outside; each operation
/// here decides what to do next or takes in what that work produced.
#[derive(Debug, Clone)]
pub struct Client {
    /// The tenant.
    pub tenant_id: String,
    /// The client (application) identifier.
    pub client_id: String,
    /// The client secret; its presence selects the client-credentials flow.
    pub client_secret: Option<String>,
    /// The tokens currently known, if any.
    pub tokens: Option<AuthTokens>,
    /// The subscriptions that queries are restricted to, if any.
    pub subscriptions: Option<Vec<String>>,
    /// Whether a result cache is configured.
    pub caching: bool,
}

/// The method that an identity with or without a client secret authenticates with.
pub open spec fn method_for(secret: Option<String>) -> Method {
    match secret {
        Some(_) => Method::ClientCredentials,
        None => Method::DeviceCode,
    }
}

/// The tokens a login by `method` keeps: the client-credentials flow never
/// holds a refresh token, so any the server sent is dropped.
pub open spec fn kept_tokens(method: Method, t: AuthTokens) -> AuthTokens {
    match method {
        Method::ClientCredentials => AuthTokens { access_token: t.access_token, refresh_token: None },
        Method::DeviceCode => t,
    }
}

/// The exchange that a login by `method` performs.
pub open spec fn login_exchange(method: Method) -> Exchange {
    match method {
        Method::ClientCredentials => Exchange::ClientCredentials,
        Method::DeviceCode => Exchange::DeviceCode,
    }
}

/// The error reported when no usable credential record could be loaded.
pub open spec fn is_missing_token(r: Error) -> bool {
    r.kind == Kind::AuthenticationError(AuthErrorKind::MissingToken)
}

impl Client {
    /// The credential record of this client's identity with the given tokens.
    pub open spec fn record_with(&self, tokens: AuthTokens) -> AzCredentials {
        AzCredentials {
            tenant_id: self.tenant_id,
            client_id: self.client_id,
            client_secret: self.client_secret,
            tokens,
        }
    }

    /// The configuration of a login exchange by `method` for this identity: the
    /// client-credentials flow presents the secret, the device-code flow none.
    pub open spec fn login_config_spec(&self, method: Method, c: Configuration) -> bool {
        &&& c.tenant_id == self.tenant_id
        &&& c.client_id == self.client_id
        &&& c.client_secret == (match method {
            Method::ClientCredentials => self.client_secret,
            Method::DeviceCode => None,
        })
        &&& c.scopes@.len() == 1
        &&& c.scopes@[0]@ == MANAGEMENT_SCOPE@
    }

    /// A client for the given identity, with no tokens yet.
    pub fn new(
        tenant_id: &str,
        client_id: &str,
        client_secret: Option<String>,
        caching: bool,
        subscriptions: Option<Vec<String>>,
    ) -> (r: Client)
        ensures
            r.tenant_id@ == tenant_id@,
            r.client_id@ == client_id@,
            r.client_secret == client_secret,
            r.tokens is None,
            r.subscriptions == subscriptions,
            r.caching == caching,
    {
        Client {
            tenant_id: tenant_id.to_owned(),
            client_id: client_id.to_owned(),
            client_secret,
            tokens: None,
            subscriptions,
            caching,
        }
    }

    /// A client made from what the credential store returned: the stored
    /// identity and tokens, or a missing-token error when the store had no
    /// readable record.
    pub fn from_store(stored: Result<AzCredentials, Error>, caching: bool) -> (r: Result<
        Client,
        Error,
    >)
        ensures
            match stored {
                Ok(rec) => r is Ok && r->Ok_0.tenant_id == rec.tenant_id && r->Ok_0.client_id
                    == rec.client_id && r->Ok_0.client_secret == rec.client_secret
                    && r->Ok_0.tokens == Some(rec.tokens) && r->Ok_0.subscriptions is None
                    && r->Ok_0.caching == caching,
                Err(_) => r is Err && is_missing_token(r->Err_0),
            },
    {
        match stored {
            Ok(rec) => Ok(
                Client {
                    tenant_id: rec.tenant_id,
                    client_id: rec.client_id,
                    client_secret: rec.client_secret,
                    tokens: Some(rec.tokens),
                    subscriptions: None,
                    caching,
                },
            ),
            Err(_) => Err(auth(AuthErrorKind::MissingToken, "could not read credentials from store")),
        }
    }

    /// Takes in what the credential store returned: a record replaces the
    /// identity and the tokens; when the store had no readable record the client
    /// is left as it was and a missing-token error is returned.
    pub fn load_credentials(&mut self, stored: Result<AzCredentials, Error>) -> (r: Result<
        (),
        Error,
    >)
        ensures
            match stored {
                Ok(rec) => r is Ok && final(self).tenant_id == rec.tenant_id
                    && final(self).client_id == rec.client_id && final(self).client_secret
                    == rec.client_secret && final(self).tokens == Some(rec.tokens)
                    && final(self).subscriptions == old(self).subscriptions
                    && final(self).caching == old(self).caching,
                Err(_) => r is Err && is_missing_token(r->Err_0) && *final(self) == *old(self),
            },
    {
        match stored {
            Ok(rec) => {
                self.tenant_id = rec.tenant_id;
                self.client_id = rec.client_id;
                self.client_secret = rec.client_secret;
                self.tokens = Some(rec.tokens);
                Ok(())
            },
            Err(_) => Err(auth(AuthErrorKind::MissingToken, "could not read credentials from store")),
        }
    }

    /// The authentication method: client credentials when a secret is
    /// configured, the device-code flow otherwise.
    pub fn auth_method(&self) -> (r: Method)
        ensures
            r == method_for(self.client_secret),
    {
        match self.client_secret {
            Some(_) => Method::ClientCredentials,
            None => Method::DeviceCode,
        }
    }

    /// The access token currently known, if any.
    pub fn access_token(&self) -> (r: Option<String>)
        ensures
            r is Some <==> self.tokens is Some,
            r is Some ==> r->Some_0 == self.tokens->Some_0.access_token,
    {
        match &self.tokens {
            Some(t) => Some(t.access_token.clone()),
            None => None,
        }
    }

    /// The token to present on a query request: the access token, or a
    /// missing-token error when there is none.
    pub fn bearer_token(&self) -> (r: Result<String, Error>)
        ensures
            self.tokens is Some ==> r == Ok::<String, Error>(self.tokens->Some_0.access_token),
            self.tokens is None ==> r is Err && is_missing_token(r->Err_0),
    {
        match &self.tokens {
            Some(t) => Ok(t.access_token.clone()),
            None => Err(auth(AuthErrorKind::MissingToken, "no access token provided for request")),
        }
    }

    /// The configuration of a login exchange by `method`.
    fn login_config(&self, method: Method) -> (r: Configuration)
        ensures
            self.login_config_spec(method, r),
    {
        let secret = match method {
            Method::ClientCredentials => copy_optional(&self.client_secret),
            Method::DeviceCode => None,
        };
        let mut c = Configuration::new(self.tenant_id.as_str(), self.client_id.as_str(), &secret);
        c.tenant_id = self.tenant_id.clone();
        c.client_id = self.client_id.clone();
        c
    }

    /// Starts a client-credentials login: nothing to do when tokens are already
    /// known and `force` is false; otherwise the configuration to exchange,
    /// which presents the client secret.
    pub fn login_client_credentials(&self, force: bool) -> (r: Option<Configuration>)
        ensures
            r is None <==> (self.tokens is Some && !force),
            r is Some ==> self.login_config_spec(Method::ClientCredentials, r->Some_0),
    {
        if self.tokens.is_some() && !force {
            None
        } else {
            Some(self.login_config(Method::ClientCredentials))
        }
    }

    /// Starts a device-code login: nothing to do when tokens are already known
    /// and `force` is false; otherwise the configuration to exchange, which
    /// presents no secret.
    pub fn login_device_code(&self, force: bool) -> (r: Option<Configuration>)
        ensures
            r is None <==> (self.tokens is Some && !force),
            r is Some ==> self.login_config_spec(Method::DeviceCode, r->Some_0),
    {
        if self.tokens.is_some() && !force {
            None
        } else {
            Some(self.login_config(Method::DeviceCode))
        }
    }

    /// Starts the recovery from a missing token: a forced login by this
    /// client's authentication method.
    pub fn reauth(&self) -> (r: Configuration)
        ensures
            self.login_config_spec(method_for(self.client_secret), r),
    {
        let method = self.auth_method();
        self.login_config(method)
    }

    /// The credential record to persist for the given tokens.
    pub fn save_credentials(&self, auth_tokens: &AuthTokens) -> (r: AzCredentials)
        ensures
            r == self.record_with(*auth_tokens),
    {
        AzCredentials {
            tenant_id: self.tenant_id.clone(),
            client_id: self.client_id.clone(),
            client_secret: copy_optional(&self.client_secret),
            tokens: auth_tokens.duplicate(),
        }
    }

    /// Takes in the outcome of a login exchange by `method`: the tokens kept
    /// (`kept_tokens`) become the client's, and the record to persist is
    /// returned; a failed exchange leaves the client as it was and reports the
    /// failure by its kind.
    pub fn complete_login(
        &mut self,
        method: Method,
        outcome: Result<AuthTokens, OAuthFailure>,
    ) -> (r: Result<AzCredentials, Error>)
        ensures
            match outcome {
                Ok(t) => r == Ok::<AzCredentials, Error>(
                    old(self).record_with(kept_tokens(method, t)),
                ) && final(self).tokens == Some(kept_tokens(method, t)) && final(self).tenant_id
                    == old(self).tenant_id && final(self).client_id == old(self).client_id
                    && final(self).client_secret == old(self).client_secret
                    && final(self).subscriptions == old(self).subscriptions
                    && final(self).caching == old(self).caching,
                Err(f) => r is Err && r->Err_0.kind == failure_kind(login_exchange(method), f)
                    && *final(self) == *old(self),
            },
    {
        match outcome {
            Ok(t) => {
                let kept = match method {
                    Method::ClientCredentials => AuthTokens {
                        access_token: t.access_token,
                        refresh_token: None,
                    },
                    Method::DeviceCode => t,
                };
                let record = self.save_credentials(&kept);
                self.tokens = Some(kept);
                Ok(record)
            },
            Err(f) => {
                let exchange = match method {
                    Method::ClientCredentials => Exchange::ClientCredentials,
                    Method::DeviceCode => Exchange::DeviceCode,
                };
                Err(exchange_error(exchange, f))
            },
        }
    }

    /// Starts a refresh: the refresh token to present, or a missing-token error
    /// when none is known.
    pub fn exchange_refresh_token(&self) -> (r: Result<String, Error>)
        ensures
            (self.tokens is Some && self.tokens->Some_0.refresh_token is Some) ==> r == Ok::<
                String,
                Error,
            >(self.tokens->Some_0.refresh_token->Some_0),
            !(self.tokens is Some && self.tokens->Some_0.refresh_token is Some) ==> r is Err
                && is_missing_token(r->Err_0),
    {
        match &self.tokens {
            Some(t) => match &t.refresh_token {
                Some(rt) => Ok(rt.clone()),
                None => Err(auth(AuthErrorKind::MissingToken, "no refresh token is known")),
            },
            None => Err(auth(AuthErrorKind::MissingToken, "no refresh token is known")),
        }
    }

    /// Takes in the outcome of a refresh exchange: new tokens that carry a
    /// refresh token become the client's, and the record to persist is
    /// returned; tokens without a refresh token are refused as a missing token;
    /// a failed exchange is reported by its kind. On any error the client is
    /// left as it was.
    pub fn complete_refresh(&mut self, outcome: Result<AuthTokens, OAuthFailure>) -> (r: Result<
        AzCredentials,
        Error,
    >)
        ensures
            match outcome {
                Ok(t) => if t.refresh_token is Some {
                    r == Ok::<AzCredentials, Error>(old(self).record_with(t)) && final(self).tokens
                        == Some(t) && final(self).tenant_id == old(self).tenant_id
                        && final(self).client_id == old(self).client_id
                        && final(self).client_secret == old(self).client_secret
                        && final(self).subscriptions == old(self).subscriptions
                        && final(self).caching == old(self).caching
                } else {
                    r is Err && is_missing_token(r->Err_0) && *final(self) == *old(self)
                },
                Err(f) => r is Err && r->Err_0.kind == failure_kind(Exchange::Refresh, f)
                    && *final(self) == *old(self),
            },
    {
        match outcome {
            Ok(t) => {
                if t.refresh_token.is_none() {
                    return Err(
                        auth(
                            AuthErrorKind::MissingToken,
                            "no refresh token supplied with login ... this is unusable",
                        ),
                    );
                }
                let record = self.save_credentials(&t);
                self.tokens = Some(t);
                Ok(record)
            },
            Err(f) => Err(exchange_error(Exchange::Refresh, f)),
        }
    }

    /// The client for people, with the secret and the tokens redacted.
    pub fn describe(&self) -> (r: String)
        ensures
            r@ == "VMInfo Client { tenant_id: "@ + self.tenant_id@ + ", client_id: "@
                + self.client_id@ + ", client_secret: [redacted], active_tokens: [redacted] }"@,
    {
        let mut r = "VMInfo Client { tenant_id: ".to_owned();
        r.append(self.tenant_id.as_str());
        r.append(", client_id: ");
        r.append(self.client_id.as_str());
        r.append(", client_secret: [redacted], active_tokens: [redacted] }");
        r
    }

    /// Forgets the tokens; the stored record is cleared by the caller.
    pub fn clear_credential_cache(&mut self)
        ensures
            final(self).tokens is None,
            final(self).tenant_id == old(self).tenant_id,
            final(self).client_id == old(self).client_id,
            final(self).client_secret == old(self).client_secret,
            final(self).subscriptions == old(self).subscriptions,
            final(self).caching == old(self).caching,
    {
        self.tokens = None;
    }
}

} // verus!
