use vminfo::auth::{AzCredentials, Configuration, Method, OAuthFailure};
use vminfo::credentials::CliCredentials;
use vminfo::error::{auth, client_config, none_found, other, request, AuthErrorKind, Kind};
use vminfo::persistance::{FileTokenStore, MemoryTokenStore};
use vminfo::query::{
    auth_error_kind, classify_response, AzureError, QueryResponse, QueryResponseType,
};
use vminfo::vm::VirtualMachine;
use vminfo::{AuthTokens, Client};

fn tokens(access: &str, refresh: Option<&str>) -> AuthTokens {
    AuthTokens { access_token: access.to_string(), refresh_token: refresh.map(|s| s.to_string()) }
}

fn record() -> AzCredentials {
    AzCredentials {
        tenant_id: "tenant-1".to_string(),
        client_id: "client-1".to_string(),
        client_secret: Some("SECRET-REDACTED".to_string()),
        tokens: tokens("access-1", None),
    }
}

#[test]
fn vendor_codes_map_to_auth_kinds() {
    assert_eq!(auth_error_kind("ExpiredAuthenticationToken"), AuthErrorKind::TokenExpired);
    assert_eq!(auth_error_kind("InvalidAuthenticationToken"), AuthErrorKind::BadCredentials);
    assert_eq!(auth_error_kind("AccessDenied"), AuthErrorKind::AccessDenied);
    assert_eq!(auth_error_kind("Throttled"), AuthErrorKind::BadRequest);
    assert_eq!(auth_error_kind("accessdenied"), AuthErrorKind::BadRequest);
}

#[test]
fn classify_maps_pages_and_errors() {
    let empty = classify_response(QueryResponseType::Page(QueryResponse::default()));
    assert_eq!(empty.unwrap_err().kind, Kind::NoneFoundError);
    let one = QueryResponse { total_results: 1, data: vec![VirtualMachine::default()] };
    let ok = classify_response(QueryResponseType::Page(one)).unwrap();
    assert_eq!(ok.total_results, 1);
    let err = classify_response(QueryResponseType::Failure {
        error: AzureError {
            code: "ExpiredAuthenticationToken".to_string(),
            message: "too old".to_string(),
        },
    })
    .unwrap_err();
    assert_eq!(err.kind, Kind::AuthenticationError(AuthErrorKind::TokenExpired));
    assert_eq!(err.message, "ExpiredAuthenticationToken: too old");
}

#[test]
fn cache_keys_are_lowercased_names() {
    let mut named = VirtualMachine::default();
    named.vm_name = Some("Linux-VM-01".to_string());
    let resp = QueryResponse { total_results: 2, data: vec![named, VirtualMachine::default()] };
    assert_eq!(resp.cache_keys(), vec![Some("linux-vm-01".to_string()), None]);
}

#[test]
fn store_round_trip_is_identical() {
    let mut store = MemoryTokenStore::new();
    assert_eq!(
        store.read().unwrap_err().kind,
        Kind::AuthenticationError(AuthErrorKind::MissingToken)
    );
    let rec = record();
    store.write(&rec).unwrap();
    let back = store.read().unwrap();
    assert_eq!(back.tenant_id, rec.tenant_id);
    assert_eq!(back.client_id, rec.client_id);
    assert_eq!(back.client_secret, rec.client_secret);
    assert_eq!(back.tokens.access_token, rec.tokens.access_token);
    assert_eq!(back.tokens.refresh_token, rec.tokens.refresh_token);
    store.clear().unwrap();
    assert!(store.read().is_err());
}

#[test]
fn auth_method_follows_secret() {
    let c = Client::new("t", "c", Some("SECRET-REDACTED".to_string()), false, None);
    assert_eq!(c.auth_method(), Method::ClientCredentials);
    let d = Client::new("t", "c", None, false, None);
    assert_eq!(d.auth_method(), Method::DeviceCode);
}

#[test]
fn login_is_gated_on_existing_tokens() {
    let mut c = Client::new("t", "c", Some("SECRET-REDACTED".to_string()), false, None);
    let conf = c.login_client_credentials(false).expect("no tokens yet: must log in");
    assert_eq!(conf.client_secret, Some("SECRET-REDACTED".to_string()));
    assert_eq!(conf.tenant_id, "t");
    assert_eq!(conf.scopes, vec!["https://management.core.windows.net/".to_string()]);
    let saved = c.complete_login(Method::ClientCredentials, Ok(tokens("acc", None))).unwrap();
    assert_eq!(saved.tenant_id, "t");
    assert_eq!(saved.tokens.access_token, "acc");
    assert!(c.login_client_credentials(false).is_none());
    assert!(c.login_client_credentials(true).is_some());
    let dc = c.login_device_code(true).unwrap();
    assert_eq!(dc.client_secret, None);
}

#[test]
fn failed_logins_report_their_kind() {
    let mut c = Client::new("t", "c", Some("SECRET-REDACTED".to_string()), false, None);
    let e = c.complete_login(Method::ClientCredentials, Err(OAuthFailure::Rejected)).unwrap_err();
    assert_eq!(e.kind, Kind::AuthenticationError(AuthErrorKind::BadCredentials));
    let e = c
        .complete_login(Method::ClientCredentials, Err(OAuthFailure::InvalidEndpoint))
        .unwrap_err();
    assert_eq!(e.kind, Kind::AuthenticationError(AuthErrorKind::BadRequest));
    let e = c.complete_login(Method::DeviceCode, Err(OAuthFailure::Rejected)).unwrap_err();
    assert_eq!(e.kind, Kind::AuthenticationError(AuthErrorKind::BadRequest));
    assert!(c.access_token().is_none());
}

#[test]
fn refresh_outcomes() {
    let mut c = Client::new("t", "c", None, false, None);
    c.load_credentials(Ok(AzCredentials {
        tenant_id: "t".to_string(),
        client_id: "c".to_string(),
        client_secret: None,
        tokens: tokens("old", Some("r1")),
    }))
    .unwrap();
    let e = c.complete_refresh(Err(OAuthFailure::Rejected)).unwrap_err();
    assert_eq!(e.kind, Kind::AuthenticationError(AuthErrorKind::BadRefresh));
    let e = c.complete_refresh(Ok(tokens("new", None))).unwrap_err();
    assert_eq!(e.kind, Kind::AuthenticationError(AuthErrorKind::MissingToken));
    assert_eq!(c.access_token(), Some("old".to_string()));
    let saved = c.complete_refresh(Ok(tokens("new", Some("r2")))).unwrap();
    assert_eq!(saved.tokens.refresh_token, Some("r2".to_string()));
    assert_eq!(c.bearer_token().unwrap(), "new");
    c.clear_credential_cache();
    assert_eq!(
        c.bearer_token().unwrap_err().kind,
        Kind::AuthenticationError(AuthErrorKind::MissingToken)
    );
}

#[test]
fn unreadable_store_is_a_missing_token() {
    let e = Client::from_store(Err(other("no file")), true).unwrap_err();
    assert_eq!(e.kind, Kind::AuthenticationError(AuthErrorKind::MissingToken));
    let c = Client::from_store(Ok(record()), true).unwrap();
    assert_eq!(c.tenant_id, "tenant-1");
    assert_eq!(c.auth_method(), Method::ClientCredentials);
    let conf = c.reauth();
    assert_eq!(conf.client_secret, Some("SECRET-REDACTED".to_string()));
}

#[test]
fn endpoints_and_scopes() {
    let conf = Configuration::new("my-tenant", "app", &None);
    assert_eq!(conf.token_url(), "https://login.microsoftonline.com/my-tenant/oauth2/token");
    assert_eq!(
        conf.device_token_url(),
        "https://login.microsoftonline.com/my-tenant/oauth2/v2.0/token"
    );
    assert_eq!(
        conf.device_authorization_url(),
        "https://login.microsoftonline.com/my-tenant/oauth2/v2.0/devicecode"
    );
    assert_eq!(conf.scopes, vec!["https://management.core.windows.net/".to_string()]);
    assert_eq!(
        Configuration::device_code_scopes(),
        vec![
            "https://management.core.windows.net/user_impersonation".to_string(),
            "offline_access".to_string()
        ]
    );
}

#[test]
fn token_store_paths() {
    let root = FileTokenStore::new("azure-vminfo", "root");
    assert_eq!(root.file_path, "/root/.config/azure-vminfo/tokens.json");
    let user = FileTokenStore::new("azure-vminfo", "alice");
    assert_eq!(user.config_dir, "/home/alice/.config/azure-vminfo");
    assert_eq!(user.file_path, "/home/alice/.config/azure-vminfo/tokens.json");
}

#[test]
fn status_codes_of_auth_kinds() {
    assert_eq!(AuthErrorKind::AccessDenied.status_code(), 403);
    assert_eq!(AuthErrorKind::BadRequest.status_code(), 400);
    assert_eq!(AuthErrorKind::TokenExpired.status_code(), 401);
    assert_eq!(AuthErrorKind::MissingToken.status_code(), 401);
}

#[test]
fn prompt_answers_and_masking() {
    let c = CliCredentials::from_answers("t".to_string(), "c".to_string(), String::new());
    assert_eq!(c.client_secret, None);
    let c = CliCredentials::from_answers("t".to_string(), "c".to_string(), "abc".to_string());
    assert_eq!(c.client_secret, Some("abc".to_string()));
    assert_eq!(c.describe(), "{ tenant_id: t, client_id: c, client_secret: XXX }");
}

#[test]
fn defaults() {
    let t = AuthTokens::default();
    assert_eq!(t.access_token, "XXX");
    assert_eq!(t.refresh_token, None);
    let cli = vminfo::cli::Cli::default();
    assert_eq!(cli.vm_operand, vec![String::new()]);
    assert!(cli.interactive_login);
    let vm = VirtualMachine::default();
    assert_eq!(vm.private_ip, [0, 0, 0, 0]);
}

#[test]
fn errors_describe_their_kind_and_message() {
    assert_eq!(request(Some(404), "gone").describe(), "HTTP request error. 404: gone");
    assert_eq!(request(Some(7), "x").describe(), "HTTP request error. 7: x");
    assert_eq!(request(None, "x").describe(), "HTTP request error. NO_STATUS: x");
    assert_eq!(
        auth(AuthErrorKind::AccessDenied, "m").describe(),
        "authentication error (Access denied): m"
    );
    assert_eq!(client_config("c").describe(), "client creation error: c");
    assert_eq!(none_found("n").describe(), "no vm found error: n");
    assert_eq!(other("o").describe(), "unknown error: o");
    assert_eq!(Method::DeviceCode.name(), "DeviceCode");
    assert_eq!(Method::ClientCredentials.name(), "ClientCredentials");
}

#[test]
fn client_and_store_descriptions_redact_secrets() {
    let c = Client::new("t1", "c1", Some("SECRET-REDACTED".to_string()), false, None);
    assert_eq!(
        c.describe(),
        "VMInfo Client { tenant_id: t1, client_id: c1, client_secret: [redacted], active_tokens: [redacted] }"
    );
    let store = FileTokenStore::new("app", "bob");
    assert_eq!(store.describe(), "Token Secret File Located at: /home/bob/.config/app/tokens.json");
}

#[test]
fn redis_connection_urls() {
    assert_eq!(
        vminfo::caching::redis_url("cache.local", 6379, &None, false),
        "redis://:@cache.local:6379"
    );
    assert_eq!(
        vminfo::caching::redis_url("h", 6380, &Some("pw".to_string()), true),
        "rediss://:pw@h:6380"
    );
    assert_eq!(vminfo::caching::redis_url("h", 0, &None, false), "redis://:@h:0");
}

#[test]
fn unbuildable_client_is_a_configuration_error() {
    let mut c = Client::new("t", "c", None, false, None);
    let e = c.complete_login(Method::DeviceCode, Err(OAuthFailure::InvalidClientConfig)).unwrap_err();
    assert_eq!(e.kind, Kind::ClientCreateError);
    let e = c.complete_login(Method::DeviceCode, Err(OAuthFailure::InvalidEndpoint)).unwrap_err();
    assert_eq!(e.kind, Kind::AuthenticationError(AuthErrorKind::BadRequest));
    let e = c.complete_refresh(Err(OAuthFailure::InvalidClientConfig)).unwrap_err();
    assert_eq!(e.kind, Kind::ClientCreateError);
}

#[test]
fn client_credentials_login_keeps_no_refresh_token() {
    let mut c = Client::new("t", "c", Some("SECRET-REDACTED".to_string()), false, None);
    let saved = c
        .complete_login(Method::ClientCredentials, Ok(tokens("acc", Some("unexpected"))))
        .unwrap();
    assert_eq!(saved.tokens.refresh_token, None);
    assert_eq!(saved.tokens.access_token, "acc");
    assert!(c.exchange_refresh_token().is_err());
    let mut d = Client::new("t", "c", None, false, None);
    let saved = d.complete_login(Method::DeviceCode, Ok(tokens("acc", Some("r")))).unwrap();
    assert_eq!(saved.tokens.refresh_token, Some("r".to_string()));
}
