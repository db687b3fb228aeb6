use sso_gateway::account::{AccountStatus, AccountStore, AuthorizeError, StoreFailure, User};
use sso_gateway::broker::{
    auth_key_request, authorization_verdict, bearer_token, begin_issue, finish_key_request, invalid_token_response,
    invalid_token_verdict, issue_response, refusal_response, sanitize_for_description, store_failure_response,
    CreateAuthKeyResponse, IssueStep, AUTH_KEY_TTL_SECS,
};
use sso_gateway::token::{IdentityClaim, VerifyError};
use sso_gateway::upstream::{status_is_success, BrokerError, CachedToken, OAuthTokenResponse, TokenCache};

#[test]
fn description_replaces_non_alphanumerics() {
    assert_eq!(sanitize_for_description("alice@example.com"), "alice-example-com");
    assert_eq!(sanitize_for_description("a.b+c_d@x9.org"), "a-b-c-d-x9-org");
    assert_eq!(sanitize_for_description("ü@é"), "ü-é");
    assert_eq!(sanitize_for_description(""), "");
}

#[test]
fn credential_request_is_scoped() {
    let tags = vec!["tag:user".to_string(), "tag:sso".to_string()];
    let r = auth_key_request("bob@x.org", &tags);
    assert!(r.capabilities.devices.create.reusable);
    assert!(!r.capabilities.devices.create.ephemeral);
    assert!(r.capabilities.devices.create.preauthorized);
    assert_eq!(r.capabilities.devices.create.tags, tags);
    assert_eq!(r.expiry_seconds, 7200);
    assert_eq!(AUTH_KEY_TTL_SECS, 7200);
    assert_eq!(r.description.as_deref(), Some("Auth key for user bob-x-org"));
}

#[test]
fn pending_and_denied_accounts_are_refused_without_upstream() {
    let mut cache = TokenCache::new();
    cache.slot = Some(CachedToken { token: "tok".to_string(), expires_at: 10_000 });
    match begin_issue(AccountStatus::Pending, &cache, 0) {
        IssueStep::Refuse(m) => assert_eq!(m, "Your account is pending approval. Cannot generate tokens yet."),
        _ => panic!("pending account went on"),
    }
    match begin_issue(AccountStatus::Denied, &cache, 0) {
        IssueStep::Refuse(m) => assert_eq!(m, "Your account has been denied access. Cannot generate tokens."),
        _ => panic!("denied account went on"),
    }
    match begin_issue(AccountStatus::Approved, &cache, 0) {
        IssueStep::UseToken(t) => assert_eq!(t, "tok"),
        _ => panic!("approved account did not use the cached token"),
    }
    assert!(matches!(begin_issue(AccountStatus::Approved, &TokenCache::new(), 0), IssueStep::ExchangeSecret));
}

#[test]
fn cached_token_needs_more_than_a_minute_left() {
    let mut cache = TokenCache::new();
    assert_eq!(cache.cached(0), None);
    cache.slot = Some(CachedToken { token: "t".to_string(), expires_at: 1061 });
    assert_eq!(cache.cached(1000).as_deref(), Some("t"));
    cache.slot = Some(CachedToken { token: "t".to_string(), expires_at: 1060 });
    assert_eq!(cache.cached(1000), None);
    assert_eq!(cache.cached(5000), None);
}

#[test]
fn exchange_outcomes() {
    let mut cache = TokenCache::new();
    let body = || Some(OAuthTokenResponse { access_token: "fresh".to_string(), expires_in: 3600 });
    assert_eq!(cache.finish_exchange(401, body(), 100), Err(BrokerError::UpstreamAuthFailed));
    assert!(cache.slot.is_none());
    assert_eq!(cache.finish_exchange(200, None, 100), Err(BrokerError::UpstreamResponseInvalid));
    assert!(cache.slot.is_none());
    assert_eq!(cache.finish_exchange(200, body(), 100), Ok("fresh".to_string()));
    assert_eq!(cache.slot.as_ref().unwrap().expires_at, 3700);
    assert_eq!(cache.cached(200).as_deref(), Some("fresh"));
    let r = cache.install(OAuthTokenResponse { access_token: "last".to_string(), expires_in: u64::MAX }, 5);
    assert_eq!(r, "last");
    assert_eq!(cache.slot.as_ref().unwrap().expires_at, u64::MAX);
    assert_eq!(cache.slot.as_ref().unwrap().token, "last");
}

#[test]
fn key_request_outcomes() {
    assert_eq!(finish_key_request(500, None), Err(BrokerError::UpstreamRequestFailed));
    assert_eq!(
        finish_key_request(403, Some(CreateAuthKeyResponse { key: "k".to_string() })),
        Err(BrokerError::UpstreamRequestFailed)
    );
    assert_eq!(finish_key_request(200, None), Err(BrokerError::UpstreamResponseInvalid));
    assert_eq!(finish_key_request(201, Some(CreateAuthKeyResponse { key: "tskey-1".to_string() })), Ok("tskey-1".to_string()));
    assert!(status_is_success(200) && status_is_success(299));
    assert!(!status_is_success(199) && !status_is_success(300));
}

#[test]
fn verdict_messages() {
    let ok = issue_response(Ok("tskey".to_string()));
    assert!(ok.success);
    assert_eq!(ok.tailscale_token.as_deref(), Some("tskey"));
    assert_eq!(ok.message, "Tailscale auth key generated successfully");
    let bad = issue_response(Err(BrokerError::UpstreamAuthFailed));
    assert!(!bad.success && bad.tailscale_token.is_none());
    assert_eq!(
        bad.message,
        "Unable to generate network access token. Please try again later or contact support if this persists."
    );
    let r = invalid_token_response(VerifyError::ClaimExpired);
    assert_eq!(r.message, "Invalid token: token has expired");
    assert!(!r.success);
    let r = refusal_response("why".to_string());
    assert_eq!(r.message, "why");
    let r = store_failure_response(AuthorizeError::PersistenceUnavailable(StoreFailure::Timeout));
    assert_eq!(r.message, "Database is overloaded. Please try again in a moment.");
    let v = invalid_token_verdict(VerifyError::UnknownSigningKey);
    assert_eq!(v.message, "Invalid token: signing key not found in the published key set");
    let v = authorization_verdict(Err(AuthorizeError::PersistenceUnavailable(StoreFailure::Connectivity)));
    assert!(!v.success && v.user.is_none());
    assert_eq!(v.message, "Access denied: Database connection failed. Please try again later.");
    let u = User {
        id: "1".to_string(),
        email: "a@x.org".to_string(),
        name: "A".to_string(),
        status: AccountStatus::Pending,
        created_at: 0,
        last_login: 0,
    };
    let v = authorization_verdict(Ok(u));
    assert!(v.success);
    assert_eq!(v.user.unwrap().email, "a@x.org");
    assert_eq!(v.message, "Authentication and authorization successful");
}

#[test]
fn bearer_prefix_is_required() {
    assert_eq!(bearer_token("Bearer abc.def"), Some("abc.def"));
    assert_eq!(bearer_token("Bearer "), Some(""));
    assert_eq!(bearer_token("bearer abc"), None);
    assert_eq!(bearer_token("Basic abc"), None);
    assert_eq!(bearer_token("Bear"), None);
}

fn alice() -> IdentityClaim {
    IdentityClaim {
        subject_id: "1001".to_string(),
        email: "alice@example.com".to_string(),
        display_name: "Alice".to_string(),
        issued_at: 1000,
        expires_at: 5000,
        issuer: "https://accounts.google.com".to_string(),
        audience: "client-123".to_string(),
    }
}

#[test]
fn pending_then_approved_alice_receives_credential() {
    let mut store = AccountStore::new();
    let mut cache = TokenCache::new();
    let tags = vec!["tag:member".to_string()];

    let v = authorization_verdict(store.authorize(&alice(), 1000));
    assert!(v.success);
    assert_eq!(v.user.as_ref().unwrap().status, AccountStatus::Pending);

    let u = store.authorize(&alice(), 1100).unwrap();
    assert_eq!(u.status, AccountStatus::Pending);
    let r = match begin_issue(u.status, &cache, 1100) {
        IssueStep::Refuse(m) => refusal_response(m),
        _ => panic!("pending account reached the upstream authority"),
    };
    assert!(!r.success);
    assert!(r.message.contains("pending approval"));
    assert!(cache.slot.is_none());

    assert!(store.set_status("alice@example.com", AccountStatus::Approved));
    let u = store.authorize(&alice(), 1200).unwrap();
    assert_eq!(u.status, AccountStatus::Approved);
    let bearer = match begin_issue(u.status, &cache, 1200) {
        IssueStep::ExchangeSecret => {
            let answer = OAuthTokenResponse { access_token: "upstream-token".to_string(), expires_in: 3600 };
            cache.finish_exchange(200, Some(answer), 1200).unwrap()
        }
        _ => panic!("empty cache did not ask for an exchange"),
    };
    assert_eq!(bearer, "upstream-token");
    let request = auth_key_request(&u.email, &tags);
    assert_eq!(request.description.as_deref(), Some("Auth key for user alice-example-com"));
    let outcome = finish_key_request(200, Some(CreateAuthKeyResponse { key: "tskey-auth-xyz".to_string() }));
    let r = issue_response(outcome);
    assert!(r.success);
    assert!(!r.tailscale_token.unwrap().is_empty());
    assert_eq!(cache.cached(1300).as_deref(), Some("upstream-token"));
}
