//! Issuing scoped network credentials to approved accounts, and the verdicts
//! returned to callers.

use vstd::prelude::*;
use crate::account::{AccountStatus, AuthorizeError, StoreFailure, User};
use crate::token::VerifyError;
use crate::upstream::{BrokerError, TokenCache, is_success, status_is_success};

verus! {

/// Lifetime of an issued credential, in seconds.
pub const AUTH_KEY_TTL_SECS: u64 = 7200;

/// How devices registered with an issued credential are admitted.
pub struct DeviceCreate {
    pub reusable: bool,
    pub ephemeral: bool,
    pub preauthorized: bool,
    pub tags: Vec<String>,
}

pub struct DeviceCapabilities {
    pub create: DeviceCreate,
}

pub struct Capabilities {
    pub devices: DeviceCapabilities,
}

/// The body of a create-credential request.
pub struct CreateAuthKeyRequest {
    pub capabilities: Capabilities,
    pub expiry_seconds: u64,
    pub description: Option<String>,
}

/// The body of a create-credential answer.
pub struct CreateAuthKeyResponse {
    pub key: String,
}

/// A caller's request for a credential.
pub struct GenerateTokenRequest {
    pub id_token: String,
}

/// The verdict on a credential request.
pub struct GenerateTokenResponse {
    pub success: bool,
    pub tailscale_token: Option<String>,
    pub message: String,
}

/// The verdict on a token validation.
pub struct ValidateTokenResponse {
    pub success: bool,
    pub user: Option<User>,
    pub message: String,
}

pub open spec fn ascii_alnum(c: char) -> bool {
    ('a' <= c && c <= 'z') || ('A' <= c && c <= 'Z') || ('0' <= c && c <= '9')
}

/// Whether a character is a Unicode letter or number.
pub uninterp spec fn is_alnum(c: char) -> bool;

/// Relies on char::is_alphanumeric: Unicode alphabetic or numeric; among
/// ASCII characters exactly the letters and digits.
#[verifier::external_body]
fn alphanumeric(c: char) -> (r: bool)
    ensures
        r == is_alnum(c),
        (c as u32) < 128 ==> (r == ascii_alnum(c)),
{
    c.is_alphanumeric()
}

/// Relies on String::push: appends one character.
#[verifier::external_body]
fn push_char(s: &mut String, c: char)
    ensures
        final(s)@ == old(s)@.push(c),
{
    s.push(c)
}

/// `s` with every character that is not alphanumeric replaced by a hyphen.
pub open spec fn sanitized(s: Seq<char>) -> Seq<char> {
    s.map_values(|c: char| if is_alnum(c) { c } else { '-' })
}

/// Replaces each non-alphanumeric character of `email` by `-`, as the
/// upstream authority accepts only such characters in descriptions.
pub fn sanitize_for_description(email: &str) -> (r: String)
    ensures
        r@ == sanitized(email@),
{
    let n = email.unicode_len();
    let mut out = String::new();
    let mut i: usize = 0;
    while i < n
        invariant
            n == email@.len(),
            i <= n,
            out@ == sanitized(email@.subrange(0, i as int)),
        decreases n - i,
    {
        let c = email.get_char(i);
        let keep = alphanumeric(c);
        proof {
            assert(email@.subrange(0, i + 1) =~= email@.subrange(0, i as int).push(c));
        }
        if keep {
            push_char(&mut out, c);
        } else {
            push_char(&mut out, '-');
        }
        assert(out@ =~= sanitized(email@.subrange(0, i + 1)));
        i = i + 1;
    }
    assert(email@.subrange(0, n as int) =~= email@);
    out
}

/// The human-readable description of the credential issued for `email`.
pub open spec fn description_of(email: Seq<char>) -> Seq<char> {
    "Auth key for user "@ + sanitized(email)
}

pub(crate) fn copy_tags(tags: &Vec<String>) -> (r: Vec<String>)
    ensures
        r@.len() == tags@.len(),
        forall|i: int| 0 <= i < tags@.len() ==> r@[i]@ == tags@[i]@,
{
    let mut r: Vec<String> = Vec::new();
    let mut i: usize = 0;
    while i < tags.len()
        invariant
            i <= tags@.len(),
            r@.len() == i,
            forall|j: int| 0 <= j < i ==> r@[j]@ == tags@[j]@,
        decreases tags@.len() - i,
    {
        r.push(tags[i].clone());
        i = i + 1;
    }
    r
}

/// The create-credential request for `email`: reusable, not ephemeral,
/// preauthorized, carrying the configured tags, valid for two hours.
pub fn auth_key_request(email: &str, tags: &Vec<String>) -> (r: CreateAuthKeyRequest)
    ensures
        r.capabilities.devices.create.reusable,
        !r.capabilities.devices.create.ephemeral,
        r.capabilities.devices.create.preauthorized,
        r.capabilities.devices.create.tags@.len() == tags@.len(),
        forall|i: int|
            0 <= i < tags@.len() ==> r.capabilities.devices.create.tags@[i]@ == tags@[i]@,
        r.expiry_seconds == AUTH_KEY_TTL_SECS,
        r.description matches Some(d) && d@ == description_of(email@),
{
    let mut description = String::from_str("Auth key for user ");
    let cleaned = sanitize_for_description(email);
    description.append(cleaned.as_str());
    CreateAuthKeyRequest {
        capabilities: Capabilities {
            devices: DeviceCapabilities {
                create: DeviceCreate {
                    reusable: true,
                    ephemeral: false,
                    preauthorized: true,
                    tags: copy_tags(tags),
                },
            },
        },
        expiry_seconds: AUTH_KEY_TTL_SECS,
        description: Some(description),
    }
}

pub open spec fn pending_message() -> Seq<char> {
    "Your account is pending approval. Cannot generate tokens yet."@
}

pub open spec fn denied_message() -> Seq<char> {
    "Your account has been denied access. Cannot generate tokens."@
}

/// The first move of a credential request.
pub enum IssueStep {
    /// The account may not receive credentials; the message says why.
    Refuse(String),
    /// Create the credential with this cached bearer token.
    UseToken(String),
    /// Exchange the service secret for a bearer token first.
    ExchangeSecret,
}

/// Decides how a credential request for an account in `status` starts at
/// `now`: only an approved account goes on to the upstream authority, with
/// the cached token while it is usable.
pub fn begin_issue(status: AccountStatus, cache: &TokenCache, now: u64) -> (r: IssueStep)
    ensures
        status == AccountStatus::Pending ==> (r matches IssueStep::Refuse(m) && m@ == pending_message()),
        status == AccountStatus::Denied ==> (r matches IssueStep::Refuse(m) && m@ == denied_message()),
        status == AccountStatus::Approved ==> match r {
            IssueStep::UseToken(t) => cache.usable(now) && t@ == cache.slot->0.token@,
            IssueStep::ExchangeSecret => !cache.usable(now),
            IssueStep::Refuse(_) => false,
        },
{
    match status {
        AccountStatus::Pending => IssueStep::Refuse(
            String::from_str("Your account is pending approval. Cannot generate tokens yet."),
        ),
        AccountStatus::Denied => IssueStep::Refuse(
            String::from_str("Your account has been denied access. Cannot generate tokens."),
        ),
        AccountStatus::Approved => match cache.cached(now) {
            Some(t) => IssueStep::UseToken(t),
            None => IssueStep::ExchangeSecret,
        },
    }
}

/// Concludes a create-credential request answered with `status` and, when
/// its body could be read, `body`.
pub fn finish_key_request(status: u16, body: Option<CreateAuthKeyResponse>) -> (r: Result<String, BrokerError>)
    ensures
        !is_success(status) ==> r == Err::<String, BrokerError>(BrokerError::UpstreamRequestFailed),
        is_success(status) && body is None ==> r == Err::<String, BrokerError>(
            BrokerError::UpstreamResponseInvalid,
        ),
        is_success(status) && body is Some ==> (r is Ok && r->Ok_0@ == body->0.key@),
{
    if !status_is_success(status) {
        return Err(BrokerError::UpstreamRequestFailed);
    }
    match body {
        Some(b) => Ok(b.key),
        None => Err(BrokerError::UpstreamResponseInvalid),
    }
}

pub open spec fn issued_message() -> Seq<char> {
    "Tailscale auth key generated successfully"@
}

pub open spec fn unavailable_message() -> Seq<char> {
    "Unable to generate network access token. Please try again later or contact support if this persists."@
}

/// The verdict on a credential request that reached the upstream authority.
pub fn issue_response(outcome: Result<String, BrokerError>) -> (r: GenerateTokenResponse)
    ensures
        match outcome {
            Ok(k) => r.success && r.message@ == issued_message() && (r.tailscale_token matches Some(
                t,
            ) && t@ == k@),
            Err(_) => !r.success && r.tailscale_token is None && r.message@ == unavailable_message(),
        },
{
    match outcome {
        Ok(k) => GenerateTokenResponse {
            success: true,
            tailscale_token: Some(k),
            message: String::from_str("Tailscale auth key generated successfully"),
        },
        Err(_) => GenerateTokenResponse {
            success: false,
            tailscale_token: None,
            message: String::from_str(
                "Unable to generate network access token. Please try again later or contact support if this persists.",
            ),
        },
    }
}

/// The verdict on a credential request stopped before the upstream
/// authority, with the reason given.
pub fn refusal_response(message: String) -> (r: GenerateTokenResponse)
    ensures
        !r.success,
        r.tailscale_token is None,
        r.message@ == message@,
{
    GenerateTokenResponse { success: false, tailscale_token: None, message }
}

pub open spec fn bearer_prefix() -> Seq<char> {
    "Bearer "@
}

/// The credential carried by an `Authorization` header value of the form
/// `Bearer <credential>`.
pub fn bearer_token(header: &str) -> (r: Option<&str>)
    ensures
        match r {
            Some(t) => header@.len() >= 7 && header@.subrange(0, 7) == bearer_prefix() && t@
                == header@.subrange(7, header@.len() as int),
            None => !(header@.len() >= 7 && header@.subrange(0, 7) == bearer_prefix()),
        },
{
    let prefix = "Bearer ";
    proof {
        reveal_strlit("Bearer ");
    }
    let n = header.unicode_len();
    if n < 7 {
        return None;
    }
    let mut i: usize = 0;
    while i < 7
        invariant
            n == header@.len(),
            n >= 7,
            prefix@ == bearer_prefix(),
            prefix@.len() == 7,
            i <= 7,
            forall|j: int| 0 <= j < i ==> header@[j] == prefix@[j],
        decreases 7 - i,
    {
        if header.get_char(i) != prefix.get_char(i) {
            assert(header@.subrange(0, 7)[i as int] != bearer_prefix()[i as int]);
            return None;
        }
        i = i + 1;
    }
    assert(header@.subrange(0, 7) =~= bearer_prefix());
    Some(header.substring_char(7, n))
}

/// The reason given to a caller for a refused token.
pub open spec fn verify_error_text(e: VerifyError) -> Seq<char> {
    match e {
        VerifyError::MalformedToken => "malformed token"@,
        VerifyError::UnknownSigningKey => "signing key not found in the published key set"@,
        VerifyError::SignatureInvalid => "signature does not verify"@,
        VerifyError::ClaimExpired => "token has expired"@,
        VerifyError::IssuerMismatch => "token issuer is not accepted"@,
        VerifyError::AudienceMismatch => "token audience does not match"@,
        VerifyError::KeySetUnavailable => "signing keys are unavailable, please try again later"@,
    }
}

pub fn verify_error_message(e: VerifyError) -> (r: String)
    ensures
        r@ == verify_error_text(e),
{
    match e {
        VerifyError::MalformedToken => String::from_str("malformed token"),
        VerifyError::UnknownSigningKey => String::from_str("signing key not found in the published key set"),
        VerifyError::SignatureInvalid => String::from_str("signature does not verify"),
        VerifyError::ClaimExpired => String::from_str("token has expired"),
        VerifyError::IssuerMismatch => String::from_str("token issuer is not accepted"),
        VerifyError::AudienceMismatch => String::from_str("token audience does not match"),
        VerifyError::KeySetUnavailable => String::from_str("signing keys are unavailable, please try again later"),
    }
}

/// The reason given to a caller when the account store failed.
pub open spec fn authorize_error_text(e: AuthorizeError) -> Seq<char> {
    match e {
        AuthorizeError::PersistenceUnavailable(StoreFailure::Connectivity) => "Database connection failed. Please try again later."@,
        AuthorizeError::PersistenceUnavailable(StoreFailure::Timeout) => "Database is overloaded. Please try again in a moment."@,
        AuthorizeError::PersistenceUnavailable(StoreFailure::Capacity) => "Database service is currently unavailable. Please try again later."@,
        AuthorizeError::PersistenceUnavailable(StoreFailure::Constraint) => "Unable to create user account due to database constraints. Please contact support."@,
        AuthorizeError::PersistenceUnavailable(StoreFailure::Other) => "Database service error. Please contact support if this persists."@,
    }
}

pub fn authorize_error_message(e: AuthorizeError) -> (r: String)
    ensures
        r@ == authorize_error_text(e),
{
    match e {
        AuthorizeError::PersistenceUnavailable(StoreFailure::Connectivity) => String::from_str("Database connection failed. Please try again later."),
        AuthorizeError::PersistenceUnavailable(StoreFailure::Timeout) => String::from_str("Database is overloaded. Please try again in a moment."),
        AuthorizeError::PersistenceUnavailable(StoreFailure::Capacity) => String::from_str("Database service is currently unavailable. Please try again later."),
        AuthorizeError::PersistenceUnavailable(StoreFailure::Constraint) => String::from_str("Unable to create user account due to database constraints. Please contact support."),
        AuthorizeError::PersistenceUnavailable(StoreFailure::Other) => String::from_str("Database service error. Please contact support if this persists."),
    }
}

/// The verdict on a credential request whose token was refused.
pub fn invalid_token_response(e: VerifyError) -> (r: GenerateTokenResponse)
    ensures
        !r.success,
        r.tailscale_token is None,
        r.message@ == "Invalid token: "@ + verify_error_text(e),
{
    let mut message = String::from_str("Invalid token: ");
    message.append(verify_error_message(e).as_str());
    GenerateTokenResponse { success: false, tailscale_token: None, message }
}

/// The verdict on a credential request whose account lookup failed.
pub fn store_failure_response(e: AuthorizeError) -> (r: GenerateTokenResponse)
    ensures
        !r.success,
        r.tailscale_token is None,
        r.message@ == authorize_error_text(e),
{
    GenerateTokenResponse { success: false, tailscale_token: None, message: authorize_error_message(e) }
}

/// The verdict on a token validation whose token was refused.
pub fn invalid_token_verdict(e: VerifyError) -> (r: ValidateTokenResponse)
    ensures
        !r.success,
        r.user is None,
        r.message@ == "Invalid token: "@ + verify_error_text(e),
{
    let mut message = String::from_str("Invalid token: ");
    message.append(verify_error_message(e).as_str());
    ValidateTokenResponse { success: false, user: None, message }
}

/// The verdict on a token validation once the account step ran: success
/// with the account whatever its status, or the store's failure.
pub fn authorization_verdict(outcome: Result<User, AuthorizeError>) -> (r: ValidateTokenResponse)
    ensures
        match outcome {
            Ok(u) => r.success && r.message@ == "Authentication and authorization successful"@ && (
            r.user matches Some(v) && v@ == u@),
            Err(e) => !r.success && r.user is None && r.message@ == "Access denied: "@
                + authorize_error_text(e),
        },
{
    match outcome {
        Ok(u) => ValidateTokenResponse {
            success: true,
            user: Some(u),
            message: String::from_str("Authentication and authorization successful"),
        },
        Err(e) => {
            let mut message = String::from_str("Access denied: ");
            message.append(authorize_error_message(e).as_str());
            ValidateTokenResponse { success: false, user: None, message }
        },
    }
}

} // verus!
