//! Authentication and authorization of charge points, ID tags and API keys
//! at the central system.

use vstd::prelude::*;
use crate::csms_error::CsmsError;
use crate::text::str_eq;
use crate::time::Timestamp;

verus! {

/// Authorization status of an ID tag (OCPP 1.6J).
#[derive(Debug, Clone, Copy, PartialEq, Eq, Structural)]
pub enum AuthorizationStatus {
    Accepted,
    Blocked,
    Expired,
    Invalid,
    ConcurrentTx,
}

/// What the central system answers about an ID tag.
#[derive(Debug)]
pub struct IdTagInfo {
    /// Whether the tag may charge
    pub status: AuthorizationStatus,
    /// The parent tag, if any
    pub parent_id_tag: Option<String>,
    /// When the authorization expires, if ever
    pub expiry_date: Option<Timestamp>,
}

/// Rate limiting configuration.
#[derive(Debug, Clone)]
pub struct RateLimitConfig {
    /// Enable rate limiting
    pub enabled: bool,
    /// Requests per minute
    pub requests_per_minute: u32,
    /// Burst capacity
    pub burst_capacity: u32,
}

impl Default for RateLimitConfig {
    fn default() -> (r: Self)
        ensures
            r.enabled,
            r.requests_per_minute == 1000,
            r.burst_capacity == 100,
    {
        RateLimitConfig { enabled: true, requests_per_minute: 1000, burst_capacity: 100 }
    }
}

/// Authentication configuration.
#[derive(Debug, Clone)]
pub struct AuthConfig {
    /// Enable authentication
    pub enabled: bool,
    /// JWT secret key
    pub jwt_secret: String,
    /// Token expiry time in seconds
    pub token_expiry: u64,
    /// Enable API key authentication
    pub api_key_enabled: bool,
    /// Rate limiting settings
    pub rate_limit: RateLimitConfig,
}

impl Default for AuthConfig {
    fn default() -> (r: Self)
        ensures
            r.enabled,
            r.jwt_secret@ == "change-me-in-production"@,
            r.token_expiry == 86400,
            !r.api_key_enabled,
            r.rate_limit.enabled,
            r.rate_limit.requests_per_minute == 1000,
            r.rate_limit.burst_capacity == 100,
    {
        AuthConfig {
            enabled: true,
            jwt_secret: String::from_str("change-me-in-production"),
            token_expiry: 86400,
            api_key_enabled: false,
            rate_limit: RateLimitConfig::default(),
        }
    }
}

/// Authentication result.
#[derive(Debug)]
pub struct AuthResult {
    /// Whether authentication was successful
    pub authenticated: bool,
    /// Charge point ID
    pub charge_point_id: String,
    /// Granted permissions
    pub permissions: Vec<String>,
}

/// API key information.
#[derive(Debug)]
pub struct ApiKey {
    /// Key ID
    pub id: String,
    /// Key value
    pub key: String,
    /// Associated permissions
    pub permissions: Vec<String>,
    /// Expiry date
    pub expires_at: Option<Timestamp>,
    /// Whether the key is active
    pub active: bool,
}

/// The permissions granted to an authenticated charge point: everything
/// while authentication is off, charging otherwise.
pub open spec fn granted_permissions(auth_enabled: bool) -> Seq<Seq<char>> {
    if auth_enabled { seq!["charge"@] } else { seq!["*"@] }
}

/// Authentication service.
pub struct AuthService {
    config: AuthConfig,
    api_keys: Vec<(String, ApiKey)>,
}

impl AuthService {
    /// The service's configuration.
    pub closed spec fn config_spec(&self) -> AuthConfig {
        self.config
    }

    /// The keys of the API keys the service holds.
    pub closed spec fn key_names(&self) -> Set<Seq<char>> {
        Set::new(|k: Seq<char>| exists|i: int| 0 <= i < self.api_keys@.len() && #[trigger] self.api_keys@[i].0@ == k)
    }

    /// A service with the given configuration and no API keys.
    pub fn new(config: AuthConfig) -> (r: Self)
        ensures
            r.config_spec() == config,
            r.key_names() == Set::<Seq<char>>::empty(),
    {
        let r = AuthService { config, api_keys: Vec::new() };
        proof {
            assert(r.key_names() =~= Set::<Seq<char>>::empty());
        }
        r
    }

    /// Authenticates a charge point: it is accepted, with the permissions
    /// `granted_permissions` gives for the configuration.
    pub fn authenticate_charge_point(&self, charge_point_id: &str, credentials: Option<&str>) -> (r: Result<
        AuthResult,
        CsmsError,
    >)
        ensures
            r matches Ok(a) && a.authenticated && a.charge_point_id@ == charge_point_id@
                && a.permissions@.map_values(|s: String| s@) == granted_permissions(self.config_spec().enabled),
    {
        let permission = if !self.config.enabled { String::from_str("*") } else { String::from_str("charge") };
        let permissions = vec![permission];
        proof {
            assert(permissions@.map_values(|s: String| s@) =~= granted_permissions(self.config.enabled));
        }
        Ok(AuthResult { authenticated: true, charge_point_id: String::from_str(charge_point_id), permissions })
    }

    /// Authorizes an ID tag: every tag is accepted, with no parent and no expiry.
    pub fn authorize_id_tag(&self, id_tag: &str) -> (r: Result<IdTagInfo, CsmsError>)
        ensures
            r matches Ok(info) && info.status == AuthorizationStatus::Accepted && info.parent_id_tag is None
                && info.expiry_date is None,
    {
        Ok(IdTagInfo { status: AuthorizationStatus::Accepted, parent_id_tag: None, expiry_date: None })
    }

    /// Validates an API key: valid when API keys are enabled and the key is known.
    pub fn validate_api_key(&self, api_key: &str) -> (r: Result<bool, CsmsError>)
        ensures
            r matches Ok(b) && b == (self.config_spec().api_key_enabled && self.key_names().contains(api_key@)),
    {
        if !self.config.api_key_enabled {
            return Ok(false);
        }
        let mut i: usize = 0;
        while i < self.api_keys.len()
            invariant
                0 <= i <= self.api_keys@.len(),
                self.config.api_key_enabled,
                forall|j: int| 0 <= j < i ==> #[trigger] self.api_keys@[j].0@ != api_key@,
            decreases self.api_keys@.len() - i,
        {
            if str_eq(self.api_keys[i].0.as_str(), api_key) {
                proof {
                    assert(self.api_keys@[i as int].0@ == api_key@);
                    assert(self.key_names().contains(api_key@));
                }
                return Ok(true);
            }
            i = i + 1;
        }
        Ok(false)
    }
}

} // verus!
