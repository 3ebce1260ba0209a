//! The credential policy engine: what credential material is acceptable, when
//! a credential has expired and when it is due for rotation.

use crate::errors::Error;
use crate::storage::Env;
use crate::types::Address;
use vstd::prelude::*;

verus! {

/// How an attestor authenticates against an external service.
#[derive(Copy, Clone, Debug, PartialEq, Eq, Structural)]
pub enum CredentialType {
    ApiKey,
    BearerToken,
    BasicAuth,
    OAuth2,
    MutualTLS,
}

impl CredentialType {
    /// The least number of bytes that material of this kind has.
    pub open spec fn min_len(self) -> nat {
        match self {
            CredentialType::ApiKey => 16,
            CredentialType::BearerToken => 20,
            CredentialType::BasicAuth => 8,
            CredentialType::OAuth2 => 32,
            CredentialType::MutualTLS => 64,
        }
    }
}

/// A stored credential. Only encrypted material is kept.
#[derive(Clone, Debug, PartialEq, Eq)]
pub struct SecureCredential {
    pub attestor: Address,
    pub credential_type: CredentialType,
    pub encrypted_value: Vec<u8>,
    pub created_at: u64,
    /// 0 means that the credential never expires.
    pub expires_at: u64,
    pub rotation_required: bool,
}

/// A credential as it is injected for one invocation; it is never stored.
#[derive(Clone, Debug, PartialEq, Eq)]
pub struct RuntimeCredential {
    pub attestor: Address,
    pub credential_type: CredentialType,
    pub endpoint: Vec<u8>,
    pub injected_at: u64,
}

/// The rotation policy of one attestor.
#[derive(Copy, Clone, Debug, PartialEq, Eq)]
pub struct CredentialPolicy {
    pub attestor: Address,
    /// 0 means that age alone never calls for rotation.
    pub rotation_interval_seconds: u64,
    pub require_encryption: bool,
    pub allow_plaintext_storage: bool,
}

impl SecureCredential {
    /// The credential has an expiry time and `now` has reached it.
    pub open spec fn expired_at(&self, now: u64) -> bool {
        self.expires_at > 0 && now >= self.expires_at
    }

    /// The age of the credential at `now`; 0 where `now` lies before its
    /// creation.
    pub open spec fn age_at(&self, now: u64) -> int {
        if now >= self.created_at {
            now - self.created_at
        } else {
            0
        }
    }

    /// Rotation is due: it was asked for explicitly, or the policy has an
    /// interval and the credential is at least that old.
    pub open spec fn rotation_due(&self, now: u64, policy: &CredentialPolicy) -> bool {
        self.rotation_required || (policy.rotation_interval_seconds > 0 && self.age_at(now)
            >= policy.rotation_interval_seconds)
    }

    pub fn is_expired(&self, current_timestamp: u64) -> (r: bool)
        ensures
            r == self.expired_at(current_timestamp),
    {
        self.expires_at > 0 && current_timestamp >= self.expires_at
    }

    pub fn needs_rotation(&self, current_timestamp: u64, policy: &CredentialPolicy) -> (r: bool)
        ensures
            r == self.rotation_due(current_timestamp, policy),
    {
        if self.rotation_required {
            return true;
        }
        if policy.rotation_interval_seconds > 0 {
            let age = current_timestamp.saturating_sub(self.created_at);
            return age >= policy.rotation_interval_seconds;
        }
        false
    }
}

/// The operations of the credential policy engine.
pub struct CredentialManager;

impl CredentialManager {
    /// The rotation interval of the default policy: 30 days.
    pub open spec fn default_rotation_interval() -> u64 {
        2592000
    }

    /// Whether `value` is acceptable material of kind `credential_type`: it
    /// is not empty and has the least length of its kind.
    pub open spec fn well_formed(credential_type: CredentialType, value: Seq<u8>) -> bool {
        value.len() > 0 && value.len() >= credential_type.min_len()
    }

    /// A credential for this invocation, stamped with the current time.
    pub fn inject_runtime_credential(
        env: &Env,
        attestor: Address,
        credential_type: CredentialType,
        endpoint: Vec<u8>,
    ) -> (r: RuntimeCredential)
        ensures
            r == (RuntimeCredential {
                attestor,
                credential_type,
                endpoint,
                injected_at: env@.timestamp,
            }),
    {
        RuntimeCredential { attestor, credential_type, endpoint, injected_at: env.timestamp() }
    }

    pub fn validate_credential_format(credential_type: &CredentialType, value: &Vec<u8>) -> (r:
        Result<(), Error>)
        ensures
            r == (if Self::well_formed(*credential_type, value@) {
                Ok::<(), Error>(())
            } else {
                Err(Error::InvalidCredentialFormat)
            }),
    {
        if value.len() == 0 {
            return Err(Error::InvalidCredentialFormat);
        }
        match credential_type {
            CredentialType::ApiKey => {
                if value.len() < 16 {
                    return Err(Error::InvalidCredentialFormat);
                }
            },
            CredentialType::BearerToken => {
                if value.len() < 20 {
                    return Err(Error::InvalidCredentialFormat);
                }
            },
            CredentialType::BasicAuth => {
                if value.len() < 8 {
                    return Err(Error::InvalidCredentialFormat);
                }
            },
            CredentialType::OAuth2 => {
                if value.len() < 32 {
                    return Err(Error::InvalidCredentialFormat);
                }
            },
            CredentialType::MutualTLS => {
                if value.len() < 64 {
                    return Err(Error::InvalidCredentialFormat);
                }
            },
        }
        Ok(())
    }

    /// The policy with the defaults: rotation every 30 days, encryption
    /// required, no plaintext storage.
    pub fn create_default_policy(attestor: Address) -> (p: CredentialPolicy)
        ensures
            p == (CredentialPolicy {
                attestor,
                rotation_interval_seconds: Self::default_rotation_interval(),
                require_encryption: true,
                allow_plaintext_storage: false,
            }),
    {
        CredentialPolicy {
            attestor,
            rotation_interval_seconds: 86400 * 30,
            require_encryption: true,
            allow_plaintext_storage: false,
        }
    }
}

} // verus!
