//! The organization: profile, branding, and the security foundation (MFA,
//! password policy, SSO) that every other module trusts.

use crate::ids::{OrgId, UserId};
use vstd::prelude::*;

verus! {

#[derive(Debug, Clone, Copy, PartialEq, Eq, Structural)]
pub enum MfaMethod {
    Totp,
    Sms,
    Webauthn,
}

#[derive(Debug, Clone, Copy, PartialEq, Eq, Structural)]
pub enum MfaEnforce {
    All,
    Admins,
    /// MFA enforced for no one (stored as `none`).
    Nobody,
}

#[derive(Debug, Clone, Copy, PartialEq, Eq, Structural)]
pub struct MfaConfig {
    pub enabled: bool,
    pub method: MfaMethod,
    pub enforce: MfaEnforce,
}

#[derive(Debug, Clone, Copy, PartialEq, Eq, Structural)]
pub struct PasswordPolicy {
    pub min_length: u8,
    pub require_number: bool,
    pub require_symbol: bool,
    /// `None` means never rotate; otherwise rotate every N days.
    pub rotation_days: Option<u16>,
}

impl Default for PasswordPolicy {
    /// Twelve characters, a number and a symbol, rotation every 90 days.
    fn default() -> (p: Self)
        ensures
            p == (PasswordPolicy {
                min_length: 12,
                require_number: true,
                require_symbol: true,
                rotation_days: Some(90),
            }),
    {
        PasswordPolicy {
            min_length: 12,
            require_number: true,
            require_symbol: true,
            rotation_days: Some(90),
        }
    }
}

#[derive(Debug, Clone, Copy, PartialEq, Eq, Structural)]
pub enum SsoProvider {
    Saml,
    Oidc,
}

#[derive(Debug)]
pub struct SsoConfig {
    pub enabled: bool,
    pub provider: SsoProvider,
    pub url: Option<String>,
}

impl Clone for SsoConfig {
    fn clone(&self) -> (r: Self)
        ensures
            r == *self,
    {
        SsoConfig {
            enabled: self.enabled,
            provider: self.provider,
            url: match &self.url {
                Some(u) => Some(u.clone()),
                None => None,
            },
        }
    }
}

#[derive(Debug)]
pub struct Branding {
    /// The accent colour that runs through every surface, e.g. `#D6B982`.
    pub accent_color: String,
}

impl Clone for Branding {
    fn clone(&self) -> (r: Self)
        ensures
            r == *self,
    {
        Branding { accent_color: self.accent_color.clone() }
    }
}

#[derive(Debug)]
pub struct Organization {
    pub id: OrgId,
    pub name: String,
    pub domain: Option<String>,
    pub owner_id: UserId,
    /// Set while an ownership transfer awaits acceptance.
    pub pending_owner_id: Option<UserId>,
    pub branding: Branding,
    pub mfa: MfaConfig,
    pub password_policy: PasswordPolicy,
    pub sso: SsoConfig,
}

impl Clone for Organization {
    fn clone(&self) -> (r: Self)
        ensures
            r == *self,
    {
        Organization {
            id: self.id,
            name: self.name.clone(),
            domain: match &self.domain {
                Some(d) => Some(d.clone()),
                None => None,
            },
            owner_id: self.owner_id,
            pending_owner_id: self.pending_owner_id,
            branding: self.branding.clone(),
            mfa: self.mfa,
            password_policy: self.password_policy,
            sso: self.sso.clone(),
        }
    }
}

} // verus!
