//! Identity context for multi-tenant credential resolution: tenant, user and
//! credential profile. Single-user mode is the explicit alias tenant
//! "default", user "local".

use vstd::prelude::*;

use crate::text::{owned, str_eq};

verus! {

/// Default tenant ID for single-user mode.
pub const DEFAULT_TENANT_ID: &'static str = "default";

/// Default user ID for single-user mode.
pub const DEFAULT_USER_ID: &'static str = "local";

/// Default profile name.
pub const DEFAULT_PROFILE: &'static str = "default";

/// Identity scope for credential resolution.
#[derive(Debug, PartialEq, Eq, Hash)]
pub struct IdentityScope {
    /// Tenant/organization identifier.
    pub tenant_id: String,
    /// User identifier within tenant.
    pub user_id: String,
    /// Credential profile (default, paper, prod).
    pub profile: String,
}

impl Clone for IdentityScope {
    fn clone(&self) -> (r: IdentityScope)
        ensures
            r == *self,
    {
        IdentityScope {
            tenant_id: self.tenant_id.clone(),
            user_id: self.user_id.clone(),
            profile: self.profile.clone(),
        }
    }
}

/// Whether the scope is the single-user alias.
pub open spec fn spec_is_single_user(scope: IdentityScope) -> bool {
    scope.tenant_id@ == "default"@ && scope.user_id@ == "local"@
}

/// `"{tenant}|{user}|{profile}"`.
pub open spec fn spec_aad_base(scope: IdentityScope) -> Seq<char> {
    scope.tenant_id@ + "|"@ + scope.user_id@ + "|"@ + scope.profile@
}

/// The part given, or the default.
pub open spec fn part_or(part: Option<&str>, default: Seq<char>) -> Seq<char> {
    match part {
        Some(s) => s@,
        None => default,
    }
}

impl IdentityScope {
    /// A scope with explicit values.
    pub fn new(tenant_id: &str, user_id: &str, profile: &str) -> (r: IdentityScope)
        ensures
            r.tenant_id@ == tenant_id@,
            r.user_id@ == user_id@,
            r.profile@ == profile@,
    {
        IdentityScope { tenant_id: owned(tenant_id), user_id: owned(user_id), profile: owned(profile) }
    }

    /// The single-user scope: tenant "default", user "local", profile
    /// "default".
    pub fn single_user() -> (r: IdentityScope)
        ensures
            r.tenant_id@ == "default"@,
            r.user_id@ == "local"@,
            r.profile@ == "default"@,
    {
        IdentityScope {
            tenant_id: owned(DEFAULT_TENANT_ID),
            user_id: owned(DEFAULT_USER_ID),
            profile: owned(DEFAULT_PROFILE),
        }
    }

    /// The single-user scope with a custom profile.
    pub fn single_user_with_profile(profile: &str) -> (r: IdentityScope)
        ensures
            r.tenant_id@ == "default"@,
            r.user_id@ == "local"@,
            r.profile@ == profile@,
    {
        IdentityScope {
            tenant_id: owned(DEFAULT_TENANT_ID),
            user_id: owned(DEFAULT_USER_ID),
            profile: owned(profile),
        }
    }

    /// Whether this is the single-user alias (any profile).
    pub fn is_single_user(&self) -> (r: bool)
        ensures
            r == spec_is_single_user(*self),
    {
        str_eq(self.tenant_id.as_str(), DEFAULT_TENANT_ID) && str_eq(
            self.user_id.as_str(),
            DEFAULT_USER_ID,
        )
    }

    /// The additional authenticated data string:
    /// `"{tenant_id}|{user_id}|{profile}"`.
    pub fn aad_base(&self) -> (r: String)
        ensures
            r@ == spec_aad_base(*self),
    {
        let mut s = self.tenant_id.clone();
        s.append("|");
        s.append(self.user_id.as_str());
        s.append("|");
        s.append(self.profile.as_str());
        s
    }

    /// A scope from optional parts; a missing part takes its default.
    pub fn from_parts(tenant_id: Option<&str>, user_id: Option<&str>, profile: Option<&str>) -> (r:
        IdentityScope)
        ensures
            r.tenant_id@ == part_or(tenant_id, "default"@),
            r.user_id@ == part_or(user_id, "local"@),
            r.profile@ == part_or(profile, "default"@),
    {
        IdentityScope {
            tenant_id: match tenant_id {
                Some(s) => owned(s),
                None => owned(DEFAULT_TENANT_ID),
            },
            user_id: match user_id {
                Some(s) => owned(s),
                None => owned(DEFAULT_USER_ID),
            },
            profile: match profile {
                Some(s) => owned(s),
                None => owned(DEFAULT_PROFILE),
            },
        }
    }

    /// `"single-user(profile=..)"` for the single-user alias, else
    /// `"tenant=../user=../profile=.."`.
    pub fn display(&self) -> (r: String)
        ensures
            r@ == (if spec_is_single_user(*self) {
                "single-user(profile="@ + self.profile@ + ")"@
            } else {
                "tenant="@ + self.tenant_id@ + "/user="@ + self.user_id@ + "/profile="@
                    + self.profile@
            }),
    {
        if self.is_single_user() {
            let mut s = owned("single-user(profile=");
            s.append(self.profile.as_str());
            s.append(")");
            s
        } else {
            let mut s = owned("tenant=");
            s.append(self.tenant_id.as_str());
            s.append("/user=");
            s.append(self.user_id.as_str());
            s.append("/profile=");
            s.append(self.profile.as_str());
            s
        }
    }
}

impl Default for IdentityScope {
    /// The single-user scope.
    fn default() -> (r: IdentityScope)
        ensures
            r.tenant_id@ == "default"@,
            r.user_id@ == "local"@,
            r.profile@ == "default"@,
    {
        IdentityScope::single_user()
    }
}

} // verus!
