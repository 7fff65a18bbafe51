//! Exchange credential identities, scoped by tenant, user, profile and
//! exchange. The identity is bound into the additional authenticated data
//! (AAD) of the encryption at rest, so a ciphertext cannot be decrypted
//! under another identity.

use vstd::prelude::*;

use crate::context::{spec_aad_base, spec_is_single_user, IdentityScope};
use crate::ids::Timestamp;
use crate::text::{owned, str_eq};
use vstd::utf8::encode_utf8;

verus! {

// =============================================================================
// Credential identity
// =============================================================================
/// Identity of a set of exchange credentials: an identity scope and an
/// exchange.
#[derive(Debug, PartialEq, Eq, Hash)]
pub struct CredentialId {
    /// Identity scope (tenant, user, profile)
    pub scope: IdentityScope,
    /// Exchange name
    pub exchange: Exchange,
}

impl Clone for CredentialId {
    fn clone(&self) -> (r: CredentialId)
        ensures
            r == *self,
    {
        CredentialId { scope: self.scope.clone(), exchange: self.exchange }
    }
}

/// `"{tenant_id}|{user_id}|{profile}|{exchange}"`.
pub open spec fn spec_aad_text(id: CredentialId) -> Seq<char> {
    spec_aad_base(id.scope) + "|"@ + id.exchange.spec_as_str()
}

impl CredentialId {
    /// A credential identity from a scope and an exchange.
    pub fn from_scope(scope: IdentityScope, exchange: Exchange) -> (r: CredentialId)
        ensures
            r.scope == scope,
            r.exchange == exchange,
    {
        CredentialId { scope, exchange }
    }

    /// The single-user credential identity for an exchange.
    pub fn single_user(exchange: Exchange) -> (r: CredentialId)
        ensures
            r.scope.tenant_id@ == "default"@,
            r.scope.user_id@ == "local"@,
            r.scope.profile@ == "default"@,
            r.exchange == exchange,
    {
        CredentialId { scope: IdentityScope::single_user(), exchange }
    }

    /// The single-user credential identity with a custom profile.
    pub fn single_user_with_profile(exchange: Exchange, profile: &str) -> (r: CredentialId)
        ensures
            r.scope.tenant_id@ == "default"@,
            r.scope.user_id@ == "local"@,
            r.scope.profile@ == profile@,
            r.exchange == exchange,
    {
        CredentialId { scope: IdentityScope::single_user_with_profile(profile), exchange }
    }

    /// Tenant ID.
    pub fn tenant_id(&self) -> (r: &str)
        ensures
            r@ == self.scope.tenant_id@,
    {
        self.scope.tenant_id.as_str()
    }

    /// User ID.
    pub fn user_id(&self) -> (r: &str)
        ensures
            r@ == self.scope.user_id@,
    {
        self.scope.user_id.as_str()
    }

    /// Profile.
    pub fn profile(&self) -> (r: &str)
        ensures
            r@ == self.scope.profile@,
    {
        self.scope.profile.as_str()
    }

    /// The AAD bytes: `"{tenant_id}|{user_id}|{profile}|{exchange}"` in UTF-8.
    pub fn aad(&self) -> (r: Vec<u8>)
        ensures
            r@ == encode_utf8(spec_aad_text(*self)),
    {
        let mut s = self.scope.aad_base();
        s.append("|");
        s.append(self.exchange.as_str());
        s.as_str().as_bytes_vec()
    }

    /// Whether this is the single-user alias.
    pub fn is_single_user(&self) -> (r: bool)
        ensures
            r == spec_is_single_user(self.scope),
    {
        self.scope.is_single_user()
    }

    /// The identity scope.
    pub fn scope(&self) -> (r: &IdentityScope)
        ensures
            *r == self.scope,
    {
        &self.scope
    }
}

/// Whether `c` occurs in `s`.
pub open spec fn has_char(s: Seq<char>, c: char) -> bool {
    exists|i: int| 0 <= i < s.len() && s[i] == c
}

/// No part of the identity contains the separator `|`.
pub open spec fn separator_free(id: CredentialId) -> bool {
    &&& !has_char(id.scope.tenant_id@, '|')
    &&& !has_char(id.scope.user_id@, '|')
    &&& !has_char(id.scope.profile@, '|')
}

/// Two words without `|`, each followed by `|`, are equal when the texts are.
proof fn lemma_split_at_separator(a: Seq<char>, b: Seq<char>, c: Seq<char>, d: Seq<char>)
    requires
        !has_char(a, '|'),
        !has_char(c, '|'),
        a + seq!['|'] + b == c + seq!['|'] + d,
    ensures
        a == c,
        b == d,
{
    let l = a + seq!['|'] + b;
    let r = c + seq!['|'] + d;
    if a.len() < c.len() {
        assert(l[a.len() as int] == '|');
        assert(r[a.len() as int] == c[a.len() as int]);
        assert(false);
    } else if c.len() < a.len() {
        assert(r[c.len() as int] == '|');
        assert(l[c.len() as int] == a[c.len() as int]);
        assert(false);
    }
    assert(a =~= l.subrange(0, a.len() as int));
    assert(c =~= r.subrange(0, c.len() as int));
    assert(b =~= l.subrange(a.len() as int + 1, l.len() as int));
    assert(d =~= r.subrange(c.len() as int + 1, r.len() as int));
}

/// Different credential identities have different AAD: when no part holds
/// the separator `|`, equal AAD bytes mean the same tenant, user, profile
/// and exchange. A ciphertext bound to one identity cannot be opened under
/// another.
pub proof fn lemma_aad_identifies_credential(a: CredentialId, b: CredentialId)
    requires
        separator_free(a),
        separator_free(b),
        encode_utf8(spec_aad_text(a)) == encode_utf8(spec_aad_text(b)),
    ensures
        a.scope.tenant_id@ == b.scope.tenant_id@,
        a.scope.user_id@ == b.scope.user_id@,
        a.scope.profile@ == b.scope.profile@,
        a.exchange == b.exchange,
{
    vstd::utf8::encode_utf8_decode_utf8(spec_aad_text(a));
    vstd::utf8::encode_utf8_decode_utf8(spec_aad_text(b));
    reveal_strlit("|");
    let ta = a.scope.tenant_id@;
    let ua = a.scope.user_id@;
    let pa = a.scope.profile@;
    let ea = a.exchange.spec_as_str();
    let tb = b.scope.tenant_id@;
    let ub = b.scope.user_id@;
    let pb = b.scope.profile@;
    let eb = b.exchange.spec_as_str();
    let bar = seq!['|'];
    assert(spec_aad_text(a) =~= ta + bar + (ua + bar + (pa + bar + ea)));
    assert(spec_aad_text(b) =~= tb + bar + (ub + bar + (pb + bar + eb)));
    lemma_split_at_separator(ta, ua + bar + (pa + bar + ea), tb, ub + bar + (pb + bar + eb));
    lemma_split_at_separator(ua, pa + bar + ea, ub, pb + bar + eb);
    lemma_split_at_separator(pa, ea, pb, eb);
    reveal_strlit("binance");
    reveal_strlit("binance_testnet");
    if a.exchange != b.exchange {
        assert(ea.len() != eb.len());
    }
}

// =============================================================================
// Exchange
// =============================================================================
/// Supported exchanges.
#[derive(Debug, Clone, Copy, PartialEq, Eq, Hash, Structural)]
pub enum Exchange {
    /// Binance production
    Binance,
    /// Binance testnet (for paper trading/testing)
    BinanceTestnet,
}

impl Exchange {
    /// The exchange's name.
    pub open spec fn spec_as_str(self) -> Seq<char> {
        match self {
            Exchange::Binance => "binance"@,
            Exchange::BinanceTestnet => "binance_testnet"@,
        }
    }

    /// The exchange parsed from its name.
    pub open spec fn spec_from_str(s: Seq<char>) -> Option<Exchange> {
        if s == "binance"@ {
            Some(Exchange::Binance)
        } else if s == "binance_testnet"@ {
            Some(Exchange::BinanceTestnet)
        } else {
            None
        }
    }

    /// The exchange's name.
    pub fn as_str(&self) -> (r: &'static str)
        ensures
            r@ == self.spec_as_str(),
    {
        match self {
            Exchange::Binance => "binance",
            Exchange::BinanceTestnet => "binance_testnet",
        }
    }

    /// Parse an exchange name.
    pub fn from_str(s: &str) -> (r: Option<Exchange>)
        ensures
            r == Exchange::spec_from_str(s@),
    {
        if str_eq(s, "binance") {
            Some(Exchange::Binance)
        } else if str_eq(s, "binance_testnet") {
            Some(Exchange::BinanceTestnet)
        } else {
            None
        }
    }

    /// Base URL of the exchange's API.
    pub fn base_url(&self) -> (r: &'static str)
        ensures
            r@ == match self {
                Exchange::Binance => "https://api.binance.com"@,
                Exchange::BinanceTestnet => "https://testnet.binance.vision"@,
            },
    {
        match self {
            Exchange::Binance => "https://api.binance.com",
            Exchange::BinanceTestnet => "https://testnet.binance.vision",
        }
    }
}

/// Parsing an exchange's name gives the exchange back.
pub proof fn lemma_exchange_name_round_trip(e: Exchange)
    ensures
        Exchange::spec_from_str(e.spec_as_str()) == Some(e),
{
    reveal_strlit("binance");
    reveal_strlit("binance_testnet");
    if e == Exchange::BinanceTestnet {
        assert("binance_testnet"@.len() != "binance"@.len());
    }
}

// =============================================================================
// Credential profile
// =============================================================================
/// Credential profile (environment type).
#[derive(Debug, Clone, Copy, PartialEq, Eq, Hash, Structural)]
pub enum CredentialProfile {
    /// Default profile
    Default,
    /// Paper trading (testnet)
    Paper,
    /// Production (explicit)
    Prod,
}

impl CredentialProfile {
    /// The profile's name.
    pub open spec fn spec_as_str(self) -> Seq<char> {
        match self {
            CredentialProfile::Default => "default"@,
            CredentialProfile::Paper => "paper"@,
            CredentialProfile::Prod => "prod"@,
        }
    }

    /// The profile parsed from its name.
    pub open spec fn spec_from_str(s: Seq<char>) -> Option<CredentialProfile> {
        if s == "default"@ {
            Some(CredentialProfile::Default)
        } else if s == "paper"@ {
            Some(CredentialProfile::Paper)
        } else if s == "prod"@ {
            Some(CredentialProfile::Prod)
        } else {
            None
        }
    }

    /// The profile's name.
    pub fn as_str(&self) -> (r: &'static str)
        ensures
            r@ == self.spec_as_str(),
    {
        match self {
            CredentialProfile::Default => "default",
            CredentialProfile::Paper => "paper",
            CredentialProfile::Prod => "prod",
        }
    }

    /// Parse a profile name.
    pub fn from_str(s: &str) -> (r: Option<CredentialProfile>)
        ensures
            r == CredentialProfile::spec_from_str(s@),
    {
        if str_eq(s, "default") {
            Some(CredentialProfile::Default)
        } else if str_eq(s, "paper") {
            Some(CredentialProfile::Paper)
        } else if str_eq(s, "prod") {
            Some(CredentialProfile::Prod)
        } else {
            None
        }
    }

    /// The single-user default profile.
    pub fn single_user_default() -> (r: CredentialProfile)
        ensures
            r == CredentialProfile::Default,
    {
        CredentialProfile::Default
    }
}

impl Default for CredentialProfile {
    /// The default profile.
    fn default() -> (r: CredentialProfile)
        ensures
            r == CredentialProfile::Default,
    {
        CredentialProfile::Default
    }
}

/// Parsing a profile's name gives the profile back.
pub proof fn lemma_profile_name_round_trip(p: CredentialProfile)
    ensures
        CredentialProfile::spec_from_str(p.spec_as_str()) == Some(p),
{
    reveal_strlit("default");
    reveal_strlit("paper");
    reveal_strlit("prod");
    if p == CredentialProfile::Paper {
        assert("paper"@.len() != "default"@.len());
    }
    if p == CredentialProfile::Prod {
        assert("prod"@.len() != "default"@.len());
        assert("prod"@[1] != "paper"@[1]);
    }
}

// =============================================================================
// Credential status
// =============================================================================
/// Status of stored credentials.
#[derive(Debug, Clone, Copy, PartialEq, Eq, Structural)]
pub enum CredentialStatus {
    /// Active and usable
    Active,
    /// Revoked by user
    Revoked,
    /// Expired (if applicable)
    Expired,
}

impl CredentialStatus {
    /// The status's name.
    pub open spec fn spec_as_str(self) -> Seq<char> {
        match self {
            CredentialStatus::Active => "active"@,
            CredentialStatus::Revoked => "revoked"@,
            CredentialStatus::Expired => "expired"@,
        }
    }

    /// The status parsed from its name.
    pub open spec fn spec_from_str(s: Seq<char>) -> Option<CredentialStatus> {
        if s == "active"@ {
            Some(CredentialStatus::Active)
        } else if s == "revoked"@ {
            Some(CredentialStatus::Revoked)
        } else if s == "expired"@ {
            Some(CredentialStatus::Expired)
        } else {
            None
        }
    }

    /// The status's name.
    pub fn as_str(&self) -> (r: &'static str)
        ensures
            r@ == self.spec_as_str(),
    {
        match self {
            CredentialStatus::Active => "active",
            CredentialStatus::Revoked => "revoked",
            CredentialStatus::Expired => "expired",
        }
    }

    /// Parse a status name.
    pub fn from_str(s: &str) -> (r: Option<CredentialStatus>)
        ensures
            r == CredentialStatus::spec_from_str(s@),
    {
        if str_eq(s, "active") {
            Some(CredentialStatus::Active)
        } else if str_eq(s, "revoked") {
            Some(CredentialStatus::Revoked)
        } else if str_eq(s, "expired") {
            Some(CredentialStatus::Expired)
        } else {
            None
        }
    }
}

/// Parsing a status's name gives the status back.
pub proof fn lemma_status_name_round_trip(s: CredentialStatus)
    ensures
        CredentialStatus::spec_from_str(s.spec_as_str()) == Some(s),
{
    reveal_strlit("active");
    reveal_strlit("revoked");
    reveal_strlit("expired");
    if s == CredentialStatus::Revoked {
        assert("revoked"@.len() != "active"@.len());
    }
    if s == CredentialStatus::Expired {
        assert("expired"@.len() != "active"@.len());
        assert("expired"@[0] != "revoked"@[0]);
    }
}

// =============================================================================
// Stored credential and errors
// =============================================================================
/// Encrypted credential as stored in the database.
#[derive(Debug, Clone)]
pub struct StoredCredential {
    /// Credential identity
    pub id: CredentialId,
    /// Encrypted API key
    pub api_key_ciphertext: Vec<u8>,
    /// Nonce for API key encryption
    pub api_key_nonce: Vec<u8>,
    /// Encrypted API secret
    pub api_secret_ciphertext: Vec<u8>,
    /// Nonce for API secret encryption
    pub api_secret_nonce: Vec<u8>,
    /// Encryption version
    pub crypto_version: i32,
    /// Key identifier
    pub key_id: String,
    /// Status
    pub status: CredentialStatus,
    /// User-friendly label
    pub label: Option<String>,
    /// When last used
    pub last_used_at: Option<Timestamp>,
    /// When created
    pub created_at: Timestamp,
    /// When updated
    pub updated_at: Timestamp,
}

/// Credential-related errors.
#[derive(Debug)]
pub enum CredentialError {
    /// Credential not found
    NotFound {
        /// Tenant
        tenant_id: String,
        /// User
        user_id: String,
        /// Exchange
        exchange: String,
        /// Profile
        profile: String,
    },
    /// Credential is not active
    NotActive {
        /// Its status
        status: String,
    },
    /// Encryption/decryption error
    Encryption(String),
    /// Invalid credential format
    InvalidCredential(String),
    /// Access denied (tenant isolation violation)
    AccessDenied,
    /// Database error
    Database(String),
}

impl CredentialError {
    /// The error message.
    pub fn display(&self) -> (r: String)
        ensures
            r@ == match self {
                CredentialError::NotFound { tenant_id, user_id, exchange, profile } =>
                    "Credential not found for "@ + tenant_id@ + "/"@ + user_id@ + "/"@ + exchange@
                    + "/"@ + profile@,
                CredentialError::NotActive { status } => "Credential is "@ + status@
                    + " (not active)"@,
                CredentialError::Encryption(m) => "Encryption error: "@ + m@,
                CredentialError::InvalidCredential(m) => "Invalid credential: "@ + m@,
                CredentialError::AccessDenied =>
                    "Access denied: credential belongs to different tenant/user"@,
                CredentialError::Database(m) => "Database error: "@ + m@,
            },
    {
        match self {
            CredentialError::NotFound { tenant_id, user_id, exchange, profile } => {
                let mut s = owned("Credential not found for ");
                s.append(tenant_id.as_str());
                s.append("/");
                s.append(user_id.as_str());
                s.append("/");
                s.append(exchange.as_str());
                s.append("/");
                s.append(profile.as_str());
                s
            },
            CredentialError::NotActive { status } => {
                let mut s = owned("Credential is ");
                s.append(status.as_str());
                s.append(" (not active)");
                s
            },
            CredentialError::Encryption(m) => {
                let mut s = owned("Encryption error: ");
                s.append(m.as_str());
                s
            },
            CredentialError::InvalidCredential(m) => {
                let mut s = owned("Invalid credential: ");
                s.append(m.as_str());
                s
            },
            CredentialError::AccessDenied => owned(
                "Access denied: credential belongs to different tenant/user",
            ),
            CredentialError::Database(m) => {
                let mut s = owned("Database error: ");
                s.append(m.as_str());
                s
            },
        }
    }
}

} // verus!
