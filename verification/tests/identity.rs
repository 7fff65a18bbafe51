use robson::context::IdentityScope;
use robson::credentials::{CredentialError, CredentialId, CredentialProfile, CredentialStatus, Exchange};

#[test]
fn test_single_user_defaults() {
    let scope = IdentityScope::single_user();
    assert_eq!(scope.tenant_id, "default");
    assert_eq!(scope.user_id, "local");
    assert_eq!(scope.profile, "default");
    assert!(scope.is_single_user());
}

#[test]
fn test_explicit_multi_tenant() {
    let scope = IdentityScope::new("org123", "user456", "prod");
    assert_eq!(scope.tenant_id, "org123");
    assert_eq!(scope.user_id, "user456");
    assert_eq!(scope.profile, "prod");
    assert!(!scope.is_single_user());
}

#[test]
fn test_from_parts_all_none() {
    let scope = IdentityScope::from_parts(None, None, None);
    assert_eq!(scope.tenant_id, "default");
    assert_eq!(scope.user_id, "local");
    assert_eq!(scope.profile, "default");
}

#[test]
fn test_from_parts_partial() {
    let scope = IdentityScope::from_parts(None, None, Some("paper"));
    assert_eq!(scope.tenant_id, "default");
    assert_eq!(scope.user_id, "local");
    assert_eq!(scope.profile, "paper");
}

#[test]
fn test_from_parts_all_explicit() {
    let scope = IdentityScope::from_parts(Some("tenant_a"), Some("user_b"), Some("prod"));
    assert_eq!(scope.tenant_id, "tenant_a");
    assert_eq!(scope.user_id, "user_b");
    assert_eq!(scope.profile, "prod");
}

#[test]
fn test_aad_base_format() {
    let scope = IdentityScope::new("tenant1", "user2", "prod");
    assert_eq!(scope.aad_base(), "tenant1|user2|prod");

    let single = IdentityScope::single_user();
    assert_eq!(single.aad_base(), "default|local|default");
}

#[test]
fn test_display_single_user() {
    let scope = IdentityScope::single_user();
    assert_eq!(scope.display(), "single-user(profile=default)");

    let scope_paper = IdentityScope::single_user_with_profile("paper");
    assert_eq!(scope_paper.display(), "single-user(profile=paper)");
}

#[test]
fn test_display_multi_tenant() {
    let scope = IdentityScope::new("org123", "user456", "prod");
    assert_eq!(scope.display(), "tenant=org123/user=user456/profile=prod");
}

#[test]
fn test_default_is_single_user() {
    let scope = IdentityScope::default();
    assert!(scope.is_single_user());
}

#[test]
fn test_credential_id_single_user() {
    let id = CredentialId::single_user(Exchange::Binance);
    assert_eq!(id.tenant_id(), "default");
    assert_eq!(id.user_id(), "local");
    assert_eq!(id.profile(), "default");
    assert_eq!(id.exchange, Exchange::Binance);
    assert!(id.is_single_user());
}

#[test]
fn test_credential_id_single_user_with_profile() {
    let id = CredentialId::single_user_with_profile(Exchange::Binance, "paper");
    assert_eq!(id.tenant_id(), "default");
    assert_eq!(id.user_id(), "local");
    assert_eq!(id.profile(), "paper");
    assert!(id.is_single_user());
}

#[test]
fn test_credential_id_from_scope() {
    let scope = IdentityScope::new("org123", "user456", "prod");
    let id = CredentialId::from_scope(scope, Exchange::Binance);
    assert_eq!(id.tenant_id(), "org123");
    assert_eq!(id.user_id(), "user456");
    assert_eq!(id.profile(), "prod");
    assert!(!id.is_single_user());
}

#[test]
fn test_credential_id_aad() {
    let scope = IdentityScope::new("tenant1", "user1", "prod");
    let id = CredentialId::from_scope(scope, Exchange::Binance);
    let aad = id.aad();
    let aad_str = String::from_utf8(aad).unwrap();
    assert_eq!(aad_str, "tenant1|user1|prod|binance");
}

#[test]
fn test_credential_id_aad_single_user() {
    let id = CredentialId::single_user(Exchange::Binance);
    let aad_str = String::from_utf8(id.aad()).unwrap();
    assert_eq!(aad_str, "default|local|default|binance");
}

#[test]
fn test_exchange_base_url() {
    assert_eq!(Exchange::Binance.base_url(), "https://api.binance.com");
    assert_eq!(Exchange::BinanceTestnet.base_url(), "https://testnet.binance.vision");
}

#[test]
fn test_aad_prevents_cross_tenant_decrypt() {
    let scope1 = IdentityScope::new("tenant_a", "user1", "default");
    let scope2 = IdentityScope::new("tenant_b", "user1", "default");
    let id1 = CredentialId::from_scope(scope1, Exchange::Binance);
    let id2 = CredentialId::from_scope(scope2, Exchange::Binance);
    assert_ne!(id1.aad(), id2.aad());

    let scope3 = IdentityScope::new("tenant_a", "user2", "default");
    let id3 = CredentialId::from_scope(scope3, Exchange::Binance);
    assert_ne!(id1.aad(), id3.aad());

    let scope4 = IdentityScope::new("tenant_a", "user1", "paper");
    let id4 = CredentialId::from_scope(scope4, Exchange::Binance);
    assert_ne!(id1.aad(), id4.aad());
}

#[test]
fn aad_differs_by_exchange() {
    let a = CredentialId::single_user(Exchange::Binance);
    let b = CredentialId::single_user(Exchange::BinanceTestnet);
    assert_ne!(a.aad(), b.aad());
    assert_eq!(String::from_utf8(b.aad()).unwrap(), "default|local|default|binance_testnet");
}

#[test]
fn names_round_trip() {
    for e in [Exchange::Binance, Exchange::BinanceTestnet] {
        assert_eq!(Exchange::from_str(e.as_str()), Some(e));
    }
    for p in [CredentialProfile::Default, CredentialProfile::Paper, CredentialProfile::Prod] {
        assert_eq!(CredentialProfile::from_str(p.as_str()), Some(p));
    }
    for s in [CredentialStatus::Active, CredentialStatus::Revoked, CredentialStatus::Expired] {
        assert_eq!(CredentialStatus::from_str(s.as_str()), Some(s));
    }
    assert_eq!(Exchange::from_str("kraken"), None);
    assert_eq!(CredentialProfile::from_str("staging"), None);
    assert_eq!(CredentialStatus::from_str("ACTIVE"), None);
    assert_eq!(CredentialProfile::single_user_default(), CredentialProfile::Default);
    assert_eq!(CredentialProfile::default(), CredentialProfile::Default);
}

#[test]
fn credential_error_messages() {
    let e = CredentialError::NotFound {
        tenant_id: "t".to_string(),
        user_id: "u".to_string(),
        exchange: "binance".to_string(),
        profile: "prod".to_string(),
    };
    assert_eq!(e.display(), "Credential not found for t/u/binance/prod");
    assert_eq!(
        CredentialError::NotActive { status: "revoked".to_string() }.display(),
        "Credential is revoked (not active)"
    );
    assert_eq!(
        CredentialError::AccessDenied.display(),
        "Access denied: credential belongs to different tenant/user"
    );
}
