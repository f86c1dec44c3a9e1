use vaultwarden::token::{
    admin_claims_at, decode_admin, decode_delete, decode_invite, decode_login, decode_verify_email,
    delete_claims_at, generate_admin_claims, generate_delete_claims, generate_invite_claims,
    generate_verify_email_claims, invite_claims_at, issuer, verify_email_claims_at, AdminJWTClaims,
    LoginJWTClaims, TokenError, TokenPurpose,
};

const ORIGIN: &str = "https://vault.example.com";
const NOW: i64 = 1_704_067_200;

fn login_claims(iss: &str, nbf: i64, exp: i64) -> LoginJWTClaims {
    LoginJWTClaims {
        nbf,
        exp,
        iss: iss.to_string(),
        sub: "user-1".to_string(),
        premium: true,
        name: "Alice".to_string(),
        email: "a@example.com".to_string(),
        email_verified: true,
        orgowner: vec!["org-owned".to_string()],
        orgadmin: vec!["org-admin".to_string()],
        orguser: vec!["org-user".to_string()],
        orgmanager: vec!["org-manager".to_string()],
        sstamp: "stamp-1".to_string(),
        device: "device-1".to_string(),
        scope: vec!["api".to_string(), "offline_access".to_string()],
        amr: vec!["Application".to_string()],
    }
}

#[test]
fn issuer_strings_per_purpose() {
    assert_eq!(issuer(ORIGIN, TokenPurpose::Login), "https://vault.example.com|login");
    assert_eq!(issuer(ORIGIN, TokenPurpose::Invite), "https://vault.example.com|invite");
    assert_eq!(issuer(ORIGIN, TokenPurpose::Delete), "https://vault.example.com|delete");
    assert_eq!(issuer(ORIGIN, TokenPurpose::VerifyEmail), "https://vault.example.com|verifyemail");
    assert_eq!(issuer(ORIGIN, TokenPurpose::Admin), "https://vault.example.com|admin");
}

#[test]
fn login_claims_accepted_within_lifetime() {
    let c = login_claims("https://vault.example.com|login", NOW - 10, NOW + 7200);
    let r = decode_login(c, ORIGIN, NOW).unwrap();
    assert_eq!(r.sub, "user-1");
    assert_eq!(r.sstamp, "stamp-1");
}

#[test]
fn expiry_leeway_is_thirty_seconds() {
    let at_edge = login_claims("https://vault.example.com|login", NOW - 7200, NOW - 30);
    assert!(decode_login(at_edge, ORIGIN, NOW).is_ok());
    let past = login_claims("https://vault.example.com|login", NOW - 7200, NOW - 31);
    assert_eq!(decode_login(past, ORIGIN, NOW).unwrap_err(), TokenError::Expired);
}

#[test]
fn not_before_leeway_is_thirty_seconds() {
    let at_edge = login_claims("https://vault.example.com|login", NOW + 30, NOW + 7200);
    assert!(decode_login(at_edge, ORIGIN, NOW).is_ok());
    let early = login_claims("https://vault.example.com|login", NOW + 31, NOW + 7200);
    assert_eq!(decode_login(early, ORIGIN, NOW).unwrap_err(), TokenError::NotYetValid);
}

#[test]
fn expiry_is_checked_before_issuer() {
    let c = login_claims("https://vault.example.com|admin", NOW - 9000, NOW - 7200);
    assert_eq!(decode_login(c, ORIGIN, NOW).unwrap_err(), TokenError::Expired);
}

#[test]
fn invite_token_refused_as_login() {
    let invite = invite_claims_at(NOW, ORIGIN, "user-1".to_string(), "b@example.com".to_string(), None, None, None);
    let as_login = login_claims(&invite.iss, invite.nbf, invite.exp);
    assert_eq!(decode_login(as_login, ORIGIN, NOW).unwrap_err(), TokenError::WrongIssuer);
    assert!(decode_invite(invite, ORIGIN, NOW).is_ok());
}

#[test]
fn login_issuer_refused_by_admin_endpoint() {
    let c = AdminJWTClaims {
        nbf: NOW,
        exp: NOW + 1200,
        iss: "domain|login".to_string(),
        sub: "admin_panel".to_string(),
    };
    assert_eq!(decode_admin(c, "domain", NOW).unwrap_err(), TokenError::WrongIssuer);
    let ok = AdminJWTClaims { nbf: NOW, exp: NOW + 1200, iss: "domain|admin".to_string(), sub: "admin_panel".to_string() };
    assert!(decode_admin(ok, "domain", NOW).is_ok());
}

#[test]
fn other_origin_refused() {
    let c = delete_claims_at(NOW, "https://other.example.com", "user-1".to_string());
    assert_eq!(decode_delete(c, ORIGIN, NOW).unwrap_err(), TokenError::WrongIssuer);
}

#[test]
fn claims_lifetimes() {
    let i = invite_claims_at(NOW, ORIGIN, "u".to_string(), "e@x.org".to_string(), Some("o".to_string()), None, Some("a@x.org".to_string()));
    assert_eq!(i.nbf, NOW);
    assert_eq!(i.exp, NOW + 432_000);
    assert_eq!(i.iss, "https://vault.example.com|invite");
    assert_eq!(i.org_id.as_deref(), Some("o"));
    let d = delete_claims_at(NOW, ORIGIN, "u".to_string());
    assert_eq!(d.exp, NOW + 432_000);
    assert_eq!(d.iss, "https://vault.example.com|delete");
    let v = verify_email_claims_at(NOW, ORIGIN, "u".to_string());
    assert_eq!(v.exp, NOW + 432_000);
    assert_eq!(v.iss, "https://vault.example.com|verifyemail");
    assert!(decode_verify_email(v, ORIGIN, NOW).is_ok());
    let a = admin_claims_at(NOW, ORIGIN);
    assert_eq!(a.exp, NOW + 1200);
    assert_eq!(a.sub, "admin_panel");
    assert_eq!(a.iss, "https://vault.example.com|admin");
}

#[test]
fn generated_claims_use_the_clock() {
    let i = generate_invite_claims(ORIGIN, "u".to_string(), "e@x.org".to_string(), None, None, None);
    assert!(i.nbf > 1_600_000_000);
    assert_eq!(i.exp - i.nbf, 432_000);
    let d = generate_delete_claims(ORIGIN, "u".to_string());
    assert!(d.nbf > 1_600_000_000);
    let v = generate_verify_email_claims(ORIGIN, "u".to_string());
    assert_eq!(v.exp - v.nbf, 432_000);
    let a = generate_admin_claims(ORIGIN);
    assert_eq!(a.exp - a.nbf, 1200);
    assert!(decode_admin(a, ORIGIN, i.nbf).is_ok());
}

#[test]
fn organization_tiers_from_claims() {
    let c = login_claims("x", 0, 0);
    assert!(c.is_organization_owner("org-owned"));
    assert!(c.is_organization_admin("org-owned"));
    assert!(c.is_organization_user("org-owned"));
    assert!(!c.is_organization_owner("org-admin"));
    assert!(c.is_organization_admin("org-admin"));
    assert!(c.is_organization_manager("org-admin"));
    assert!(!c.is_organization_admin("org-manager"));
    assert!(c.is_organization_manager("org-manager"));
    assert!(c.is_organization_user("org-manager"));
    assert!(!c.is_organization_manager("org-user"));
    assert!(c.is_organization_user("org-user"));
    assert!(!c.is_organization_user("elsewhere"));
}
