use vaultwarden::guard::{
    access_token, get_org_id, first_forwarded_entry, resolve_host, AdminHeaders, AuthError, Device, Headers,
    Membership, MembershipRole, MembershipStatus, OrgHeaders, OwnerHeaders, User,
};
use vaultwarden::text::strip_whitespace;
use vaultwarden::token::LoginJWTClaims;

const ORG: &str = "8c4d3f2e-1b2a-4c5d-9e8f-0a1b2c3d4e5f";
const OTHER_ORG: &str = "1f0e9d8c-7b6a-4f5e-8d3c-2b1a0f9e8d7c";

fn claims(stamp: &str) -> LoginJWTClaims {
    LoginJWTClaims {
        nbf: 0,
        exp: 0,
        iss: "o|login".to_string(),
        sub: "user-1".to_string(),
        premium: false,
        name: "Alice".to_string(),
        email: "a@example.com".to_string(),
        email_verified: true,
        orgowner: vec![],
        orgadmin: vec![],
        orguser: vec![],
        orgmanager: vec![],
        sstamp: stamp.to_string(),
        device: "device-1".to_string(),
        scope: vec![],
        amr: vec![],
    }
}

fn user(stamp: &str) -> User {
    User {
        uuid: "user-1".to_string(),
        email: "a@example.com".to_string(),
        name: "Alice".to_string(),
        security_stamp: stamp.to_string(),
        updated_at: 0,
    }
}

fn device() -> Device {
    Device { uuid: "device-1".to_string(), user_uuid: "user-1".to_string(), name: "cli".to_string() }
}

fn headers() -> Headers {
    Headers::from_request("https://h".to_string(), claims("s1"), Some(device()), Some(user("s1"))).unwrap()
}

fn membership(role: MembershipRole, status: MembershipStatus) -> Membership {
    Membership { user_uuid: "user-1".to_string(), org_uuid: ORG.to_string(), role, status }
}

fn org_headers(role: MembershipRole) -> OrgHeaders {
    OrgHeaders::from_request(headers(), Some(ORG.to_string()), Some(membership(role, MembershipStatus::Confirmed)))
        .unwrap()
}

#[test]
fn bearer_token_extraction() {
    assert_eq!(access_token(Some("Bearer abc.def.ghi")).unwrap(), "abc.def.ghi");
    assert_eq!(access_token(Some("Bearer  abc.\n def ")).unwrap(), "abc.def");
    assert_eq!(access_token(Some("Bearer x Bearer y")).unwrap(), "y");
    assert_eq!(access_token(Some("plain")).unwrap(), "plain");
    assert_eq!(access_token(None).unwrap_err(), AuthError::MissingToken);
}

#[test]
fn whitespace_removed() {
    assert_eq!(strip_whitespace(" a\tb\nc \u{a0}d"), "abcd");
    assert_eq!(strip_whitespace(""), "");
}

#[test]
fn host_resolution_order() {
    assert_eq!(resolve_host(Some("https://d"), Some("https://r"), None, false, None, None), "https://d");
    assert_eq!(resolve_host(None, Some("https://r/page"), Some("https"), false, None, None), "https://r/page");
    assert_eq!(resolve_host(None, None, Some("https"), false, Some("fwd"), Some("h")), "https://fwd");
    assert_eq!(resolve_host(None, None, None, true, None, Some("h:80")), "https://h:80");
    assert_eq!(resolve_host(None, None, None, false, None, Some("h")), "http://h");
    assert_eq!(resolve_host(None, None, None, false, None, None), "http://");
}

#[test]
fn identity_stage() {
    let h = headers();
    assert_eq!(h.user.uuid, "user-1");
    assert_eq!(h.host, "https://h");
    let e = Headers::from_request(String::new(), claims("s1"), None, Some(user("s1")));
    assert_eq!(e.unwrap_err(), AuthError::UnknownDevice);
    let e = Headers::from_request(String::new(), claims("s1"), Some(device()), None);
    assert_eq!(e.unwrap_err(), AuthError::UnknownUser);
}

#[test]
fn changed_stamp_invalidates_login() {
    let issued = claims("stamp-before");
    let e = Headers::from_request(String::new(), issued, Some(device()), Some(user("stamp-after")));
    assert_eq!(e.unwrap_err(), AuthError::StaleSecurityStamp);
}

#[test]
fn organization_stage() {
    let o = org_headers(MembershipRole::User);
    assert_eq!(o.context_org_uuid, ORG);
    let e = OrgHeaders::from_request(headers(), None, None);
    assert_eq!(e.unwrap_err(), AuthError::NoOrganizationId);
    let e = OrgHeaders::from_request(headers(), Some(ORG.to_string()), None);
    assert_eq!(e.unwrap_err(), AuthError::NotMember);
    let e = OrgHeaders::from_request(
        headers(),
        Some(ORG.to_string()),
        Some(membership(MembershipRole::Owner, MembershipStatus::Accepted)),
    );
    assert_eq!(e.unwrap_err(), AuthError::NotConfirmedMember);
    let e = OrgHeaders::from_request(
        headers(),
        Some(OTHER_ORG.to_string()),
        Some(membership(MembershipRole::Owner, MembershipStatus::Confirmed)),
    );
    assert_eq!(e.unwrap_err(), AuthError::NotMember);
}

#[test]
fn role_tiers() {
    assert!(AdminHeaders::from_request(org_headers(MembershipRole::Owner)).is_ok());
    assert!(OwnerHeaders::from_request(org_headers(MembershipRole::Owner)).is_ok());
    assert!(AdminHeaders::from_request(org_headers(MembershipRole::Admin)).is_ok());
    assert_eq!(OwnerHeaders::from_request(org_headers(MembershipRole::Admin)).err().unwrap(), AuthError::NotOwner);
    for role in [MembershipRole::Manager, MembershipRole::User] {
        assert_eq!(AdminHeaders::from_request(org_headers(role)).err().unwrap(), AuthError::NotAdmin);
        assert_eq!(OwnerHeaders::from_request(org_headers(role)).err().unwrap(), AuthError::NotOwner);
    }
    let a = AdminHeaders::from_request(org_headers(MembershipRole::Admin)).ok().unwrap();
    assert_eq!(a.into_headers().user.uuid, "user-1");
}

#[test]
fn role_codes_and_order() {
    assert_eq!(MembershipRole::from_i32(0), Some(MembershipRole::Owner));
    assert_eq!(MembershipRole::from_i32(1), Some(MembershipRole::Admin));
    assert_eq!(MembershipRole::from_i32(2), Some(MembershipRole::User));
    assert_eq!(MembershipRole::from_i32(3), Some(MembershipRole::Manager));
    assert_eq!(MembershipRole::from_i32(4), None);
    assert!(MembershipRole::Manager.at_least(MembershipRole::User));
    assert!(!MembershipRole::User.at_least(MembershipRole::Manager));
}

#[test]
fn org_id_prefers_path_segment() {
    assert_eq!(get_org_id(Some(ORG.to_string()), Some(OTHER_ORG.to_string())).as_deref(), Some(ORG));
    assert_eq!(get_org_id(Some("ciphers".to_string()), Some(OTHER_ORG.to_string())).as_deref(), Some(OTHER_ORG));
    assert_eq!(get_org_id(None, Some(OTHER_ORG.to_string())).as_deref(), Some(OTHER_ORG));
    assert_eq!(get_org_id(Some("x".to_string()), Some("y".to_string())), None);
    assert_eq!(get_org_id(None, None), None);
}

#[test]
fn forwarded_header_first_entry() {
    assert_eq!(first_forwarded_entry("203.0.113.7, 10.0.0.1"), "203.0.113.7");
    assert_eq!(first_forwarded_entry("203.0.113.7"), "203.0.113.7");
    assert_eq!(first_forwarded_entry(",x"), "");
}

#[test]
fn error_messages_are_generic() {
    assert_eq!(AuthError::StaleSecurityStamp.message(), AuthError::UnknownDevice.message());
    assert_eq!(AuthError::MissingToken.message(), "No access token provided");
}
