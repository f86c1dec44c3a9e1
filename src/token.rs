//! Purpose-scoped token claims: issuers, lifetimes, issuance and the checks
//! that a token's registered claims must pass once its signature is known good.
use vstd::prelude::*;

verus! {

/// Clock skew tolerated on `exp` and `nbf`, in seconds.
pub const LEEWAY_SECS: i64 = 30;

pub const SECS_PER_DAY: i64 = 86400;

/// Lifetime of invite, delete and verify-email tokens: five days.
pub const LINK_VALIDITY_SECS: i64 = 5 * SECS_PER_DAY;

/// Lifetime of an admin-session token: twenty minutes.
pub const ADMIN_VALIDITY_SECS: i64 = 20 * 60;

/// Bound on any timestamp the clock hands out (chrono keeps its dates within
/// about 262 000 years of the epoch).
pub const TIMESTAMP_BOUND: i64 = 8_796_093_022_208;

/// Relies on chrono's `Utc::now` and `DateTime::timestamp`: the current time in
/// whole seconds since the Unix epoch, within the range of chrono's dates.
#[verifier::external_body]
pub(crate) fn now_timestamp() -> (r: i64)
    ensures
        -TIMESTAMP_BOUND < r < TIMESTAMP_BOUND,
{
    chrono::Utc::now().timestamp()
}

/// The use a token is minted for.
#[derive(Clone, Copy, Debug, PartialEq, Eq, Structural)]
pub enum TokenPurpose {
    Login,
    Invite,
    Delete,
    VerifyEmail,
    Admin,
}

pub open spec fn purpose_suffix(p: TokenPurpose) -> Seq<char> {
    match p {
        TokenPurpose::Login => seq!['l', 'o', 'g', 'i', 'n'],
        TokenPurpose::Invite => seq!['i', 'n', 'v', 'i', 't', 'e'],
        TokenPurpose::Delete => seq!['d', 'e', 'l', 'e', 't', 'e'],
        TokenPurpose::VerifyEmail => seq!['v', 'e', 'r', 'i', 'f', 'y', 'e', 'm', 'a', 'i', 'l'],
        TokenPurpose::Admin => seq!['a', 'd', 'm', 'i', 'n'],
    }
}

/// The issuer string of a purpose at a deployment origin: `<origin>|<purpose>`.
pub open spec fn issuer_of(origin: Seq<char>, p: TokenPurpose) -> Seq<char> {
    origin + seq!['|'] + purpose_suffix(p)
}

/// Builds the issuer string for `purpose` at `origin`.
pub fn issuer(origin: &str, purpose: TokenPurpose) -> (r: String)
    ensures
        r@ == issuer_of(origin@, purpose),
{
    let suffix: &str = match purpose {
        TokenPurpose::Login => "|login",
        TokenPurpose::Invite => "|invite",
        TokenPurpose::Delete => "|delete",
        TokenPurpose::VerifyEmail => "|verifyemail",
        TokenPurpose::Admin => "|admin",
    };
    proof {
        reveal_strlit("|login");
        reveal_strlit("|invite");
        reveal_strlit("|delete");
        reveal_strlit("|verifyemail");
        reveal_strlit("|admin");
        assert(suffix@ =~= seq!['|'] + purpose_suffix(purpose));
    }
    let r = origin.to_owned().concat(suffix);
    assert(r@ =~= issuer_of(origin@, purpose));
    r
}

/// Why a token's registered claims were refused.
#[derive(Clone, Copy, Debug, PartialEq, Eq, Structural)]
pub enum TokenError {
    Expired,
    NotYetValid,
    WrongIssuer,
}

impl TokenError {
    pub fn message(&self) -> (r: &'static str) {
        match self {
            TokenError::Expired => "Token expired",
            TokenError::NotYetValid => "Token not yet valid",
            TokenError::WrongIssuer => "Token issuer mismatch",
        }
    }
}

/// The checks on `exp`, `nbf` and `iss`, in that order, at time `now`.
pub open spec fn registered_outcome(
    nbf: i64,
    exp: i64,
    iss: Seq<char>,
    expected: Seq<char>,
    now: i64,
) -> Result<(), TokenError> {
    if (exp as int) < now - LEEWAY_SECS {
        Err(TokenError::Expired)
    } else if (nbf as int) > now + LEEWAY_SECS {
        Err(TokenError::NotYetValid)
    } else if iss != expected {
        Err(TokenError::WrongIssuer)
    } else {
        Ok(())
    }
}

/// The claims themselves when the checks pass, else the first failure.
pub open spec fn with_claims<C>(check: Result<(), TokenError>, claims: C) -> Result<C, TokenError> {
    match check {
        Ok(_) => Ok(claims),
        Err(e) => Err(e),
    }
}

fn check_registered(nbf: i64, exp: i64, iss: &String, expected: &String, now: i64) -> (r: Result<
    (),
    TokenError,
>)
    ensures
        r == registered_outcome(nbf, exp, iss@, expected@, now),
{
    if (exp as i128) < (now as i128) - (LEEWAY_SECS as i128) {
        Err(TokenError::Expired)
    } else if (nbf as i128) > (now as i128) + (LEEWAY_SECS as i128) {
        Err(TokenError::NotYetValid)
    } else if *iss != *expected {
        Err(TokenError::WrongIssuer)
    } else {
        Ok(())
    }
}

/// Whether some entry of `list` reads `s`.
pub open spec fn listed(list: Seq<String>, s: Seq<char>) -> bool {
    exists|i: int| 0 <= i < list.len() && #[trigger] list[i]@ == s
}

fn list_contains(list: &Vec<String>, s: &str) -> (r: bool)
    ensures
        r == listed(list@, s@),
{
    let target = s.to_owned();
    let mut i: usize = 0;
    while i < list.len()
        invariant
            target@ == s@,
            i <= list@.len(),
            forall|k: int| 0 <= k < i ==> #[trigger] list@[k]@ != s@,
        decreases list.len() - i,
    {
        if list[i] == target {
            return true;
        }
        i = i + 1;
    }
    false
}

/// Claims of a login token.
#[derive(Clone, Debug)]
pub struct LoginJWTClaims {
    pub nbf: i64,
    pub exp: i64,
    pub iss: String,
    pub sub: String,
    pub premium: bool,
    pub name: String,
    pub email: String,
    pub email_verified: bool,
    pub orgowner: Vec<String>,
    pub orgadmin: Vec<String>,
    pub orguser: Vec<String>,
    pub orgmanager: Vec<String>,
    /// The user's security stamp when the token was issued.
    pub sstamp: String,
    /// The device the token was issued to.
    pub device: String,
    pub scope: Vec<String>,
    pub amr: Vec<String>,
}

impl LoginJWTClaims {
    pub open spec fn owner_of(&self, org: Seq<char>) -> bool {
        listed(self.orgowner@, org)
    }

    pub open spec fn admin_of(&self, org: Seq<char>) -> bool {
        listed(self.orgadmin@, org) || self.owner_of(org)
    }

    pub open spec fn manager_of(&self, org: Seq<char>) -> bool {
        listed(self.orgmanager@, org) || self.admin_of(org)
    }

    pub open spec fn user_of(&self, org: Seq<char>) -> bool {
        listed(self.orguser@, org) || self.manager_of(org)
    }

    /// Whether the token lists the caller as an owner of `org_uuid`.
    pub fn is_organization_owner(&self, org_uuid: &str) -> (r: bool)
        ensures
            r == self.owner_of(org_uuid@),
    {
        list_contains(&self.orgowner, org_uuid)
    }

    /// Whether the token lists the caller as an admin or owner of `org_uuid`.
    pub fn is_organization_admin(&self, org_uuid: &str) -> (r: bool)
        ensures
            r == self.admin_of(org_uuid@),
    {
        list_contains(&self.orgadmin, org_uuid) || self.is_organization_owner(org_uuid)
    }

    /// Whether the token lists the caller as a manager or higher of `org_uuid`.
    pub fn is_organization_manager(&self, org_uuid: &str) -> (r: bool)
        ensures
            r == self.manager_of(org_uuid@),
    {
        list_contains(&self.orgmanager, org_uuid) || self.is_organization_admin(org_uuid)
    }

    /// Whether the token lists the caller as a member of any tier of `org_uuid`.
    pub fn is_organization_user(&self, org_uuid: &str) -> (r: bool)
        ensures
            r == self.user_of(org_uuid@),
    {
        list_contains(&self.orguser, org_uuid) || self.is_organization_manager(org_uuid)
    }
}

/// Claims of an invite token.
#[derive(Clone, Debug)]
pub struct InviteJWTClaims {
    pub nbf: i64,
    pub exp: i64,
    pub iss: String,
    pub sub: String,
    pub email: String,
    pub org_id: Option<String>,
    pub user_org_id: Option<String>,
    pub invited_by_email: Option<String>,
}

/// Claims of an account-deletion token.
#[derive(Clone, Debug)]
pub struct DeleteJWTClaims {
    pub nbf: i64,
    pub exp: i64,
    pub iss: String,
    pub sub: String,
}

/// Claims of an email-verification token.
#[derive(Clone, Debug)]
pub struct VerifyEmailJWTClaims {
    pub nbf: i64,
    pub exp: i64,
    pub iss: String,
    pub sub: String,
}

/// Claims of an admin-panel session token.
#[derive(Clone, Debug)]
pub struct AdminJWTClaims {
    pub nbf: i64,
    pub exp: i64,
    pub iss: String,
    pub sub: String,
}

/// Accepts the claims of a signature-checked token as a login token at `now`:
/// not expired beyond the leeway, not before its start beyond the leeway, and
/// issued for login at `origin`.
pub fn decode_login(claims: LoginJWTClaims, origin: &str, now: i64) -> (r: Result<
    LoginJWTClaims,
    TokenError,
>)
    ensures
        r == with_claims(
            registered_outcome(
                claims.nbf,
                claims.exp,
                claims.iss@,
                issuer_of(origin@, TokenPurpose::Login),
                now,
            ),
            claims,
        ),
{
    let expected = issuer(origin, TokenPurpose::Login);
    match check_registered(claims.nbf, claims.exp, &claims.iss, &expected, now) {
        Ok(()) => Ok(claims),
        Err(e) => Err(e),
    }
}

/// Accepts the claims of a signature-checked token as an invite token at `now`.
pub fn decode_invite(claims: InviteJWTClaims, origin: &str, now: i64) -> (r: Result<
    InviteJWTClaims,
    TokenError,
>)
    ensures
        r == with_claims(
            registered_outcome(
                claims.nbf,
                claims.exp,
                claims.iss@,
                issuer_of(origin@, TokenPurpose::Invite),
                now,
            ),
            claims,
        ),
{
    let expected = issuer(origin, TokenPurpose::Invite);
    match check_registered(claims.nbf, claims.exp, &claims.iss, &expected, now) {
        Ok(()) => Ok(claims),
        Err(e) => Err(e),
    }
}

/// Accepts the claims of a signature-checked token as a delete token at `now`.
pub fn decode_delete(claims: DeleteJWTClaims, origin: &str, now: i64) -> (r: Result<
    DeleteJWTClaims,
    TokenError,
>)
    ensures
        r == with_claims(
            registered_outcome(
                claims.nbf,
                claims.exp,
                claims.iss@,
                issuer_of(origin@, TokenPurpose::Delete),
                now,
            ),
            claims,
        ),
{
    let expected = issuer(origin, TokenPurpose::Delete);
    match check_registered(claims.nbf, claims.exp, &claims.iss, &expected, now) {
        Ok(()) => Ok(claims),
        Err(e) => Err(e),
    }
}

/// Accepts the claims of a signature-checked token as a verify-email token at `now`.
pub fn decode_verify_email(claims: VerifyEmailJWTClaims, origin: &str, now: i64) -> (r: Result<
    VerifyEmailJWTClaims,
    TokenError,
>)
    ensures
        r == with_claims(
            registered_outcome(
                claims.nbf,
                claims.exp,
                claims.iss@,
                issuer_of(origin@, TokenPurpose::VerifyEmail),
                now,
            ),
            claims,
        ),
{
    let expected = issuer(origin, TokenPurpose::VerifyEmail);
    match check_registered(claims.nbf, claims.exp, &claims.iss, &expected, now) {
        Ok(()) => Ok(claims),
        Err(e) => Err(e),
    }
}

/// Accepts the claims of a signature-checked token as an admin-session token at `now`.
pub fn decode_admin(claims: AdminJWTClaims, origin: &str, now: i64) -> (r: Result<
    AdminJWTClaims,
    TokenError,
>)
    ensures
        r == with_claims(
            registered_outcome(
                claims.nbf,
                claims.exp,
                claims.iss@,
                issuer_of(origin@, TokenPurpose::Admin),
                now,
            ),
            claims,
        ),
{
    let expected = issuer(origin, TokenPurpose::Admin);
    match check_registered(claims.nbf, claims.exp, &claims.iss, &expected, now) {
        Ok(()) => Ok(claims),
        Err(e) => Err(e),
    }
}

/// Two purposes never share an issuer string at one origin.
pub proof fn lemma_issuers_distinct(origin: Seq<char>, p: TokenPurpose, q: TokenPurpose)
    requires
        p != q,
    ensures
        issuer_of(origin, p) != issuer_of(origin, q),
{
    if issuer_of(origin, p) == issuer_of(origin, q) {
        let at = origin.len() as int + 1;
        assert(issuer_of(origin, p)[at] == purpose_suffix(p)[0]);
        assert(issuer_of(origin, q)[at] == purpose_suffix(q)[0]);
    }
}

/// A token minted for one purpose is refused when checked for any other
/// purpose at the same origin, whatever its timestamps and the time of the check.
pub proof fn lemma_purpose_scoped(
    origin: Seq<char>,
    minted: TokenPurpose,
    checked: TokenPurpose,
    nbf: i64,
    exp: i64,
    now: i64,
)
    requires
        minted != checked,
    ensures
        registered_outcome(nbf, exp, issuer_of(origin, minted), issuer_of(origin, checked), now) is Err,
{
    lemma_issuers_distinct(origin, minted, checked);
}

/// Invite claims issued at `now`, valid for five days.
pub fn invite_claims_at(
    now: i64,
    origin: &str,
    uuid: String,
    email: String,
    org_id: Option<String>,
    user_org_id: Option<String>,
    invited_by_email: Option<String>,
) -> (r: InviteJWTClaims)
    requires
        now <= i64::MAX - LINK_VALIDITY_SECS,
    ensures
        r.nbf == now,
        r.exp == now + LINK_VALIDITY_SECS,
        r.iss@ == issuer_of(origin@, TokenPurpose::Invite),
        r.sub == uuid,
        r.email == email,
        r.org_id == org_id,
        r.user_org_id == user_org_id,
        r.invited_by_email == invited_by_email,
{
    InviteJWTClaims {
        nbf: now,
        exp: now + LINK_VALIDITY_SECS,
        iss: issuer(origin, TokenPurpose::Invite),
        sub: uuid,
        email,
        org_id,
        user_org_id,
        invited_by_email,
    }
}

/// Invite claims issued now, valid for five days.
pub fn generate_invite_claims(
    origin: &str,
    uuid: String,
    email: String,
    org_id: Option<String>,
    user_org_id: Option<String>,
    invited_by_email: Option<String>,
) -> (r: InviteJWTClaims)
    ensures
        r.exp == r.nbf + LINK_VALIDITY_SECS,
        r.iss@ == issuer_of(origin@, TokenPurpose::Invite),
        r.sub == uuid,
        r.email == email,
        r.org_id == org_id,
        r.user_org_id == user_org_id,
        r.invited_by_email == invited_by_email,
{
    invite_claims_at(now_timestamp(), origin, uuid, email, org_id, user_org_id, invited_by_email)
}

/// Delete claims issued at `now`, valid for five days.
pub fn delete_claims_at(now: i64, origin: &str, uuid: String) -> (r: DeleteJWTClaims)
    requires
        now <= i64::MAX - LINK_VALIDITY_SECS,
    ensures
        r.nbf == now,
        r.exp == now + LINK_VALIDITY_SECS,
        r.iss@ == issuer_of(origin@, TokenPurpose::Delete),
        r.sub == uuid,
{
    DeleteJWTClaims {
        nbf: now,
        exp: now + LINK_VALIDITY_SECS,
        iss: issuer(origin, TokenPurpose::Delete),
        sub: uuid,
    }
}

/// Delete claims issued now, valid for five days.
pub fn generate_delete_claims(origin: &str, uuid: String) -> (r: DeleteJWTClaims)
    ensures
        r.exp == r.nbf + LINK_VALIDITY_SECS,
        r.iss@ == issuer_of(origin@, TokenPurpose::Delete),
        r.sub == uuid,
{
    delete_claims_at(now_timestamp(), origin, uuid)
}

/// Verify-email claims issued at `now`, valid for five days.
pub fn verify_email_claims_at(now: i64, origin: &str, uuid: String) -> (r: VerifyEmailJWTClaims)
    requires
        now <= i64::MAX - LINK_VALIDITY_SECS,
    ensures
        r.nbf == now,
        r.exp == now + LINK_VALIDITY_SECS,
        r.iss@ == issuer_of(origin@, TokenPurpose::VerifyEmail),
        r.sub == uuid,
{
    VerifyEmailJWTClaims {
        nbf: now,
        exp: now + LINK_VALIDITY_SECS,
        iss: issuer(origin, TokenPurpose::VerifyEmail),
        sub: uuid,
    }
}

/// Verify-email claims issued now, valid for five days.
pub fn generate_verify_email_claims(origin: &str, uuid: String) -> (r: VerifyEmailJWTClaims)
    ensures
        r.exp == r.nbf + LINK_VALIDITY_SECS,
        r.iss@ == issuer_of(origin@, TokenPurpose::VerifyEmail),
        r.sub == uuid,
{
    verify_email_claims_at(now_timestamp(), origin, uuid)
}

/// The subject of every admin-session token.
pub open spec fn admin_subject() -> Seq<char> {
    seq!['a', 'd', 'm', 'i', 'n', '_', 'p', 'a', 'n', 'e', 'l']
}

/// Admin-session claims issued at `now`, valid for twenty minutes.
pub fn admin_claims_at(now: i64, origin: &str) -> (r: AdminJWTClaims)
    requires
        now <= i64::MAX - ADMIN_VALIDITY_SECS,
    ensures
        r.nbf == now,
        r.exp == now + ADMIN_VALIDITY_SECS,
        r.iss@ == issuer_of(origin@, TokenPurpose::Admin),
        r.sub@ == admin_subject(),
{
    proof {
        reveal_strlit("admin_panel");
    }
    let sub = "admin_panel".to_owned();
    assert(sub@ =~= admin_subject());
    AdminJWTClaims {
        nbf: now,
        exp: now + ADMIN_VALIDITY_SECS,
        iss: issuer(origin, TokenPurpose::Admin),
        sub,
    }
}

/// Admin-session claims issued now, valid for twenty minutes.
pub fn generate_admin_claims(origin: &str) -> (r: AdminJWTClaims)
    ensures
        r.exp == r.nbf + ADMIN_VALIDITY_SECS,
        r.iss@ == issuer_of(origin@, TokenPurpose::Admin),
        r.sub@ == admin_subject(),
{
    admin_claims_at(now_timestamp(), origin)
}

} // verus!
