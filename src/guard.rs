//! The request authorization chain: base identity, organization membership,
//! then the admin and owner tiers, each stage consuming the previous one.
use vstd::prelude::*;
use crate::text::{after_last, strip_whitespace, text_after_last, without_whitespace};
use crate::token::LoginJWTClaims;

verus! {

/// An account, as far as authorization reads it.
#[derive(Clone, Debug)]
pub struct User {
    pub uuid: String,
    pub email: String,
    pub name: String,
    /// Replaced whenever a security-relevant account field changes.
    pub security_stamp: String,
    pub updated_at: i64,
}

/// A registered client device.
#[derive(Clone, Debug)]
pub struct Device {
    pub uuid: String,
    pub user_uuid: String,
    pub name: String,
}

/// Organizational roles; each tier holds the permissions of those below it.
#[derive(Clone, Copy, Debug, PartialEq, Eq, Structural)]
pub enum MembershipRole {
    Owner,
    Admin,
    Manager,
    User,
}

impl MembershipRole {
    /// Position in the order User < Manager < Admin < Owner.
    pub open spec fn rank_of(self) -> int {
        match self {
            MembershipRole::Owner => 3,
            MembershipRole::Admin => 2,
            MembershipRole::Manager => 1,
            MembershipRole::User => 0,
        }
    }

    pub fn rank(&self) -> (r: u8)
        ensures
            r as int == self.rank_of(),
    {
        match self {
            MembershipRole::Owner => 3,
            MembershipRole::Admin => 2,
            MembershipRole::Manager => 1,
            MembershipRole::User => 0,
        }
    }

    /// Whether this role is `min` or above it.
    pub fn at_least(&self, min: MembershipRole) -> (r: bool)
        ensures
            r == (self.rank_of() >= min.rank_of()),
    {
        self.rank() >= min.rank()
    }

    /// The role stored under its database code (0 owner, 1 admin, 2 user, 3 manager).
    pub fn from_i32(code: i32) -> (r: Option<MembershipRole>)
        ensures
            r == (if code == 0 {
                Some(MembershipRole::Owner)
            } else if code == 1 {
                Some(MembershipRole::Admin)
            } else if code == 2 {
                Some(MembershipRole::User)
            } else if code == 3 {
                Some(MembershipRole::Manager)
            } else {
                None
            }),
    {
        if code == 0 {
            Some(MembershipRole::Owner)
        } else if code == 1 {
            Some(MembershipRole::Admin)
        } else if code == 2 {
            Some(MembershipRole::User)
        } else if code == 3 {
            Some(MembershipRole::Manager)
        } else {
            None
        }
    }
}

/// Where a membership stands; only confirmed ones authorize anything.
#[derive(Clone, Copy, Debug, PartialEq, Eq, Structural)]
pub enum MembershipStatus {
    Invited,
    Accepted,
    Confirmed,
}

/// A user's membership of an organization.
#[derive(Clone, Debug)]
pub struct Membership {
    pub user_uuid: String,
    pub org_uuid: String,
    pub role: MembershipRole,
    pub status: MembershipStatus,
}

/// Why a request was refused. Callers show every variant as the same
/// generic message.
#[derive(Clone, Copy, Debug, PartialEq, Eq, Structural)]
pub enum AuthError {
    MissingToken,
    InvalidToken,
    UnknownDevice,
    UnknownUser,
    StaleSecurityStamp,
    NoOrganizationId,
    NotMember,
    NotConfirmedMember,
    NotAdmin,
    NotOwner,
}

impl AuthError {
    pub fn message(&self) -> (r: &'static str) {
        match self {
            AuthError::MissingToken => "No access token provided",
            AuthError::NoOrganizationId => "Error getting the organization id",
            AuthError::NotAdmin => "You need to be Admin or Owner to call this endpoint",
            AuthError::NotOwner => "You need to be Owner to call this endpoint",
            _ => "Invalid session",
        }
    }
}

pub open spec fn bearer_marker() -> Seq<char> {
    seq!['B', 'e', 'a', 'r', 'e', 'r', ' ']
}

/// The token carried by an `Authorization` header: what follows its last
/// `Bearer ` marker (the whole value where there is none), without white space.
pub fn access_token(authorization: Option<&str>) -> (r: Result<String, AuthError>)
    ensures
        authorization is None <==> r is Err,
        r is Err ==> r == Err::<String, AuthError>(AuthError::MissingToken),
        r is Ok ==> r->Ok_0@ == without_whitespace(after_last(authorization->Some_0@, bearer_marker())),
{
    match authorization {
        None => Err(AuthError::MissingToken),
        Some(a) => {
            proof {
                reveal_strlit("Bearer ");
            }
            let marker = "Bearer ";
            assert(marker@ =~= bearer_marker());
            let raw = text_after_last(a, marker);
            Ok(strip_whitespace(raw.as_str()))
        },
    }
}

pub open spec fn opt_view(o: Option<&str>) -> Option<Seq<char>> {
    match o {
        Some(s) => Some(s@),
        None => None,
    }
}

pub open spec fn opt_string_view(o: Option<String>) -> Option<Seq<char>> {
    match o {
        Some(s) => Some(s@),
        None => None,
    }
}

pub open spec fn or_else(o: Option<Seq<char>>, fallback: Seq<char>) -> Seq<char> {
    match o {
        Some(s) => s,
        None => fallback,
    }
}

/// The origin used to build absolute links: the configured domain, else the
/// referer, else `<scheme>://<host>` from the forwarding and host headers.
pub open spec fn host_of(
    domain: Option<Seq<char>>,
    referer: Option<Seq<char>>,
    forwarded_proto: Option<Seq<char>>,
    tls: bool,
    forwarded_host: Option<Seq<char>>,
    host: Option<Seq<char>>,
) -> Seq<char> {
    match domain {
        Some(d) => d,
        None => match referer {
            Some(r) => r,
            None => {
                let scheme = or_else(
                    forwarded_proto,
                    if tls {
                        seq!['h', 't', 't', 'p', 's']
                    } else {
                        seq!['h', 't', 't', 'p']
                    },
                );
                let h = match forwarded_host {
                    Some(f) => f,
                    None => or_else(host, Seq::empty()),
                };
                scheme + seq![':', '/', '/'] + h
            },
        },
    }
}

fn str_or<'a>(o: Option<&'a str>, fallback: &'a str) -> (r: &'a str)
    ensures
        r@ == or_else(opt_view(o), fallback@),
{
    match o {
        Some(s) => s,
        None => fallback,
    }
}

/// Resolves the caller's origin from configuration and request headers.
pub fn resolve_host(
    domain: Option<&str>,
    referer: Option<&str>,
    forwarded_proto: Option<&str>,
    tls: bool,
    forwarded_host: Option<&str>,
    host: Option<&str>,
) -> (r: String)
    ensures
        r@ == host_of(
            opt_view(domain),
            opt_view(referer),
            opt_view(forwarded_proto),
            tls,
            opt_view(forwarded_host),
            opt_view(host),
        ),
{
    match domain {
        Some(d) => d.to_owned(),
        None => match referer {
            Some(r) => r.to_owned(),
            None => {
                proof {
                    reveal_strlit("https");
                    reveal_strlit("http");
                    reveal_strlit("://");
                    reveal_strlit("");
                }
                let default_scheme = if tls {
                    "https"
                } else {
                    "http"
                };
                let scheme = str_or(forwarded_proto, default_scheme);
                let h = match forwarded_host {
                    Some(f) => f,
                    None => str_or(host, ""),
                };
                let r = scheme.to_owned().concat("://").concat(h);
                assert(r@ =~= host_of(
                    opt_view(domain),
                    opt_view(referer),
                    opt_view(forwarded_proto),
                    tls,
                    opt_view(forwarded_host),
                    opt_view(host),
                ));
                r
            },
        },
    }
}

/// The first stage's refusals, in the order they are checked.
pub open spec fn identity_outcome(
    claims: LoginJWTClaims,
    device: Option<Device>,
    user: Option<User>,
) -> Result<(), AuthError> {
    match device {
        None => Err(AuthError::UnknownDevice),
        Some(d) => if d.uuid@ != claims.device@ {
            Err(AuthError::UnknownDevice)
        } else {
            match user {
                None => Err(AuthError::UnknownUser),
                Some(u) => if u.uuid@ != claims.sub@ {
                    Err(AuthError::UnknownUser)
                } else if u.security_stamp@ != claims.sstamp@ {
                    Err(AuthError::StaleSecurityStamp)
                } else {
                    Ok(())
                },
            }
        },
    }
}

/// An authenticated caller: the accepted login claims with the device and
/// user they name.
#[derive(Clone, Debug)]
pub struct Headers {
    pub host: String,
    pub device: Device,
    pub user: User,
    pub claims: LoginJWTClaims,
}

impl Headers {
    /// Base identity: `claims` are the accepted login claims, `device` and
    /// `user` what the store holds under the ids they carry.
    pub fn from_request(
        host: String,
        claims: LoginJWTClaims,
        device: Option<Device>,
        user: Option<User>,
    ) -> (r: Result<Headers, AuthError>)
        ensures
            r == (match identity_outcome(claims, device, user) {
                Ok(_) => Ok((Headers { host, device: device->Some_0, user: user->Some_0, claims })),
                Err(e) => Err(e),
            }),
    {
        let device = match device {
            None => return Err(AuthError::UnknownDevice),
            Some(d) => d,
        };
        if device.uuid != claims.device {
            return Err(AuthError::UnknownDevice);
        }
        let user = match user {
            None => return Err(AuthError::UnknownUser),
            Some(u) => u,
        };
        if user.uuid != claims.sub {
            return Err(AuthError::UnknownUser);
        }
        if user.security_stamp != claims.sstamp {
            return Err(AuthError::StaleSecurityStamp);
        }
        Ok(Headers { host, device, user, claims })
    }
}

/// Once a user's security stamp has changed, no login token issued under the
/// earlier stamp passes the identity stage, whatever its lifetime.
pub proof fn lemma_stamp_change_invalidates(
    claims: LoginJWTClaims,
    device: Option<Device>,
    before: User,
    after: User,
)
    requires
        claims.sstamp@ == before.security_stamp@,
        after.security_stamp@ != before.security_stamp@,
    ensures
        identity_outcome(claims, device, Some(after)) is Err,
{
}

/// Whether the text parses as a UUID.
pub uninterp spec fn uuid_shaped(s: Seq<char>) -> bool;

/// Relies on uuid's `Uuid::parse_str`: whether the text parses depends on the
/// text alone.
#[verifier::external_body]
fn parses_as_uuid(s: &str) -> (r: bool)
    ensures
        r == uuid_shaped(s@),
{
    uuid::Uuid::parse_str(s).is_ok()
}

/// The organization id of a request: the path segment when it is
/// UUID-shaped, else the `organizationId` query value when that is.
pub open spec fn org_id_of(param: Option<Seq<char>>, query: Option<Seq<char>>) -> Option<Seq<char>> {
    if param is Some && uuid_shaped(param->Some_0) {
        param
    } else if query is Some && uuid_shaped(query->Some_0) {
        query
    } else {
        None
    }
}

/// Picks the organization id from the path segment or the query value.
pub fn get_org_id(param: Option<String>, query: Option<String>) -> (r: Option<String>)
    ensures
        opt_string_view(r) == org_id_of(opt_string_view(param), opt_string_view(query)),
{
    if let Some(p) = param {
        if parses_as_uuid(p.as_str()) {
            return Some(p);
        }
    }
    if let Some(q) = query {
        if parses_as_uuid(q.as_str()) {
            return Some(q);
        }
    }
    None
}

/// A UUID-shaped path segment always wins over the query value.
pub proof fn lemma_path_segment_preferred(param: Seq<char>, query: Option<Seq<char>>)
    requires
        uuid_shaped(param),
    ensures
        org_id_of(Some(param), query) == Some(param),
{
}

/// The second stage's refusals, in the order they are checked.
pub open spec fn membership_outcome(
    user: User,
    org_id: Option<String>,
    membership: Option<Membership>,
) -> Result<(), AuthError> {
    match org_id {
        None => Err(AuthError::NoOrganizationId),
        Some(o) => match membership {
            None => Err(AuthError::NotMember),
            Some(m) => if m.user_uuid@ != user.uuid@ || m.org_uuid@ != o@ {
                Err(AuthError::NotMember)
            } else if m.status != MembershipStatus::Confirmed {
                Err(AuthError::NotConfirmedMember)
            } else {
                Ok(())
            },
        },
    }
}

/// A caller acting inside an organization they are a confirmed member of.
#[derive(Clone, Debug)]
pub struct OrgHeaders {
    pub host: String,
    pub device: Device,
    pub user: User,
    pub claims: LoginJWTClaims,
    pub context_org_uuid: String,
    pub role: MembershipRole,
}

impl OrgHeaders {
    /// Organization context: `org_id` is what `get_org_id` found, `membership`
    /// what the store holds for the caller and that organization.
    pub fn from_request(headers: Headers, org_id: Option<String>, membership: Option<Membership>) -> (r:
        Result<OrgHeaders, AuthError>)
        ensures
            r == (match membership_outcome(headers.user, org_id, membership) {
                Ok(_) => Ok(
                    (OrgHeaders {
                        host: headers.host,
                        device: headers.device,
                        user: headers.user,
                        claims: headers.claims,
                        context_org_uuid: org_id->Some_0,
                        role: membership->Some_0.role,
                    }),
                ),
                Err(e) => Err(e),
            }),
    {
        let org = match org_id {
            None => return Err(AuthError::NoOrganizationId),
            Some(o) => o,
        };
        let m = match membership {
            None => return Err(AuthError::NotMember),
            Some(m) => m,
        };
        if m.user_uuid != headers.user.uuid || m.org_uuid != org {
            return Err(AuthError::NotMember);
        }
        if m.status != MembershipStatus::Confirmed {
            return Err(AuthError::NotConfirmedMember);
        }
        Ok(OrgHeaders {
            host: headers.host,
            device: headers.device,
            user: headers.user,
            claims: headers.claims,
            context_org_uuid: org,
            role: m.role,
        })
    }
}

pub open spec fn admin_tier(role: MembershipRole) -> bool {
    role.rank_of() >= MembershipRole::Admin.rank_of()
}

pub open spec fn owner_tier(role: MembershipRole) -> bool {
    role.rank_of() >= MembershipRole::Owner.rank_of()
}

/// A confirmed member with the admin role or above.
#[derive(Clone, Debug)]
pub struct AdminHeaders {
    pub host: String,
    pub device: Device,
    pub user: User,
    pub claims: LoginJWTClaims,
    pub context_org_uuid: String,
    pub role: MembershipRole,
}

impl AdminHeaders {
    /// Admin tier: the membership role is Admin or higher.
    pub fn from_request(org: OrgHeaders) -> (r: Result<AdminHeaders, AuthError>)
        ensures
            r == (if admin_tier(org.role) {
                Ok(
                    (AdminHeaders {
                        host: org.host,
                        device: org.device,
                        user: org.user,
                        claims: org.claims,
                        context_org_uuid: org.context_org_uuid,
                        role: org.role,
                    }),
                )
            } else {
                Err(AuthError::NotAdmin)
            }),
    {
        if org.role.at_least(MembershipRole::Admin) {
            Ok(AdminHeaders {
                host: org.host,
                device: org.device,
                user: org.user,
                claims: org.claims,
                context_org_uuid: org.context_org_uuid,
                role: org.role,
            })
        } else {
            Err(AuthError::NotAdmin)
        }
    }

    /// Drops the organization context.
    pub fn into_headers(self) -> (r: Headers)
        ensures
            r == (Headers { host: self.host, device: self.device, user: self.user, claims: self.claims }),
    {
        Headers { host: self.host, device: self.device, user: self.user, claims: self.claims }
    }
}

/// A confirmed member with the owner role.
#[derive(Clone, Debug)]
pub struct OwnerHeaders {
    pub host: String,
    pub device: Device,
    pub user: User,
    pub claims: LoginJWTClaims,
    pub context_org_uuid: String,
}

impl OwnerHeaders {
    /// Owner tier: the membership role is Owner.
    pub fn from_request(org: OrgHeaders) -> (r: Result<OwnerHeaders, AuthError>)
        ensures
            r == (if owner_tier(org.role) {
                Ok(
                    (OwnerHeaders {
                        host: org.host,
                        device: org.device,
                        user: org.user,
                        claims: org.claims,
                        context_org_uuid: org.context_org_uuid,
                    }),
                )
            } else {
                Err(AuthError::NotOwner)
            }),
    {
        if org.role.at_least(MembershipRole::Owner) {
            Ok(OwnerHeaders {
                host: org.host,
                device: org.device,
                user: org.user,
                claims: org.claims,
                context_org_uuid: org.context_org_uuid,
            })
        } else {
            Err(AuthError::NotOwner)
        }
    }
}

/// The tiers are one comparison on the role order: an owner passes both, an
/// admin only the admin tier, a manager or user neither.
pub proof fn lemma_role_tiers(role: MembershipRole)
    ensures
        role == MembershipRole::Owner ==> admin_tier(role) && owner_tier(role),
        role == MembershipRole::Admin ==> admin_tier(role) && !owner_tier(role),
        role == MembershipRole::Manager || role == MembershipRole::User ==> !admin_tier(role)
            && !owner_tier(role),
        owner_tier(role) ==> admin_tier(role),
{
}

/// The first entry of a forwarding header: the text before its first comma,
/// or all of it.
pub fn first_forwarded_entry(value: &str) -> (r: String)
    ensures
        r@.len() <= value@.len(),
        r@ == value@.subrange(0, r@.len() as int),
        forall|k: int| 0 <= k < r@.len() ==> r@[k] != ',',
        r@.len() < value@.len() ==> value@[r@.len() as int] == ',',
{
    let n = value.unicode_len();
    let mut i: usize = 0;
    while i < n && value.get_char(i) != ','
        invariant
            n == value@.len(),
            i <= n,
            forall|k: int| 0 <= k < i ==> value@[k] != ',',
        decreases n - i,
    {
        i = i + 1;
    }
    let r = value.substring_char(0, i).to_owned();
    r
}

} // verus!
