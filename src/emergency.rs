//! Emergency-access records: a grantor lets a grantee view or take over the
//! vault once a recovery request has waited out its delay.
use vstd::prelude::*;
use crate::token::SECS_PER_DAY;

verus! {

/// What the grantee gets once recovery is approved.
#[derive(Clone, Copy, Debug, PartialEq, Eq, Structural)]
pub enum EmergencyAccessType {
    View,
    Takeover,
}

pub open spec fn type_code(t: EmergencyAccessType) -> i32 {
    match t {
        EmergencyAccessType::View => 0,
        EmergencyAccessType::Takeover => 1,
    }
}

impl EmergencyAccessType {
    /// Reads a type given by its code or its name.
    pub fn from_str(s: &str) -> (r: Option<EmergencyAccessType>)
        ensures
            r == (if s@ == seq!['0'] || s@ == seq!['V', 'i', 'e', 'w'] {
                Some(EmergencyAccessType::View)
            } else if s@ == seq!['1'] || s@ == seq!['T', 'a', 'k', 'e', 'o', 'v', 'e', 'r'] {
                Some(EmergencyAccessType::Takeover)
            } else {
                None
            }),
    {
        proof {
            reveal_strlit("0");
            reveal_strlit("View");
            reveal_strlit("1");
            reveal_strlit("Takeover");
            assert("0"@ =~= seq!['0']);
            assert("1"@ =~= seq!['1']);
            assert("View"@ =~= seq!['V', 'i', 'e', 'w']);
            assert("Takeover"@ =~= seq!['T', 'a', 'k', 'e', 'o', 'v', 'e', 'r']);
        }
        let t = s.to_owned();
        if t == "0".to_owned() || t == "View".to_owned() {
            assert("View"@ =~= seq!['V', 'i', 'e', 'w']);
            Some(EmergencyAccessType::View)
        } else if t == "1".to_owned() || t == "Takeover".to_owned() {
            assert("Takeover"@ =~= seq!['T', 'a', 'k', 'e', 'o', 'v', 'e', 'r']);
            assert(s@ != seq!['V', 'i', 'e', 'w']);
            Some(EmergencyAccessType::Takeover)
        } else {
            assert("View"@ =~= seq!['V', 'i', 'e', 'w']);
            assert("Takeover"@ =~= seq!['T', 'a', 'k', 'e', 'o', 'v', 'e', 'r']);
            None
        }
    }

    /// The type stored under a database code.
    pub fn from_i32(code: i32) -> (r: Option<EmergencyAccessType>)
        ensures
            r is Some <==> (code == 0 || code == 1),
            r is Some ==> type_code(r->Some_0) == code,
    {
        if code == 0 {
            Some(EmergencyAccessType::View)
        } else if code == 1 {
            Some(EmergencyAccessType::Takeover)
        } else {
            None
        }
    }

    pub fn as_i32(&self) -> (r: i32)
        ensures
            r == type_code(*self),
    {
        match self {
            EmergencyAccessType::View => 0,
            EmergencyAccessType::Takeover => 1,
        }
    }
}

/// Stages of a record; it only moves forward through them.
#[derive(Clone, Copy, Debug, PartialEq, Eq, Structural)]
pub enum EmergencyAccessStatus {
    Invited,
    Accepted,
    Confirmed,
    RecoveryInitiated,
    RecoveryApproved,
}

pub open spec fn status_code(s: EmergencyAccessStatus) -> i32 {
    match s {
        EmergencyAccessStatus::Invited => 0,
        EmergencyAccessStatus::Accepted => 1,
        EmergencyAccessStatus::Confirmed => 2,
        EmergencyAccessStatus::RecoveryInitiated => 3,
        EmergencyAccessStatus::RecoveryApproved => 4,
    }
}

pub const INVITED: i32 = 0;
pub const ACCEPTED: i32 = 1;
pub const CONFIRMED: i32 = 2;
pub const RECOVERY_INITIATED: i32 = 3;
pub const RECOVERY_APPROVED: i32 = 4;

impl EmergencyAccessStatus {
    pub fn as_i32(&self) -> (r: i32)
        ensures
            r == status_code(*self),
    {
        match self {
            EmergencyAccessStatus::Invited => INVITED,
            EmergencyAccessStatus::Accepted => ACCEPTED,
            EmergencyAccessStatus::Confirmed => CONFIRMED,
            EmergencyAccessStatus::RecoveryInitiated => RECOVERY_INITIATED,
            EmergencyAccessStatus::RecoveryApproved => RECOVERY_APPROVED,
        }
    }

    /// The status stored under a database code.
    pub fn from_i32(code: i32) -> (r: Option<EmergencyAccessStatus>)
        ensures
            r is Some <==> 0 <= code <= 4,
            r is Some ==> status_code(r->Some_0) == code,
    {
        if code == INVITED {
            Some(EmergencyAccessStatus::Invited)
        } else if code == ACCEPTED {
            Some(EmergencyAccessStatus::Accepted)
        } else if code == CONFIRMED {
            Some(EmergencyAccessStatus::Confirmed)
        } else if code == RECOVERY_INITIATED {
            Some(EmergencyAccessStatus::RecoveryInitiated)
        } else if code == RECOVERY_APPROVED {
            Some(EmergencyAccessStatus::RecoveryApproved)
        } else {
            None
        }
    }
}

/// Why a user action on a record was refused.
#[derive(Clone, Copy, Debug, PartialEq, Eq, Structural)]
pub enum EmergencyError {
    /// The record is not in the status the action starts from.
    WrongStatus,
}

/// Relies on uuid's `Uuid::new_v4` and its text form: a fresh random id.
#[verifier::external_body]
fn new_uuid() -> (r: String) {
    uuid::Uuid::new_v4().to_string()
}

fn dup_opt(o: &Option<String>) -> (r: Option<String>)
    ensures
        r == *o,
{
    match o {
        Some(s) => Some(s.clone()),
        None => None,
    }
}

/// How the grantee of a record is found for its detail view.
#[derive(Clone, Debug)]
pub enum GranteeLookup {
    /// By the bound grantee's id.
    ById(String),
    /// By the invited email address, before a grantee is bound.
    ByEmail(String),
    /// Neither is known: the view shows empty placeholders.
    Unbound,
}

/// One delegation from a grantor to a grantee. Times are seconds since the
/// Unix epoch; `atype` and `status` hold their database codes.
#[derive(Debug)]
pub struct EmergencyAccess {
    pub uuid: String,
    pub grantor_uuid: String,
    pub grantee_uuid: Option<String>,
    pub email: Option<String>,
    pub key_encrypted: Option<String>,
    pub atype: i32,
    pub status: i32,
    pub wait_time_days: i32,
    pub recovery_initiated_at: Option<i64>,
    pub last_notification_at: Option<i64>,
    pub updated_at: i64,
    pub created_at: i64,
}

impl EmergencyAccess {
    /// Codes in range, a non-negative delay, a grantee bound from acceptance
    /// on, and a recovery start exactly in the two recovery stages.
    pub open spec fn wf(&self) -> bool {
        &&& 0 <= self.status <= RECOVERY_APPROVED
        &&& (self.atype == 0 || self.atype == 1)
        &&& self.wait_time_days >= 0
        &&& (self.status >= ACCEPTED ==> self.grantee_uuid is Some)
        &&& (self.recovery_initiated_at is Some <==> self.status >= RECOVERY_INITIATED)
    }

    /// A new record with a fresh id, created at `now`.
    pub fn new_at(
        now: i64,
        grantor_uuid: String,
        email: Option<String>,
        status: i32,
        atype: i32,
        wait_time_days: i32,
    ) -> (r: EmergencyAccess)
        ensures
            r.grantor_uuid == grantor_uuid,
            r.grantee_uuid is None,
            r.email == email,
            r.key_encrypted is None,
            r.atype == atype,
            r.status == status,
            r.wait_time_days == wait_time_days,
            r.recovery_initiated_at is None,
            r.last_notification_at is None,
            r.created_at == now,
            r.updated_at == now,
            r.wf() <==> (status == INVITED && (atype == 0 || atype == 1) && wait_time_days >= 0),
    {
        EmergencyAccess {
            uuid: new_uuid(),
            grantor_uuid,
            grantee_uuid: None,
            email,
            key_encrypted: None,
            atype,
            status,
            wait_time_days,
            recovery_initiated_at: None,
            last_notification_at: None,
            updated_at: now,
            created_at: now,
        }
    }

    /// A new record with a fresh id, created now.
    pub fn new(grantor_uuid: String, email: Option<String>, status: i32, atype: i32, wait_time_days: i32) -> (r:
        EmergencyAccess)
        ensures
            r.grantor_uuid == grantor_uuid,
            r.grantee_uuid is None,
            r.email == email,
            r.key_encrypted is None,
            r.atype == atype,
            r.status == status,
            r.wait_time_days == wait_time_days,
            r.recovery_initiated_at is None,
            r.last_notification_at is None,
            r.created_at == r.updated_at,
            r.wf() <==> (status == INVITED && (atype == 0 || atype == 1) && wait_time_days >= 0),
    {
        let now = crate::token::now_timestamp();
        EmergencyAccess::new_at(now, grantor_uuid, email, status, atype, wait_time_days)
    }

    /// A field-for-field copy.
    pub fn duplicate(&self) -> (r: EmergencyAccess)
        ensures
            r == *self,
    {
        EmergencyAccess {
            uuid: self.uuid.clone(),
            grantor_uuid: self.grantor_uuid.clone(),
            grantee_uuid: dup_opt(&self.grantee_uuid),
            email: dup_opt(&self.email),
            key_encrypted: dup_opt(&self.key_encrypted),
            atype: self.atype,
            status: self.status,
            wait_time_days: self.wait_time_days,
            recovery_initiated_at: self.recovery_initiated_at,
            last_notification_at: self.last_notification_at,
            updated_at: self.updated_at,
            created_at: self.created_at,
        }
    }

    /// The bound grantee's id first, else the invited email.
    pub fn grantee_lookup(&self) -> (r: GranteeLookup)
        ensures
            r == (match self.grantee_uuid {
                Some(g) => GranteeLookup::ById(g),
                None => match self.email {
                    Some(m) => GranteeLookup::ByEmail(m),
                    None => GranteeLookup::Unbound,
                },
            }),
    {
        match &self.grantee_uuid {
            Some(g) => GranteeLookup::ById(g.clone()),
            None => match &self.email {
                Some(m) => GranteeLookup::ByEmail(m.clone()),
                None => GranteeLookup::Unbound,
            },
        }
    }

    /// The name of the access type as mail templates show it.
    pub fn get_atype_as_str(&self) -> (r: &'static str)
        ensures
            self.atype == 0 ==> r@ == seq!['V', 'i', 'e', 'w'],
            self.atype != 0 ==> r@ == seq!['T', 'a', 'k', 'e', 'o', 'v', 'v', 'e', 'r'],
    {
        proof {
            reveal_strlit("View");
            reveal_strlit("Takeovver");
        }
        if self.atype == 0 {
            "View"
        } else {
            "Takeovver"
        }
    }

    /// Grantee accepts the invitation and is bound to the record.
    pub fn accept(&mut self, grantee_uuid: String, now: i64) -> (r: Result<(), EmergencyError>)
        requires
            old(self).wf(),
        ensures
            final(self).wf(),
            old(self).status == INVITED ==> r is Ok && *final(self) == (EmergencyAccess {
                status: ACCEPTED,
                grantee_uuid: Some(grantee_uuid),
                updated_at: now,
                ..*old(self)
            }),
            old(self).status != INVITED ==> r == Err::<(), EmergencyError>(EmergencyError::WrongStatus)
                && *final(self) == *old(self),
    {
        if self.status != INVITED {
            return Err(EmergencyError::WrongStatus);
        }
        self.status = ACCEPTED;
        self.grantee_uuid = Some(grantee_uuid);
        self.updated_at = now;
        Ok(())
    }

    /// Grantor confirms the grantee and stores the key encrypted for them.
    pub fn confirm(&mut self, key_encrypted: String, now: i64) -> (r: Result<(), EmergencyError>)
        requires
            old(self).wf(),
        ensures
            final(self).wf(),
            old(self).status == ACCEPTED ==> r is Ok && *final(self) == (EmergencyAccess {
                status: CONFIRMED,
                key_encrypted: Some(key_encrypted),
                updated_at: now,
                ..*old(self)
            }),
            old(self).status != ACCEPTED ==> r == Err::<(), EmergencyError>(EmergencyError::WrongStatus)
                && *final(self) == *old(self),
    {
        if self.status != ACCEPTED {
            return Err(EmergencyError::WrongStatus);
        }
        self.status = CONFIRMED;
        self.key_encrypted = Some(key_encrypted);
        self.updated_at = now;
        Ok(())
    }

    /// Grantee starts recovery; the waiting period runs from `now`.
    pub fn initiate_recovery(&mut self, now: i64) -> (r: Result<(), EmergencyError>)
        requires
            old(self).wf(),
        ensures
            final(self).wf(),
            old(self).status == CONFIRMED ==> r is Ok && *final(self) == (EmergencyAccess {
                status: RECOVERY_INITIATED,
                recovery_initiated_at: Some(now),
                last_notification_at: None,
                updated_at: now,
                ..*old(self)
            }),
            old(self).status != CONFIRMED ==> r == Err::<(), EmergencyError>(EmergencyError::WrongStatus)
                && *final(self) == *old(self),
    {
        if self.status != CONFIRMED {
            return Err(EmergencyError::WrongStatus);
        }
        self.status = RECOVERY_INITIATED;
        self.recovery_initiated_at = Some(now);
        self.last_notification_at = None;
        self.updated_at = now;
        Ok(())
    }

    /// Whether the waiting period of a pending recovery has run out at `now`.
    pub open spec fn timeout_due(&self, now: i64) -> bool {
        &&& self.status == RECOVERY_INITIATED
        &&& self.recovery_initiated_at is Some
        &&& now >= self.recovery_initiated_at->Some_0 + self.wait_time_days * SECS_PER_DAY
    }

    /// Whether a pending recovery is in its last day and no reminder went out
    /// in the past day.
    pub open spec fn reminder_due(&self, now: i64) -> bool {
        &&& self.status == RECOVERY_INITIATED
        &&& self.recovery_initiated_at is Some
        &&& now >= self.recovery_initiated_at->Some_0 + (self.wait_time_days - 1) * SECS_PER_DAY
        &&& (self.last_notification_at is None || now >= self.last_notification_at->Some_0
            + SECS_PER_DAY)
    }

    pub fn is_timeout_due(&self, now: i64) -> (r: bool)
        ensures
            r == self.timeout_due(now),
    {
        match self.recovery_initiated_at {
            Some(t) => self.status == RECOVERY_INITIATED && (now as i128) >= (t as i128) + (
            self.wait_time_days as i128) * (SECS_PER_DAY as i128),
            None => false,
        }
    }

    pub fn is_reminder_due(&self, now: i64) -> (r: bool)
        ensures
            r == self.reminder_due(now),
    {
        match self.recovery_initiated_at {
            Some(t) => {
                let days: i128 = self.wait_time_days as i128 - 1;
                let start: i128 = t as i128;
                let in_last_day = self.status == RECOVERY_INITIATED && (now as i128) >= start + days
                    * (SECS_PER_DAY as i128);
                let quiet = match self.last_notification_at {
                    None => true,
                    Some(l) => (now as i128) >= (l as i128) + (SECS_PER_DAY as i128),
                };
                in_last_day && quiet
            },
            None => false,
        }
    }

    /// The record once recovery is approved at `now`.
    pub open spec fn approved(self, now: i64) -> EmergencyAccess {
        EmergencyAccess { status: RECOVERY_APPROVED, updated_at: now, ..self }
    }

    /// The record once a reminder went out at `now`.
    pub open spec fn reminded(self, now: i64) -> EmergencyAccess {
        EmergencyAccess { last_notification_at: Some(now), updated_at: now, ..self }
    }

    /// Approves a pending recovery: by the grantor, or when it times out.
    pub fn approve_recovery(&mut self, now: i64) -> (r: Result<(), EmergencyError>)
        requires
            old(self).wf(),
        ensures
            final(self).wf(),
            old(self).status == RECOVERY_INITIATED ==> r is Ok && *final(self) == old(self).approved(
                now,
            ),
            old(self).status != RECOVERY_INITIATED ==> r == Err::<(), EmergencyError>(
                EmergencyError::WrongStatus,
            ) && *final(self) == *old(self),
    {
        if self.status != RECOVERY_INITIATED {
            return Err(EmergencyError::WrongStatus);
        }
        self.status = RECOVERY_APPROVED;
        self.updated_at = now;
        Ok(())
    }

    /// Records that a reminder goes out at `now`.
    pub fn mark_reminded(&mut self, now: i64)
        requires
            old(self).wf(),
        ensures
            final(self).wf(),
            *final(self) == old(self).reminded(now),
    {
        self.last_notification_at = Some(now);
        self.updated_at = now;
    }
}

} // verus!
