//! Emergency-access records kept by id, written by upsert.
use vstd::prelude::*;
use crate::emergency::{EmergencyAccess, RECOVERY_INITIATED};

verus! {

/// No two records share an id.
pub open spec fn ids_unique(s: Seq<EmergencyAccess>) -> bool {
    forall|i: int, j: int| 0 <= i < j < s.len() ==> s[i].uuid@ != s[j].uuid@
}

/// Where the record with id `id` stands, if any.
pub open spec fn index_of(s: Seq<EmergencyAccess>, id: Seq<char>) -> Option<int> {
    if exists|i: int| 0 <= i < s.len() && #[trigger] s[i].uuid@ == id {
        Some(choose|i: int| 0 <= i < s.len() && #[trigger] s[i].uuid@ == id)
    } else {
        None
    }
}

/// A selection of records.
#[derive(Clone, Debug)]
pub enum Query {
    /// Records in a given status.
    Status(i32),
    /// Records a given user granted.
    Grantor(String),
    /// Records granted to a given user.
    Grantee(String),
    /// Records a grantor gave to a grantee known by id or by email.
    GrantorAndGranteeOrEmail(String, String, String),
}

pub open spec fn opt_is(o: Option<String>, s: Seq<char>) -> bool {
    o is Some && o->Some_0@ == s
}

pub open spec fn matches_query(e: EmergencyAccess, q: Query) -> bool {
    match q {
        Query::Status(s) => e.status == s,
        Query::Grantor(g) => e.grantor_uuid@ == g@,
        Query::Grantee(g) => opt_is(e.grantee_uuid, g@),
        Query::GrantorAndGranteeOrEmail(g, grantee, email) => e.grantor_uuid@ == g@ && (opt_is(
            e.grantee_uuid,
            grantee@,
        ) || opt_is(e.email, email@)),
    }
}

/// The records of `s` that match `q`, in order.
pub open spec fn keep(s: Seq<EmergencyAccess>, q: Query) -> Seq<EmergencyAccess>
    decreases s.len(),
{
    if s.len() == 0 {
        Seq::empty()
    } else if matches_query(s.last(), q) {
        keep(s.drop_last(), q).push(s.last())
    } else {
        keep(s.drop_last(), q)
    }
}

fn opt_eq(o: &Option<String>, s: &String) -> (r: bool)
    ensures
        r == opt_is(*o, s@),
{
    match o {
        Some(v) => *v == *s,
        None => false,
    }
}

fn query_matches(e: &EmergencyAccess, q: &Query) -> (r: bool)
    ensures
        r == matches_query(*e, *q),
{
    match q {
        Query::Status(s) => e.status == *s,
        Query::Grantor(g) => e.grantor_uuid == *g,
        Query::Grantee(g) => opt_eq(&e.grantee_uuid, g),
        Query::GrantorAndGranteeOrEmail(g, grantee, email) => e.grantor_uuid == *g && (opt_eq(
            &e.grantee_uuid,
            grantee,
        ) || opt_eq(&e.email, email)),
    }
}

/// The persisted emergency-access records.
pub struct EmergencyAccessStore {
    pub records: Vec<EmergencyAccess>,
}

impl View for EmergencyAccessStore {
    type V = Seq<EmergencyAccess>;

    open spec fn view(&self) -> Seq<EmergencyAccess> {
        self.records@
    }
}

impl EmergencyAccessStore {
    /// Ids are unique and every record is well formed.
    pub open spec fn wf(&self) -> bool {
        &&& ids_unique(self@)
        &&& forall|i: int| 0 <= i < self@.len() ==> #[trigger] self@[i].wf()
    }

    pub fn new() -> (r: EmergencyAccessStore)
        ensures
            r.wf(),
            r@ == Seq::<EmergencyAccess>::empty(),
    {
        EmergencyAccessStore { records: Vec::new() }
    }

    fn position(&self, id: &String) -> (r: Option<usize>)
        requires
            self.wf(),
        ensures
            r is Some <==> index_of(self@, id@) is Some,
            r is Some ==> r->Some_0 as int == index_of(self@, id@)->Some_0,
    {
        let mut i: usize = 0;
        while i < self.records.len()
            invariant
                self.wf(),
                i <= self@.len(),
                forall|k: int| 0 <= k < i ==> #[trigger] self@[k].uuid@ != id@,
            decreases self.records.len() - i,
        {
            if self.records[i].uuid == *id {
                proof {
                    let c = choose|c: int| 0 <= c < self@.len() && #[trigger] self@[c].uuid@ == id@;
                    if c != i as int {
                        if c < i {
                        } else {
                            assert(self@[i as int].uuid@ != self@[c].uuid@);
                        }
                    }
                }
                return Some(i);
            }
            i = i + 1;
        }
        None
    }

    /// Writes `record` stamped with `now`: it replaces the record with the
    /// same id where there is one, and is added otherwise.
    pub fn save(&mut self, record: EmergencyAccess, now: i64)
        requires
            old(self).wf(),
            record.wf(),
        ensures
            final(self).wf(),
            ({
                let stamped = EmergencyAccess { updated_at: now, ..record };
                match index_of(old(self)@, record.uuid@) {
                    Some(i) => final(self)@ == old(self)@.update(i, stamped),
                    None => final(self)@ == old(self)@.push(stamped),
                }
            }),
    {
        let mut record = record;
        record.updated_at = now;
        match self.position(&record.uuid) {
            Some(i) => {
                self.records.set(i, record);
            },
            None => {
                self.records.push(record);
            },
        }
    }

    /// Writes `record` stamped with `now` over the stored record with the same
    /// id, but only while that one is still in `expected_status`; whether it
    /// was written. A concurrent change of status makes the write a no-op
    /// instead of a lost update.
    pub fn save_if_status(&mut self, record: EmergencyAccess, expected_status: i32, now: i64) -> (r:
        bool)
        requires
            old(self).wf(),
            record.wf(),
        ensures
            final(self).wf(),
            ({
                let stamped = EmergencyAccess { updated_at: now, ..record };
                match index_of(old(self)@, record.uuid@) {
                    Some(i) => if old(self)@[i].status == expected_status {
                        r && final(self)@ == old(self)@.update(i, stamped)
                    } else {
                        !r && final(self)@ == old(self)@
                    },
                    None => !r && final(self)@ == old(self)@,
                }
            }),
    {
        let mut record = record;
        record.updated_at = now;
        match self.position(&record.uuid) {
            Some(i) => {
                if self.records[i].status == expected_status {
                    self.records.set(i, record);
                    true
                } else {
                    false
                }
            },
            None => false,
        }
    }

    /// Removes the record with id `uuid`; whether there was one.
    pub fn delete(&mut self, uuid: &str) -> (r: bool)
        requires
            old(self).wf(),
        ensures
            final(self).wf(),
            match index_of(old(self)@, uuid@) {
                Some(i) => r && final(self)@ == old(self)@.remove(i),
                None => !r && final(self)@ == old(self)@,
            },
    {
        let id = uuid.to_owned();
        match self.position(&id) {
            Some(i) => {
                self.records.remove(i);
                true
            },
            None => false,
        }
    }

    /// The record with id `uuid`.
    pub fn find_by_uuid(&self, uuid: &str) -> (r: Option<EmergencyAccess>)
        requires
            self.wf(),
        ensures
            r == (match index_of(self@, uuid@) {
                Some(i) => Some(self@[i]),
                None => None,
            }),
    {
        let id = uuid.to_owned();
        match self.position(&id) {
            Some(i) => Some(self.records[i].duplicate()),
            None => None,
        }
    }

    /// The record with id `uuid` when `grantor_uuid` granted it.
    pub fn find_by_uuid_and_grantor_uuid(&self, uuid: &str, grantor_uuid: &str) -> (r: Option<
        EmergencyAccess,
    >)
        requires
            self.wf(),
        ensures
            r == (match index_of(self@, uuid@) {
                Some(i) => if self@[i].grantor_uuid@ == grantor_uuid@ {
                    Some(self@[i])
                } else {
                    None
                },
                None => None,
            }),
    {
        let g = grantor_uuid.to_owned();
        match self.find_by_uuid(uuid) {
            Some(e) => if e.grantor_uuid == g {
                Some(e)
            } else {
                None
            },
            None => None,
        }
    }

    /// The records that match `q`, in store order.
    pub fn select(&self, q: &Query) -> (r: Vec<EmergencyAccess>)
        ensures
            r@ == keep(self@, *q),
    {
        let mut out: Vec<EmergencyAccess> = Vec::new();
        let mut i: usize = 0;
        while i < self.records.len()
            invariant
                i <= self@.len(),
                out@ == keep(self@.subrange(0, i as int), *q),
            decreases self.records.len() - i,
        {
            proof {
                let pre = self@.subrange(0, i as int + 1);
                assert(pre.drop_last() =~= self@.subrange(0, i as int));
                assert(pre.last() == self@[i as int]);
            }
            if query_matches(&self.records[i], q) {
                out.push(self.records[i].duplicate());
            }
            i = i + 1;
        }
        assert(self@.subrange(0, i as int) =~= self@);
        out
    }

    /// The records whose recovery is pending.
    pub fn find_all_recoveries(&self) -> (r: Vec<EmergencyAccess>)
        ensures
            r@ == keep(self@, Query::Status(RECOVERY_INITIATED)),
    {
        self.select(&Query::Status(RECOVERY_INITIATED))
    }

    /// The records `grantor_uuid` granted.
    pub fn find_all_by_grantor_uuid(&self, grantor_uuid: &str) -> (r: Vec<EmergencyAccess>)
        ensures
            exists|g: String| g@ == grantor_uuid@ && r@ == keep(self@, Query::Grantor(g)),
    {
        let g = grantor_uuid.to_owned();
        let q = Query::Grantor(g);
        self.select(&q)
    }

    /// The records granted to `grantee_uuid`.
    pub fn find_all_by_grantee_uuid(&self, grantee_uuid: &str) -> (r: Vec<EmergencyAccess>)
        ensures
            exists|g: String| g@ == grantee_uuid@ && r@ == keep(self@, Query::Grantee(g)),
    {
        let g = grantee_uuid.to_owned();
        let q = Query::Grantee(g);
        self.select(&q)
    }

    /// The first record `grantor_uuid` gave to the grantee known as
    /// `grantee_uuid` or by `email`.
    pub fn find_by_grantor_uuid_and_grantee_uuid_or_email(
        &self,
        grantor_uuid: &str,
        grantee_uuid: &str,
        email: &str,
    ) -> (r: Option<EmergencyAccess>)
        ensures
            exists|g: String, ge: String, em: String|
                g@ == grantor_uuid@ && ge@ == grantee_uuid@ && em@ == email@ && ({
                    let found = keep(self@, Query::GrantorAndGranteeOrEmail(g, ge, em));
                    r == if found.len() > 0 {
                        Some(found[0])
                    } else {
                        None
                    }
                }),
    {
        let q = Query::GrantorAndGranteeOrEmail(
            grantor_uuid.to_owned(),
            grantee_uuid.to_owned(),
            email.to_owned(),
        );
        let mut found = self.select(&q);
        if found.len() > 0 {
            Some(found.remove(0))
        } else {
            None
        }
    }
}

} // verus!
