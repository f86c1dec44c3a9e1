//! The periodic passes over pending recoveries: approval once the waiting
//! period has run out, and a daily reminder to the grantor in its last day.
//! Each pass changes the store and returns the mails to send; sending them,
//! and looking up the users they go to, is left to the caller, so a record
//! whose users are gone never holds up the others.
use vstd::prelude::*;
use crate::emergency::EmergencyAccess;
use crate::store::{EmergencyAccessStore, ids_unique};
use crate::token::SECS_PER_DAY;

verus! {

/// The mail a pass asks for.
#[derive(Clone, Copy, Debug, PartialEq, Eq, Structural)]
pub enum NoticeKind {
    /// To the grantor: the grantee's access was approved by timeout.
    RecoveryTimedOut,
    /// To the grantee: access was approved.
    RecoveryApproved,
    /// To the grantor: a recovery request is about to be approved.
    RecoveryReminder,
}

/// One mail to send about a record, as it stands after the pass.
#[derive(Debug)]
pub struct Notice {
    pub kind: NoticeKind,
    pub record: EmergencyAccess,
}

/// A record after the timeout pass at `now`.
pub open spec fn after_timeout(e: EmergencyAccess, now: i64) -> EmergencyAccess {
    if e.timeout_due(now) {
        e.approved(now)
    } else {
        e
    }
}

/// A record after the reminder pass at `now`.
pub open spec fn after_reminder(e: EmergencyAccess, now: i64) -> EmergencyAccess {
    if e.reminder_due(now) {
        e.reminded(now)
    } else {
        e
    }
}

/// The mails of the timeout pass: for each approved record, in store order,
/// one to the grantor and one to the grantee.
pub open spec fn timeout_notices(s: Seq<EmergencyAccess>, now: i64) -> Seq<Notice>
    decreases s.len(),
{
    if s.len() == 0 {
        Seq::empty()
    } else if s.last().timeout_due(now) {
        timeout_notices(s.drop_last(), now).push(
            Notice { kind: NoticeKind::RecoveryTimedOut, record: s.last().approved(now) },
        ).push(Notice { kind: NoticeKind::RecoveryApproved, record: s.last().approved(now) })
    } else {
        timeout_notices(s.drop_last(), now)
    }
}

/// The mails of the reminder pass: one to the grantor of each reminded record.
pub open spec fn reminder_notices(s: Seq<EmergencyAccess>, now: i64) -> Seq<Notice>
    decreases s.len(),
{
    if s.len() == 0 {
        Seq::empty()
    } else if s.last().reminder_due(now) {
        reminder_notices(s.drop_last(), now).push(
            Notice { kind: NoticeKind::RecoveryReminder, record: s.last().reminded(now) },
        )
    } else {
        reminder_notices(s.drop_last(), now)
    }
}

/// Approves every pending recovery whose waiting period has run out at `now`.
pub fn run_timeout_pass(store: &mut EmergencyAccessStore, now: i64) -> (r: Vec<Notice>)
    requires
        old(store).wf(),
    ensures
        final(store).wf(),
        final(store)@.len() == old(store)@.len(),
        forall|i: int|
            0 <= i < old(store)@.len() ==> #[trigger] final(store)@[i] == after_timeout(
                old(store)@[i],
                now,
            ),
        r@ == timeout_notices(old(store)@, now),
{
    let ghost before = store@;
    let mut out: Vec<Notice> = Vec::new();
    let mut i: usize = 0;
    while i < store.records.len()
        invariant
            store.wf(),
            store@.len() == before.len(),
            i <= before.len(),
            forall|k: int| 0 <= k < i ==> #[trigger] store@[k] == after_timeout(before[k], now),
            forall|k: int| i <= k < before.len() ==> #[trigger] store@[k] == before[k],
            out@ == timeout_notices(before.subrange(0, i as int), now),
        decreases before.len() - i,
    {
        proof {
            let pre = before.subrange(0, i as int + 1);
            assert(pre.drop_last() =~= before.subrange(0, i as int));
            assert(pre.last() == before[i as int]);
        }
        if store.records[i].is_timeout_due(now) {
            let mut e = store.records[i].duplicate();
            let _ = e.approve_recovery(now);
            out.push(Notice { kind: NoticeKind::RecoveryTimedOut, record: e.duplicate() });
            out.push(Notice { kind: NoticeKind::RecoveryApproved, record: e.duplicate() });
            let ghost old_records = store@;
            store.records.set(i, e);
            proof {
                assert forall|a: int, b: int| 0 <= a < b < store@.len() implies store@[a].uuid@
                    != store@[b].uuid@ by {
                    assert(old_records[a].uuid@ != old_records[b].uuid@);
                }
                assert forall|k: int| 0 <= k < store@.len() implies #[trigger] store@[k].wf() by {
                    assert(old_records[k].wf());
                }
            }
        }
        i = i + 1;
    }
    assert(before.subrange(0, i as int) =~= before);
    out
}

/// Sends at most one reminder a day for each pending recovery in its last day.
pub fn run_reminder_pass(store: &mut EmergencyAccessStore, now: i64) -> (r: Vec<Notice>)
    requires
        old(store).wf(),
    ensures
        final(store).wf(),
        final(store)@.len() == old(store)@.len(),
        forall|i: int|
            0 <= i < old(store)@.len() ==> #[trigger] final(store)@[i] == after_reminder(
                old(store)@[i],
                now,
            ),
        r@ == reminder_notices(old(store)@, now),
{
    let ghost before = store@;
    let mut out: Vec<Notice> = Vec::new();
    let mut i: usize = 0;
    while i < store.records.len()
        invariant
            store.wf(),
            store@.len() == before.len(),
            i <= before.len(),
            forall|k: int| 0 <= k < i ==> #[trigger] store@[k] == after_reminder(before[k], now),
            forall|k: int| i <= k < before.len() ==> #[trigger] store@[k] == before[k],
            out@ == reminder_notices(before.subrange(0, i as int), now),
        decreases before.len() - i,
    {
        proof {
            let pre = before.subrange(0, i as int + 1);
            assert(pre.drop_last() =~= before.subrange(0, i as int));
            assert(pre.last() == before[i as int]);
        }
        if store.records[i].is_reminder_due(now) {
            let mut e = store.records[i].duplicate();
            e.mark_reminded(now);
            out.push(Notice { kind: NoticeKind::RecoveryReminder, record: e.duplicate() });
            let ghost old_records = store@;
            store.records.set(i, e);
            proof {
                assert forall|a: int, b: int| 0 <= a < b < store@.len() implies store@[a].uuid@
                    != store@[b].uuid@ by {
                    assert(old_records[a].uuid@ != old_records[b].uuid@);
                }
                assert forall|k: int| 0 <= k < store@.len() implies #[trigger] store@[k].wf() by {
                    assert(old_records[k].wf());
                }
            }
        }
        i = i + 1;
    }
    assert(before.subrange(0, i as int) =~= before);
    out
}

/// A pending recovery started at `t` is approved by a pass at `now` exactly
/// when `now` is at least `t` plus its waiting period.
pub proof fn lemma_timeout_at_deadline(e: EmergencyAccess, t: i64, now: i64)
    requires
        e.wf(),
        e.status == crate::emergency::RECOVERY_INITIATED,
        e.recovery_initiated_at == Some(t),
    ensures
        after_timeout(e, now).status == crate::emergency::RECOVERY_APPROVED <==> now >= t
            + e.wait_time_days * SECS_PER_DAY,
{
}

/// Once a reminder went out at `t`, no pass before `t` plus one day sends
/// another or changes the record, however often the passes run.
pub proof fn lemma_reminder_spacing(e: EmergencyAccess, t: i64, now: i64)
    requires
        e.last_notification_at == Some(t),
        now < t + SECS_PER_DAY,
    ensures
        !e.reminder_due(now),
        after_reminder(e, now) == e,
        reminder_notices(seq![e], now).len() == 0,
{
    let s = seq![e];
    assert(s.last() == e);
    assert(s.drop_last() =~= Seq::<EmergencyAccess>::empty());
    assert(reminder_notices(s, now) == reminder_notices(s.drop_last(), now));
}

/// A reminder sent at `t` leaves the record so that passes at any time
/// before `t` plus one day send nothing more.
pub proof fn lemma_no_second_reminder(e: EmergencyAccess, t: i64, later: i64)
    requires
        e.reminder_due(t),
        t <= later < t + SECS_PER_DAY,
    ensures
        !after_reminder(e, t).reminder_due(later),
        after_reminder(after_reminder(e, t), later) == after_reminder(e, t),
{
}

} // verus!
