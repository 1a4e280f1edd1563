use vstd::prelude::*;

use crate::clock::timestamp_le;
use crate::connection::{accepts_init, init_transition, ConnectionState, DbType};
use crate::model::{MedicationView, ReminderView};
use crate::store::{
    after_create_medication, after_delete_medication, after_update_medication, new_medication_row,
    StoreView,
};

verus! {

/// Creating a medication and reading it back: the new id is positive, the
/// row is live, it holds the name, dosage and description it was given, and
/// its two timestamps are equal.
pub proof fn lemma_create_then_read(s: StoreView, m: MedicationView, now: Seq<char>)
    requires
        s.wf(),
        s.medications.len() < i64::MAX,
    ensures
        ({
            let id = (s.medications.len() + 1) as i64;
            let after = after_create_medication(s, m, now);
            let read = after.medication_with_reminders(id);
            &&& after.wf()
            &&& id > 0
            &&& after.medication_is_live(id)
            &&& read.id == Some(id)
            &&& read.name == m.name
            &&& read.dosage == m.dosage
            &&& read.description == m.description
            &&& read.created_at == read.updated_at
            &&& read.deleted_at is None
        }),
{
    let after = after_create_medication(s, m, now);
    let id = (s.medications.len() + 1) as i64;
    assert(after.medications[id - 1] == new_medication_row(m, id, now));
    assert forall|i: int| 0 <= i < after.medications.len() implies (#[trigger] after.medications[i]).id
        == Some((i + 1) as i64) && after.medications[i].reminders.len() == 0 by {
        if i < s.medications.len() {
            assert(after.medications[i] == s.medications[i]);
        }
    }
}

/// Every member of a filtered sequence is a member of the sequence and
/// satisfies the filter.
pub proof fn lemma_filter_member<A>(s: Seq<A>, p: spec_fn(A) -> bool, k: int)
    requires
        0 <= k < s.filter(p).len(),
    ensures
        s.contains(s.filter(p)[k]),
        p(s.filter(p)[k]),
{
    broadcast use vstd::seq_lib::group_filter_ensures;

    let x = s.filter(p)[k];
    assert(s.filter(p).contains(x));
    s.lemma_filter_contains_rev(p, x);
}

/// After `delete_medication(id)`, no medication that `get_all_medications`
/// lists carries that id, and `get_medication(id)` finds nothing.
pub proof fn lemma_deleted_medication_hidden(s: StoreView, id: i64, now: Seq<char>)
    requires
        s.wf(),
    ensures
        ({
            let after = after_delete_medication(s, id, now);
            &&& !after.medication_is_live(id)
            &&& forall|k: int|
                0 <= k < after.all_medications().len() ==> (#[trigger] after.all_medications()[k]).id
                    != Some(id)
        }),
{
    let after = after_delete_medication(s, id, now);
    let live = after.live_medications();
    assert forall|k: int| 0 <= k < after.all_medications().len() implies (
    #[trigger] after.all_medications()[k]).id != Some(id) by {
        assert(after.all_medications()[k].id == live[k].id);
        lemma_filter_member(after.medications, |m: MedicationView| m.is_live(), k);
        let j = choose|j: int| 0 <= j < after.medications.len() && after.medications[j] == live[k];
        if s.medication_is_live(id) {
            if j != id - 1 {
                assert(after.medications[j] == s.medications[j]);
            }
        }
    }
}

/// After deleting a live medication, none of its reminders is listed by
/// `get_active_reminders`, whatever its active flag was, and
/// `get_reminders_for_medication` lists none.
pub proof fn lemma_delete_cascades(s: StoreView, id: i64, now: Seq<char>)
    requires
        s.wf(),
        s.medication_is_live(id),
    ensures
        ({
            let after = after_delete_medication(s, id, now);
            &&& forall|k: int|
                0 <= k < after.active_reminders().len()
                    ==> (#[trigger] after.active_reminders()[k]).medication_id != id
            &&& after.reminders_of(id).len() == 0
        }),
{
    let after = after_delete_medication(s, id, now);
    assert forall|k: int| 0 <= k < after.active_reminders().len() implies (
    #[trigger] after.active_reminders()[k]).medication_id != id by {
        lemma_filter_member(after.reminders, |r: ReminderView| r.is_live() && r.is_active, k);
    }
    if after.reminders_of(id).len() > 0 {
        lemma_filter_member(
            after.reminders,
            |r: ReminderView| r.is_live() && r.medication_id == id,
            0,
        );
    }
}

/// `get_active_reminders` lists exactly the stored reminders that are live
/// and active, whichever medication they belong to.
pub proof fn lemma_active_filter(s: StoreView, r: ReminderView)
    requires
        s.wf(),
    ensures
        s.active_reminders().contains(r) <==> (s.reminders.contains(r) && r.is_live() && r.is_active),
{
    broadcast use vstd::seq_lib::group_filter_ensures;

    let p = |x: ReminderView| x.is_live() && x.is_active;
    if s.active_reminders().contains(r) {
        s.reminders.lemma_filter_contains_rev(p, r);
        let k = choose|k: int| 0 <= k < s.active_reminders().len() && s.active_reminders()[k] == r;
        lemma_filter_member(s.reminders, p, k);
    }
    if s.reminders.contains(r) && r.is_live() && r.is_active {
        let j = choose|j: int| 0 <= j < s.reminders.len() && s.reminders[j] == r;
        s.reminders.lemma_filter_contains(p, j);
    }
}

/// An update stamped no earlier than the row's last change leaves
/// `updated_at` no earlier than before, and never touches `created_at`.
pub proof fn lemma_update_timestamps(s: StoreView, id: i64, m: MedicationView, now: Seq<char>)
    requires
        s.wf(),
        s.medication_is_live(id),
        timestamp_le(s.medication_row(id).updated_at, now),
    ensures
        ({
            let after = after_update_medication(s, id, m, now);
            &&& timestamp_le(s.medication_row(id).updated_at, after.medication_row(id).updated_at)
            &&& after.medication_row(id).created_at == s.medication_row(id).created_at
        }),
{
}

/// Initialisation is write-once: after a successful first `init`, the
/// backend is open, every further attempt is refused, and it leaves the open
/// backend as it was.
pub proof fn lemma_init_write_once(kind: DbType, second: DbType, opened_again: bool)
    ensures
        ({
            let first = init_transition(ConnectionState::Uninitialized, kind, true);
            &&& first == ConnectionState::Open(kind)
            &&& !accepts_init(first)
            &&& init_transition(first, second, opened_again) == first
        }),
{
}

} // verus!
