use vstd::prelude::*;

use crate::model::{reminder_views, Medication, MedicationView, Reminder, ReminderView};

verus! {

pub open spec fn medication_views(s: Seq<Medication>) -> Seq<MedicationView> {
    s.map_values(|m: Medication| m@)
}

/// No medication before index `i` carries the id of medication `i`.
pub open spec fn first_with_id(meds: Seq<MedicationView>, i: int) -> bool {
    forall|k: int| 0 <= k < i ==> meds[k].id != meds[i].id
}

/// Reminder `r` belongs to medication `i`: the first medication with its id.
pub open spec fn owned_by(meds: Seq<MedicationView>, i: int, r: ReminderView) -> bool {
    meds[i].id == Some(r.medication_id) && first_with_id(meds, i)
}

/// Reminder `r` matches no medication of `meds`.
pub open spec fn is_orphan(meds: Seq<MedicationView>, r: ReminderView) -> bool {
    forall|k: int| 0 <= k < meds.len() ==> meds[k].id != Some(r.medication_id)
}

/// The reminders of `rems` that belong to medication `i`, in their order.
pub open spec fn owned_reminders(
    meds: Seq<MedicationView>,
    rems: Seq<ReminderView>,
    i: int,
) -> Seq<ReminderView> {
    rems.filter(|r: ReminderView| owned_by(meds, i, r))
}

/// Each medication of `meds`, with the reminders that belong to it appended.
pub open spec fn attached(meds: Seq<MedicationView>, rems: Seq<ReminderView>) -> Seq<
    MedicationView,
> {
    Seq::new(
        meds.len(),
        |i: int|
            MedicationView {
                reminders: meds[i].reminders + owned_reminders(meds, rems, i),
                ..meds[i]
            },
    )
}

/// The reminders of `rems` that match no medication, in their order.
pub open spec fn orphans(meds: Seq<MedicationView>, rems: Seq<ReminderView>) -> Seq<ReminderView> {
    rems.filter(|r: ReminderView| is_orphan(meds, r))
}

/// Filtering a sequence extended by one element.
pub proof fn lemma_filter_push<A>(s: Seq<A>, x: A, p: spec_fn(A) -> bool)
    ensures
        s.push(x).filter(p) == (if p(x) {
            s.filter(p).push(x)
        } else {
            s.filter(p)
        }),
{
    reveal(Seq::filter);
    assert(s.push(x).drop_last() =~= s);
}

/// Medications with their reminders attached, and the reminders that found
/// no medication.
pub struct Attached {
    pub medications: Vec<Medication>,
    pub orphans: Vec<Reminder>,
}

fn is_first_with_id(meds: &Vec<Medication>, i: usize) -> (r: bool)
    requires
        i < meds.len(),
    ensures
        r == first_with_id(medication_views(meds@), i as int),
{
    let ghost mv = medication_views(meds@);
    let mut k: usize = 0;
    while k < i
        invariant
            i < meds.len(),
            k <= i,
            mv == medication_views(meds@),
            forall|q: int| 0 <= q < k ==> mv[q].id != mv[i as int].id,
        decreases i - k,
    {
        if meds[k].id == meds[i].id {
            assert(mv[k as int].id == mv[i as int].id);
            return false;
        }
        k = k + 1;
    }
    true
}

/// The reminders of `rems` that belong to medication `i` of `meds`.
fn reminders_owned_by(meds: &Vec<Medication>, i: usize, rems: &Vec<Reminder>) -> (r: Vec<Reminder>)
    requires
        i < meds.len(),
    ensures
        reminder_views(r@) == owned_reminders(
            medication_views(meds@),
            reminder_views(rems@),
            i as int,
        ),
{
    let ghost mv = medication_views(meds@);
    let ghost rv = reminder_views(rems@);
    let ghost p = |r: ReminderView| owned_by(mv, i as int, r);
    let first = is_first_with_id(meds, i);
    let mut out: Vec<Reminder> = Vec::new();
    let mut j: usize = 0;
    while j < rems.len()
        invariant
            i < meds.len(),
            j <= rems.len(),
            mv == medication_views(meds@),
            rv == reminder_views(rems@),
            first == first_with_id(mv, i as int),
            p == (|r: ReminderView| owned_by(mv, i as int, r)),
            reminder_views(out@) == rv.subrange(0, j as int).filter(p),
        decreases rems.len() - j,
    {
        let owns = first && meds[i].id == Some(rems[j].medication_id);
        proof {
            lemma_filter_push(rv.subrange(0, j as int), rv[j as int], p);
            assert(rv.subrange(0, j + 1 as int) =~= rv.subrange(0, j as int).push(rv[j as int]));
            assert(owns == p(rv[j as int]));
        }
        if owns {
            let ghost before = out@;
            out.push(rems[j].clone());
            assert(reminder_views(out@) =~= reminder_views(before).push(rv[j as int]));
        }
        j = j + 1;
    }
    assert(rv.subrange(0, rems.len() as int) =~= rv);
    out
}

fn is_orphan_reminder(meds: &Vec<Medication>, r: &Reminder) -> (o: bool)
    ensures
        o == is_orphan(medication_views(meds@), r@),
{
    let ghost mv = medication_views(meds@);
    let mut k: usize = 0;
    while k < meds.len()
        invariant
            k <= meds.len(),
            mv == medication_views(meds@),
            forall|q: int| 0 <= q < k ==> mv[q].id != Some(r.medication_id),
        decreases meds.len() - k,
    {
        if meds[k].id == Some(r.medication_id) {
            assert(mv[k as int].id == Some(r.medication_id));
            return false;
        }
        k = k + 1;
    }
    true
}

fn orphan_reminders(meds: &Vec<Medication>, rems: &Vec<Reminder>) -> (r: Vec<Reminder>)
    ensures
        reminder_views(r@) == orphans(medication_views(meds@), reminder_views(rems@)),
{
    let ghost mv = medication_views(meds@);
    let ghost rv = reminder_views(rems@);
    let ghost p = |r: ReminderView| is_orphan(mv, r);
    let mut out: Vec<Reminder> = Vec::new();
    let mut j: usize = 0;
    while j < rems.len()
        invariant
            j <= rems.len(),
            mv == medication_views(meds@),
            rv == reminder_views(rems@),
            p == (|r: ReminderView| is_orphan(mv, r)),
            reminder_views(out@) == rv.subrange(0, j as int).filter(p),
        decreases rems.len() - j,
    {
        let orphan = is_orphan_reminder(meds, &rems[j]);
        proof {
            lemma_filter_push(rv.subrange(0, j as int), rv[j as int], p);
            assert(rv.subrange(0, j + 1 as int) =~= rv.subrange(0, j as int).push(rv[j as int]));
        }
        if orphan {
            let ghost before = out@;
            out.push(rems[j].clone());
            assert(reminder_views(out@) =~= reminder_views(before).push(rv[j as int]));
        }
        j = j + 1;
    }
    assert(rv.subrange(0, rems.len() as int) =~= rv);
    out
}

/// Attaches each reminder to the first medication whose id is its
/// `medication_id`, after the reminders that medication already holds and in
/// the order of `rems`. A reminder whose medication is absent is not
/// attached anywhere; it is handed back in `orphans` so the caller can report it.
pub fn attach_reminders(meds: Vec<Medication>, rems: Vec<Reminder>) -> (r: Attached)
    ensures
        medication_views(r.medications@) == attached(
            medication_views(meds@),
            reminder_views(rems@),
        ),
        reminder_views(r.orphans@) == orphans(medication_views(meds@), reminder_views(rems@)),
{
    let ghost mv = medication_views(meds@);
    let ghost rv = reminder_views(rems@);
    let ghost target = attached(mv, rv);
    let mut out: Vec<Medication> = Vec::new();
    let mut i: usize = 0;
    while i < meds.len()
        invariant
            i <= meds.len(),
            mv == medication_views(meds@),
            rv == reminder_views(rems@),
            target == attached(mv, rv),
            out@.len() == i,
            forall|q: int| 0 <= q < i ==> (#[trigger] out@[q])@ == target[q],
        decreases meds.len() - i,
    {
        let mut m = meds[i].clone();
        let mut mine = reminders_owned_by(&meds, i, &rems);
        let ghost own = m.reminders@;
        let ghost added = mine@;
        m.reminders.append(&mut mine);
        assert(reminder_views(m.reminders@) =~= reminder_views(own) + reminder_views(added));
        assert(m@ == target[i as int]);
        out.push(m);
        i = i + 1;
    }
    assert(medication_views(out@) =~= target);
    let orphans = orphan_reminders(&meds, &rems);
    Attached { medications: out, orphans }
}

} // verus!
