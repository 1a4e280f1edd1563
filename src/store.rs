use vstd::prelude::*;

use crate::assemble::{attach_reminders, attached, lemma_filter_push, medication_views};
use crate::error::PillError;
use crate::model::{reminder_views, Medication, MedicationView, Reminder, ReminderView};
use crate::validate::{is_valid_days, is_valid_time, valid_days, valid_time};

verus! {

/// Mathematical value of a [`MemoryStore`]: the two tables, row `i` holding id `i + 1`.
pub struct StoreView {
    pub medications: Seq<MedicationView>,
    pub reminders: Seq<ReminderView>,
}

/// The in-process backend: both tables held in memory. Rows are never
/// removed; a soft delete stamps `deleted_at`, and ids count up from 1 as an
/// autoincrement key does.
pub struct MemoryStore {
    medications: Vec<Medication>,
    reminders: Vec<Reminder>,
}

impl View for MemoryStore {
    type V = StoreView;

    closed spec fn view(&self) -> StoreView {
        StoreView {
            medications: medication_views(self.medications@),
            reminders: reminder_views(self.reminders@),
        }
    }
}

impl StoreView {
    /// Row `i` of each table has id `i + 1`, stored medications hold no
    /// reminders, and every id fits in an `i64`.
    pub open spec fn wf(self) -> bool {
        &&& self.medications.len() <= i64::MAX
        &&& self.reminders.len() <= i64::MAX
        &&& forall|i: int|
            0 <= i < self.medications.len() ==> (#[trigger] self.medications[i]).id == Some(
                (i + 1) as i64,
            ) && self.medications[i].reminders.len() == 0
        &&& forall|i: int|
            0 <= i < self.reminders.len() ==> (#[trigger] self.reminders[i]).id == Some(
                (i + 1) as i64,
            )
    }

    /// The medication with this id exists and is not soft-deleted.
    pub open spec fn medication_is_live(self, id: i64) -> bool {
        1 <= id <= self.medications.len() && self.medications[id - 1].is_live()
    }

    /// The reminder with this id exists and is not soft-deleted.
    pub open spec fn reminder_is_live(self, id: i64) -> bool {
        1 <= id <= self.reminders.len() && self.reminders[id - 1].is_live()
    }

    pub open spec fn medication_row(self, id: i64) -> MedicationView {
        self.medications[id - 1]
    }

    pub open spec fn reminder_row(self, id: i64) -> ReminderView {
        self.reminders[id - 1]
    }

    pub open spec fn live_medications(self) -> Seq<MedicationView> {
        self.medications.filter(|m: MedicationView| m.is_live())
    }

    pub open spec fn live_reminders(self) -> Seq<ReminderView> {
        self.reminders.filter(|r: ReminderView| r.is_live())
    }

    /// Live reminders with `is_active` set, in storage order.
    pub open spec fn active_reminders(self) -> Seq<ReminderView> {
        self.reminders.filter(|r: ReminderView| r.is_live() && r.is_active)
    }

    /// Live reminders of one medication, active or not, in storage order.
    pub open spec fn reminders_of(self, medication_id: i64) -> Seq<ReminderView> {
        self.reminders.filter(|r: ReminderView| r.is_live() && r.medication_id == medication_id)
    }

    /// Live medications in id order, each with its live reminders.
    pub open spec fn all_medications(self) -> Seq<MedicationView> {
        attached(self.live_medications(), self.live_reminders())
    }

    /// The live medication with this id, with its live reminders.
    pub open spec fn medication_with_reminders(self, id: i64) -> MedicationView {
        MedicationView { reminders: self.reminders_of(id), ..self.medication_row(id) }
    }
}

/// The stored row for a medication created with id `id` at time `now`.
pub open spec fn new_medication_row(m: MedicationView, id: i64, now: Seq<char>) -> MedicationView {
    MedicationView {
        id: Some(id),
        name: m.name,
        dosage: m.dosage,
        description: m.description,
        created_at: now,
        updated_at: now,
        deleted_at: None,
        reminders: Seq::empty(),
    }
}

/// The stored row for a reminder created with id `id` at time `now`.
pub open spec fn new_reminder_row(r: ReminderView, id: i64, now: Seq<char>) -> ReminderView {
    ReminderView {
        id: Some(id),
        medication_id: r.medication_id,
        time: r.time,
        days: r.days,
        is_active: r.is_active,
        created_at: now,
        updated_at: now,
        deleted_at: None,
    }
}

/// A medication row after an update: every mutable field rewritten.
pub open spec fn edited_medication(
    row: MedicationView,
    m: MedicationView,
    now: Seq<char>,
) -> MedicationView {
    MedicationView {
        name: m.name,
        dosage: m.dosage,
        description: m.description,
        updated_at: now,
        ..row
    }
}

/// A reminder row after an update: every mutable field rewritten.
pub open spec fn edited_reminder(row: ReminderView, r: ReminderView, now: Seq<char>) -> ReminderView {
    ReminderView { time: r.time, days: r.days, is_active: r.is_active, updated_at: now, ..row }
}

pub open spec fn deleted_medication(row: MedicationView, now: Seq<char>) -> MedicationView {
    MedicationView { deleted_at: Some(now), updated_at: now, ..row }
}

pub open spec fn deleted_reminder(row: ReminderView, now: Seq<char>) -> ReminderView {
    ReminderView { deleted_at: Some(now), updated_at: now, ..row }
}

/// The reminder table after deleting medication `id`: its live reminders
/// soft-deleted, every other row as it was.
pub open spec fn cascaded(rems: Seq<ReminderView>, id: i64, now: Seq<char>) -> Seq<ReminderView> {
    Seq::new(
        rems.len(),
        |i: int|
            if rems[i].is_live() && rems[i].medication_id == id {
                deleted_reminder(rems[i], now)
            } else {
                rems[i]
            },
    )
}

/// The reminders that a query keeps: live ones, only active ones when
/// `only_active`, only those of one medication when `medication` names it.
pub open spec fn selected(r: ReminderView, only_active: bool, medication: Option<i64>) -> bool {
    &&& r.is_live()
    &&& only_active ==> r.is_active
    &&& medication matches Some(m) ==> r.medication_id == m
}

/// The store that `create_medication` leaves when it succeeds.
pub open spec fn after_create_medication(s: StoreView, m: MedicationView, now: Seq<char>) -> StoreView {
    StoreView {
        medications: s.medications.push(
            new_medication_row(m, (s.medications.len() + 1) as i64, now),
        ),
        reminders: s.reminders,
    }
}

/// The store that `delete_medication(id)` leaves.
pub open spec fn after_delete_medication(s: StoreView, id: i64, now: Seq<char>) -> StoreView {
    if s.medication_is_live(id) {
        StoreView {
            medications: s.medications.update(id - 1, deleted_medication(s.medication_row(id), now)),
            reminders: cascaded(s.reminders, id, now),
        }
    } else {
        s
    }
}

/// The store that `update_medication` leaves for a medication carrying id `id`.
pub open spec fn after_update_medication(
    s: StoreView,
    id: i64,
    m: MedicationView,
    now: Seq<char>,
) -> StoreView {
    if s.medication_is_live(id) {
        StoreView {
            medications: s.medications.update(
                id - 1,
                edited_medication(s.medication_row(id), m, now),
            ),
            reminders: s.reminders,
        }
    } else {
        s
    }
}

pub open spec fn is_validation_error<T>(r: Result<T, PillError>) -> bool {
    r matches Err(PillError::ValidationError(_))
}

pub open spec fn is_storage_error<T>(r: Result<T, PillError>) -> bool {
    r matches Err(PillError::StorageError(_))
}

fn validation_error(msg: &str) -> (e: PillError)
    ensures
        e matches PillError::ValidationError(_),
{
    PillError::ValidationError(String::from_str(msg))
}

fn storage_error(msg: &str) -> (e: PillError)
    ensures
        e matches PillError::StorageError(_),
{
    PillError::StorageError(String::from_str(msg))
}

/// The row `r` soft-deleted at `now`.
fn deleted_reminder_row(r: &Reminder, now: &str) -> (d: Reminder)
    ensures
        d@ == deleted_reminder(r@, now@),
{
    Reminder {
        id: r.id,
        medication_id: r.medication_id,
        time: r.time.clone(),
        days: r.days.clone(),
        is_active: r.is_active,
        created_at: r.created_at.clone(),
        updated_at: String::from_str(now),
        deleted_at: Some(String::from_str(now)),
    }
}

impl MemoryStore {
    pub open spec fn wf(&self) -> bool {
        self@.wf()
    }

    /// Two empty tables.
    pub fn new() -> (s: MemoryStore)
        ensures
            s.wf(),
            s@.medications.len() == 0,
            s@.reminders.len() == 0,
    {
        let s = MemoryStore { medications: Vec::new(), reminders: Vec::new() };
        assert(s@.medications =~= Seq::<MedicationView>::empty());
        assert(s@.reminders =~= Seq::<ReminderView>::empty());
        s
    }

    /// Index of the row with id `id`, if there is one.
    fn medication_index(&self, id: i64) -> (r: Option<usize>)
        requires
            self.wf(),
        ensures
            r is Some <==> 1 <= id <= self@.medications.len(),
            r is Some ==> r->0 == id - 1,
    {
        if 1 <= id && id as u64 <= self.medications.len() as u64 {
            Some((id - 1) as usize)
        } else {
            None
        }
    }

    fn reminder_index(&self, id: i64) -> (r: Option<usize>)
        requires
            self.wf(),
        ensures
            r is Some <==> 1 <= id <= self@.reminders.len(),
            r is Some ==> r->0 == id - 1,
    {
        if 1 <= id && id as u64 <= self.reminders.len() as u64 {
            Some((id - 1) as usize)
        } else {
            None
        }
    }

    /// Inserts a medication stamped `now` and returns its new id. The input
    /// must not carry an id yet; its timestamps, deletion mark and reminders
    /// are not stored.
    pub fn create_medication(&mut self, med: &Medication, now: &str) -> (r: Result<i64, PillError>)
        requires
            old(self).wf(),
        ensures
            final(self).wf(),
            med.id is Some ==> is_validation_error(r) && final(self)@ == old(self)@,
            med.id is None && old(self)@.medications.len() == i64::MAX ==> is_storage_error(r)
                && final(self)@ == old(self)@,
            med.id is None && old(self)@.medications.len() < i64::MAX ==> {
                &&& final(self)@ == after_create_medication(old(self)@, med@, now@)
                &&& r == Ok::<i64, PillError>((old(self)@.medications.len() + 1) as i64)
                &&& final(self)@.medications == old(self)@.medications.push(
                    new_medication_row(med@, r->Ok_0, now@),
                )
                &&& final(self)@.reminders == old(self)@.reminders
            },
    {
        if med.id.is_some() {
            return Err(validation_error("a new medication must not carry an id"));
        }
        if self.medications.len() as u64 >= i64::MAX as u64 {
            return Err(storage_error("the medications table is full"));
        }
        let id = (self.medications.len() as u64 + 1) as i64;
        let row = Medication {
            id: Some(id),
            name: med.name.clone(),
            dosage: med.dosage.clone(),
            description: med.description.clone(),
            created_at: String::from_str(now),
            updated_at: String::from_str(now),
            deleted_at: None,
            reminders: Vec::new(),
        };
        let ghost before = self.medications@;
        self.medications.push(row);
        proof {
            assert(row@.reminders =~= Seq::<ReminderView>::empty());
            assert(medication_views(self.medications@) =~= medication_views(before).push(row@));
        }
        Ok(id)
    }

    /// Inserts a reminder stamped `now` and returns its new id. The input must
    /// not carry an id, and its time and days must be well formed. Whether
    /// `medication_id` names a medication is not checked here, as a foreign
    /// key left unenforced is not.
    pub fn create_reminder(&mut self, rem: &Reminder, now: &str) -> (r: Result<i64, PillError>)
        requires
            old(self).wf(),
        ensures
            final(self).wf(),
            rem.id is Some || !valid_time(rem.time@) || !valid_days(rem.days@) ==> is_validation_error(r)
                && final(self)@ == old(self)@,
            rem.id is None && valid_time(rem.time@) && valid_days(rem.days@) && old(self)@.reminders.len()
                == i64::MAX ==> is_storage_error(r) && final(self)@ == old(self)@,
            rem.id is None && valid_time(rem.time@) && valid_days(rem.days@) && old(self)@.reminders.len()
                < i64::MAX ==> {
                &&& r == Ok::<i64, PillError>((old(self)@.reminders.len() + 1) as i64)
                &&& final(self)@.reminders == old(self)@.reminders.push(
                    new_reminder_row(rem@, r->Ok_0, now@),
                )
                &&& final(self)@.medications == old(self)@.medications
            },
    {
        if rem.id.is_some() {
            return Err(validation_error("a new reminder must not carry an id"));
        }
        if !is_valid_time(rem.time.as_str()) {
            return Err(validation_error("time must read HH:MM"));
        }
        if !is_valid_days(rem.days.as_str()) {
            return Err(validation_error("days must be Daily or weekdays joined by commas"));
        }
        if self.reminders.len() as u64 >= i64::MAX as u64 {
            return Err(storage_error("the reminders table is full"));
        }
        let id = (self.reminders.len() as u64 + 1) as i64;
        let row = Reminder {
            id: Some(id),
            medication_id: rem.medication_id,
            time: rem.time.clone(),
            days: rem.days.clone(),
            is_active: rem.is_active,
            created_at: String::from_str(now),
            updated_at: String::from_str(now),
            deleted_at: None,
        };
        let ghost before = self.reminders@;
        self.reminders.push(row);
        proof {
            assert(reminder_views(self.reminders@) =~= reminder_views(before).push(row@));
        }
        Ok(id)
    }

    /// Live reminders, restricted to active ones and to one medication when asked.
    fn select_reminders(&self, only_active: bool, medication: Option<i64>) -> (r: Vec<Reminder>)
        requires
            self.wf(),
        ensures
            reminder_views(r@) == self@.reminders.filter(
                |x: ReminderView| selected(x, only_active, medication),
            ),
    {
        let ghost rv = self@.reminders;
        let ghost p = |x: ReminderView| selected(x, only_active, medication);
        let mut out: Vec<Reminder> = Vec::new();
        let mut j: usize = 0;
        while j < self.reminders.len()
            invariant
                j <= self.reminders.len(),
                rv == self@.reminders,
                p == (|x: ReminderView| selected(x, only_active, medication)),
                reminder_views(out@) == rv.subrange(0, j as int).filter(p),
            decreases self.reminders.len() - j,
        {
            let r = &self.reminders[j];
            let keep = r.deleted_at.is_none() && (!only_active || r.is_active) && match medication {
                Some(m) => r.medication_id == m,
                None => true,
            };
            proof {
                lemma_filter_push(rv.subrange(0, j as int), rv[j as int], p);
                assert(rv.subrange(0, j + 1 as int) =~= rv.subrange(0, j as int).push(rv[j as int]));
                assert(keep == p(rv[j as int]));
            }
            if keep {
                let ghost before = out@;
                out.push(r.clone());
                assert(reminder_views(out@) =~= reminder_views(before).push(rv[j as int]));
            }
            j = j + 1;
        }
        assert(rv.subrange(0, self.reminders.len() as int) =~= rv);
        out
    }

    /// Live medications in id order, without reminders.
    fn live_medication_rows(&self) -> (r: Vec<Medication>)
        requires
            self.wf(),
        ensures
            medication_views(r@) == self@.live_medications(),
    {
        let ghost mv = self@.medications;
        let ghost p = |m: MedicationView| m.is_live();
        let mut out: Vec<Medication> = Vec::new();
        let mut j: usize = 0;
        while j < self.medications.len()
            invariant
                j <= self.medications.len(),
                mv == self@.medications,
                p == (|m: MedicationView| m.is_live()),
                medication_views(out@) == mv.subrange(0, j as int).filter(p),
            decreases self.medications.len() - j,
        {
            let m = &self.medications[j];
            proof {
                lemma_filter_push(mv.subrange(0, j as int), mv[j as int], p);
                assert(mv.subrange(0, j + 1 as int) =~= mv.subrange(0, j as int).push(mv[j as int]));
            }
            if m.deleted_at.is_none() {
                let ghost before = out@;
                out.push(m.clone());
                assert(medication_views(out@) =~= medication_views(before).push(mv[j as int]));
            }
            j = j + 1;
        }
        assert(mv.subrange(0, self.medications.len() as int) =~= mv);
        out
    }

    /// Every live medication in id order, each with its live reminders in
    /// storage order.
    pub fn get_all_medications(&self) -> (r: Vec<Medication>)
        requires
            self.wf(),
        ensures
            medication_views(r@) == self@.all_medications(),
    {
        let meds = self.live_medication_rows();
        let rems = self.select_reminders(false, None);
        proof {
            assert((|x: ReminderView| selected(x, false, None)) =~= (|r: ReminderView| r.is_live()));
        }
        attach_reminders(meds, rems).medications
    }

    /// Every live reminder with `is_active` set, of any medication.
    pub fn get_active_reminders(&self) -> (r: Vec<Reminder>)
        requires
            self.wf(),
        ensures
            reminder_views(r@) == self@.active_reminders(),
    {
        let r = self.select_reminders(true, None);
        proof {
            assert((|x: ReminderView| selected(x, true, None)) =~= (|r: ReminderView|
                r.is_live() && r.is_active));
        }
        r
    }

    /// Every live reminder of one medication, active or not.
    pub fn get_reminders_for_medication(&self, medication_id: i64) -> (r: Vec<Reminder>)
        requires
            self.wf(),
        ensures
            reminder_views(r@) == self@.reminders_of(medication_id),
    {
        let r = self.select_reminders(false, Some(medication_id));
        proof {
            assert((|x: ReminderView| selected(x, false, Some(medication_id))) =~= (|r: ReminderView|
                r.is_live() && r.medication_id == medication_id));
        }
        r
    }

    /// The medication with this id while it is live, with its live reminders.
    pub fn get_medication(&self, id: i64) -> (r: Option<Medication>)
        requires
            self.wf(),
        ensures
            r is Some <==> self@.medication_is_live(id),
            r is Some ==> r->0@ == self@.medication_with_reminders(id),
    {
        match self.medication_index(id) {
            Some(i) => {
                if self.medications[i].deleted_at.is_some() {
                    return None;
                }
                let mut m = self.medications[i].clone();
                let rems = self.get_reminders_for_medication(id);
                m.reminders = rems;
                Some(m)
            },
            None => None,
        }
    }

    /// Rewrites name, dosage and description of the live medication whose id
    /// `med` carries, and stamps `updated_at` with `now`. Answers whether such a
    /// medication existed; a missing or deleted one is left alone.
    pub fn update_medication(&mut self, med: &Medication, now: &str) -> (r: Result<bool, PillError>)
        requires
            old(self).wf(),
        ensures
            final(self).wf(),
            med.id is None ==> is_validation_error(r) && final(self)@ == old(self)@,
            med.id is Some ==> final(self)@ == after_update_medication(
                old(self)@,
                med.id->0,
                med@,
                now@,
            ),
            med.id is Some && old(self)@.medication_is_live(med.id->0) ==> {
                &&& r == Ok::<bool, PillError>(true)
                &&& final(self)@.medications == old(self)@.medications.update(
                    med.id->0 - 1,
                    edited_medication(old(self)@.medication_row(med.id->0), med@, now@),
                )
                &&& final(self)@.reminders == old(self)@.reminders
            },
            med.id is Some && !old(self)@.medication_is_live(med.id->0) ==> r == Ok::<
                bool,
                PillError,
            >(false) && final(self)@ == old(self)@,
    {
        let id = match med.id {
            Some(id) => id,
            None => {
                return Err(validation_error("updating a medication needs its id"));
            },
        };
        let i = match self.medication_index(id) {
            Some(i) => i,
            None => {
                return Ok(false);
            },
        };
        if self.medications[i].deleted_at.is_some() {
            return Ok(false);
        }
        let current = &self.medications[i];
        let row = Medication {
            id: current.id,
            name: med.name.clone(),
            dosage: med.dosage.clone(),
            description: med.description.clone(),
            created_at: current.created_at.clone(),
            updated_at: String::from_str(now),
            deleted_at: None,
            reminders: Vec::new(),
        };
        let ghost before = self.medications@;
        proof {
            assert(row@.reminders =~= before[i as int]@.reminders);
            assert(row@ == edited_medication(old(self)@.medication_row(med.id->0), med@, now@));
        }
        self.medications.set(i, row);
        assert(medication_views(self.medications@) =~= medication_views(before).update(
            i as int,
            row@,
        ));
        Ok(true)
    }

    /// Rewrites time, days and active flag of the live reminder whose id
    /// `rem` carries, and stamps `updated_at` with `now`. Answers whether such a
    /// reminder existed; a missing or deleted one is left alone.
    pub fn update_reminder(&mut self, rem: &Reminder, now: &str) -> (r: Result<bool, PillError>)
        requires
            old(self).wf(),
        ensures
            final(self).wf(),
            rem.id is None || !valid_time(rem.time@) || !valid_days(rem.days@) ==> is_validation_error(r)
                && final(self)@ == old(self)@,
            rem.id is Some && valid_time(rem.time@) && valid_days(rem.days@)
                && old(self)@.reminder_is_live(rem.id->0) ==> {
                &&& r == Ok::<bool, PillError>(true)
                &&& final(self)@.reminders == old(self)@.reminders.update(
                    rem.id->0 - 1,
                    edited_reminder(old(self)@.reminder_row(rem.id->0), rem@, now@),
                )
                &&& final(self)@.medications == old(self)@.medications
            },
            rem.id is Some && valid_time(rem.time@) && valid_days(rem.days@)
                && !old(self)@.reminder_is_live(rem.id->0) ==> r == Ok::<bool, PillError>(false)
                && final(self)@ == old(self)@,
    {
        let id = match rem.id {
            Some(id) => id,
            None => {
                return Err(validation_error("updating a reminder needs its id"));
            },
        };
        if !is_valid_time(rem.time.as_str()) {
            return Err(validation_error("time must read HH:MM"));
        }
        if !is_valid_days(rem.days.as_str()) {
            return Err(validation_error("days must be Daily or weekdays joined by commas"));
        }
        let i = match self.reminder_index(id) {
            Some(i) => i,
            None => {
                return Ok(false);
            },
        };
        if self.reminders[i].deleted_at.is_some() {
            return Ok(false);
        }
        let current = &self.reminders[i];
        let row = Reminder {
            id: current.id,
            medication_id: current.medication_id,
            time: rem.time.clone(),
            days: rem.days.clone(),
            is_active: rem.is_active,
            created_at: current.created_at.clone(),
            updated_at: String::from_str(now),
            deleted_at: None,
        };
        let ghost before = self.reminders@;
        self.reminders.set(i, row);
        assert(reminder_views(self.reminders@) =~= reminder_views(before).update(i as int, row@));
        Ok(true)
    }

    /// Soft-deletes the reminder with this id if it is live, stamping both
    /// `deleted_at` and `updated_at` with `now`. Answers whether it was live.
    pub fn delete_reminder(&mut self, id: i64, now: &str) -> (r: bool)
        requires
            old(self).wf(),
        ensures
            final(self).wf(),
            r == old(self)@.reminder_is_live(id),
            r ==> final(self)@.reminders == old(self)@.reminders.update(
                id - 1,
                deleted_reminder(old(self)@.reminder_row(id), now@),
            ) && final(self)@.medications == old(self)@.medications,
            !r ==> final(self)@ == old(self)@,
    {
        let i = match self.reminder_index(id) {
            Some(i) => i,
            None => {
                return false;
            },
        };
        if self.reminders[i].deleted_at.is_some() {
            return false;
        }
        let row = deleted_reminder_row(&self.reminders[i], now);
        let ghost before = self.reminders@;
        self.reminders.set(i, row);
        assert(reminder_views(self.reminders@) =~= reminder_views(before).update(i as int, row@));
        true
    }

    /// Soft-deletes the medication with this id if it is live, and with it
    /// every live reminder of that medication, active or not, all stamped
    /// `now`. Answers whether the medication was live; if not, nothing changes.
    pub fn delete_medication(&mut self, id: i64, now: &str) -> (r: bool)
        requires
            old(self).wf(),
        ensures
            final(self).wf(),
            r == old(self)@.medication_is_live(id),
            final(self)@ == after_delete_medication(old(self)@, id, now@),
            r ==> final(self)@.medications == old(self)@.medications.update(
                id - 1,
                deleted_medication(old(self)@.medication_row(id), now@),
            ) && final(self)@.reminders == cascaded(old(self)@.reminders, id, now@),
            !r ==> final(self)@ == old(self)@,
    {
        let i = match self.medication_index(id) {
            Some(i) => i,
            None => {
                return false;
            },
        };
        if self.medications[i].deleted_at.is_some() {
            return false;
        }
        let current = &self.medications[i];
        let row = Medication {
            id: current.id,
            name: current.name.clone(),
            dosage: current.dosage.clone(),
            description: current.description.clone(),
            created_at: current.created_at.clone(),
            updated_at: String::from_str(now),
            deleted_at: Some(String::from_str(now)),
            reminders: Vec::new(),
        };
        let ghost before = self.medications@;
        proof {
            assert(row@.reminders =~= before[i as int]@.reminders);
        }
        self.medications.set(i, row);
        assert(medication_views(self.medications@) =~= medication_views(before).update(
            i as int,
            row@,
        ));
        let ghost old_rems = self@.reminders;
        let ghost target = cascaded(old_rems, id, now@);
        let mut j: usize = 0;
        while j < self.reminders.len()
            invariant
                j <= self.reminders.len(),
                self.reminders@.len() == old_rems.len(),
                target == cascaded(old_rems, id, now@),
                forall|q: int| 0 <= q < j ==> (#[trigger] self.reminders@[q])@ == target[q],
                forall|q: int| j <= q < old_rems.len() ==> (#[trigger] self.reminders@[q])@ == old_rems[q],
                medication_views(self.medications@) == medication_views(before).update(i as int, row@),
            decreases self.reminders.len() - j,
        {
            let r = &self.reminders[j];
            if r.deleted_at.is_none() && r.medication_id == id {
                let del = deleted_reminder_row(r, now);
                self.reminders.set(j, del);
            }
            j = j + 1;
        }
        assert(self@.reminders =~= target);
        true
    }
}

} // verus!
