use vstd::prelude::*;

use crate::clock::current_timestamp;

verus! {

/// Mathematical value of a [`Reminder`].
pub struct ReminderView {
    pub id: Option<i64>,
    pub medication_id: i64,
    pub time: Seq<char>,
    pub days: Seq<char>,
    pub is_active: bool,
    pub created_at: Seq<char>,
    pub updated_at: Seq<char>,
    pub deleted_at: Option<Seq<char>>,
}

/// Mathematical value of a [`Medication`].
pub struct MedicationView {
    pub id: Option<i64>,
    pub name: Seq<char>,
    pub dosage: Seq<char>,
    pub description: Seq<char>,
    pub created_at: Seq<char>,
    pub updated_at: Seq<char>,
    pub deleted_at: Option<Seq<char>>,
    pub reminders: Seq<ReminderView>,
}

/// A scheduled intake of one medication.
#[derive(Debug)]
pub struct Reminder {
    pub id: Option<i64>,
    pub medication_id: i64,
    /// "HH:MM", 24-hour clock.
    pub time: String,
    /// "Daily", or weekday abbreviations separated by commas ("Mon,Wed,Fri").
    pub days: String,
    pub is_active: bool,
    pub created_at: String,
    pub updated_at: String,
    pub deleted_at: Option<String>,
}

/// A medication, with the live reminders attached by the reads that join them.
#[derive(Debug)]
pub struct Medication {
    pub id: Option<i64>,
    pub name: String,
    pub dosage: String,
    pub description: String,
    pub created_at: String,
    pub updated_at: String,
    pub deleted_at: Option<String>,
    pub reminders: Vec<Reminder>,
}

pub open spec fn opt_view(s: Option<String>) -> Option<Seq<char>> {
    match s {
        Some(t) => Some(t@),
        None => None,
    }
}

impl View for Reminder {
    type V = ReminderView;

    open spec fn view(&self) -> ReminderView {
        ReminderView {
            id: self.id,
            medication_id: self.medication_id,
            time: self.time@,
            days: self.days@,
            is_active: self.is_active,
            created_at: self.created_at@,
            updated_at: self.updated_at@,
            deleted_at: opt_view(self.deleted_at),
        }
    }
}

impl View for Medication {
    type V = MedicationView;

    open spec fn view(&self) -> MedicationView {
        MedicationView {
            id: self.id,
            name: self.name@,
            dosage: self.dosage@,
            description: self.description@,
            created_at: self.created_at@,
            updated_at: self.updated_at@,
            deleted_at: opt_view(self.deleted_at),
            reminders: reminder_views(self.reminders@),
        }
    }
}

impl ReminderView {
    /// A row is live while it carries no deletion mark.
    pub open spec fn is_live(self) -> bool {
        self.deleted_at is None
    }
}

impl MedicationView {
    pub open spec fn is_live(self) -> bool {
        self.deleted_at is None
    }
}

fn copy_opt_string(s: &Option<String>) -> (r: Option<String>)
    ensures
        opt_view(r) == opt_view(*s),
{
    match s {
        Some(t) => Some(t.clone()),
        None => None,
    }
}

impl Clone for Reminder {
    fn clone(&self) -> (r: Reminder)
        ensures
            r@ == self@,
    {
        Reminder {
            id: self.id,
            medication_id: self.medication_id,
            time: self.time.clone(),
            days: self.days.clone(),
            is_active: self.is_active,
            created_at: self.created_at.clone(),
            updated_at: self.updated_at.clone(),
            deleted_at: copy_opt_string(&self.deleted_at),
        }
    }
}

pub open spec fn reminder_views(s: Seq<Reminder>) -> Seq<ReminderView> {
    s.map_values(|x: Reminder| x@)
}

fn copy_reminders(v: &Vec<Reminder>) -> (r: Vec<Reminder>)
    ensures
        reminder_views(r@) == reminder_views(v@),
{
    let mut r: Vec<Reminder> = Vec::new();
    let mut i: usize = 0;
    while i < v.len()
        invariant
            i <= v.len(),
            r@.len() == i,
            forall|j: int| 0 <= j < i ==> (#[trigger] r@[j])@ == v@[j]@,
        decreases v.len() - i,
    {
        r.push(v[i].clone());
        i = i + 1;
    }
    assert(reminder_views(r@) =~= reminder_views(v@));
    r
}

impl Clone for Medication {
    fn clone(&self) -> (r: Medication)
        ensures
            r@ == self@,
    {
        Medication {
            id: self.id,
            name: self.name.clone(),
            dosage: self.dosage.clone(),
            description: self.description.clone(),
            created_at: self.created_at.clone(),
            updated_at: self.updated_at.clone(),
            deleted_at: copy_opt_string(&self.deleted_at),
            reminders: copy_reminders(&self.reminders),
        }
    }
}

impl Default for Medication {
    /// A medication not yet stored: no id, empty texts, both timestamps the
    /// current time, no deletion mark and no reminders.
    fn default() -> (r: Medication)
        ensures
            r.id is None,
            r.name@ == Seq::<char>::empty(),
            r.dosage@ == Seq::<char>::empty(),
            r.description@ == Seq::<char>::empty(),
            r.created_at@ == r.updated_at@,
            r.deleted_at is None,
            r.reminders@.len() == 0,
    {
        let now = current_timestamp();
        Medication {
            id: None,
            name: String::new(),
            dosage: String::new(),
            description: String::new(),
            created_at: now.clone(),
            updated_at: now,
            deleted_at: None,
            reminders: Vec::new(),
        }
    }
}

impl Default for Reminder {
    /// A reminder not yet stored: no id, medication 0, empty time and days,
    /// active, both timestamps the current time, no deletion mark.
    fn default() -> (r: Reminder)
        ensures
            r.id is None,
            r.medication_id == 0,
            r.time@ == Seq::<char>::empty(),
            r.days@ == Seq::<char>::empty(),
            r.is_active,
            r.created_at@ == r.updated_at@,
            r.deleted_at is None,
    {
        let now = current_timestamp();
        Reminder {
            id: None,
            medication_id: 0,
            time: String::new(),
            days: String::new(),
            is_active: true,
            created_at: now.clone(),
            updated_at: now,
            deleted_at: None,
        }
    }
}

} // verus!
