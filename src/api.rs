use vstd::prelude::*;

use crate::assemble::medication_views;
use crate::clock::current_timestamp;
use crate::connection::{
    config_kind, config_well_formed, sync_progress, sync_step_of, ConnectionConfig,
    ConnectionManager, ConnectionState, DbType, SyncStep,
};
use crate::error::PillError;
use crate::model::{reminder_views, Medication, MedicationView, Reminder, ReminderView};
use crate::store::{
    cascaded, deleted_medication, deleted_reminder, edited_medication, edited_reminder,
    is_storage_error, is_validation_error, new_medication_row, new_reminder_row, MemoryStore,
    StoreView,
};
use crate::validate::{valid_days, valid_time};

verus! {

/// Mathematical value of a [`PillMomApi`].
pub struct ApiView {
    pub connection: ConnectionState,
    pub store: Option<StoreView>,
}

impl ApiView {
    /// The in-process store exists exactly while the open backend is the
    /// in-memory one.
    pub open spec fn wf(self) -> bool {
        &&& (self.store is Some <==> self.connection == ConnectionState::Open(DbType::InMemory))
        &&& self.store matches Some(s) ==> s.wf()
    }
}

/// A medication as a caller describes it before it is stored.
pub open spec fn medication_draft(
    name: Seq<char>,
    dosage: Seq<char>,
    description: Seq<char>,
) -> MedicationView {
    MedicationView {
        id: None,
        name,
        dosage,
        description,
        created_at: Seq::empty(),
        updated_at: Seq::empty(),
        deleted_at: None,
        reminders: Seq::empty(),
    }
}

/// A reminder as a caller describes it before it is stored.
pub open spec fn reminder_draft(
    medication_id: i64,
    time: Seq<char>,
    days: Seq<char>,
    is_active: bool,
) -> ReminderView {
    ReminderView {
        id: None,
        medication_id,
        time,
        days,
        is_active,
        created_at: Seq::empty(),
        updated_at: Seq::empty(),
        deleted_at: None,
    }
}

/// Entry point of the persistence layer: the connection manager, and the
/// in-process store once the in-memory backend is open. Every write stamps
/// the current UTC time.
///
/// The SQL backends (local file, remote, embedded replica) are opened and
/// driven by the host with the statements and row codec of
/// [`crate::codec`]; for them the repository methods here answer
/// `NotInitialized`, as the in-process store was never opened.
pub struct PillMomApi {
    connection: ConnectionManager,
    store: Option<MemoryStore>,
}

impl View for PillMomApi {
    type V = ApiView;

    closed spec fn view(&self) -> ApiView {
        ApiView {
            connection: self.connection@,
            store: match self.store {
                Some(s) => Some(s@),
                None => None,
            },
        }
    }
}

impl PillMomApi {
    pub open spec fn wf(&self) -> bool {
        self@.wf()
    }

    /// An API with no backend chosen.
    pub fn new() -> (a: PillMomApi)
        ensures
            a.wf(),
            a@.connection == ConnectionState::Uninitialized,
    {
        PillMomApi { connection: ConnectionManager::new(), store: None }
    }

    /// The state of the connection.
    pub fn connection_state(&self) -> (s: ConnectionState)
        ensures
            s == self@.connection,
    {
        self.connection.state()
    }

    /// First half of opening a backend: see [`ConnectionManager::plan_init`].
    pub fn prepare_open(&self, config: &ConnectionConfig) -> (r: Result<DbType, PillError>)
        ensures
            self@.connection != ConnectionState::Uninitialized ==> r matches Err(
                PillError::AlreadyInitialized,
            ),
            self@.connection == ConnectionState::Uninitialized && !config_well_formed(*config) ==> r matches Err(
                PillError::ConnectionError(_),
            ),
            self@.connection == ConnectionState::Uninitialized && config_well_formed(*config) ==> r
                == Ok::<DbType, PillError>(config_kind(*config)),
    {
        self.connection.plan_init(config)
    }

    /// Second half of opening a backend of kind `kind`, given whether the
    /// host managed to open it. An in-memory backend gets a fresh, empty store.
    pub fn complete_open(&mut self, kind: DbType, opened: Result<(), String>) -> (r: Result<
        (),
        PillError,
    >)
        requires
            old(self).wf(),
        ensures
            final(self).wf(),
            old(self)@.connection != ConnectionState::Uninitialized ==> (r matches Err(
                PillError::AlreadyInitialized,
            )) && final(self)@ == old(self)@,
            old(self)@.connection == ConnectionState::Uninitialized && opened is Err ==> (r matches Err(
                PillError::ConnectionError(_),
            )) && final(self)@ == old(self)@,
            old(self)@.connection == ConnectionState::Uninitialized && opened is Ok ==> {
                &&& r is Ok
                &&& final(self)@.connection == ConnectionState::Open(kind)
                &&& kind == DbType::InMemory ==> (final(self)@.store matches Some(s) && s.medications.len()
                    == 0 && s.reminders.len() == 0)
            },
    {
        let r = self.connection.finish_init(kind, opened);
        if r.is_ok() && kind == DbType::InMemory {
            self.store = Some(MemoryStore::new());
        }
        r
    }

    /// Opens the in-memory backend: nothing outside the process is involved.
    pub fn open_in_memory(&mut self) -> (r: Result<(), PillError>)
        requires
            old(self).wf(),
        ensures
            final(self).wf(),
            old(self)@.connection != ConnectionState::Uninitialized ==> (r matches Err(
                PillError::AlreadyInitialized,
            )) && final(self)@ == old(self)@,
            old(self)@.connection == ConnectionState::Uninitialized ==> {
                &&& r is Ok
                &&& final(self)@.connection == ConnectionState::Open(DbType::InMemory)
                &&& (final(self)@.store matches Some(s) && s.medications.len() == 0
                    && s.reminders.len() == 0)
            },
    {
        let config = ConnectionConfig::InMemory;
        match self.prepare_open(&config) {
            Ok(kind) => self.complete_open(kind, Ok(())),
            Err(e) => Err(e),
        }
    }

    /// The open backend, or `NotInitialized`.
    pub fn backend(&self) -> (r: Result<DbType, PillError>)
        ensures
            self@.connection matches ConnectionState::Open(k) ==> r == Ok::<DbType, PillError>(k),
            !(self@.connection is Open) ==> r matches Err(PillError::NotInitialized),
    {
        self.connection.get()
    }

    /// First half of `sync_database`: see [`ConnectionManager::plan_sync`].
    /// For `Skip` the progress value is 0; for `RoundTrip` the host runs the
    /// exchange and hands its outcome to [`crate::connection::sync_progress`].
    pub fn plan_sync(&self) -> (r: Result<SyncStep, PillError>)
        ensures
            self@.connection matches ConnectionState::Open(k) ==> r == Ok::<SyncStep, PillError>(
                sync_step_of(k),
            ),
            !(self@.connection is Open) ==> r matches Err(PillError::NotInitialized),
    {
        self.connection.plan_sync()
    }

    /// Synchronises a backend that needs no round trip: 0 for an open
    /// in-memory, local or remote backend, `NotInitialized` without one. An
    /// embedded replica needs the host's round trip and answers with the
    /// result of `sync_progress` on `outcome`.
    pub fn sync_database(&self, outcome: Result<Option<u64>, String>) -> (r: Result<i64, PillError>)
        ensures
            !(self@.connection is Open) ==> r matches Err(PillError::NotInitialized),
            self@.connection matches ConnectionState::Open(k) && k != DbType::EmbeddedReplica ==> r
                == Ok::<i64, PillError>(0),
            self@.connection == ConnectionState::Open(DbType::EmbeddedReplica) ==> {
                &&& outcome is Err ==> (r matches Err(PillError::SyncError(_)))
                &&& outcome == Ok::<Option<u64>, String>(None) ==> r == Ok::<i64, PillError>(0)
                &&& outcome matches Ok(Some(f)) ==> r == Ok::<i64, PillError>(
                    if f <= i64::MAX {
                        f as i64
                    } else {
                        i64::MAX
                    },
                )
            },
    {
        match self.connection.plan_sync() {
            Err(e) => Err(e),
            Ok(SyncStep::Skip) => Ok(0),
            Ok(SyncStep::RoundTrip) => sync_progress(outcome),
        }
    }

    /// Releases the backend; the in-process store and its rows are dropped.
    /// Safe to repeat and safe before any open.
    pub fn close_database(&mut self)
        requires
            old(self).wf(),
        ensures
            final(self).wf(),
            old(self)@.connection matches ConnectionState::Open(k) ==> final(self)@.connection
                == ConnectionState::Closed(k),
            !(old(self)@.connection is Open) ==> final(self)@.connection == old(self)@.connection,
            final(self)@.store is None,
    {
        self.connection.close();
        self.store = None;
    }

    /// Stores a new medication and returns its id; both timestamps are the
    /// current time.
    pub fn create_medication(&mut self, name: String, dosage: String, description: String) -> (r:
        Result<i64, PillError>)
        requires
            old(self).wf(),
        ensures
            final(self).wf(),
            final(self)@.connection == old(self)@.connection,
            old(self)@.store is None ==> (r matches Err(PillError::NotInitialized)) && final(self)@
                == old(self)@,
            old(self)@.store matches Some(before) ==> {
                let after = final(self)@.store->0;
                &&& final(self)@.store is Some
                &&& before.medications.len() == i64::MAX ==> is_storage_error(r) && after == before
                &&& before.medications.len() < i64::MAX ==> {
                    &&& r == Ok::<i64, PillError>((before.medications.len() + 1) as i64)
                    &&& after.medications == before.medications.push(
                        new_medication_row(
                            medication_draft(name@, dosage@, description@),
                            r->Ok_0,
                            after.medications.last().created_at,
                        ),
                    )
                    &&& after.reminders == before.reminders
                }
            },
    {
        let med = Medication {
            id: None,
            name,
            dosage,
            description,
            created_at: String::new(),
            updated_at: String::new(),
            deleted_at: None,
            reminders: Vec::new(),
        };
        match &mut self.store {
            Some(store) => {
                let now = current_timestamp();
                store.create_medication(&med, now.as_str())
            },
            None => Err(PillError::NotInitialized),
        }
    }

    /// Stores a new reminder of medication `medication_id` and returns its
    /// id; both timestamps are the current time. `time` must read "HH:MM" and
    /// `days` must be "Daily" or weekdays joined by commas.
    pub fn create_reminder(
        &mut self,
        medication_id: i64,
        time: String,
        days: String,
        is_active: bool,
    ) -> (r: Result<i64, PillError>)
        requires
            old(self).wf(),
        ensures
            final(self).wf(),
            final(self)@.connection == old(self)@.connection,
            old(self)@.store is None ==> (r matches Err(PillError::NotInitialized)) && final(self)@
                == old(self)@,
            old(self)@.store matches Some(before) ==> {
                let after = final(self)@.store->0;
                &&& final(self)@.store is Some
                &&& !valid_time(time@) || !valid_days(days@) ==> is_validation_error(r) && after
                    == before
                &&& valid_time(time@) && valid_days(days@) && before.reminders.len() == i64::MAX
                    ==> is_storage_error(r) && after == before
                &&& valid_time(time@) && valid_days(days@) && before.reminders.len() < i64::MAX
                    ==> {
                    &&& r == Ok::<i64, PillError>((before.reminders.len() + 1) as i64)
                    &&& after.reminders == before.reminders.push(
                        new_reminder_row(
                            reminder_draft(medication_id, time@, days@, is_active),
                            r->Ok_0,
                            after.reminders.last().created_at,
                        ),
                    )
                    &&& after.medications == before.medications
                }
            },
    {
        let rem = Reminder {
            id: None,
            medication_id,
            time,
            days,
            is_active,
            created_at: String::new(),
            updated_at: String::new(),
            deleted_at: None,
        };
        match &mut self.store {
            Some(store) => {
                let now = current_timestamp();
                store.create_reminder(&rem, now.as_str())
            },
            None => Err(PillError::NotInitialized),
        }
    }

    /// Every live medication in id order, each with its live reminders.
    pub fn get_all_medications(&self) -> (r: Result<Vec<Medication>, PillError>)
        requires
            self.wf(),
        ensures
            self@.store is None ==> r matches Err(PillError::NotInitialized),
            self@.store matches Some(s) ==> r matches Ok(v) && medication_views(v@)
                == s.all_medications(),
    {
        match &self.store {
            Some(store) => Ok(store.get_all_medications()),
            None => Err(PillError::NotInitialized),
        }
    }

    /// The live medication with this id and its live reminders; `None` when
    /// it is missing or deleted.
    pub fn get_medication(&self, id: i64) -> (r: Result<Option<Medication>, PillError>)
        requires
            self.wf(),
        ensures
            self@.store is None ==> r matches Err(PillError::NotInitialized),
            self@.store matches Some(s) ==> r matches Ok(m) && (m is Some <==> s.medication_is_live(id))
                && (m matches Some(x) ==> x@ == s.medication_with_reminders(id)),
    {
        match &self.store {
            Some(store) => Ok(store.get_medication(id)),
            None => Err(PillError::NotInitialized),
        }
    }

    /// Every live, active reminder of every medication.
    pub fn get_active_reminders(&self) -> (r: Result<Vec<Reminder>, PillError>)
        requires
            self.wf(),
        ensures
            self@.store is None ==> r matches Err(PillError::NotInitialized),
            self@.store matches Some(s) ==> r matches Ok(v) && reminder_views(v@)
                == s.active_reminders(),
    {
        match &self.store {
            Some(store) => Ok(store.get_active_reminders()),
            None => Err(PillError::NotInitialized),
        }
    }

    /// Every live reminder of one medication, active or not.
    pub fn get_reminders_for_medication(&self, medication_id: i64) -> (r: Result<
        Vec<Reminder>,
        PillError,
    >)
        requires
            self.wf(),
        ensures
            self@.store is None ==> r matches Err(PillError::NotInitialized),
            self@.store matches Some(s) ==> r matches Ok(v) && reminder_views(v@) == s.reminders_of(
                medication_id,
            ),
    {
        match &self.store {
            Some(store) => Ok(store.get_reminders_for_medication(medication_id)),
            None => Err(PillError::NotInitialized),
        }
    }

    /// Rewrites every mutable field of the live medication `medication.id`
    /// and stamps `updated_at`; `Ok(false)` when it is missing or deleted.
    pub fn update_medication(&mut self, medication: Medication) -> (r: Result<bool, PillError>)
        requires
            old(self).wf(),
        ensures
            final(self).wf(),
            final(self)@.connection == old(self)@.connection,
            old(self)@.store is None ==> (r matches Err(PillError::NotInitialized)) && final(self)@
                == old(self)@,
            old(self)@.store matches Some(before) ==> {
                let after = final(self)@.store->0;
                let id = medication.id->0;
                &&& final(self)@.store is Some
                &&& medication.id is None ==> is_validation_error(r) && after == before
                &&& medication.id is Some && !before.medication_is_live(id) ==> r == Ok::<
                    bool,
                    PillError,
                >(false) && after == before
                &&& medication.id is Some && before.medication_is_live(id) ==> {
                    &&& r == Ok::<bool, PillError>(true)
                    &&& after.medications == before.medications.update(
                        id - 1,
                        edited_medication(
                            before.medication_row(id),
                            medication@,
                            after.medication_row(id).updated_at,
                        ),
                    )
                    &&& after.reminders == before.reminders
                }
            },
    {
        match &mut self.store {
            Some(store) => {
                let now = current_timestamp();
                store.update_medication(&medication, now.as_str())
            },
            None => Err(PillError::NotInitialized),
        }
    }

    /// Rewrites time, days and active flag of the live reminder
    /// `reminder.id` and stamps `updated_at`; `Ok(false)` when it is missing
    /// or deleted.
    pub fn update_reminder(&mut self, reminder: Reminder) -> (r: Result<bool, PillError>)
        requires
            old(self).wf(),
        ensures
            final(self).wf(),
            final(self)@.connection == old(self)@.connection,
            old(self)@.store is None ==> (r matches Err(PillError::NotInitialized)) && final(self)@
                == old(self)@,
            old(self)@.store matches Some(before) ==> {
                let after = final(self)@.store->0;
                let id = reminder.id->0;
                let well_formed = valid_time(reminder.time@) && valid_days(reminder.days@);
                &&& final(self)@.store is Some
                &&& reminder.id is None || !well_formed ==> is_validation_error(r) && after == before
                &&& reminder.id is Some && well_formed && !before.reminder_is_live(id) ==> r
                    == Ok::<bool, PillError>(false) && after == before
                &&& reminder.id is Some && well_formed && before.reminder_is_live(id) ==> {
                    &&& r == Ok::<bool, PillError>(true)
                    &&& after.reminders == before.reminders.update(
                        id - 1,
                        edited_reminder(
                            before.reminder_row(id),
                            reminder@,
                            after.reminder_row(id).updated_at,
                        ),
                    )
                    &&& after.medications == before.medications
                }
            },
    {
        match &mut self.store {
            Some(store) => {
                let now = current_timestamp();
                store.update_reminder(&reminder, now.as_str())
            },
            None => Err(PillError::NotInitialized),
        }
    }

    /// Soft-deletes the live medication `id` together with all its live
    /// reminders; `Ok(false)` when it is missing or already deleted.
    pub fn delete_medication(&mut self, id: i64) -> (r: Result<bool, PillError>)
        requires
            old(self).wf(),
        ensures
            final(self).wf(),
            final(self)@.connection == old(self)@.connection,
            old(self)@.store is None ==> (r matches Err(PillError::NotInitialized)) && final(self)@
                == old(self)@,
            old(self)@.store matches Some(before) ==> {
                let after = final(self)@.store->0;
                let now = after.medication_row(id).deleted_at->0;
                &&& final(self)@.store is Some
                &&& r == Ok::<bool, PillError>(before.medication_is_live(id))
                &&& !before.medication_is_live(id) ==> after == before
                &&& before.medication_is_live(id) ==> {
                    &&& after.medications == before.medications.update(
                        id - 1,
                        deleted_medication(before.medication_row(id), now),
                    )
                    &&& after.reminders == cascaded(before.reminders, id, now)
                }
            },
    {
        match &mut self.store {
            Some(store) => {
                let now = current_timestamp();
                Ok(store.delete_medication(id, now.as_str()))
            },
            None => Err(PillError::NotInitialized),
        }
    }

    /// Soft-deletes the live reminder `id`; `Ok(false)` when it is missing or
    /// already deleted.
    pub fn delete_reminder(&mut self, id: i64) -> (r: Result<bool, PillError>)
        requires
            old(self).wf(),
        ensures
            final(self).wf(),
            final(self)@.connection == old(self)@.connection,
            old(self)@.store is None ==> (r matches Err(PillError::NotInitialized)) && final(self)@
                == old(self)@,
            old(self)@.store matches Some(before) ==> {
                let after = final(self)@.store->0;
                let now = after.reminder_row(id).deleted_at->0;
                &&& final(self)@.store is Some
                &&& r == Ok::<bool, PillError>(before.reminder_is_live(id))
                &&& !before.reminder_is_live(id) ==> after == before
                &&& before.reminder_is_live(id) ==> {
                    &&& after.reminders == before.reminders.update(
                        id - 1,
                        deleted_reminder(before.reminder_row(id), now),
                    )
                    &&& after.medications == before.medications
                }
            },
    {
        match &mut self.store {
            Some(store) => {
                let now = current_timestamp();
                Ok(store.delete_reminder(id, now.as_str()))
            },
            None => Err(PillError::NotInitialized),
        }
    }
}

/// A fresh API with no backend chosen.
pub fn create_api() -> (a: PillMomApi)
    ensures
        a.wf(),
        a@.connection == ConnectionState::Uninitialized,
{
    PillMomApi::new()
}

} // verus!
