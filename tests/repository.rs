use pillmom::api::PillMomApi;
use pillmom::connection::{ConnectionState, DbType};
use pillmom::error::PillError;
use pillmom::model::{Medication, Reminder};
use pillmom::store::MemoryStore;

fn open_api() -> PillMomApi {
    let mut api = PillMomApi::new();
    api.open_in_memory().unwrap();
    api
}

fn draft_medication(name: &str, dosage: &str, description: &str) -> Medication {
    Medication {
        id: None,
        name: name.to_string(),
        dosage: dosage.to_string(),
        description: description.to_string(),
        created_at: String::new(),
        updated_at: String::new(),
        deleted_at: None,
        reminders: Vec::new(),
    }
}

fn draft_reminder(medication_id: i64, time: &str, days: &str, is_active: bool) -> Reminder {
    Reminder {
        id: None,
        medication_id,
        time: time.to_string(),
        days: days.to_string(),
        is_active,
        created_at: String::new(),
        updated_at: String::new(),
        deleted_at: None,
    }
}

#[test]
fn create_then_read_back_aspirin() {
    let mut api = open_api();
    let id = api
        .create_medication("Aspirin".to_string(), "100mg".to_string(), "pain relief".to_string())
        .unwrap();
    assert!(id > 0);
    let med = api.get_medication(id).unwrap().unwrap();
    assert_eq!(med.id, Some(id));
    assert_eq!(med.name, "Aspirin");
    assert_eq!(med.dosage, "100mg");
    assert_eq!(med.description, "pain relief");
    assert_eq!(med.created_at, med.updated_at);
    assert!(!med.created_at.is_empty());
    assert!(med.deleted_at.is_none());
    let all = api.get_all_medications().unwrap();
    assert_eq!(all.len(), 1);
    assert_eq!(all[0].name, "Aspirin");
}

#[test]
fn ids_count_up_from_one() {
    let mut api = open_api();
    let a = api.create_medication("A".to_string(), String::new(), String::new()).unwrap();
    let b = api.create_medication("B".to_string(), String::new(), String::new()).unwrap();
    assert_eq!(a, 1);
    assert_eq!(b, 2);
    let r = api.create_reminder(a, "08:00".to_string(), "Daily".to_string(), true).unwrap();
    assert_eq!(r, 1);
}

#[test]
fn deleted_medication_is_hidden() {
    let mut api = open_api();
    let keep = api.create_medication("Keep".to_string(), "1".to_string(), String::new()).unwrap();
    let gone = api.create_medication("Gone".to_string(), "2".to_string(), String::new()).unwrap();
    assert!(api.delete_medication(gone).unwrap());
    let all = api.get_all_medications().unwrap();
    assert_eq!(all.len(), 1);
    assert_eq!(all[0].id, Some(keep));
    assert!(all.iter().all(|m| m.id != Some(gone)));
    assert!(api.get_medication(gone).unwrap().is_none());
}

#[test]
fn delete_twice_answers_false() {
    let mut api = open_api();
    let id = api.create_medication("X".to_string(), String::new(), String::new()).unwrap();
    assert!(api.delete_medication(id).unwrap());
    assert!(!api.delete_medication(id).unwrap());
    assert!(!api.delete_medication(99).unwrap());
}

#[test]
fn delete_medication_cascades_to_reminders() {
    let mut api = open_api();
    let id = api.create_medication("Ibuprofen".to_string(), "200mg".to_string(), String::new()).unwrap();
    api.create_reminder(id, "08:00".to_string(), "Daily".to_string(), true).unwrap();
    api.create_reminder(id, "20:00".to_string(), "Mon,Wed,Fri".to_string(), true).unwrap();
    assert_eq!(api.get_active_reminders().unwrap().len(), 2);
    assert!(api.delete_medication(id).unwrap());
    assert!(api.get_active_reminders().unwrap().is_empty());
    assert!(api.get_reminders_for_medication(id).unwrap().is_empty());
}

#[test]
fn cascade_spares_other_medications() {
    let mut api = open_api();
    let a = api.create_medication("A".to_string(), String::new(), String::new()).unwrap();
    let b = api.create_medication("B".to_string(), String::new(), String::new()).unwrap();
    api.create_reminder(a, "08:00".to_string(), "Daily".to_string(), true).unwrap();
    let kept = api.create_reminder(b, "09:30".to_string(), "Tue".to_string(), true).unwrap();
    api.delete_medication(a).unwrap();
    let active = api.get_active_reminders().unwrap();
    assert_eq!(active.len(), 1);
    assert_eq!(active[0].id, Some(kept));
}

#[test]
fn active_filter_across_medications() {
    let mut api = open_api();
    let a = api.create_medication("A".to_string(), String::new(), String::new()).unwrap();
    let b = api.create_medication("B".to_string(), String::new(), String::new()).unwrap();
    let r1 = api.create_reminder(a, "08:00".to_string(), "Daily".to_string(), true).unwrap();
    let _r2 = api.create_reminder(a, "12:00".to_string(), "Daily".to_string(), false).unwrap();
    let r3 = api.create_reminder(b, "18:00".to_string(), "Sat,Sun".to_string(), true).unwrap();
    let r4 = api.create_reminder(b, "22:00".to_string(), "Daily".to_string(), true).unwrap();
    let _r5 = api.create_reminder(b, "23:00".to_string(), "Daily".to_string(), false).unwrap();
    assert!(api.delete_reminder(r4).unwrap());
    let ids: Vec<Option<i64>> = api.get_active_reminders().unwrap().iter().map(|r| r.id).collect();
    assert_eq!(ids, vec![Some(r1), Some(r3)]);
}

#[test]
fn reminders_for_medication_include_inactive() {
    let mut api = open_api();
    let a = api.create_medication("A".to_string(), String::new(), String::new()).unwrap();
    let b = api.create_medication("B".to_string(), String::new(), String::new()).unwrap();
    api.create_reminder(a, "08:00".to_string(), "Daily".to_string(), true).unwrap();
    api.create_reminder(a, "09:00".to_string(), "Daily".to_string(), false).unwrap();
    api.create_reminder(b, "10:00".to_string(), "Daily".to_string(), true).unwrap();
    let of_a = api.get_reminders_for_medication(a).unwrap();
    assert_eq!(of_a.len(), 2);
    assert!(of_a.iter().all(|r| r.medication_id == a));
    assert!(!of_a[1].is_active);
}

#[test]
fn all_medications_carry_their_live_reminders() {
    let mut api = open_api();
    let a = api.create_medication("A".to_string(), String::new(), String::new()).unwrap();
    let b = api.create_medication("B".to_string(), String::new(), String::new()).unwrap();
    let ra = api.create_reminder(a, "08:00".to_string(), "Daily".to_string(), false).unwrap();
    let rb1 = api.create_reminder(b, "09:00".to_string(), "Daily".to_string(), true).unwrap();
    let rb2 = api.create_reminder(b, "10:00".to_string(), "Daily".to_string(), true).unwrap();
    api.delete_reminder(rb1).unwrap();
    let all = api.get_all_medications().unwrap();
    assert_eq!(all.len(), 2);
    assert_eq!(all[0].reminders.len(), 1);
    assert_eq!(all[0].reminders[0].id, Some(ra));
    assert_eq!(all[1].reminders.len(), 1);
    assert_eq!(all[1].reminders[0].id, Some(rb2));
}

#[test]
fn update_missing_reminder_returns_false() {
    let mut api = open_api();
    let mut rem = draft_reminder(1, "08:00", "Daily", true);
    rem.id = Some(42);
    assert_eq!(api.update_reminder(rem).unwrap(), false);
}

#[test]
fn update_deleted_reminder_returns_false() {
    let mut api = open_api();
    let m = api.create_medication("A".to_string(), String::new(), String::new()).unwrap();
    let id = api.create_reminder(m, "08:00".to_string(), "Daily".to_string(), true).unwrap();
    assert!(api.delete_reminder(id).unwrap());
    let mut rem = draft_reminder(m, "09:00", "Daily", true);
    rem.id = Some(id);
    assert_eq!(api.update_reminder(rem).unwrap(), false);
}

#[test]
fn update_reminder_rewrites_fields() {
    let mut api = open_api();
    let m = api.create_medication("A".to_string(), String::new(), String::new()).unwrap();
    let id = api.create_reminder(m, "08:00".to_string(), "Daily".to_string(), true).unwrap();
    let mut rem = draft_reminder(m, "21:45", "Mon,Thu", false);
    rem.id = Some(id);
    assert!(api.update_reminder(rem).unwrap());
    let all = api.get_reminders_for_medication(m).unwrap();
    assert_eq!(all[0].time, "21:45");
    assert_eq!(all[0].days, "Mon,Thu");
    assert!(!all[0].is_active);
    assert!(api.get_active_reminders().unwrap().is_empty());
}

#[test]
fn update_without_id_is_a_validation_error() {
    let mut api = open_api();
    let med = draft_medication("A", "", "");
    assert!(matches!(api.update_medication(med), Err(PillError::ValidationError(_))));
    let rem = draft_reminder(1, "08:00", "Daily", true);
    assert!(matches!(api.update_reminder(rem), Err(PillError::ValidationError(_))));
}

#[test]
fn malformed_reminder_is_rejected() {
    let mut api = open_api();
    let m = api.create_medication("A".to_string(), String::new(), String::new()).unwrap();
    let bad_time = api.create_reminder(m, "25:00".to_string(), "Daily".to_string(), true);
    assert!(matches!(bad_time, Err(PillError::ValidationError(_))));
    let bad_days = api.create_reminder(m, "08:00".to_string(), "Monday".to_string(), true);
    assert!(matches!(bad_days, Err(PillError::ValidationError(_))));
    assert!(api.get_reminders_for_medication(m).unwrap().is_empty());
}

#[test]
fn update_keeps_created_at_and_advances_updated_at() {
    let mut api = open_api();
    let id = api.create_medication("A".to_string(), "1".to_string(), String::new()).unwrap();
    let before = api.get_medication(id).unwrap().unwrap();
    let mut changed = before.clone();
    changed.name = "B".to_string();
    changed.dosage = "2".to_string();
    assert!(api.update_medication(changed).unwrap());
    let after = api.get_medication(id).unwrap().unwrap();
    assert_eq!(after.name, "B");
    assert_eq!(after.dosage, "2");
    assert_eq!(after.created_at, before.created_at);
    assert!(after.updated_at >= before.updated_at);
}

#[test]
fn update_missing_medication_returns_false() {
    let mut api = open_api();
    let mut med = draft_medication("A", "", "");
    med.id = Some(7);
    assert_eq!(api.update_medication(med).unwrap(), false);
}

#[test]
fn calls_before_init_fail_with_not_initialized() {
    let mut api = PillMomApi::new();
    assert!(matches!(api.get_all_medications(), Err(PillError::NotInitialized)));
    assert!(matches!(api.get_active_reminders(), Err(PillError::NotInitialized)));
    assert!(matches!(
        api.create_medication("A".to_string(), String::new(), String::new()),
        Err(PillError::NotInitialized)
    ));
    assert!(matches!(api.delete_reminder(1), Err(PillError::NotInitialized)));
    assert!(matches!(api.backend(), Err(PillError::NotInitialized)));
}

#[test]
fn second_init_is_refused_and_first_stays_usable() {
    let mut api = open_api();
    let id = api.create_medication("A".to_string(), String::new(), String::new()).unwrap();
    assert!(matches!(api.open_in_memory(), Err(PillError::AlreadyInitialized)));
    assert!(matches!(api.backend(), Ok(DbType::InMemory)));
    assert!(api.get_medication(id).unwrap().is_some());
}

#[test]
fn close_is_safe_to_repeat() {
    let mut api = PillMomApi::new();
    api.close_database();
    assert_eq!(api.connection_state(), ConnectionState::Uninitialized);
    api.open_in_memory().unwrap();
    api.close_database();
    api.close_database();
    assert_eq!(api.connection_state(), ConnectionState::Closed(DbType::InMemory));
    assert!(matches!(api.get_all_medications(), Err(PillError::NotInitialized)));
    assert!(matches!(api.open_in_memory(), Err(PillError::AlreadyInitialized)));
}

#[test]
fn sync_of_in_memory_backend_is_zero() {
    let api = open_api();
    assert_eq!(api.sync_database(Err("unused".to_string())).unwrap(), 0);
    let fresh = PillMomApi::new();
    assert!(matches!(fresh.sync_database(Ok(None)), Err(PillError::NotInitialized)));
}

#[test]
fn store_stamps_given_time() {
    let mut store = MemoryStore::new();
    let med = draft_medication("A", "1mg", "d");
    let id = store.create_medication(&med, "2024-01-01T00:00:00+00:00").unwrap();
    let rem = draft_reminder(id, "07:15", "Daily", true);
    let rid = store.create_reminder(&rem, "2024-01-01T00:00:01+00:00").unwrap();
    let mut edit = store.get_medication(id).unwrap();
    edit.description = "e".to_string();
    assert!(store.update_medication(&edit, "2024-01-02T00:00:00+00:00").unwrap());
    let read = store.get_medication(id).unwrap();
    assert_eq!(read.created_at, "2024-01-01T00:00:00+00:00");
    assert_eq!(read.updated_at, "2024-01-02T00:00:00+00:00");
    assert_eq!(read.reminders.len(), 1);
    assert_eq!(read.reminders[0].id, Some(rid));
    assert!(store.delete_medication(id, "2024-01-03T00:00:00+00:00"));
    assert!(store.get_medication(id).is_none());
    assert!(store.get_all_medications().is_empty());
    assert!(!store.delete_reminder(rid, "2024-01-04T00:00:00+00:00"));
}

#[test]
fn create_with_id_is_a_validation_error() {
    let mut store = MemoryStore::new();
    let mut med = draft_medication("A", "", "");
    med.id = Some(3);
    assert!(matches!(store.create_medication(&med, "t"), Err(PillError::ValidationError(_))));
    let mut rem = draft_reminder(1, "08:00", "Daily", true);
    rem.id = Some(3);
    assert!(matches!(store.create_reminder(&rem, "t"), Err(PillError::ValidationError(_))));
}

#[test]
fn defaults_are_blank_drafts() {
    let m = Medication::default();
    assert!(m.id.is_none());
    assert!(m.name.is_empty());
    assert_eq!(m.created_at, m.updated_at);
    assert!(!m.created_at.is_empty());
    let r = Reminder::default();
    assert!(r.is_active);
    assert_eq!(r.medication_id, 0);
    assert_eq!(r.created_at, r.updated_at);
}
