use pillmom::assemble::attach_reminders;
use pillmom::model::{Medication, Reminder};
use pillmom::validate::{is_valid_days, is_valid_time};

#[test]
fn times() {
    assert!(is_valid_time("00:00"));
    assert!(is_valid_time("23:59"));
    assert!(is_valid_time("08:05"));
    assert!(!is_valid_time("24:00"));
    assert!(!is_valid_time("12:60"));
    assert!(!is_valid_time("8:05"));
    assert!(!is_valid_time("08-05"));
    assert!(!is_valid_time(""));
    assert!(!is_valid_time("08:05 "));
}

#[test]
fn days() {
    assert!(is_valid_days("Daily"));
    assert!(is_valid_days("Mon"));
    assert!(is_valid_days("Mon,Wed,Fri"));
    assert!(is_valid_days("Sun,Sat,Thu,Tue"));
    assert!(!is_valid_days(""));
    assert!(!is_valid_days("daily"));
    assert!(!is_valid_days("Mon,"));
    assert!(!is_valid_days("Mon, Wed"));
    assert!(!is_valid_days("Monday"));
    assert!(!is_valid_days("Mon,Xyz"));
}

fn med(id: i64) -> Medication {
    Medication {
        id: Some(id),
        name: format!("m{}", id),
        dosage: String::new(),
        description: String::new(),
        created_at: String::new(),
        updated_at: String::new(),
        deleted_at: None,
        reminders: Vec::new(),
    }
}

fn rem(id: i64, medication_id: i64) -> Reminder {
    Reminder {
        id: Some(id),
        medication_id,
        time: "08:00".to_string(),
        days: "Daily".to_string(),
        is_active: true,
        created_at: String::new(),
        updated_at: String::new(),
        deleted_at: None,
    }
}

#[test]
fn attaches_in_order_and_reports_orphans() {
    let out = attach_reminders(vec![med(1), med(2)], vec![rem(10, 2), rem(11, 1), rem(12, 3), rem(13, 2)]);
    assert_eq!(out.medications.len(), 2);
    let first: Vec<Option<i64>> = out.medications[0].reminders.iter().map(|r| r.id).collect();
    let second: Vec<Option<i64>> = out.medications[1].reminders.iter().map(|r| r.id).collect();
    assert_eq!(first, vec![Some(11)]);
    assert_eq!(second, vec![Some(10), Some(13)]);
    assert_eq!(out.orphans.len(), 1);
    assert_eq!(out.orphans[0].id, Some(12));
}

#[test]
fn duplicate_ids_attach_to_the_first() {
    let out = attach_reminders(vec![med(5), med(5)], vec![rem(1, 5)]);
    assert_eq!(out.medications[0].reminders.len(), 1);
    assert!(out.medications[1].reminders.is_empty());
}

#[test]
fn nothing_to_attach() {
    let out = attach_reminders(Vec::new(), vec![rem(1, 1)]);
    assert!(out.medications.is_empty());
    assert_eq!(out.orphans.len(), 1);
}
