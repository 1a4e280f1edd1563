use pillmom::codec::{
    inserted_id, medication_from_row, medication_insert_params, medication_update_params,
    reminder_from_row, reminder_insert_params, reminder_update_params, soft_delete_params,
    SqlValue,
};
use pillmom::error::PillError;
use pillmom::model::{Medication, Reminder};

fn text(s: &str) -> SqlValue {
    SqlValue::Text(s.to_string())
}

fn as_text(v: &SqlValue) -> &str {
    match v {
        SqlValue::Text(t) => t.as_str(),
        _ => panic!("not text: {:?}", v),
    }
}

fn as_int(v: &SqlValue) -> i64 {
    match v {
        SqlValue::Integer(i) => *i,
        _ => panic!("not an integer: {:?}", v),
    }
}

#[test]
fn decodes_medication_row() {
    let row = vec![
        SqlValue::Integer(4),
        text("Aspirin"),
        text("100mg"),
        text("pain relief"),
        text("2024-05-01T10:00:00+00:00"),
        text("2024-05-02T10:00:00+00:00"),
        SqlValue::Null,
    ];
    let m = medication_from_row(&row).unwrap();
    assert_eq!(m.id, Some(4));
    assert_eq!(m.name, "Aspirin");
    assert_eq!(m.dosage, "100mg");
    assert_eq!(m.description, "pain relief");
    assert_eq!(m.created_at, "2024-05-01T10:00:00+00:00");
    assert_eq!(m.updated_at, "2024-05-02T10:00:00+00:00");
    assert!(m.deleted_at.is_none());
    assert!(m.reminders.is_empty());
}

#[test]
fn decodes_deleted_at_text() {
    let row = vec![
        SqlValue::Integer(1),
        text("A"),
        text(""),
        text(""),
        text("c"),
        text("u"),
        text("d"),
    ];
    assert_eq!(medication_from_row(&row).unwrap().deleted_at.as_deref(), Some("d"));
}

#[test]
fn rejects_misshapen_medication_row() {
    let short = vec![SqlValue::Integer(1), text("A")];
    assert!(matches!(medication_from_row(&short), Err(PillError::StorageError(_))));
    let null_name = vec![
        SqlValue::Integer(1),
        SqlValue::Null,
        text(""),
        text(""),
        text("c"),
        text("u"),
        SqlValue::Null,
    ];
    assert!(matches!(medication_from_row(&null_name), Err(PillError::StorageError(_))));
}

#[test]
fn decodes_reminder_row_with_flag() {
    let row = vec![
        SqlValue::Integer(9),
        SqlValue::Integer(4),
        text("08:30"),
        text("Mon,Fri"),
        SqlValue::Integer(0),
        text("c"),
        text("u"),
        SqlValue::Null,
    ];
    let r = reminder_from_row(&row).unwrap();
    assert_eq!(r.id, Some(9));
    assert_eq!(r.medication_id, 4);
    assert_eq!(r.time, "08:30");
    assert_eq!(r.days, "Mon,Fri");
    assert!(!r.is_active);
    let mut active = row;
    active[4] = SqlValue::Integer(7);
    assert!(reminder_from_row(&active).unwrap().is_active);
}

#[test]
fn rejects_misshapen_reminder_row() {
    let row = vec![
        SqlValue::Integer(9),
        text("4"),
        text("08:30"),
        text("Daily"),
        SqlValue::Integer(1),
        text("c"),
        text("u"),
        SqlValue::Null,
    ];
    assert!(matches!(reminder_from_row(&row), Err(PillError::StorageError(_))));
}

#[test]
fn reads_inserted_id() {
    assert_eq!(inserted_id(&vec![SqlValue::Integer(12)]).unwrap(), 12);
    assert!(matches!(inserted_id(&vec![]), Err(PillError::StorageError(_))));
    assert!(matches!(inserted_id(&vec![text("12")]), Err(PillError::StorageError(_))));
}

#[test]
fn builds_medication_params() {
    let med = Medication {
        id: None,
        name: "Aspirin".to_string(),
        dosage: "100mg".to_string(),
        description: "pain relief".to_string(),
        created_at: String::new(),
        updated_at: String::new(),
        deleted_at: None,
        reminders: Vec::new(),
    };
    let p = medication_insert_params(&med, "NOW").unwrap();
    assert_eq!(p.len(), 5);
    assert_eq!(as_text(&p[0]), "Aspirin");
    assert_eq!(as_text(&p[1]), "100mg");
    assert_eq!(as_text(&p[2]), "pain relief");
    assert_eq!(as_text(&p[3]), "NOW");
    assert_eq!(as_text(&p[4]), "NOW");
    assert!(matches!(medication_update_params(&med, "NOW"), Err(PillError::ValidationError(_))));
    let mut stored = med.clone();
    stored.id = Some(3);
    let u = medication_update_params(&stored, "LATER").unwrap();
    assert_eq!(as_text(&u[3]), "LATER");
    assert_eq!(as_int(&u[4]), 3);
    assert!(matches!(medication_insert_params(&stored, "NOW"), Err(PillError::ValidationError(_))));
}

#[test]
fn builds_reminder_params() {
    let rem = Reminder {
        id: None,
        medication_id: 5,
        time: "07:05".to_string(),
        days: "Daily".to_string(),
        is_active: true,
        created_at: String::new(),
        updated_at: String::new(),
        deleted_at: None,
    };
    let p = reminder_insert_params(&rem, "NOW").unwrap();
    assert_eq!(p.len(), 6);
    assert_eq!(as_int(&p[0]), 5);
    assert_eq!(as_text(&p[1]), "07:05");
    assert_eq!(as_int(&p[3]), 1);
    let mut stored = rem.clone();
    stored.id = Some(8);
    stored.is_active = false;
    let u = reminder_update_params(&stored, "LATER").unwrap();
    assert_eq!(as_int(&u[2]), 0);
    assert_eq!(as_int(&u[4]), 8);
    stored.time = "7:05".to_string();
    assert!(matches!(reminder_update_params(&stored, "LATER"), Err(PillError::ValidationError(_))));
}

#[test]
fn builds_soft_delete_params() {
    let p = soft_delete_params(6, "T");
    assert_eq!(as_text(&p[0]), "T");
    assert_eq!(as_text(&p[1]), "T");
    assert_eq!(as_int(&p[2]), 6);
}
