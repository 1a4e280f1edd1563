use vstd::prelude::*;

use crate::error::PillError;
use crate::model::{Medication, MedicationView, Reminder, ReminderView};
use crate::validate::{is_valid_days, is_valid_time, valid_days, valid_time};

verus! {

/// Schema of the medications table; safe to run against an existing database.
pub const CREATE_MEDICATIONS_TABLE: &'static str = "CREATE TABLE IF NOT EXISTS medications (id INTEGER PRIMARY KEY AUTOINCREMENT, name TEXT NOT NULL, dosage TEXT, description TEXT, created_at TEXT, updated_at TEXT, deleted_at TEXT)";

/// Schema of the reminders table; safe to run against an existing database.
pub const CREATE_REMINDERS_TABLE: &'static str = "CREATE TABLE IF NOT EXISTS reminders (id INTEGER PRIMARY KEY AUTOINCREMENT, medication_id INTEGER NOT NULL REFERENCES medications(id), time TEXT NOT NULL, days TEXT, is_active INTEGER DEFAULT 1, created_at TEXT, updated_at TEXT, deleted_at TEXT)";

/// Parameters: [`medication_insert_params`]. Answers one row: the new id.
pub const INSERT_MEDICATION: &'static str = "INSERT INTO medications (name, dosage, description, created_at, updated_at) VALUES (?, ?, ?, ?, ?) RETURNING id";

/// No parameters. Rows: [`medication_from_row`].
pub const SELECT_LIVE_MEDICATIONS: &'static str = "SELECT id, name, dosage, description, created_at, updated_at, deleted_at FROM medications WHERE deleted_at IS NULL ORDER BY id";

/// Parameter: the id. Rows: [`medication_from_row`].
pub const SELECT_LIVE_MEDICATION: &'static str = "SELECT id, name, dosage, description, created_at, updated_at, deleted_at FROM medications WHERE id = ? AND deleted_at IS NULL";

/// Parameters: [`medication_update_params`].
pub const UPDATE_MEDICATION: &'static str = "UPDATE medications SET name = ?, dosage = ?, description = ?, updated_at = ? WHERE id = ? AND deleted_at IS NULL";

/// Parameters: [`soft_delete_params`].
pub const SOFT_DELETE_MEDICATION: &'static str = "UPDATE medications SET deleted_at = ?, updated_at = ? WHERE id = ? AND deleted_at IS NULL";

/// Parameters: [`soft_delete_params`] with the medication's id.
pub const SOFT_DELETE_REMINDERS_OF_MEDICATION: &'static str = "UPDATE reminders SET deleted_at = ?, updated_at = ? WHERE medication_id = ? AND deleted_at IS NULL";

/// Parameters: [`reminder_insert_params`]. Answers one row: the new id.
pub const INSERT_REMINDER: &'static str = "INSERT INTO reminders (medication_id, time, days, is_active, created_at, updated_at) VALUES (?, ?, ?, ?, ?, ?) RETURNING id";

/// No parameters. Rows: [`reminder_from_row`].
pub const SELECT_LIVE_REMINDERS: &'static str = "SELECT id, medication_id, time, days, is_active, created_at, updated_at, deleted_at FROM reminders WHERE deleted_at IS NULL ORDER BY id";

/// No parameters. Rows: [`reminder_from_row`].
pub const SELECT_ACTIVE_REMINDERS: &'static str = "SELECT id, medication_id, time, days, is_active, created_at, updated_at, deleted_at FROM reminders WHERE is_active = 1 AND deleted_at IS NULL ORDER BY id";

/// Parameter: the medication id. Rows: [`reminder_from_row`].
pub const SELECT_REMINDERS_OF_MEDICATION: &'static str = "SELECT id, medication_id, time, days, is_active, created_at, updated_at, deleted_at FROM reminders WHERE medication_id = ? AND deleted_at IS NULL ORDER BY id";

/// Parameters: [`reminder_update_params`].
pub const UPDATE_REMINDER: &'static str = "UPDATE reminders SET time = ?, days = ?, is_active = ?, updated_at = ? WHERE id = ? AND deleted_at IS NULL";

/// Parameters: [`soft_delete_params`].
pub const SOFT_DELETE_REMINDER: &'static str = "UPDATE reminders SET deleted_at = ?, updated_at = ? WHERE id = ? AND deleted_at IS NULL";

/// A statement parameter or a column value.
#[derive(Debug)]
pub enum SqlValue {
    Null,
    Integer(i64),
    Text(String),
}

/// Mathematical value of a [`SqlValue`].
pub enum SqlValueView {
    Null,
    Integer(i64),
    Text(Seq<char>),
}

impl View for SqlValue {
    type V = SqlValueView;

    open spec fn view(&self) -> SqlValueView {
        match self {
            SqlValue::Null => SqlValueView::Null,
            SqlValue::Integer(i) => SqlValueView::Integer(*i),
            SqlValue::Text(t) => SqlValueView::Text(t@),
        }
    }
}

pub open spec fn sql_views(s: Seq<SqlValue>) -> Seq<SqlValueView> {
    s.map_values(|v: SqlValue| v@)
}

/// Booleans are stored as 0 and 1.
pub open spec fn flag(b: bool) -> i64 {
    if b {
        1
    } else {
        0
    }
}

pub open spec fn int_at(row: Seq<SqlValueView>, k: int) -> Option<i64> {
    if 0 <= k < row.len() && row[k] is Integer {
        Some(row[k]->Integer_0)
    } else {
        None
    }
}

pub open spec fn text_at(row: Seq<SqlValueView>, k: int) -> Option<Seq<char>> {
    if 0 <= k < row.len() && row[k] is Text {
        Some(row[k]->Text_0)
    } else {
        None
    }
}

/// A nullable text column: `Some(None)` for NULL, `None` for another type.
pub open spec fn nullable_text_at(row: Seq<SqlValueView>, k: int) -> Option<Option<Seq<char>>> {
    if 0 <= k < row.len() && row[k] is Null {
        Some(None)
    } else if 0 <= k < row.len() && row[k] is Text {
        Some(Some(row[k]->Text_0))
    } else {
        None
    }
}

/// The medication that a row of `SELECT id, name, dosage, description,
/// created_at, updated_at, deleted_at` holds, if the row has that shape.
pub open spec fn decode_medication(row: Seq<SqlValueView>) -> Option<MedicationView> {
    if row.len() == 7 && int_at(row, 0) is Some && text_at(row, 1) is Some && text_at(row, 2) is Some
        && text_at(row, 3) is Some && text_at(row, 4) is Some && text_at(row, 5) is Some
        && nullable_text_at(row, 6) is Some {
        Some(
            MedicationView {
                id: Some(int_at(row, 0)->0),
                name: text_at(row, 1)->0,
                dosage: text_at(row, 2)->0,
                description: text_at(row, 3)->0,
                created_at: text_at(row, 4)->0,
                updated_at: text_at(row, 5)->0,
                deleted_at: nullable_text_at(row, 6)->0,
                reminders: Seq::empty(),
            },
        )
    } else {
        None
    }
}

/// The reminder that a row of `SELECT id, medication_id, time, days,
/// is_active, created_at, updated_at, deleted_at` holds, if the row has that
/// shape; any non-zero `is_active` reads as true.
pub open spec fn decode_reminder(row: Seq<SqlValueView>) -> Option<ReminderView> {
    if row.len() == 8 && int_at(row, 0) is Some && int_at(row, 1) is Some && text_at(row, 2) is Some
        && text_at(row, 3) is Some && int_at(row, 4) is Some && text_at(row, 5) is Some
        && text_at(row, 6) is Some && nullable_text_at(row, 7) is Some {
        Some(
            ReminderView {
                id: Some(int_at(row, 0)->0),
                medication_id: int_at(row, 1)->0,
                time: text_at(row, 2)->0,
                days: text_at(row, 3)->0,
                is_active: int_at(row, 4)->0 != 0,
                created_at: text_at(row, 5)->0,
                updated_at: text_at(row, 6)->0,
                deleted_at: nullable_text_at(row, 7)->0,
            },
        )
    } else {
        None
    }
}

fn text(s: &str) -> (v: SqlValue)
    ensures
        v@ == SqlValueView::Text(s@),
{
    SqlValue::Text(String::from_str(s))
}

fn shape_error() -> (e: PillError)
    ensures
        e matches PillError::StorageError(_),
{
    PillError::StorageError(String::from_str("row does not have the expected columns"))
}

fn validation_error(msg: &str) -> (e: PillError)
    ensures
        e matches PillError::ValidationError(_),
{
    PillError::ValidationError(String::from_str(msg))
}

fn int_column(row: &Vec<SqlValue>, k: usize) -> (r: Result<i64, PillError>)
    ensures
        int_at(sql_views(row@), k as int) matches Some(i) ==> r == Ok::<i64, PillError>(i),
        int_at(sql_views(row@), k as int) is None ==> r matches Err(PillError::StorageError(_)),
{
    if k < row.len() {
        if let SqlValue::Integer(i) = &row[k] {
            return Ok(*i);
        }
    }
    Err(shape_error())
}

fn text_column(row: &Vec<SqlValue>, k: usize) -> (r: Result<String, PillError>)
    ensures
        text_at(sql_views(row@), k as int) matches Some(t) ==> r matches Ok(s) && s@ == t,
        text_at(sql_views(row@), k as int) is None ==> r matches Err(PillError::StorageError(_)),
{
    if k < row.len() {
        if let SqlValue::Text(t) = &row[k] {
            return Ok(t.clone());
        }
    }
    Err(shape_error())
}

fn nullable_text_column(row: &Vec<SqlValue>, k: usize) -> (r: Result<Option<String>, PillError>)
    ensures
        nullable_text_at(sql_views(row@), k as int) matches Some(t) ==> r matches Ok(s) && (
        s matches Some(x) ==> t == Some(x@)) && (s is None ==> t is None),
        nullable_text_at(sql_views(row@), k as int) is None ==> r matches Err(
            PillError::StorageError(_),
        ),
{
    if k < row.len() {
        match &row[k] {
            SqlValue::Null => {
                return Ok(None);
            },
            SqlValue::Text(t) => {
                return Ok(Some(t.clone()));
            },
            SqlValue::Integer(_) => {},
        }
    }
    Err(shape_error())
}

/// Reads a medication out of a row of [`SELECT_LIVE_MEDICATIONS`];
/// `StorageError` when the row does not have that shape.
pub fn medication_from_row(row: &Vec<SqlValue>) -> (r: Result<Medication, PillError>)
    ensures
        decode_medication(sql_views(row@)) matches Some(m) ==> r matches Ok(x) && x@ == m,
        decode_medication(sql_views(row@)) is None ==> r matches Err(PillError::StorageError(_)),
{
    if row.len() != 7 {
        return Err(shape_error());
    }
    let id = int_column(row, 0)?;
    let name = text_column(row, 1)?;
    let dosage = text_column(row, 2)?;
    let description = text_column(row, 3)?;
    let created_at = text_column(row, 4)?;
    let updated_at = text_column(row, 5)?;
    let deleted_at = nullable_text_column(row, 6)?;
    let m = Medication {
        id: Some(id),
        name,
        dosage,
        description,
        created_at,
        updated_at,
        deleted_at,
        reminders: Vec::new(),
    };
    assert(m@.reminders =~= Seq::<ReminderView>::empty());
    Ok(m)
}

/// Reads a reminder out of a row of [`SELECT_LIVE_REMINDERS`];
/// `StorageError` when the row does not have that shape.
pub fn reminder_from_row(row: &Vec<SqlValue>) -> (r: Result<Reminder, PillError>)
    ensures
        decode_reminder(sql_views(row@)) matches Some(x) ==> r matches Ok(y) && y@ == x,
        decode_reminder(sql_views(row@)) is None ==> r matches Err(PillError::StorageError(_)),
{
    if row.len() != 8 {
        return Err(shape_error());
    }
    let id = int_column(row, 0)?;
    let medication_id = int_column(row, 1)?;
    let time = text_column(row, 2)?;
    let days = text_column(row, 3)?;
    let is_active = int_column(row, 4)?;
    let created_at = text_column(row, 5)?;
    let updated_at = text_column(row, 6)?;
    let deleted_at = nullable_text_column(row, 7)?;
    Ok(
        Reminder {
            id: Some(id),
            medication_id,
            time,
            days,
            is_active: is_active != 0,
            created_at,
            updated_at,
            deleted_at,
        },
    )
}

/// Reads the id that an `INSERT ... RETURNING id` answered.
pub fn inserted_id(row: &Vec<SqlValue>) -> (r: Result<i64, PillError>)
    ensures
        int_at(sql_views(row@), 0) matches Some(i) ==> (row@.len() == 1 ==> r == Ok::<i64, PillError>(i)),
        !(row@.len() == 1 && int_at(sql_views(row@), 0) is Some) ==> r matches Err(
            PillError::StorageError(_),
        ),
{
    if row.len() != 1 {
        return Err(shape_error());
    }
    int_column(row, 0)
}

/// Parameters of [`INSERT_MEDICATION`]; both timestamps are `now`. The
/// medication must not carry an id yet.
pub fn medication_insert_params(med: &Medication, now: &str) -> (r: Result<Vec<SqlValue>, PillError>)
    ensures
        med.id is Some ==> r matches Err(PillError::ValidationError(_)),
        med.id is None ==> (r matches Ok(v) && sql_views(v@) == seq![
            SqlValueView::Text(med.name@),
            SqlValueView::Text(med.dosage@),
            SqlValueView::Text(med.description@),
            SqlValueView::Text(now@),
            SqlValueView::Text(now@),
        ]),
{
    if med.id.is_some() {
        return Err(validation_error("a new medication must not carry an id"));
    }
    let v = vec![
        text(med.name.as_str()),
        text(med.dosage.as_str()),
        text(med.description.as_str()),
        text(now),
        text(now),
    ];
    assert(sql_views(v@) =~= seq![
        SqlValueView::Text(med.name@),
        SqlValueView::Text(med.dosage@),
        SqlValueView::Text(med.description@),
        SqlValueView::Text(now@),
        SqlValueView::Text(now@),
    ]);
    Ok(v)
}

/// Parameters of [`UPDATE_MEDICATION`]: every mutable field, `now`, and the
/// id, which must be present.
pub fn medication_update_params(med: &Medication, now: &str) -> (r: Result<Vec<SqlValue>, PillError>)
    ensures
        med.id is None ==> r matches Err(PillError::ValidationError(_)),
        med.id matches Some(id) ==> r matches Ok(v) && sql_views(v@) == seq![
            SqlValueView::Text(med.name@),
            SqlValueView::Text(med.dosage@),
            SqlValueView::Text(med.description@),
            SqlValueView::Text(now@),
            SqlValueView::Integer(id),
        ],
{
    let id = match med.id {
        Some(id) => id,
        None => {
            return Err(validation_error("updating a medication needs its id"));
        },
    };
    let v = vec![
        text(med.name.as_str()),
        text(med.dosage.as_str()),
        text(med.description.as_str()),
        text(now),
        SqlValue::Integer(id),
    ];
    assert(sql_views(v@) =~= seq![
        SqlValueView::Text(med.name@),
        SqlValueView::Text(med.dosage@),
        SqlValueView::Text(med.description@),
        SqlValueView::Text(now@),
        SqlValueView::Integer(id),
    ]);
    Ok(v)
}

/// Parameters of the soft deletes: `deleted_at` and `updated_at` both
/// `now`, then the id.
pub fn soft_delete_params(id: i64, now: &str) -> (r: Vec<SqlValue>)
    ensures
        sql_views(r@) == seq![
            SqlValueView::Text(now@),
            SqlValueView::Text(now@),
            SqlValueView::Integer(id),
        ],
{
    let v = vec![text(now), text(now), SqlValue::Integer(id)];
    assert(sql_views(v@) =~= seq![
        SqlValueView::Text(now@),
        SqlValueView::Text(now@),
        SqlValueView::Integer(id),
    ]);
    v
}

/// Parameters of [`INSERT_REMINDER`]; both timestamps are `now`. The
/// reminder must not carry an id, and its time and days must be well formed.
pub fn reminder_insert_params(rem: &Reminder, now: &str) -> (r: Result<Vec<SqlValue>, PillError>)
    ensures
        rem.id is Some || !valid_time(rem.time@) || !valid_days(rem.days@) ==> r matches Err(
            PillError::ValidationError(_),
        ),
        rem.id is None && valid_time(rem.time@) && valid_days(rem.days@) ==> (r matches Ok(v)
            && sql_views(v@) == seq![
            SqlValueView::Integer(rem.medication_id),
            SqlValueView::Text(rem.time@),
            SqlValueView::Text(rem.days@),
            SqlValueView::Integer(flag(rem.is_active)),
            SqlValueView::Text(now@),
            SqlValueView::Text(now@),
        ]),
{
    if rem.id.is_some() {
        return Err(validation_error("a new reminder must not carry an id"));
    }
    if !is_valid_time(rem.time.as_str()) {
        return Err(validation_error("time must read HH:MM"));
    }
    if !is_valid_days(rem.days.as_str()) {
        return Err(validation_error("days must be Daily or weekdays joined by commas"));
    }
    let active: i64 = if rem.is_active {
        1
    } else {
        0
    };
    let v = vec![
        SqlValue::Integer(rem.medication_id),
        text(rem.time.as_str()),
        text(rem.days.as_str()),
        SqlValue::Integer(active),
        text(now),
        text(now),
    ];
    assert(sql_views(v@) =~= seq![
        SqlValueView::Integer(rem.medication_id),
        SqlValueView::Text(rem.time@),
        SqlValueView::Text(rem.days@),
        SqlValueView::Integer(flag(rem.is_active)),
        SqlValueView::Text(now@),
        SqlValueView::Text(now@),
    ]);
    Ok(v)
}

/// Parameters of [`UPDATE_REMINDER`]: time, days, active flag, `now`, and
/// the id, which must be present; time and days must be well formed.
pub fn reminder_update_params(rem: &Reminder, now: &str) -> (r: Result<Vec<SqlValue>, PillError>)
    ensures
        rem.id is None || !valid_time(rem.time@) || !valid_days(rem.days@) ==> r matches Err(
            PillError::ValidationError(_),
        ),
        rem.id is Some && valid_time(rem.time@) && valid_days(rem.days@) ==> (r matches Ok(v)
            && sql_views(v@) == seq![
            SqlValueView::Text(rem.time@),
            SqlValueView::Text(rem.days@),
            SqlValueView::Integer(flag(rem.is_active)),
            SqlValueView::Text(now@),
            SqlValueView::Integer(rem.id->0),
        ]),
{
    let id = match rem.id {
        Some(id) => id,
        None => {
            return Err(validation_error("updating a reminder needs its id"));
        },
    };
    if !is_valid_time(rem.time.as_str()) {
        return Err(validation_error("time must read HH:MM"));
    }
    if !is_valid_days(rem.days.as_str()) {
        return Err(validation_error("days must be Daily or weekdays joined by commas"));
    }
    let active: i64 = if rem.is_active {
        1
    } else {
        0
    };
    let v = vec![
        text(rem.time.as_str()),
        text(rem.days.as_str()),
        SqlValue::Integer(active),
        text(now),
        SqlValue::Integer(id),
    ];
    assert(sql_views(v@) =~= seq![
        SqlValueView::Text(rem.time@),
        SqlValueView::Text(rem.days@),
        SqlValueView::Integer(flag(rem.is_active)),
        SqlValueView::Text(now@),
        SqlValueView::Integer(id),
    ]);
    Ok(v)
}

} // verus!
