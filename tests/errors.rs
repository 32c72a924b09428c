use tracker::error::{ObjectKind, PayloadError, PayloadErrorKind, TrackerError};
use tracker::game_save::{self, UpdateGameSaveRequest};
use tracker::solar_system::{self, UpdateSolarSystemRequest};
use tracker::star;
use tracker::store::{found_or_not_found, update_outcome, DbErrorKind, StorageError};
use tracker::value::{AllowedValues, Bound, FieldValue, FieldValues, Timestamp, Value};

const ID: u128 = 0x936da01f_9abd_4d9d_80c7_02af85c822a8;
const ID_TEXT: &str = "936da01f-9abd-4d9d-80c7-02af85c822a8";

fn key() -> FieldValues {
    FieldValues::single(FieldValue::new("id", Value::Uuid(ID)))
}

fn storage(kind: Option<DbErrorKind>, constraint: Option<&str>) -> StorageError {
    StorageError {
        kind,
        constraint: constraint.map(|c| c.to_string()),
        message: "db failed".to_string(),
    }
}

#[test]
fn stale_update_is_a_conflict() {
    match update_outcome(ObjectKind::Save, "id", ID, 0) {
        Err(TrackerError::ConcurrentUpdate(ObjectKind::Save, k)) => {
            assert_eq!(k.0.len(), 1);
            assert_eq!(k.0[0].name, "id");
            assert_eq!(k.0[0].value, Some(Value::Uuid(ID)));
        }
        other => panic!("unexpected {:?}", other),
    }
    assert!(update_outcome(ObjectKind::Save, "id", ID, 1).is_ok());
}

#[test]
fn missing_row_is_not_found() {
    assert_eq!(found_or_not_found(Some(5), ObjectKind::Star, "id", ID).unwrap(), 5);
    let e = found_or_not_found::<u8>(None, ObjectKind::Star, "solar_system_id", ID).unwrap_err();
    assert_eq!(e.message(), format!("No star exists with solar_system_id `{}`.", ID_TEXT));
    assert_eq!(e.status_code(), 404);
}

#[test]
fn codes_and_statuses() {
    let cases: Vec<(TrackerError, &str, u16)> = vec![
        (TrackerError::not_found(ObjectKind::Save, key()), "NotFound", 404),
        (TrackerError::UnexpectedNotFound(ObjectKind::Save, key()), "InternalServerError", 500),
        (TrackerError::duplicate(ObjectKind::Save, key()), "Duplicate", 409),
        (
            TrackerError::invalid_field(FieldValue::null_value("x"), AllowedValues::datetime_iso()),
            "InvalidFieldValue",
            400,
        ),
        (
            TrackerError::missing_field("x".to_string(), AllowedValues::string_len_min(1)),
            "MissingRequiredField",
            400,
        ),
        (TrackerError::concurrent_update(ObjectKind::Star, key()), "ConcurrentUpdate", 409),
        (TrackerError::SqlError("boom".to_string()), "InternalServerError", 500),
        (TrackerError::QueryStringError("q".to_string()), "InvalidQueryString", 400),
        (TrackerError::PathError("p".to_string()), "InvalidUrlPath", 404),
    ];
    for (e, code, status) in cases {
        assert_eq!(e.error_code(), code);
        assert_eq!(e.status_code(), status);
    }
}

#[test]
fn payload_errors() {
    let p = |kind, status| {
        TrackerError::JsonError(PayloadError { kind, status, message: "bad".to_string() })
    };
    let ct = p(PayloadErrorKind::ContentType, 400);
    assert_eq!(ct.error_code(), "UnsupportedContentType");
    assert_eq!(ct.status_code(), 415);
    let big = p(PayloadErrorKind::Overflow, 413);
    assert_eq!(big.error_code(), "PayloadTooLarge");
    assert_eq!(big.status_code(), 413);
    let ser = p(PayloadErrorKind::Serialize, 500);
    assert!(ser.is_internal_server_error());
    assert_eq!(ser.error_code(), "InternalServerError");
    assert_eq!(p(PayloadErrorKind::Deserialize, 400).error_code(), "InvalidJson");
    assert_eq!(p(PayloadErrorKind::Other, 400).error_code(), "UnknownPayloadError");
    assert_eq!(p(PayloadErrorKind::Overflow, 200).status_code(), 413);
    assert_eq!(p(PayloadErrorKind::OverflowKnownLength, 200).status_code(), 413);
    assert_eq!(p(PayloadErrorKind::Serialize, 400).status_code(), 500);
    assert_eq!(p(PayloadErrorKind::Deserialize, 500).status_code(), 400);
    assert_eq!(p(PayloadErrorKind::Other, 500).status_code(), 400);
    assert_eq!(p(PayloadErrorKind::Payload, 408).status_code(), 408);
}

#[test]
fn internal_errors_hide_their_message() {
    let r = TrackerError::SqlError("secret detail".to_string()).to_error_response();
    assert_eq!(r.message, "An Internal Server Error occurred.");
    assert_eq!(r.error_code, "InternalServerError");
    assert!(r.object.is_none() && r.keys.is_none() && r.field.is_none());
    let u = TrackerError::not_found(ObjectKind::Save, key()).not_found_unexpected();
    assert!(matches!(u, TrackerError::UnexpectedNotFound(ObjectKind::Save, _)));
    assert_eq!(u.to_error_response().message, "An Internal Server Error occurred.");
    let d = TrackerError::duplicate(ObjectKind::Save, key()).not_found_unexpected();
    assert!(matches!(d, TrackerError::Duplicate(..)));
}

#[test]
fn responses_carry_context() {
    let r = TrackerError::not_found(ObjectKind::SolarSystem, key()).to_error_response();
    assert_eq!(r.message, format!("No solar system exists with id `{}`.", ID_TEXT));
    assert_eq!(r.object, Some(ObjectKind::SolarSystem));
    assert_eq!(r.keys.unwrap().len(), 1);
    let r = TrackerError::missing_field("name".to_string(), AllowedValues::string_len_between(1, 64))
        .to_error_response();
    assert_eq!(
        r.message,
        "Missing required field name. Value must be between 1 and 64 characters long."
    );
    let f = r.field.unwrap();
    assert_eq!(f.name, "name");
    assert_eq!(f.value, None);
}

#[test]
fn messages() {
    let e = TrackerError::invalid_field(
        FieldValue::new("page", Value::String("abc".to_string())),
        AllowedValues::integer_min(Bound::inclusive(Value::Int32(1))),
    );
    assert_eq!(
        e.message(),
        "The value `abc` for the field page is invalid. Value must be  an integer >= 1."
    );
    let keys = FieldValues(vec![
        FieldValue::new("save_id", Value::Uuid(ID)),
        FieldValue::new("name", Value::String("Sol".to_string())),
    ]);
    let d = TrackerError::duplicate(ObjectKind::SolarSystem, keys);
    assert_eq!(
        d.message(),
        format!("A solar system with the save_id `{}`, name `Sol` already exists.", ID_TEXT)
    );
    let c = TrackerError::concurrent_update(ObjectKind::PlanetType, key());
    assert_eq!(
        c.message(),
        format!(
            "Another transaction has already updated the planet type with id `{}`. Please try again.",
            ID_TEXT
        )
    );
}

#[test]
fn allowed_value_texts() {
    let i = AllowedValues::integer_between(
        Bound::inclusive(Value::Int64(-3)),
        Bound::exclusive(Value::Uint8(9)),
    );
    assert_eq!(i.to_text(), "Value must be an integer >= -3 and > 9.");
    assert_eq!(
        AllowedValues::float_max(Bound::exclusive(Value::Float("2.5".to_string()))).to_text(),
        "Value must be a number > 2.5."
    );
    assert_eq!(AllowedValues::Integer { min: None, max: None }.to_text(), "Value must be an integer.");
    assert_eq!(AllowedValues::string_len_max(10).to_text(), "Value must be at most 10 characters long.");
    assert_eq!(AllowedValues::string_len_min(2).to_text(), "Value must be at least 2 characters long.");
    assert_eq!(
        AllowedValues::datetime_iso().to_text(),
        "Must be a date time in the format `yyyy-mm-ddTHH:MM:ss[.SSS]Z`."
    );
    assert_eq!(
        AllowedValues::choice(vec![Value::Uint16(1), Value::Int8(-2)]).to_text(),
        "Allowed values are: 1, -2"
    );
    assert_eq!(AllowedValues::datetime("%Y".to_string()).to_text(), "Must be a date time in the format `%Y`.");
}

#[test]
fn value_texts() {
    assert_eq!(Value::Int8(i8::MIN).to_text(), "-128");
    assert_eq!(Value::Int64(i64::MIN).to_text(), "-9223372036854775808");
    assert_eq!(Value::Uint64(u64::MAX).to_text(), "18446744073709551615");
    assert_eq!(Value::Uint32(0).to_text(), "0");
    assert_eq!(Value::Uuid(ID).to_text(), ID_TEXT);
    assert_eq!(Value::Uuid(0).to_text(), "00000000-0000-0000-0000-000000000000");
    assert_eq!(FieldValue::null_value("notes").to_text(), "notes `null`");
}

#[test]
fn timestamps() {
    let t = Timestamp::from_unix(1431648000, 0).unwrap();
    assert_eq!(t.secs(), 1431648000);
    assert_eq!(t.nanos(), 0);
    assert_eq!(Value::DateTime(t).to_text(), "2015-05-15 00:00:00 UTC");
    assert!(Timestamp::from_unix(i64::MAX, 0).is_none());
    assert!(Timestamp::from_unix(0, 2_000_000_000).is_none());
}

#[test]
fn save_constraint_errors() {
    let e = game_save::map_constraint_errors(
        storage(Some(DbErrorKind::UniqueViolation), Some("saves_name_key")),
        "Main",
        ID,
    );
    assert_eq!(e.message(), "A save with the name `Main` already exists.");
    let e = game_save::map_constraint_errors(
        storage(Some(DbErrorKind::UniqueViolation), Some("saves_id_pkey")),
        "Main",
        ID,
    );
    assert_eq!(e.message(), format!("A save with the id `{}` already exists.", ID_TEXT));
    let e = game_save::map_constraint_errors(storage(None, None), "Main", ID);
    assert_eq!(e, TrackerError::SqlError("db failed".to_string()));
}

#[test]
fn solar_system_constraint_errors() {
    let e = solar_system::map_constraint_errors(
        storage(Some(DbErrorKind::ForeignKeyViolation), Some("solar_systems_save_id_fkey")),
        ID,
        "Sol",
    );
    assert!(matches!(e, TrackerError::NotFound(ObjectKind::Save, _)));
    let e = solar_system::map_constraint_errors(
        storage(Some(DbErrorKind::UniqueViolation), Some("solar_systems_save_id_name_key")),
        ID,
        "Sol",
    );
    match e {
        TrackerError::Duplicate(ObjectKind::SolarSystem, k) => assert_eq!(k.0.len(), 2),
        other => panic!("unexpected {:?}", other),
    }
    let e = solar_system::map_constraint_errors(
        storage(Some(DbErrorKind::UniqueViolation), Some("solar_systems_save_id_fkey")),
        ID,
        "Sol",
    );
    assert!(matches!(e, TrackerError::SqlError(_)));
}

#[test]
fn star_constraint_errors() {
    let e = star::map_constraint_errors(
        storage(Some(DbErrorKind::UniqueViolation), Some("stars_solar_system_id_key")),
        ID,
    );
    assert!(matches!(e, TrackerError::Duplicate(ObjectKind::Star, _)));
    let e = star::map_constraint_errors(
        storage(Some(DbErrorKind::ForeignKeyViolation), Some("stars_solar_system_id_fkey")),
        ID,
    );
    assert!(matches!(e, TrackerError::NotFound(ObjectKind::SolarSystem, _)));
}

#[test]
fn update_requests_apply() {
    let mut name = "Old".to_string();
    let mut speed = 3u32;
    UpdateGameSaveRequest { name: Some("New".to_string()), notes: None, mining_speed: None }
        .apply(&mut name, &mut speed);
    assert_eq!((name.as_str(), speed), ("New", 3));
    let mut notes = Some("n".to_string());
    UpdateSolarSystemRequest { name: None, notes: Some(None) }.apply(&mut name, &mut notes);
    assert_eq!(name, "New");
    assert_eq!(notes, None);
}
