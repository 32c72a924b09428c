//! The error taxonomy: what went wrong, the code and HTTP status each kind
//! maps to, and the structured response that leaves the process.
use crate::value::{
    allowed_values_text, allowed_values_wf, copy_field_values, field_values_text, format_value,
    optional_value_text, AllowedValues, AllowedValuesView, FieldValue, FieldValues,
};
use vstd::prelude::*;

verus! {

/// The kinds of object that errors speak of.
#[derive(Debug, Clone, Copy, PartialEq, Eq, Structural)]
pub enum ObjectKind {
    Save,
    SolarSystem,
    Star,
    Planet,
    PlanetType,
    Item,
    ItemRecipe,
}

pub open spec fn object_kind_text(o: ObjectKind) -> Seq<char> {
    match o {
        ObjectKind::Item => "item"@,
        ObjectKind::ItemRecipe => "item recipe"@,
        ObjectKind::Save => "save"@,
        ObjectKind::SolarSystem => "solar system"@,
        ObjectKind::Planet => "planet"@,
        ObjectKind::Star => "star"@,
        ObjectKind::PlanetType => "planet type"@,
    }
}

impl ObjectKind {
    /// The kind in words, as messages use it.
    pub fn to_text(&self) -> (r: String)
        ensures
            r@ == object_kind_text(*self),
    {
        match self {
            ObjectKind::Item => String::from_str("item"),
            ObjectKind::ItemRecipe => String::from_str("item recipe"),
            ObjectKind::Save => String::from_str("save"),
            ObjectKind::SolarSystem => String::from_str("solar system"),
            ObjectKind::Planet => String::from_str("planet"),
            ObjectKind::Star => String::from_str("star"),
            ObjectKind::PlanetType => String::from_str("planet type"),
        }
    }
}

/// The sub-kinds of a malformed JSON request payload.
#[derive(Debug, Clone, Copy, PartialEq, Eq, Structural)]
pub enum PayloadErrorKind {
    ContentType,
    Serialize,
    Deserialize,
    Overflow,
    OverflowKnownLength,
    Payload,
    Other,
}

/// A malformed JSON payload: its sub-kind, the HTTP status that the request
/// layer gives a failure to read the payload (used for that kind only), and
/// its message.
#[derive(Debug, Clone, PartialEq)]
pub struct PayloadError {
    pub kind: PayloadErrorKind,
    pub status: u16,
    pub message: String,
}

/// Everything that can go wrong while serving a request.
#[derive(Debug, Clone, PartialEq)]
pub enum TrackerError {
    NotFound(ObjectKind, FieldValues),
    /// A row that was just written could not be read back.
    UnexpectedNotFound(ObjectKind, FieldValues),
    Duplicate(ObjectKind, FieldValues),
    InvalidFieldValue(FieldValue, AllowedValues),
    MissingRequiredField(String, AllowedValues),
    /// The stored version was not the one the update was based on.
    ConcurrentUpdate(ObjectKind, FieldValues),
    /// A storage failure, with its message.
    SqlError(String),
    JsonError(PayloadError),
    /// A malformed query string, with its message.
    QueryStringError(String),
    /// A malformed URL path, with its message.
    PathError(String),
}

/// The allowed-value descriptions that an error holds can be rendered.
pub open spec fn tracker_error_wf(e: TrackerError) -> bool {
    match e {
        TrackerError::InvalidFieldValue(_, a) => allowed_values_wf(a),
        TrackerError::MissingRequiredField(_, a) => allowed_values_wf(a),
        _ => true,
    }
}

pub open spec fn is_internal(e: TrackerError) -> bool {
    match e {
        TrackerError::UnexpectedNotFound(..) => true,
        TrackerError::SqlError(..) => true,
        TrackerError::JsonError(p) => p.kind == PayloadErrorKind::Serialize,
        _ => false,
    }
}

pub open spec fn error_code_text(e: TrackerError) -> Seq<char> {
    match e {
        TrackerError::NotFound(..) => "NotFound"@,
        TrackerError::Duplicate(..) => "Duplicate"@,
        TrackerError::InvalidFieldValue(..) => "InvalidFieldValue"@,
        TrackerError::MissingRequiredField(..) => "MissingRequiredField"@,
        TrackerError::ConcurrentUpdate(..) => "ConcurrentUpdate"@,
        TrackerError::JsonError(p) => match p.kind {
            PayloadErrorKind::ContentType => "UnsupportedContentType"@,
            PayloadErrorKind::Serialize => "InternalServerError"@,
            PayloadErrorKind::Deserialize => "InvalidJson"@,
            PayloadErrorKind::Overflow => "PayloadTooLarge"@,
            PayloadErrorKind::OverflowKnownLength => "PayloadTooLarge"@,
            PayloadErrorKind::Payload => "InvalidPayload"@,
            PayloadErrorKind::Other => "UnknownPayloadError"@,
        },
        TrackerError::QueryStringError(..) => "InvalidQueryString"@,
        TrackerError::PathError(..) => "InvalidUrlPath"@,
        _ => "InternalServerError"@,
    }
}

/// The status of a malformed payload: fixed by its kind, except for a failure
/// to read the payload itself, whose status comes from the underlying error.
pub open spec fn payload_status(p: PayloadError) -> u16 {
    match p.kind {
        PayloadErrorKind::ContentType => 415,
        PayloadErrorKind::Overflow => 413,
        PayloadErrorKind::OverflowKnownLength => 413,
        PayloadErrorKind::Serialize => 500,
        PayloadErrorKind::Deserialize => 400,
        PayloadErrorKind::Other => 400,
        PayloadErrorKind::Payload => p.status,
    }
}

pub open spec fn status_of(e: TrackerError) -> u16 {
    match e {
        TrackerError::NotFound(..) => 404,
        TrackerError::Duplicate(..) => 409,
        TrackerError::InvalidFieldValue(..) => 400,
        TrackerError::MissingRequiredField(..) => 400,
        TrackerError::ConcurrentUpdate(..) => 409,
        TrackerError::SqlError(..) => 500,
        TrackerError::UnexpectedNotFound(..) => 500,
        TrackerError::JsonError(p) => payload_status(p),
        TrackerError::QueryStringError(..) => 400,
        TrackerError::PathError(..) => 404,
    }
}

pub open spec fn message_text(e: TrackerError) -> Seq<char> {
    match e {
        TrackerError::NotFound(o, k) => "No "@ + object_kind_text(o) + " exists with "@
            + field_values_text(k.0@) + "."@,
        TrackerError::UnexpectedNotFound(o, k) => "Unexpectedly did not find "@ + object_kind_text(
            o,
        ) + " with "@ + field_values_text(k.0@) + "."@,
        TrackerError::Duplicate(o, k) => "A "@ + object_kind_text(o) + " with the "@
            + field_values_text(k.0@) + " already exists."@,
        TrackerError::InvalidFieldValue(f, a) => "The value `"@ + optional_value_text(f.value)
            + "` for the field "@ + f.name@ + " is invalid. "@ + allowed_values_text(a),
        TrackerError::MissingRequiredField(name, a) => "Missing required field "@ + name@ + ". "@
            + allowed_values_text(a),
        TrackerError::ConcurrentUpdate(o, k) => "Another transaction has already updated the "@
            + object_kind_text(o) + " with "@ + field_values_text(k.0@)
            + ". Please try again."@,
        TrackerError::SqlError(m) => m@,
        TrackerError::JsonError(p) => p.message@,
        TrackerError::QueryStringError(m) => m@,
        TrackerError::PathError(m) => m@,
    }
}

/// The message that replaces an internal error's own.
pub const INTERNAL_ERROR_MESSAGE: &'static str = "An Internal Server Error occurred.";

/// The structured form of an error that is sent to the client.
pub struct ErrorResponse {
    pub error_code: String,
    pub message: String,
    pub object: Option<ObjectKind>,
    pub keys: Option<Vec<FieldValue>>,
    pub field: Option<FieldValue>,
    pub allowed_values: Option<AllowedValues>,
}

pub open spec fn keys_of(k: Option<Vec<FieldValue>>) -> Option<Seq<FieldValue>> {
    match k {
        Some(v) => Some(v@),
        None => None,
    }
}

pub open spec fn allowed_of(a: Option<AllowedValues>) -> Option<AllowedValuesView> {
    match a {
        Some(v) => Some(v@),
        None => None,
    }
}

/// Which parts of an error its response carries: the object and keys, or the
/// field and its allowed values.
pub open spec fn response_parts(e: TrackerError, r: ErrorResponse) -> bool {
    match e {
        TrackerError::NotFound(o, k) => r.object == Some(o) && keys_of(r.keys) == Some(k.0@)
            && r.field is None && r.allowed_values is None,
        TrackerError::Duplicate(o, k) => r.object == Some(o) && keys_of(r.keys) == Some(k.0@)
            && r.field is None && r.allowed_values is None,
        TrackerError::ConcurrentUpdate(o, k) => r.object == Some(o) && keys_of(r.keys) == Some(
            k.0@,
        ) && r.field is None && r.allowed_values is None,
        TrackerError::InvalidFieldValue(f, a) => r.object is None && r.keys is None && r.field
            == Some(f) && allowed_of(r.allowed_values) == Some(a@),
        TrackerError::MissingRequiredField(name, a) => {
            &&& r.object is None
            &&& r.keys is None
            &&& r.field matches Some(fv) && fv.name@ == name@ && fv.value is None
            &&& allowed_of(r.allowed_values) == Some(a@)
        },
        _ => r.object is None && r.keys is None && r.field is None && r.allowed_values is None,
    }
}

impl TrackerError {
    pub fn not_found(object: ObjectKind, keys: FieldValues) -> (r: TrackerError)
        ensures
            r == TrackerError::NotFound(object, keys),
    {
        TrackerError::NotFound(object, keys)
    }

    pub fn duplicate(object: ObjectKind, keys: FieldValues) -> (r: TrackerError)
        ensures
            r == TrackerError::Duplicate(object, keys),
    {
        TrackerError::Duplicate(object, keys)
    }

    pub fn concurrent_update(object: ObjectKind, keys: FieldValues) -> (r: TrackerError)
        ensures
            r == TrackerError::ConcurrentUpdate(object, keys),
    {
        TrackerError::ConcurrentUpdate(object, keys)
    }

    pub fn invalid_field(field: FieldValue, allowed_values: AllowedValues) -> (r: TrackerError)
        ensures
            r == TrackerError::InvalidFieldValue(field, allowed_values),
    {
        TrackerError::InvalidFieldValue(field, allowed_values)
    }

    pub fn missing_field(field: String, allowed_values: AllowedValues) -> (r: TrackerError)
        ensures
            r == TrackerError::MissingRequiredField(field, allowed_values),
    {
        TrackerError::MissingRequiredField(field, allowed_values)
    }

    /// Whether the error is the server's fault, so that its detail must not
    /// leave the process.
    pub fn is_internal_server_error(&self) -> (r: bool)
        ensures
            r == is_internal(*self),
    {
        match self {
            TrackerError::UnexpectedNotFound(..) => true,
            TrackerError::SqlError(..) => true,
            TrackerError::JsonError(p) => match p.kind {
                PayloadErrorKind::Serialize => true,
                _ => false,
            },
            _ => false,
        }
    }

    /// Marks a miss as unexpected: a not-found becomes an unexpected
    /// not-found; any other error is kept.
    pub fn not_found_unexpected(self) -> (r: TrackerError)
        ensures
            match self {
                TrackerError::NotFound(o, k) => r == TrackerError::UnexpectedNotFound(o, k),
                _ => r == self,
            },
    {
        match self {
            TrackerError::NotFound(object, keys) => TrackerError::UnexpectedNotFound(object, keys),
            _ => self,
        }
    }

    /// The stable code that clients branch on.
    pub fn error_code(&self) -> (r: String)
        ensures
            r@ == error_code_text(*self),
    {
        match self {
            TrackerError::NotFound(..) => String::from_str("NotFound"),
            TrackerError::Duplicate(..) => String::from_str("Duplicate"),
            TrackerError::InvalidFieldValue(..) => String::from_str("InvalidFieldValue"),
            TrackerError::MissingRequiredField(..) => String::from_str("MissingRequiredField"),
            TrackerError::ConcurrentUpdate(..) => String::from_str("ConcurrentUpdate"),
            TrackerError::JsonError(p) => match p.kind {
                PayloadErrorKind::ContentType => String::from_str("UnsupportedContentType"),
                PayloadErrorKind::Serialize => String::from_str("InternalServerError"),
                PayloadErrorKind::Deserialize => String::from_str("InvalidJson"),
                PayloadErrorKind::Overflow => String::from_str("PayloadTooLarge"),
                PayloadErrorKind::OverflowKnownLength => String::from_str("PayloadTooLarge"),
                PayloadErrorKind::Payload => String::from_str("InvalidPayload"),
                PayloadErrorKind::Other => String::from_str("UnknownPayloadError"),
            },
            TrackerError::QueryStringError(..) => String::from_str("InvalidQueryString"),
            TrackerError::PathError(..) => String::from_str("InvalidUrlPath"),
            _ => String::from_str("InternalServerError"),
        }
    }

    /// The HTTP status of the error.
    pub fn status_code(&self) -> (r: u16)
        ensures
            r == status_of(*self),
    {
        match self {
            TrackerError::NotFound(..) => 404,
            TrackerError::Duplicate(..) => 409,
            TrackerError::InvalidFieldValue(..) => 400,
            TrackerError::MissingRequiredField(..) => 400,
            TrackerError::ConcurrentUpdate(..) => 409,
            TrackerError::SqlError(..) => 500,
            TrackerError::UnexpectedNotFound(..) => 500,
            TrackerError::JsonError(p) => match p.kind {
                PayloadErrorKind::ContentType => 415,
                PayloadErrorKind::Overflow => 413,
                PayloadErrorKind::OverflowKnownLength => 413,
                PayloadErrorKind::Serialize => 500,
                PayloadErrorKind::Deserialize => 400,
                PayloadErrorKind::Other => 400,
                PayloadErrorKind::Payload => p.status,
            },
            TrackerError::QueryStringError(..) => 400,
            TrackerError::PathError(..) => 404,
        }
    }

    /// The human-readable message.
    pub fn message(&self) -> (r: String)
        requires
            tracker_error_wf(*self),
        ensures
            r@ == message_text(*self),
    {
        match self {
            TrackerError::NotFound(o, k) => {
                let mut r = String::from_str("No ");
                let a = o.to_text();
                r.append(a.as_str());
                r.append(" exists with ");
                let b = k.to_text();
                r.append(b.as_str());
                r.append(".");
                r
            },
            TrackerError::UnexpectedNotFound(o, k) => {
                let mut r = String::from_str("Unexpectedly did not find ");
                let a = o.to_text();
                r.append(a.as_str());
                r.append(" with ");
                let b = k.to_text();
                r.append(b.as_str());
                r.append(".");
                r
            },
            TrackerError::Duplicate(o, k) => {
                let mut r = String::from_str("A ");
                let a = o.to_text();
                r.append(a.as_str());
                r.append(" with the ");
                let b = k.to_text();
                r.append(b.as_str());
                r.append(" already exists.");
                r
            },
            TrackerError::InvalidFieldValue(f, a) => {
                let mut r = String::from_str("The value `");
                let v = format_value(&f.value);
                r.append(v.as_str());
                r.append("` for the field ");
                r.append(f.name.as_str());
                r.append(" is invalid. ");
                let t = a.to_text();
                r.append(t.as_str());
                r
            },
            TrackerError::MissingRequiredField(name, a) => {
                let mut r = String::from_str("Missing required field ");
                r.append(name.as_str());
                r.append(". ");
                let t = a.to_text();
                r.append(t.as_str());
                r
            },
            TrackerError::ConcurrentUpdate(o, k) => {
                let mut r = String::from_str("Another transaction has already updated the ");
                let a = o.to_text();
                r.append(a.as_str());
                r.append(" with ");
                let b = k.to_text();
                r.append(b.as_str());
                r.append(". Please try again.");
                r
            },
            TrackerError::SqlError(m) => m.clone(),
            TrackerError::JsonError(p) => p.message.clone(),
            TrackerError::QueryStringError(m) => m.clone(),
            TrackerError::PathError(m) => m.clone(),
        }
    }

    /// The response sent to the client: the code, the message (a generic one
    /// for internal errors), and the parts of the error that concern it.
    pub fn to_error_response(&self) -> (r: ErrorResponse)
        requires
            tracker_error_wf(*self),
        ensures
            r.error_code@ == error_code_text(*self),
            is_internal(*self) ==> r.message@ == INTERNAL_ERROR_MESSAGE@,
            !is_internal(*self) ==> r.message@ == message_text(*self),
            response_parts(*self, r),
    {
        let mut message = self.message();
        let mut keys: Option<Vec<FieldValue>> = None;
        let mut object: Option<ObjectKind> = None;
        let mut field: Option<FieldValue> = None;
        let mut allowed_values: Option<AllowedValues> = None;
        match self {
            TrackerError::NotFound(o, k) => {
                object = Some(*o);
                keys = Some(copy_field_values(&k.0));
            },
            TrackerError::Duplicate(o, k) => {
                object = Some(*o);
                keys = Some(copy_field_values(&k.0));
            },
            TrackerError::InvalidFieldValue(fv, av) => {
                field = Some(fv.copy());
                allowed_values = Some(av.copy());
            },
            TrackerError::MissingRequiredField(name, av) => {
                field = Some(FieldValue::null_value(name.as_str()));
                allowed_values = Some(av.copy());
            },
            TrackerError::ConcurrentUpdate(o, k) => {
                object = Some(*o);
                keys = Some(copy_field_values(&k.0));
            },
            _ => {},
        }
        if self.is_internal_server_error() {
            message = String::from_str(INTERNAL_ERROR_MESSAGE);
        }
        ErrorResponse {
            error_code: self.error_code(),
            message,
            object,
            keys,
            field,
            allowed_values,
        }
    }
}

} // verus!
