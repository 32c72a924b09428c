//! Scalar values that flow through validation and error reporting, and the
//! descriptions of a field's legal domain.
use crate::text::{i64_text, int_text, join_texts, nat_text, u64_text};
use vstd::prelude::*;

verus! {

/// Text of the UTC date-time `secs` seconds and `nanos` nanoseconds after the
/// Unix epoch, as chrono renders it; `None` where chrono has no such instant.
pub uninterp spec fn utc_text(secs: i64, nanos: u32) -> Option<Seq<char>>;

/// Relies on chrono's `DateTime::<Utc>::from_timestamp` and its `Display`:
/// `None` exactly where chrono refuses the instant, else the rendered text.
#[verifier::external_body]
fn utc_datetime_text(secs: i64, nanos: u32) -> (r: Option<String>)
    ensures
        match r {
            Some(t) => utc_text(secs, nanos) == Some(t@),
            None => utc_text(secs, nanos) is None,
        },
{
    match chrono::DateTime::<chrono::Utc>::from_timestamp(secs, nanos) {
        Some(d) => Some(d.to_string()),
        None => None,
    }
}

pub open spec fn hex_digit(d: int) -> char {
    if d < 10 {
        crate::text::digit_char(d)
    } else if d == 10 {
        'a'
    } else if d == 11 {
        'b'
    } else if d == 12 {
        'c'
    } else if d == 13 {
        'd'
    } else if d == 14 {
        'e'
    } else {
        'f'
    }
}

/// The lowest `n` hexadecimal digits of `v`, most significant first.
pub open spec fn hex_text(v: nat, n: nat) -> Seq<char>
    decreases n,
{
    if n == 0 {
        seq![]
    } else {
        hex_text(v / 16, (n - 1) as nat).push(hex_digit((v % 16) as int))
    }
}

/// The hyphenated lower-case form of a 128-bit identifier: 8-4-4-4-12
/// hexadecimal digits.
pub open spec fn hyphenated(v: u128) -> Seq<char> {
    let h = hex_text(v as nat, 32);
    h.subrange(0, 8) + seq!['-'] + h.subrange(8, 12) + seq!['-'] + h.subrange(12, 16) + seq!['-']
        + h.subrange(16, 20) + seq!['-'] + h.subrange(20, 32)
}

/// Relies on uuid's `Uuid::from_u128` (big-endian bytes) and its `Display`,
/// which writes the hyphenated lower-case hexadecimal form.
#[verifier::external_body]
fn uuid_text(v: u128) -> (r: String)
    ensures
        r@ == hyphenated(v),
{
    uuid::Uuid::from_u128(v).to_string()
}

/// An instant in UTC that chrono can represent.
#[derive(Debug, Clone, Copy, PartialEq, Eq)]
pub struct Timestamp {
    secs: i64,
    nanos: u32,
}

impl View for Timestamp {
    type V = (i64, u32);

    closed spec fn view(&self) -> (i64, u32) {
        (self.secs, self.nanos)
    }
}

impl Timestamp {
    #[verifier::type_invariant]
    spec fn representable(&self) -> bool {
        utc_text(self.secs, self.nanos) is Some
    }

    /// The instant `secs` seconds and `nanos` nanoseconds after the Unix
    /// epoch, if chrono can represent it.
    pub fn from_unix(secs: i64, nanos: u32) -> (r: Option<Timestamp>)
        ensures
            match r {
                Some(t) => t@ == (secs, nanos) && utc_text(secs, nanos) is Some,
                None => utc_text(secs, nanos) is None,
            },
    {
        match utc_datetime_text(secs, nanos) {
            Some(_) => Some(Timestamp { secs, nanos }),
            None => None,
        }
    }

    pub fn secs(&self) -> (r: i64)
        ensures
            r == self@.0,
    {
        self.secs
    }

    pub fn nanos(&self) -> (r: u32)
        ensures
            r == self@.1,
    {
        self.nanos
    }

    pub open spec fn spec_text(self) -> Seq<char> {
        match utc_text(self@.0, self@.1) {
            Some(t) => t,
            None => seq![],
        }
    }

    /// The rendered date-time.
    pub fn to_text(&self) -> (r: String)
        ensures
            r@ == self.spec_text(),
            utc_text(self@.0, self@.1) is Some,
    {
        proof {
            use_type_invariant(self);
        }
        match utc_datetime_text(self.secs, self.nanos) {
            Some(t) => t,
            None => String::new(),
        }
    }
}

/// A scalar that can appear as a field value, a key or a bound. The tag
/// decides how it is rendered.
#[derive(Debug, Clone, PartialEq)]
pub enum Value {
    Uuid(u128),
    String(String),
    Int8(i8),
    Int16(i16),
    Int32(i32),
    Int64(i64),
    Uint8(u8),
    Uint16(u16),
    Uint32(u32),
    Uint64(u64),
    /// A floating-point number, held as its decimal rendering.
    Float(String),
    DateTime(Timestamp),
}

pub open spec fn value_text(v: Value) -> Seq<char> {
    match v {
        Value::Uuid(u) => hyphenated(u),
        Value::String(s) => s@,
        Value::Int8(i) => int_text(i as int),
        Value::Int16(i) => int_text(i as int),
        Value::Int32(i) => int_text(i as int),
        Value::Int64(i) => int_text(i as int),
        Value::Uint8(i) => nat_text(i as nat),
        Value::Uint16(i) => nat_text(i as nat),
        Value::Uint32(i) => nat_text(i as nat),
        Value::Uint64(i) => nat_text(i as nat),
        Value::Float(t) => t@,
        Value::DateTime(t) => t.spec_text(),
    }
}

/// `v` is the text `t`.
pub open spec fn is_text(v: Value, t: Seq<char>) -> bool {
    v matches Value::String(s) && s@ == t
}

impl Value {
    /// An equal copy.
    pub fn copy(&self) -> (r: Value)
        ensures
            r == *self,
    {
        match self {
            Value::Uuid(u) => Value::Uuid(*u),
            Value::String(s) => Value::String(s.clone()),
            Value::Int8(i) => Value::Int8(*i),
            Value::Int16(i) => Value::Int16(*i),
            Value::Int32(i) => Value::Int32(*i),
            Value::Int64(i) => Value::Int64(*i),
            Value::Uint8(i) => Value::Uint8(*i),
            Value::Uint16(i) => Value::Uint16(*i),
            Value::Uint32(i) => Value::Uint32(*i),
            Value::Uint64(i) => Value::Uint64(*i),
            Value::Float(t) => Value::Float(t.clone()),
            Value::DateTime(t) => Value::DateTime(*t),
        }
    }

    /// A text value.
    pub fn text(s: &str) -> (r: Value)
        ensures
            is_text(r, s@),
    {
        Value::String(String::from_str(s))
    }

    /// The rendered value.
    pub fn to_text(&self) -> (r: String)
        ensures
            r@ == value_text(*self),
    {
        match self {
            Value::Uuid(u) => uuid_text(*u),
            Value::String(s) => s.clone(),
            Value::Int8(i) => i64_text(*i as i64),
            Value::Int16(i) => i64_text(*i as i64),
            Value::Int32(i) => i64_text(*i as i64),
            Value::Int64(i) => i64_text(*i),
            Value::Uint8(i) => u64_text(*i as u64),
            Value::Uint16(i) => u64_text(*i as u64),
            Value::Uint32(i) => u64_text(*i as u64),
            Value::Uint64(i) => u64_text(*i),
            Value::Float(t) => t.clone(),
            Value::DateTime(t) => t.to_text(),
        }
    }
}

/// "Field `name` has `value`", or has no value.
#[derive(Debug, Clone, PartialEq)]
pub struct FieldValue {
    pub name: String,
    pub value: Option<Value>,
}

/// The text of an optional value: `null` when absent.
pub open spec fn optional_value_text(v: Option<Value>) -> Seq<char> {
    match v {
        Some(v) => value_text(v),
        None => "null"@,
    }
}

pub open spec fn field_value_text(f: FieldValue) -> Seq<char> {
    f.name@ + seq![' ', '`'] + optional_value_text(f.value) + seq!['`']
}

/// Renders an optional value; an absent one reads `null`.
pub fn format_value(value: &Option<Value>) -> (r: String)
    ensures
        r@ == optional_value_text(*value),
{
    match value {
        Some(v) => v.to_text(),
        None => String::from_str("null"),
    }
}

impl FieldValue {
    pub fn new(name: &str, value: Value) -> (r: FieldValue)
        ensures
            r.name@ == name@,
            r.value == Some(value),
    {
        FieldValue { name: String::from_str(name), value: Some(value) }
    }

    pub fn null_value(name: &str) -> (r: FieldValue)
        ensures
            r.name@ == name@,
            r.value is None,
    {
        FieldValue { name: String::from_str(name), value: None }
    }

    /// An equal copy.
    pub fn copy(&self) -> (r: FieldValue)
        ensures
            r == *self,
    {
        let value = match &self.value {
            Some(v) => Some(v.copy()),
            None => None,
        };
        FieldValue { name: self.name.clone(), value }
    }

    /// Renders as ``name `value` ``.
    pub fn to_text(&self) -> (r: String)
        ensures
            r@ == field_value_text(*self),
    {
        let mut r = self.name.clone();
        r.append(" `");
        let v = format_value(&self.value);
        r.append(v.as_str());
        r.append("`");
        proof {
            reveal_strlit(" `");
            reveal_strlit("`");
            assert(r@ =~= field_value_text(*self));
        }
        r
    }
}

/// An ordered group of field values, such as the columns of a composite key.
#[derive(Debug, Clone, PartialEq)]
pub struct FieldValues(pub Vec<FieldValue>);

pub open spec fn field_values_text(fs: Seq<FieldValue>) -> Seq<char> {
    join_texts(fs.map_values(|f: FieldValue| field_value_text(f)), ", "@)
}

/// An equal copy of a list of field values.
pub fn copy_field_values(fs: &Vec<FieldValue>) -> (r: Vec<FieldValue>)
    ensures
        r@ == fs@,
{
    let mut out: Vec<FieldValue> = Vec::new();
    let mut i: usize = 0;
    while i < fs.len()
        invariant
            i <= fs@.len(),
            out@ == fs@.subrange(0, i as int),
        decreases fs@.len() - i,
    {
        out.push(fs[i].copy());
        proof {
            assert(out@ =~= fs@.subrange(0, i + 1));
        }
        i = i + 1;
    }
    proof {
        assert(fs@.subrange(0, i as int) =~= fs@);
    }
    out
}

/// Joins rendered parts with `sep`.
pub fn join_strings(parts: &Vec<String>, sep: &str) -> (r: String)
    ensures
        r@ == join_texts(parts@.map_values(|p: String| p@), sep@),
{
    let ghost views = parts@.map_values(|p: String| p@);
    let mut r = String::new();
    let mut i: usize = 0;
    while i < parts.len()
        invariant
            i <= parts@.len(),
            views == parts@.map_values(|p: String| p@),
            r@ == join_texts(views.subrange(0, i as int), sep@),
        decreases parts@.len() - i,
    {
        let ghost before = views.subrange(0, i as int);
        let ghost after = views.subrange(0, i + 1);
        proof {
            assert(after.drop_last() =~= before);
        }
        if i == 0 {
            r = parts[i].clone();
        } else {
            r.append(sep);
            r.append(parts[i].as_str());
        }
        i = i + 1;
    }
    proof {
        assert(views.subrange(0, i as int) =~= views);
    }
    r
}

impl FieldValues {
    /// A group of one.
    pub fn single(value: FieldValue) -> (r: FieldValues)
        ensures
            r.0@ == seq![value],
    {
        FieldValues(vec![value])
    }

    /// Renders each field value, separated by `, `.
    pub fn to_text(&self) -> (r: String)
        ensures
            r@ == field_values_text(self.0@),
    {
        let mut parts: Vec<String> = Vec::new();
        let mut i: usize = 0;
        while i < self.0.len()
            invariant
                i <= self.0@.len(),
                parts@.len() == i,
                parts@.map_values(|p: String| p@) == self.0@.subrange(0, i as int).map_values(
                    |f: FieldValue| field_value_text(f),
                ),
            decreases self.0@.len() - i,
        {
            let t = self.0[i].to_text();
            let ghost old_parts = parts@;
            parts.push(t);
            proof {
                assert(parts@.map_values(|p: String| p@) =~= old_parts.map_values(|p: String| p@).push(t@));
                assert(self.0@.subrange(0, i + 1).map_values(|f: FieldValue| field_value_text(f))
                    =~= self.0@.subrange(0, i as int).map_values(|f: FieldValue| field_value_text(f)).push(
                    field_value_text(self.0@[i as int]),
                ));
                assert(parts@.map_values(|p: String| p@) =~= self.0@.subrange(0, i + 1).map_values(
                    |f: FieldValue| field_value_text(f),
                ));
            }
            i = i + 1;
        }
        proof {
            assert(self.0@.subrange(0, i as int) =~= self.0@);
        }
        join_strings(&parts, ", ")
    }
}

/// One end of a range: the value and whether it is itself allowed.
#[derive(Debug, Clone, PartialEq)]
pub struct Bound {
    pub value: Value,
    pub inclusive: bool,
}

pub open spec fn bound_text(b: Bound) -> Seq<char> {
    if b.inclusive {
        ">= "@ + value_text(b.value)
    } else {
        "> "@ + value_text(b.value)
    }
}

impl Bound {
    pub fn inclusive(value: Value) -> (r: Bound)
        ensures
            r.value == value,
            r.inclusive,
    {
        Bound { value, inclusive: true }
    }

    pub fn exclusive(value: Value) -> (r: Bound)
        ensures
            r.value == value,
            !r.inclusive,
    {
        Bound { value, inclusive: false }
    }

    /// An equal copy.
    pub fn copy(&self) -> (r: Bound)
        ensures
            r == *self,
    {
        Bound { value: self.value.copy(), inclusive: self.inclusive }
    }

    /// Renders as `>= v` or `> v`.
    pub fn to_text(&self) -> (r: String)
        ensures
            r@ == bound_text(*self),
    {
        let mut r = if self.inclusive {
            String::from_str(">= ")
        } else {
            String::from_str("> ")
        };
        let v = self.value.to_text();
        r.append(v.as_str());
        r
    }
}

/// The format that ISO 8601 date-times are described with.
pub const ISO_FORMAT: &'static str = "yyyy-mm-ddTHH:MM:ss[.SSS]Z";

/// The legal domain of a field, for error messages.
#[derive(Debug, Clone, PartialEq)]
pub enum AllowedValues {
    Choice { values: Vec<Value> },
    Integer { min: Option<Bound>, max: Option<Bound> },
    Float { min: Option<Bound>, max: Option<Bound> },
    DateTime { format: String },
    String { min_length: Option<usize>, max_length: Option<usize> },
}

/// The mathematical value of [`AllowedValues`].
pub enum AllowedValuesView {
    Choice(Seq<Value>),
    Integer(Option<Bound>, Option<Bound>),
    Float(Option<Bound>, Option<Bound>),
    DateTime(Seq<char>),
    String(Option<usize>, Option<usize>),
}

impl View for AllowedValues {
    type V = AllowedValuesView;

    open spec fn view(&self) -> AllowedValuesView {
        match self {
            AllowedValues::Choice { values } => AllowedValuesView::Choice(values@),
            AllowedValues::Integer { min, max } => AllowedValuesView::Integer(*min, *max),
            AllowedValues::Float { min, max } => AllowedValuesView::Float(*min, *max),
            AllowedValues::DateTime { format } => AllowedValuesView::DateTime(format@),
            AllowedValues::String { min_length, max_length } => AllowedValuesView::String(
                *min_length,
                *max_length,
            ),
        }
    }
}

/// A string domain names at least one length bound.
pub open spec fn allowed_values_wf(a: AllowedValues) -> bool {
    a matches AllowedValues::String { min_length, max_length } ==> (min_length is Some
        || max_length is Some)
}

pub open spec fn range_text(kind: Seq<char>, min: Option<Bound>, max: Option<Bound>) -> Seq<char> {
    match min {
        Some(lo) => match max {
            Some(hi) => "Value must be "@ + kind + seq![' '] + bound_text(lo) + " and "@ + bound_text(
                hi,
            ) + seq!['.'],
            None => "Value must be  "@ + kind + seq![' '] + bound_text(lo) + seq!['.'],
        },
        None => match max {
            Some(hi) => "Value must be "@ + kind + seq![' '] + bound_text(hi) + seq!['.'],
            None => "Value must be "@ + kind + seq!['.'],
        },
    }
}

pub open spec fn allowed_values_text(a: AllowedValues) -> Seq<char> {
    match a {
        AllowedValues::Choice { values } => "Allowed values are: "@ + join_texts(
            values@.map_values(|v: Value| value_text(v)),
            ", "@,
        ),
        AllowedValues::Integer { min, max } => range_text("an integer"@, min, max),
        AllowedValues::Float { min, max } => range_text("a number"@, min, max),
        AllowedValues::DateTime { format } => "Must be a date time in the format `"@ + format@
            + "`."@,
        AllowedValues::String { min_length, max_length } => match min_length {
            Some(lo) => match max_length {
                Some(hi) => "Value must be between "@ + nat_text(lo as nat) + " and "@ + nat_text(
                    hi as nat,
                ) + " characters long."@,
                None => "Value must be at least "@ + nat_text(lo as nat) + " characters long."@,
            },
            None => match max_length {
                Some(hi) => "Value must be at most "@ + nat_text(hi as nat) + " characters long."@,
                None => seq![],
            },
        },
    }
}

fn copy_bound(b: &Option<Bound>) -> (r: Option<Bound>)
    ensures
        r == *b,
{
    match b {
        Some(b) => Some(b.copy()),
        None => None,
    }
}

/// An equal copy of a list of values.
pub fn copy_values(vs: &Vec<Value>) -> (r: Vec<Value>)
    ensures
        r@ == vs@,
{
    let mut out: Vec<Value> = Vec::new();
    let mut i: usize = 0;
    while i < vs.len()
        invariant
            i <= vs@.len(),
            out@ == vs@.subrange(0, i as int),
        decreases vs@.len() - i,
    {
        out.push(vs[i].copy());
        proof {
            assert(out@ =~= vs@.subrange(0, i + 1));
        }
        i = i + 1;
    }
    proof {
        assert(vs@.subrange(0, i as int) =~= vs@);
    }
    out
}

fn range_to_text(kind: &str, min: &Option<Bound>, max: &Option<Bound>) -> (r: String)
    ensures
        r@ == range_text(kind@, *min, *max),
{
    proof {
        reveal_strlit(" ");
        reveal_strlit(".");
    }
    let mut r = match min {
        Some(lo) => match max {
            Some(_) => String::from_str("Value must be "),
            None => String::from_str("Value must be  "),
        },
        None => String::from_str("Value must be "),
    };
    r.append(kind);
    match min {
        Some(lo) => {
            r.append(" ");
            let t = lo.to_text();
            r.append(t.as_str());
            match max {
                Some(hi) => {
                    r.append(" and ");
                    let u = hi.to_text();
                    r.append(u.as_str());
                },
                None => {},
            }
        },
        None => match max {
            Some(hi) => {
                r.append(" ");
                let u = hi.to_text();
                r.append(u.as_str());
            },
            None => {},
        },
    }
    r.append(".");
    proof {
        assert(" "@ =~= seq![' ']);
        assert("."@ =~= seq!['.']);
        assert(r@ =~= range_text(kind@, *min, *max));
    }
    r
}

impl AllowedValues {
    pub fn choice(values: Vec<Value>) -> (r: AllowedValues)
        ensures
            r == (AllowedValues::Choice { values }),
    {
        AllowedValues::Choice { values }
    }

    pub fn integer_between(min: Bound, max: Bound) -> (r: AllowedValues)
        ensures
            r == (AllowedValues::Integer { min: Some(min), max: Some(max) }),
    {
        AllowedValues::Integer { min: Some(min), max: Some(max) }
    }

    pub fn integer_min(min: Bound) -> (r: AllowedValues)
        ensures
            r == (AllowedValues::Integer { min: Some(min), max: None }),
    {
        AllowedValues::Integer { min: Some(min), max: None }
    }

    pub fn integer_max(max: Bound) -> (r: AllowedValues)
        ensures
            r == (AllowedValues::Integer { min: None, max: Some(max) }),
    {
        AllowedValues::Integer { min: None, max: Some(max) }
    }

    pub fn float_between(min: Bound, max: Bound) -> (r: AllowedValues)
        ensures
            r == (AllowedValues::Float { min: Some(min), max: Some(max) }),
    {
        AllowedValues::Float { min: Some(min), max: Some(max) }
    }

    pub fn float_min(min: Bound) -> (r: AllowedValues)
        ensures
            r == (AllowedValues::Float { min: Some(min), max: None }),
    {
        AllowedValues::Float { min: Some(min), max: None }
    }

    pub fn float_max(max: Bound) -> (r: AllowedValues)
        ensures
            r == (AllowedValues::Float { min: None, max: Some(max) }),
    {
        AllowedValues::Float { min: None, max: Some(max) }
    }

    pub fn datetime_iso() -> (r: AllowedValues)
        ensures
            r matches AllowedValues::DateTime { format } && format@ == ISO_FORMAT@,
    {
        AllowedValues::DateTime { format: String::from_str(ISO_FORMAT) }
    }

    pub fn datetime(format: String) -> (r: AllowedValues)
        ensures
            r == (AllowedValues::DateTime { format }),
    {
        AllowedValues::DateTime { format }
    }

    pub fn string_len_between(min_length: usize, max_length: usize) -> (r: AllowedValues)
        ensures
            r == (AllowedValues::String {
                min_length: Some(min_length),
                max_length: Some(max_length),
            }),
            allowed_values_wf(r),
    {
        AllowedValues::String { min_length: Some(min_length), max_length: Some(max_length) }
    }

    pub fn string_len_min(min_length: usize) -> (r: AllowedValues)
        ensures
            r == (AllowedValues::String { min_length: Some(min_length), max_length: None }),
            allowed_values_wf(r),
    {
        AllowedValues::String { min_length: Some(min_length), max_length: None }
    }

    pub fn string_len_max(max_length: usize) -> (r: AllowedValues)
        ensures
            r == (AllowedValues::String { min_length: None, max_length: Some(max_length) }),
            allowed_values_wf(r),
    {
        AllowedValues::String { min_length: None, max_length: Some(max_length) }
    }

    /// An equal copy.
    pub fn copy(&self) -> (r: AllowedValues)
        ensures
            r@ == self@,
            allowed_values_wf(r) == allowed_values_wf(*self),
            allowed_values_text(r) == allowed_values_text(*self),
    {
        match self {
            AllowedValues::Choice { values } => AllowedValues::Choice { values: copy_values(values) },
            AllowedValues::Integer { min, max } => AllowedValues::Integer {
                min: copy_bound(min),
                max: copy_bound(max),
            },
            AllowedValues::Float { min, max } => AllowedValues::Float {
                min: copy_bound(min),
                max: copy_bound(max),
            },
            AllowedValues::DateTime { format } => AllowedValues::DateTime { format: format.clone() },
            AllowedValues::String { min_length, max_length } => AllowedValues::String {
                min_length: *min_length,
                max_length: *max_length,
            },
        }
    }

    /// Describes the domain in words.
    pub fn to_text(&self) -> (r: String)
        requires
            allowed_values_wf(*self),
        ensures
            r@ == allowed_values_text(*self),
    {
        match self {
            AllowedValues::Choice { values } => {
                let mut parts: Vec<String> = Vec::new();
                let mut i: usize = 0;
                while i < values.len()
                    invariant
                        i <= values@.len(),
                        parts@.len() == i,
                        parts@.map_values(|p: String| p@) == values@.subrange(0, i as int).map_values(
                            |v: Value| value_text(v),
                        ),
                    decreases values@.len() - i,
                {
                    let t = values[i].to_text();
                    let ghost old_parts = parts@;
                    parts.push(t);
                    proof {
                        assert(parts@.map_values(|p: String| p@) =~= old_parts.map_values(
                            |p: String| p@,
                        ).push(t@));
                        assert(values@.subrange(0, i + 1).map_values(|v: Value| value_text(v))
                            =~= values@.subrange(0, i as int).map_values(
                            |v: Value| value_text(v),
                        ).push(value_text(values@[i as int])));
                    }
                    i = i + 1;
                }
                proof {
                    assert(values@.subrange(0, i as int) =~= values@);
                }
                let mut r = String::from_str("Allowed values are: ");
                let j = join_strings(&parts, ", ");
                r.append(j.as_str());
                r
            },
            AllowedValues::Integer { min, max } => range_to_text("an integer", min, max),
            AllowedValues::Float { min, max } => range_to_text("a number", min, max),
            AllowedValues::DateTime { format } => {
                let mut r = String::from_str("Must be a date time in the format `");
                r.append(format.as_str());
                r.append("`.");
                r
            },
            AllowedValues::String { min_length, max_length } => match min_length {
                Some(lo) => match max_length {
                    Some(hi) => {
                        let mut r = String::from_str("Value must be between ");
                        let a = u64_text(*lo as u64);
                        r.append(a.as_str());
                        r.append(" and ");
                        let b = u64_text(*hi as u64);
                        r.append(b.as_str());
                        r.append(" characters long.");
                        r
                    },
                    None => {
                        let mut r = String::from_str("Value must be at least ");
                        let a = u64_text(*lo as u64);
                        r.append(a.as_str());
                        r.append(" characters long.");
                        r
                    },
                },
                None => match max_length {
                    Some(hi) => {
                        let mut r = String::from_str("Value must be at most ");
                        let b = u64_text(*hi as u64);
                        r.append(b.as_str());
                        r.append(" characters long.");
                        r
                    },
                    None => String::new(),
                },
            },
        }
    }
}

} // verus!
