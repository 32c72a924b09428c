//! Solar systems: their columns, their sortable fields (which reach into the
//! owning save's fields) and the join that sorting by a save field needs.
use crate::data::{acceptable, normalized, page_request_error, PageRequest, PageRequestRaw};
use crate::error::{ObjectKind, TrackerError};
use crate::store::{
    id_key, is_id_field, is_text_field, is_violation, passthrough, violates, DbErrorKind,
    StorageError,
};
use crate::value::{FieldValue, FieldValues, Value};
use crate::field::{
    lemma_prefixed_paths_distinct, prefix_joins, prefixed_joins, ColumnRef, Field,
    InvalidFieldError, Join, JoinView,
};
use crate::game_save::{GameSaveColumns, SaveFields};
use crate::text::{eq_ignore_case, lemma_eq_ignore_case_alike, fold_ascii, starts_with_ignore_case, text_eq_ignore_case,
    text_starts_with_ignore_case};
use vstd::prelude::*;

verus! {

/// The columns of the solar systems table.
#[derive(Debug, Clone, Copy, PartialEq, Eq, Structural)]
pub enum SolarSystemColumns {
    Table,
    Id,
    CreatedAt,
    UpdatedAt,
    Version,
    SaveId,
    Name,
    Notes,
}

pub open spec fn solar_system_column_text(c: SolarSystemColumns) -> Seq<char> {
    match c {
        SolarSystemColumns::Table => "solar_systems"@,
        SolarSystemColumns::Id => "id"@,
        SolarSystemColumns::CreatedAt => "created_at"@,
        SolarSystemColumns::UpdatedAt => "updated_at"@,
        SolarSystemColumns::Version => "version"@,
        SolarSystemColumns::SaveId => "save_id"@,
        SolarSystemColumns::Name => "name"@,
        SolarSystemColumns::Notes => "notes"@,
    }
}

impl SolarSystemColumns {
    /// The SQL name of the table or column.
    pub fn as_str(&self) -> (r: &'static str)
        ensures
            r@ == solar_system_column_text(*self),
    {
        match self {
            SolarSystemColumns::Table => "solar_systems",
            SolarSystemColumns::Id => "id",
            SolarSystemColumns::CreatedAt => "created_at",
            SolarSystemColumns::UpdatedAt => "updated_at",
            SolarSystemColumns::Version => "version",
            SolarSystemColumns::SaveId => "save_id",
            SolarSystemColumns::Name => "name",
            SolarSystemColumns::Notes => "notes",
        }
    }

    pub fn to_text(&self) -> (r: String)
        ensures
            r@ == solar_system_column_text(*self),
    {
        String::from_str(self.as_str())
    }
}

/// The fields that solar systems can be sorted by; `Save` reaches into the
/// owning save's fields.
#[derive(Debug, Clone, Copy, PartialEq, Eq, Structural)]
pub enum SolarSystemFields {
    Id,
    Save(SaveFields),
    CreatedAt,
    Name,
    Notes,
}

/// The join from a solar system to its save.
pub open spec fn save_join() -> JoinView {
    JoinView {
        path: "save"@,
        table: "saves"@,
        column: ("saves"@, "id"@),
        foreign_key: ("solar_systems"@, "save_id"@),
    }
}

/// What follows a relation prefix and its separator.
pub open spec fn after_prefix(s: Seq<char>, prefix_len: int) -> Seq<char> {
    if s.len() <= prefix_len + 1 {
        seq![]
    } else {
        s.subrange(prefix_len + 1, s.len() as int)
    }
}

impl Default for SolarSystemFields {
    fn default() -> (r: SolarSystemFields)
        ensures
            r == SolarSystemFields::CreatedAt,
    {
        SolarSystemFields::CreatedAt
    }
}

impl Field for SolarSystemFields {
    open spec fn spec_name(&self) -> Seq<char> {
        match self {
            SolarSystemFields::Id => "id"@,
            SolarSystemFields::Save(f) => "save"@ + seq!['.'] + f.spec_name(),
            SolarSystemFields::CreatedAt => "created_at"@,
            SolarSystemFields::Name => "name"@,
            SolarSystemFields::Notes => "notes"@,
        }
    }

    open spec fn spec_parse(s: Seq<char>) -> Option<SolarSystemFields> {
        if eq_ignore_case(s, "id"@) {
            Some(SolarSystemFields::Id)
        } else if starts_with_ignore_case(s, "save"@) {
            let rest = after_prefix(s, 4);
            if rest.len() == 0 {
                Some(SolarSystemFields::Save(SaveFields::spec_default()))
            } else {
                match SaveFields::spec_parse(rest) {
                    Some(f) => Some(SolarSystemFields::Save(f)),
                    None => None,
                }
            }
        } else if eq_ignore_case(s, "created_at"@) {
            Some(SolarSystemFields::CreatedAt)
        } else if eq_ignore_case(s, "name"@) {
            Some(SolarSystemFields::Name)
        } else if eq_ignore_case(s, "notes"@) {
            Some(SolarSystemFields::Notes)
        } else {
            None
        }
    }

    open spec fn spec_unknown_part(s: Seq<char>) -> Seq<char> {
        if !eq_ignore_case(s, "id"@) && starts_with_ignore_case(s, "save"@) {
            SaveFields::spec_unknown_part(after_prefix(s, 4))
        } else {
            s
        }
    }

    open spec fn spec_values() -> Seq<SolarSystemFields> {
        seq![SolarSystemFields::Id] + SaveFields::spec_values().map_values(
            |f: SaveFields| SolarSystemFields::Save(f),
        ) + seq![SolarSystemFields::CreatedAt, SolarSystemFields::Name, SolarSystemFields::Notes]
    }

    open spec fn spec_default() -> SolarSystemFields {
        SolarSystemFields::CreatedAt
    }

    open spec fn spec_column(&self) -> (Seq<char>, Seq<char>) {
        match self {
            SolarSystemFields::Save(f) => f.spec_column(),
            _ => ("solar_systems"@, self.spec_name()),
        }
    }

    open spec fn spec_joins(&self) -> Seq<JoinView> {
        match self {
            SolarSystemFields::Save(f) => seq![save_join()] + prefixed_joins("save"@, f.spec_joins()),
            _ => seq![],
        }
    }

    fn column(&self) -> (r: ColumnRef) {
        let t = SolarSystemColumns::Table.as_str();
        match self {
            SolarSystemFields::Id => ColumnRef::new(t, SolarSystemColumns::Id.as_str()),
            SolarSystemFields::Save(f) => f.column(),
            SolarSystemFields::CreatedAt => ColumnRef::new(t, SolarSystemColumns::CreatedAt.as_str()),
            SolarSystemFields::Name => ColumnRef::new(t, SolarSystemColumns::Name.as_str()),
            SolarSystemFields::Notes => ColumnRef::new(t, SolarSystemColumns::Notes.as_str()),
        }
    }

    fn name(&self) -> (r: String) {
        match self {
            SolarSystemFields::Id => String::from_str("id"),
            SolarSystemFields::Save(f) => {
                let mut r = String::from_str("save");
                r.append(".");
                let n = f.name();
                r.append(n.as_str());
                proof {
                    reveal_strlit(".");
                    assert("."@ =~= seq!['.']);
                }
                r
            },
            SolarSystemFields::CreatedAt => String::from_str("created_at"),
            SolarSystemFields::Name => String::from_str("name"),
            SolarSystemFields::Notes => String::from_str("notes"),
        }
    }

    fn values() -> (r: Vec<SolarSystemFields>) {
        let mut r: Vec<SolarSystemFields> = vec![SolarSystemFields::Id];
        let inner = SaveFields::values();
        let ghost mapped = SaveFields::spec_values().map_values(
            |f: SaveFields| SolarSystemFields::Save(f),
        );
        let mut i: usize = 0;
        while i < inner.len()
            invariant
                i <= inner@.len(),
                inner@ == SaveFields::spec_values(),
                mapped == SaveFields::spec_values().map_values(
                    |f: SaveFields| SolarSystemFields::Save(f),
                ),
                r@ == seq![SolarSystemFields::Id] + mapped.subrange(0, i as int),
            decreases inner@.len() - i,
        {
            r.push(SolarSystemFields::Save(inner[i]));
            proof {
                assert(r@ =~= seq![SolarSystemFields::Id] + mapped.subrange(0, i + 1));
            }
            i = i + 1;
        }
        r.push(SolarSystemFields::CreatedAt);
        r.push(SolarSystemFields::Name);
        r.push(SolarSystemFields::Notes);
        proof {
            assert(mapped.subrange(0, i as int) =~= mapped);
            assert(r@ =~= Self::spec_values());
        }
        r
    }

    fn from_str(s: &str) -> (r: Result<SolarSystemFields, InvalidFieldError>) {
        if text_eq_ignore_case(s, "id") {
            Ok(SolarSystemFields::Id)
        } else if text_starts_with_ignore_case(s, "save") {
            let n = s.unicode_len();
            proof {
                reveal_strlit("save");
            }
            if n <= 5 {
                Ok(SolarSystemFields::Save(SaveFields::default_field()))
            } else {
                let rest = s.substring_char(5, n);
                match SaveFields::from_str(rest) {
                    Ok(f) => Ok(SolarSystemFields::Save(f)),
                    Err(e) => Err(e),
                }
            }
        } else if text_eq_ignore_case(s, "created_at") {
            Ok(SolarSystemFields::CreatedAt)
        } else if text_eq_ignore_case(s, "name") {
            Ok(SolarSystemFields::Name)
        } else if text_eq_ignore_case(s, "notes") {
            Ok(SolarSystemFields::Notes)
        } else {
            Err(InvalidFieldError(String::from_str(s)))
        }
    }

    fn default_field() -> (r: SolarSystemFields) {
        SolarSystemFields::CreatedAt
    }

    fn joins(&self) -> (r: Vec<Join>) {
        match self {
            SolarSystemFields::Save(f) => {
                let own = Join {
                    path: String::from_str("save"),
                    table: String::from_str(GameSaveColumns::Table.as_str()),
                    column: ColumnRef::new(
                        GameSaveColumns::Table.as_str(),
                        GameSaveColumns::Id.as_str(),
                    ),
                    foreign_key: ColumnRef::new(
                        SolarSystemColumns::Table.as_str(),
                        SolarSystemColumns::SaveId.as_str(),
                    ),
                };
                let mut r = vec![own];
                let inner = f.joins();
                let mut nested = prefix_joins("save", &inner);
                r.append(&mut nested);
                proof {
                    assert(crate::field::join_views(r@) =~= self.spec_joins());
                }
                r
            },
            _ => Vec::new(),
        }
    }

    proof fn lemma_parse_name(f: SolarSystemFields) {
        reveal_strlit("id");
        reveal_strlit("save");
        reveal_strlit("created_at");
        reveal_strlit("name");
        reveal_strlit("notes");
        match f {
            SolarSystemFields::Save(g) => {
                SaveFields::lemma_parse_name(g);
                let s = f.spec_name();
                assert(s.subrange(0, 4) =~= "save"@);
                assert(after_prefix(s, 4) =~= g.spec_name());
            },
            _ => {
                let s = f.spec_name();
                if s.len() >= 4 {
                    assert(fold_ascii(s.subrange(0, 4)[0]) != fold_ascii("save"@[0]));
                }
            },
        }
    }

    proof fn lemma_parse_ignores_case(a: Seq<char>, b: Seq<char>) {
        lemma_eq_ignore_case_alike(a, b, "id"@);
        lemma_eq_ignore_case_alike(a, b, "created_at"@);
        lemma_eq_ignore_case_alike(a, b, "name"@);
        lemma_eq_ignore_case_alike(a, b, "notes"@);
        lemma_eq_ignore_case_alike(a, b, "save"@);
        if a.len() > 5 {
            assert(eq_ignore_case(
                a.subrange(5, a.len() as int),
                b.subrange(5, b.len() as int),
            ));
            SaveFields::lemma_parse_ignores_case(after_prefix(a, 4), after_prefix(b, 4));
        }
    }

    proof fn lemma_values_complete(f: SolarSystemFields) {
        let vs = Self::spec_values();
        let inner = SaveFields::spec_values();
        SaveFields::lemma_values_complete(SaveFields::spec_default());
        match f {
            SolarSystemFields::Id => assert(vs[0] == f),
            SolarSystemFields::Save(g) => {
                SaveFields::lemma_values_complete(g);
                let k = inner.index_of(g);
                assert(vs[k + 1] == f);
            },
            SolarSystemFields::CreatedAt => assert(vs[5] == f),
            SolarSystemFields::Name => assert(vs[6] == f),
            SolarSystemFields::Notes => assert(vs[7] == f),
        }
        assert(vs.no_duplicates());
    }

    proof fn lemma_join_paths_distinct(f: SolarSystemFields) {
        match f {
            SolarSystemFields::Save(g) => {
                SaveFields::lemma_join_paths_distinct(g);
                lemma_prefixed_paths_distinct(save_join(), g.spec_joins());
            },
            _ => {
                assert(crate::field::join_paths(f.spec_joins()) =~= seq![]);
            },
        }
    }
}

/// A request to create a solar system.
#[derive(Debug, Clone)]
pub struct CreateSolarSystemRequest {
    pub name: String,
    pub notes: Option<String>,
}

/// A request to change a solar system: each field present replaces the
/// stored one; `notes: Some(None)` clears the notes.
#[derive(Debug, Clone)]
pub struct UpdateSolarSystemRequest {
    pub name: Option<String>,
    pub notes: Option<Option<String>>,
}

impl UpdateSolarSystemRequest {
    /// Applies the request to a solar system's name and notes.
    pub fn apply(&self, name: &mut String, notes: &mut Option<String>)
        ensures
            final(name)@ == (match self.name {
                Some(n) => n@,
                None => old(name)@,
            }),
            *final(notes) == (match self.notes {
                Some(n) => n,
                None => *old(notes),
            }),
    {
        if let Some(n) = &self.name {
            *name = n.clone();
        }
        if let Some(n) = &self.notes {
            *notes = match n {
                Some(t) => Some(t.clone()),
                None => None,
            };
        }
    }
}

/// A search for the solar systems of a save, as it arrives.
#[derive(Debug, Clone)]
pub struct SearchRequestRaw {
    pub page_request: PageRequestRaw,
    pub name: Option<String>,
}

/// A validated search: the page request, and an optional name filter.
#[derive(Debug, Clone)]
pub struct SearchRequest {
    pub page_request: PageRequest<SolarSystemFields>,
    pub name: Option<String>,
}

impl SearchRequest {
    /// Validates the page request; the name filter is kept as it is.
    pub fn try_from(value: SearchRequestRaw) -> (r: Result<SearchRequest, TrackerError>)
        ensures
            r is Ok <==> acceptable::<SolarSystemFields>(value.page_request),
            match r {
                Ok(req) => normalized::<SolarSystemFields>(value.page_request, req.page_request)
                    && req.name == value.name,
                Err(e) => page_request_error::<SolarSystemFields>(value.page_request, e),
            },
    {
        let SearchRequestRaw { page_request, name } = value;
        match PageRequest::<SolarSystemFields>::try_from(page_request) {
            Ok(page_request) => Ok(SearchRequest { page_request, name }),
            Err(e) => Err(e),
        }
    }
}

/// The characters that have a meaning in a regular expression.
pub open spec fn is_regex_meta(c: char) -> bool {
    c == '\\' || c == '.' || c == '+' || c == '*' || c == '?' || c == '(' || c == ')' || c == '|'
        || c == '[' || c == ']' || c == '{' || c == '}' || c == '^' || c == '$' || c == '#' || c
        == '&' || c == '-' || c == '~'
}

/// `s` with a backslash before each regular-expression meta character.
pub open spec fn regex_escaped(s: Seq<char>) -> Seq<char>
    decreases s.len(),
{
    if s.len() == 0 {
        seq![]
    } else if is_regex_meta(s.last()) {
        regex_escaped(s.drop_last()) + seq!['\\', s.last()]
    } else {
        regex_escaped(s.drop_last()).push(s.last())
    }
}

/// Relies on regex's `escape`: each meta character of a regular expression
/// gets a backslash in front, every other character is kept.
#[verifier::external_body]
fn regex_escape(s: &str) -> (r: String)
    ensures
        r@ == regex_escaped(s@),
{
    regex::escape(s)
}

/// The case-insensitive pattern that finds `name` at the start of a solar
/// system's name or after white space.
pub open spec fn name_pattern(name: Seq<char>) -> Seq<char> {
    "(^|\\s+)"@ + regex_escaped(name)
}

/// The pattern that the name filter of a search matches names against.
pub fn name_filter_pattern(name: &str) -> (r: String)
    ensures
        r@ == name_pattern(name@),
{
    let mut r = String::from_str("(^|\\s+)");
    let e = regex_escape(name);
    r.append(e.as_str());
    r
}

/// The error that a storage failure of writing a solar system of the save
/// `save_id` named `name` becomes.
pub open spec fn solar_system_write_error(
    err: StorageError,
    save_id: u128,
    name: Seq<char>,
    r: TrackerError,
) -> bool {
    if violates(err, DbErrorKind::UniqueViolation, "solar_systems_save_id_name_key"@) {
        r matches TrackerError::Duplicate(o, k) && o == ObjectKind::SolarSystem && k.0@.len() == 2
            && is_id_field(k.0@[0], "save_id"@, save_id) && is_text_field(k.0@[1], "name"@, name)
    } else if violates(err, DbErrorKind::ForeignKeyViolation, "solar_systems_save_id_fkey"@) {
        r matches TrackerError::NotFound(o, k) && o == ObjectKind::Save && k.0@.len() == 1
            && is_id_field(k.0@[0], "id"@, save_id)
    } else {
        r matches TrackerError::SqlError(m) && m@ == err.message@
    }
}

/// Maps a storage failure of writing a solar system: a second system of the
/// same name in a save is a duplicate, a missing save is not found, and
/// anything else passes through.
pub fn map_constraint_errors(err: StorageError, save_id: u128, name: &str) -> (r: TrackerError)
    ensures
        solar_system_write_error(err, save_id, name@, r),
{
    if is_violation(&err, DbErrorKind::UniqueViolation, "solar_systems_save_id_name_key") {
        let keys = vec![
            FieldValue::new(SolarSystemColumns::SaveId.as_str(), Value::Uuid(save_id)),
            FieldValue::new(SolarSystemColumns::Name.as_str(), Value::text(name)),
        ];
        TrackerError::duplicate(ObjectKind::SolarSystem, FieldValues(keys))
    } else if is_violation(&err, DbErrorKind::ForeignKeyViolation, "solar_systems_save_id_fkey") {
        TrackerError::not_found(ObjectKind::Save, id_key(GameSaveColumns::Id.as_str(), save_id))
    } else {
        passthrough(err)
    }
}

/// The fields of a solar system are its four own fields followed by one per
/// field of its save: eight in all, each distinct.
pub proof fn lemma_solar_system_field_count()
    ensures
        SolarSystemFields::spec_values().len() == 4 + SaveFields::spec_values().len(),
        SolarSystemFields::spec_values().len() == 8,
        SolarSystemFields::spec_values().no_duplicates(),
{
    SolarSystemFields::lemma_values_complete(SolarSystemFields::Id);
}

} // verus!
