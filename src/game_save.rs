//! Saves: their columns and their sortable fields.
use crate::error::{ObjectKind, TrackerError};
use crate::field::{ColumnRef, Field, InvalidFieldError, Join, JoinView};
use crate::store::{
    id_key, is_id_field, is_text_field, is_violation, passthrough, violates, DbErrorKind,
    StorageError,
};
use crate::value::{FieldValue, FieldValues, Value};
use crate::text::{eq_ignore_case, lemma_eq_ignore_case_alike, text_eq_ignore_case};
use vstd::prelude::*;

verus! {

/// The columns of the saves table.
#[derive(Debug, Clone, Copy, PartialEq, Eq, Structural)]
pub enum GameSaveColumns {
    Table,
    Id,
    CreatedAt,
    UpdatedAt,
    Version,
    Name,
    Notes,
    MiningSpeed,
}

pub open spec fn game_save_column_text(c: GameSaveColumns) -> Seq<char> {
    match c {
        GameSaveColumns::Table => "saves"@,
        GameSaveColumns::Id => "id"@,
        GameSaveColumns::CreatedAt => "created_at"@,
        GameSaveColumns::UpdatedAt => "updated_at"@,
        GameSaveColumns::Version => "version"@,
        GameSaveColumns::Name => "name"@,
        GameSaveColumns::Notes => "notes"@,
        GameSaveColumns::MiningSpeed => "mining_speed"@,
    }
}

impl GameSaveColumns {
    /// The SQL name of the table or column.
    pub fn as_str(&self) -> (r: &'static str)
        ensures
            r@ == game_save_column_text(*self),
    {
        match self {
            GameSaveColumns::Table => "saves",
            GameSaveColumns::Id => "id",
            GameSaveColumns::CreatedAt => "created_at",
            GameSaveColumns::UpdatedAt => "updated_at",
            GameSaveColumns::Version => "version",
            GameSaveColumns::Name => "name",
            GameSaveColumns::Notes => "notes",
            GameSaveColumns::MiningSpeed => "mining_speed",
        }
    }

    pub fn to_text(&self) -> (r: String)
        ensures
            r@ == game_save_column_text(*self),
    {
        String::from_str(self.as_str())
    }
}

/// The fields that saves can be sorted by.
#[derive(Debug, Clone, Copy, PartialEq, Eq, Structural)]
pub enum SaveFields {
    Id,
    CreatedAt,
    Name,
    Notes,
}

impl Default for SaveFields {
    fn default() -> (r: SaveFields)
        ensures
            r == SaveFields::CreatedAt,
    {
        SaveFields::CreatedAt
    }
}

impl Field for SaveFields {
    open spec fn spec_name(&self) -> Seq<char> {
        match self {
            SaveFields::Id => "id"@,
            SaveFields::CreatedAt => "created_at"@,
            SaveFields::Name => "name"@,
            SaveFields::Notes => "notes"@,
        }
    }

    open spec fn spec_parse(s: Seq<char>) -> Option<SaveFields> {
        if eq_ignore_case(s, "id"@) {
            Some(SaveFields::Id)
        } else if eq_ignore_case(s, "created_at"@) {
            Some(SaveFields::CreatedAt)
        } else if eq_ignore_case(s, "name"@) {
            Some(SaveFields::Name)
        } else if eq_ignore_case(s, "notes"@) {
            Some(SaveFields::Notes)
        } else {
            None
        }
    }

    open spec fn spec_unknown_part(s: Seq<char>) -> Seq<char> {
        s
    }

    open spec fn spec_values() -> Seq<SaveFields> {
        seq![SaveFields::Id, SaveFields::CreatedAt, SaveFields::Name, SaveFields::Notes]
    }

    open spec fn spec_default() -> SaveFields {
        SaveFields::CreatedAt
    }

    open spec fn spec_column(&self) -> (Seq<char>, Seq<char>) {
        ("saves"@, self.spec_name())
    }

    open spec fn spec_joins(&self) -> Seq<JoinView> {
        seq![]
    }

    fn column(&self) -> (r: ColumnRef) {
        let c = match self {
            SaveFields::Id => GameSaveColumns::Id,
            SaveFields::CreatedAt => GameSaveColumns::CreatedAt,
            SaveFields::Name => GameSaveColumns::Name,
            SaveFields::Notes => GameSaveColumns::Notes,
        };
        ColumnRef::new(GameSaveColumns::Table.as_str(), c.as_str())
    }

    fn name(&self) -> (r: String) {
        match self {
            SaveFields::Id => String::from_str("id"),
            SaveFields::CreatedAt => String::from_str("created_at"),
            SaveFields::Name => String::from_str("name"),
            SaveFields::Notes => String::from_str("notes"),
        }
    }

    fn values() -> (r: Vec<SaveFields>) {
        vec![SaveFields::Id, SaveFields::CreatedAt, SaveFields::Name, SaveFields::Notes]
    }

    fn from_str(s: &str) -> (r: Result<SaveFields, InvalidFieldError>) {
        if text_eq_ignore_case(s, "id") {
            Ok(SaveFields::Id)
        } else if text_eq_ignore_case(s, "created_at") {
            Ok(SaveFields::CreatedAt)
        } else if text_eq_ignore_case(s, "name") {
            Ok(SaveFields::Name)
        } else if text_eq_ignore_case(s, "notes") {
            Ok(SaveFields::Notes)
        } else {
            Err(InvalidFieldError(String::from_str(s)))
        }
    }

    fn default_field() -> (r: SaveFields) {
        SaveFields::CreatedAt
    }

    fn joins(&self) -> (r: Vec<Join>) {
        Vec::new()
    }

    proof fn lemma_parse_name(f: SaveFields) {
        reveal_strlit("id");
        reveal_strlit("created_at");
        reveal_strlit("name");
        reveal_strlit("notes");
    }

    proof fn lemma_parse_ignores_case(a: Seq<char>, b: Seq<char>) {
        lemma_eq_ignore_case_alike(a, b, "id"@);
        lemma_eq_ignore_case_alike(a, b, "created_at"@);
        lemma_eq_ignore_case_alike(a, b, "name"@);
        lemma_eq_ignore_case_alike(a, b, "notes"@);
    }

    proof fn lemma_values_complete(f: SaveFields) {
        let vs = Self::spec_values();
        match f {
            SaveFields::Id => assert(vs[0] == f),
            SaveFields::CreatedAt => assert(vs[1] == f),
            SaveFields::Name => assert(vs[2] == f),
            SaveFields::Notes => assert(vs[3] == f),
        }
    }

    proof fn lemma_join_paths_distinct(f: SaveFields) {
        assert(crate::field::join_paths(f.spec_joins()) =~= seq![]);
    }
}

/// A request to create a save.
#[derive(Debug, Clone)]
pub struct CreateGameSaveRequest {
    pub name: String,
    pub notes: Option<String>,
    pub mining_speed: u32,
}

/// A request to change a save: each field present replaces the stored one.
#[derive(Debug, Clone)]
pub struct UpdateGameSaveRequest {
    pub name: Option<String>,
    pub notes: Option<Option<String>>,
    pub mining_speed: Option<u32>,
}

impl UpdateGameSaveRequest {
    /// Applies the request to a save's name and mining speed.
    pub fn apply(&self, name: &mut String, mining_speed: &mut u32)
        ensures
            final(name)@ == (match self.name {
                Some(n) => n@,
                None => old(name)@,
            }),
            *final(mining_speed) == (match self.mining_speed {
                Some(m) => m,
                None => *old(mining_speed),
            }),
    {
        if let Some(n) = &self.name {
            *name = n.clone();
        }
        if let Some(m) = self.mining_speed {
            *mining_speed = m;
        }
    }
}

/// The error that a storage failure of writing the save `id` named `name`
/// becomes.
pub open spec fn save_write_error(err: StorageError, name: Seq<char>, id: u128, r: TrackerError) -> bool {
    if violates(err, DbErrorKind::UniqueViolation, "saves_name_key"@) {
        r matches TrackerError::Duplicate(o, k) && o == ObjectKind::Save && k.0@.len() == 1
            && is_text_field(k.0@[0], "name"@, name)
    } else if violates(err, DbErrorKind::UniqueViolation, "saves_id_pkey"@) {
        r matches TrackerError::Duplicate(o, k) && o == ObjectKind::Save && k.0@.len() == 1
            && is_id_field(k.0@[0], "id"@, id)
    } else {
        r matches TrackerError::SqlError(m) && m@ == err.message@
    }
}

/// Maps a storage failure of writing the save `id` named `name`: a clash on
/// the unique name or on the id is a duplicate save; anything else passes
/// through.
pub fn map_constraint_errors(err: StorageError, name: &str, id: u128) -> (r: TrackerError)
    ensures
        save_write_error(err, name@, id, r),
{
    if is_violation(&err, DbErrorKind::UniqueViolation, "saves_name_key") {
        TrackerError::duplicate(
            ObjectKind::Save,
            FieldValues::single(FieldValue::new(GameSaveColumns::Name.as_str(), Value::text(name))),
        )
    } else if is_violation(&err, DbErrorKind::UniqueViolation, "saves_id_pkey") {
        TrackerError::duplicate(ObjectKind::Save, id_key(GameSaveColumns::Id.as_str(), id))
    } else {
        passthrough(err)
    }
}

} // verus!
