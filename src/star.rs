//! Stars: their spectral classes, columns and sortable fields (which reach
//! into the owning solar system's fields, and through it into its save's).
use crate::error::{ObjectKind, TrackerError};
use crate::store::{id_key, is_id_field, is_violation, passthrough, violates, DbErrorKind, StorageError};
use crate::field::{
    lemma_prefixed_paths_distinct, prefix_joins, prefixed_joins, ColumnRef, Field,
    InvalidFieldError, Join, JoinView,
};
use crate::solar_system::{after_prefix, SolarSystemColumns, SolarSystemFields};
use crate::text::{
    eq_ignore_case, lemma_eq_ignore_case_alike, fold_ascii, starts_with_ignore_case, text_eq_ignore_case,
    text_starts_with_ignore_case,
};
use vstd::prelude::*;

verus! {

#[derive(Debug, Clone, Copy, PartialEq, Eq, Structural)]
pub enum SpectralClass {
    ClassA,
    ClassB,
    ClassF,
    ClassG,
    ClassK,
    ClassM,
    ClassO,
    RedGiant,
    YellowGiant,
    WhiteGiant,
    BlueGiant,
    WhiteDwarf,
    BlackHole,
    Neutron,
}

pub open spec fn spectral_class_text(c: SpectralClass) -> Seq<char> {
    match c {
        SpectralClass::ClassA => "class_a"@,
        SpectralClass::ClassB => "class_b"@,
        SpectralClass::ClassF => "class_f"@,
        SpectralClass::ClassG => "class_g"@,
        SpectralClass::ClassK => "class_k"@,
        SpectralClass::ClassM => "class_m"@,
        SpectralClass::ClassO => "class_o"@,
        SpectralClass::RedGiant => "red_giant"@,
        SpectralClass::YellowGiant => "yellow_giant"@,
        SpectralClass::WhiteGiant => "white_giant"@,
        SpectralClass::BlueGiant => "blue_giant"@,
        SpectralClass::WhiteDwarf => "white_dwarf"@,
        SpectralClass::BlackHole => "black_hole"@,
        SpectralClass::Neutron => "neutron"@,
    }
}

impl SpectralClass {
    /// The snake-case name that the database and the API use.
    pub fn as_str(&self) -> (r: &'static str)
        ensures
            r@ == spectral_class_text(*self),
    {
        match self {
            SpectralClass::ClassA => "class_a",
            SpectralClass::ClassB => "class_b",
            SpectralClass::ClassF => "class_f",
            SpectralClass::ClassG => "class_g",
            SpectralClass::ClassK => "class_k",
            SpectralClass::ClassM => "class_m",
            SpectralClass::ClassO => "class_o",
            SpectralClass::RedGiant => "red_giant",
            SpectralClass::YellowGiant => "yellow_giant",
            SpectralClass::WhiteGiant => "white_giant",
            SpectralClass::BlueGiant => "blue_giant",
            SpectralClass::WhiteDwarf => "white_dwarf",
            SpectralClass::BlackHole => "black_hole",
            SpectralClass::Neutron => "neutron",
        }
    }
}

/// The columns of the stars table.
#[derive(Debug, Clone, Copy, PartialEq, Eq, Structural)]
pub enum StarColumns {
    Table,
    Id,
    CreatedAt,
    UpdatedAt,
    Version,
    SolarSystemId,
    SpectralClass,
    Luminosity,
    Radius,
}

pub open spec fn star_column_text(c: StarColumns) -> Seq<char> {
    match c {
        StarColumns::Table => "stars"@,
        StarColumns::Id => "id"@,
        StarColumns::CreatedAt => "created_at"@,
        StarColumns::UpdatedAt => "updated_at"@,
        StarColumns::Version => "version"@,
        StarColumns::SolarSystemId => "solar_system_id"@,
        StarColumns::SpectralClass => "spectral_class"@,
        StarColumns::Luminosity => "luminosity"@,
        StarColumns::Radius => "radius"@,
    }
}

impl StarColumns {
    /// The SQL name of the table or column.
    pub fn as_str(&self) -> (r: &'static str)
        ensures
            r@ == star_column_text(*self),
    {
        match self {
            StarColumns::Table => "stars",
            StarColumns::Id => "id",
            StarColumns::CreatedAt => "created_at",
            StarColumns::UpdatedAt => "updated_at",
            StarColumns::Version => "version",
            StarColumns::SolarSystemId => "solar_system_id",
            StarColumns::SpectralClass => "spectral_class",
            StarColumns::Luminosity => "luminosity",
            StarColumns::Radius => "radius",
        }
    }

    pub fn to_text(&self) -> (r: String)
        ensures
            r@ == star_column_text(*self),
    {
        String::from_str(self.as_str())
    }
}

/// The fields that stars can be sorted by; `SolarSystem` reaches into the
/// owning solar system's fields. The spectral class is named `notes`.
#[derive(Debug, Clone, Copy, PartialEq, Eq, Structural)]
pub enum StarFields {
    Id,
    SolarSystem(SolarSystemFields),
    CreatedAt,
    SpectralClass,
    Luminosity,
    Radius,
}

/// The join from a star to its solar system.
pub open spec fn solar_system_join() -> JoinView {
    JoinView {
        path: "solar_system"@,
        table: "solar_systems"@,
        column: ("solar_systems"@, "id"@),
        foreign_key: ("stars"@, "solar_system_id"@),
    }
}

impl Default for StarFields {
    fn default() -> (r: StarFields)
        ensures
            r == StarFields::CreatedAt,
    {
        StarFields::CreatedAt
    }
}

impl Field for StarFields {
    open spec fn spec_name(&self) -> Seq<char> {
        match self {
            StarFields::Id => "id"@,
            StarFields::SolarSystem(f) => "solar_system"@ + seq!['.'] + f.spec_name(),
            StarFields::CreatedAt => "created_at"@,
            StarFields::SpectralClass => "notes"@,
            StarFields::Luminosity => "luminosity"@,
            StarFields::Radius => "radius"@,
        }
    }

    open spec fn spec_parse(s: Seq<char>) -> Option<StarFields> {
        if eq_ignore_case(s, "id"@) {
            Some(StarFields::Id)
        } else if starts_with_ignore_case(s, "solar_system"@) {
            let rest = after_prefix(s, 12);
            if rest.len() == 0 {
                Some(StarFields::SolarSystem(SolarSystemFields::spec_default()))
            } else {
                match SolarSystemFields::spec_parse(rest) {
                    Some(f) => Some(StarFields::SolarSystem(f)),
                    None => None,
                }
            }
        } else if eq_ignore_case(s, "created_at"@) {
            Some(StarFields::CreatedAt)
        } else if eq_ignore_case(s, "notes"@) {
            Some(StarFields::SpectralClass)
        } else if eq_ignore_case(s, "luminosity"@) {
            Some(StarFields::Luminosity)
        } else if eq_ignore_case(s, "radius"@) {
            Some(StarFields::Radius)
        } else {
            None
        }
    }

    open spec fn spec_unknown_part(s: Seq<char>) -> Seq<char> {
        if !eq_ignore_case(s, "id"@) && starts_with_ignore_case(s, "solar_system"@) {
            SolarSystemFields::spec_unknown_part(after_prefix(s, 12))
        } else {
            s
        }
    }

    open spec fn spec_values() -> Seq<StarFields> {
        seq![StarFields::Id] + SolarSystemFields::spec_values().map_values(
            |f: SolarSystemFields| StarFields::SolarSystem(f),
        ) + seq![
            StarFields::CreatedAt,
            StarFields::SpectralClass,
            StarFields::Luminosity,
            StarFields::Radius,
        ]
    }

    open spec fn spec_default() -> StarFields {
        StarFields::CreatedAt
    }

    open spec fn spec_column(&self) -> (Seq<char>, Seq<char>) {
        match self {
            StarFields::Id => ("stars"@, "id"@),
            StarFields::SolarSystem(f) => f.spec_column(),
            StarFields::CreatedAt => ("stars"@, "created_at"@),
            StarFields::SpectralClass => ("stars"@, "spectral_class"@),
            StarFields::Luminosity => ("stars"@, "luminosity"@),
            StarFields::Radius => ("stars"@, "radius"@),
        }
    }

    open spec fn spec_joins(&self) -> Seq<JoinView> {
        match self {
            StarFields::SolarSystem(f) => seq![solar_system_join()] + prefixed_joins(
                "solar_system"@,
                f.spec_joins(),
            ),
            _ => seq![],
        }
    }

    fn column(&self) -> (r: ColumnRef) {
        let t = StarColumns::Table.as_str();
        match self {
            StarFields::Id => ColumnRef::new(t, StarColumns::Id.as_str()),
            StarFields::SolarSystem(f) => f.column(),
            StarFields::CreatedAt => ColumnRef::new(t, StarColumns::CreatedAt.as_str()),
            StarFields::SpectralClass => ColumnRef::new(t, StarColumns::SpectralClass.as_str()),
            StarFields::Luminosity => ColumnRef::new(t, StarColumns::Luminosity.as_str()),
            StarFields::Radius => ColumnRef::new(t, StarColumns::Radius.as_str()),
        }
    }

    fn name(&self) -> (r: String) {
        match self {
            StarFields::Id => String::from_str("id"),
            StarFields::SolarSystem(f) => {
                let mut r = String::from_str("solar_system");
                r.append(".");
                let n = f.name();
                r.append(n.as_str());
                proof {
                    reveal_strlit(".");
                    assert("."@ =~= seq!['.']);
                }
                r
            },
            StarFields::CreatedAt => String::from_str("created_at"),
            StarFields::SpectralClass => String::from_str("notes"),
            StarFields::Luminosity => String::from_str("luminosity"),
            StarFields::Radius => String::from_str("radius"),
        }
    }

    fn values() -> (r: Vec<StarFields>) {
        let mut r: Vec<StarFields> = vec![StarFields::Id];
        let inner = SolarSystemFields::values();
        let ghost mapped = SolarSystemFields::spec_values().map_values(
            |f: SolarSystemFields| StarFields::SolarSystem(f),
        );
        let mut i: usize = 0;
        while i < inner.len()
            invariant
                i <= inner@.len(),
                inner@ == SolarSystemFields::spec_values(),
                mapped == SolarSystemFields::spec_values().map_values(
                    |f: SolarSystemFields| StarFields::SolarSystem(f),
                ),
                r@ == seq![StarFields::Id] + mapped.subrange(0, i as int),
            decreases inner@.len() - i,
        {
            r.push(StarFields::SolarSystem(inner[i]));
            proof {
                assert(r@ =~= seq![StarFields::Id] + mapped.subrange(0, i + 1));
            }
            i = i + 1;
        }
        r.push(StarFields::CreatedAt);
        r.push(StarFields::SpectralClass);
        r.push(StarFields::Luminosity);
        r.push(StarFields::Radius);
        proof {
            assert(mapped.subrange(0, i as int) =~= mapped);
            assert(r@ =~= Self::spec_values());
        }
        r
    }

    fn from_str(s: &str) -> (r: Result<StarFields, InvalidFieldError>) {
        if text_eq_ignore_case(s, "id") {
            Ok(StarFields::Id)
        } else if text_starts_with_ignore_case(s, "solar_system") {
            let n = s.unicode_len();
            proof {
                reveal_strlit("solar_system");
            }
            if n <= 13 {
                Ok(StarFields::SolarSystem(SolarSystemFields::default_field()))
            } else {
                let rest = s.substring_char(13, n);
                match SolarSystemFields::from_str(rest) {
                    Ok(f) => Ok(StarFields::SolarSystem(f)),
                    Err(e) => Err(e),
                }
            }
        } else if text_eq_ignore_case(s, "created_at") {
            Ok(StarFields::CreatedAt)
        } else if text_eq_ignore_case(s, "notes") {
            Ok(StarFields::SpectralClass)
        } else if text_eq_ignore_case(s, "luminosity") {
            Ok(StarFields::Luminosity)
        } else if text_eq_ignore_case(s, "radius") {
            Ok(StarFields::Radius)
        } else {
            Err(InvalidFieldError(String::from_str(s)))
        }
    }

    fn default_field() -> (r: StarFields) {
        StarFields::CreatedAt
    }

    fn joins(&self) -> (r: Vec<Join>) {
        match self {
            StarFields::SolarSystem(f) => {
                let own = Join {
                    path: String::from_str("solar_system"),
                    table: String::from_str(SolarSystemColumns::Table.as_str()),
                    column: ColumnRef::new(
                        SolarSystemColumns::Table.as_str(),
                        SolarSystemColumns::Id.as_str(),
                    ),
                    foreign_key: ColumnRef::new(
                        StarColumns::Table.as_str(),
                        StarColumns::SolarSystemId.as_str(),
                    ),
                };
                let mut r = vec![own];
                let inner = f.joins();
                let mut nested = prefix_joins("solar_system", &inner);
                r.append(&mut nested);
                proof {
                    assert(crate::field::join_views(r@) =~= self.spec_joins());
                }
                r
            },
            _ => Vec::new(),
        }
    }

    proof fn lemma_parse_name(f: StarFields) {
        reveal_strlit("id");
        reveal_strlit("solar_system");
        reveal_strlit("created_at");
        reveal_strlit("notes");
        reveal_strlit("luminosity");
        reveal_strlit("radius");
        match f {
            StarFields::SolarSystem(g) => {
                SolarSystemFields::lemma_parse_name(g);
                let s = f.spec_name();
                assert(g.spec_name().len() > 0) by {
                    reveal_strlit("save");
                    reveal_strlit("name");
                }
                assert(s.subrange(0, 12) =~= "solar_system"@);
                assert(after_prefix(s, 12) =~= g.spec_name());

            },
            _ => {
                let s = f.spec_name();
                assert(s.len() < 12);
                if f == StarFields::Luminosity {
                    assert(fold_ascii(s[0]) != fold_ascii("created_at"@[0]));
                }
                assert(!starts_with_ignore_case(s, "solar_system"@));
                assert(Self::spec_parse(s) == Some(f));
            },
        }
    }

    proof fn lemma_parse_ignores_case(a: Seq<char>, b: Seq<char>) {
        lemma_eq_ignore_case_alike(a, b, "id"@);
        lemma_eq_ignore_case_alike(a, b, "created_at"@);
        lemma_eq_ignore_case_alike(a, b, "notes"@);
        lemma_eq_ignore_case_alike(a, b, "luminosity"@);
        lemma_eq_ignore_case_alike(a, b, "radius"@);
        lemma_eq_ignore_case_alike(a, b, "solar_system"@);
        if a.len() > 13 {
            assert(eq_ignore_case(
                a.subrange(13, a.len() as int),
                b.subrange(13, b.len() as int),
            ));
            SolarSystemFields::lemma_parse_ignores_case(after_prefix(a, 12), after_prefix(b, 12));
        }
    }

    proof fn lemma_values_complete(f: StarFields) {
        let vs = Self::spec_values();
        let inner = SolarSystemFields::spec_values();
        SolarSystemFields::lemma_values_complete(SolarSystemFields::spec_default());
        assert(inner.len() == 8);
        match f {
            StarFields::Id => assert(vs[0] == f),
            StarFields::SolarSystem(g) => {
                SolarSystemFields::lemma_values_complete(g);
                let k = inner.index_of(g);
                assert(vs[k + 1] == f);
            },
            StarFields::CreatedAt => assert(vs[9] == f),
            StarFields::SpectralClass => assert(vs[10] == f),
            StarFields::Luminosity => assert(vs[11] == f),
            StarFields::Radius => assert(vs[12] == f),
        }
        assert(vs.no_duplicates());
    }

    proof fn lemma_join_paths_distinct(f: StarFields) {
        match f {
            StarFields::SolarSystem(g) => {
                SolarSystemFields::lemma_join_paths_distinct(g);
                lemma_prefixed_paths_distinct(solar_system_join(), g.spec_joins());
            },
            _ => {
                assert(crate::field::join_paths(f.spec_joins()) =~= seq![]);
            },
        }
    }
}

/// The error that a storage failure of writing a star of the solar system
/// `solar_system_id` becomes.
pub open spec fn star_write_error(err: StorageError, solar_system_id: u128, r: TrackerError) -> bool {
    if violates(err, DbErrorKind::UniqueViolation, "stars_solar_system_id_key"@) {
        r matches TrackerError::Duplicate(o, k) && o == ObjectKind::Star && k.0@.len() == 1
            && is_id_field(k.0@[0], "solar_system_id"@, solar_system_id)
    } else if violates(err, DbErrorKind::ForeignKeyViolation, "stars_solar_system_id_fkey"@) {
        r matches TrackerError::NotFound(o, k) && o == ObjectKind::SolarSystem && k.0@.len() == 1
            && is_id_field(k.0@[0], "id"@, solar_system_id)
    } else {
        r matches TrackerError::SqlError(m) && m@ == err.message@
    }
}

/// Maps a storage failure of writing a star: a second star in a solar system
/// is a duplicate, a missing solar system is not found, and anything else
/// passes through.
pub fn map_constraint_errors(err: StorageError, solar_system_id: u128) -> (r: TrackerError)
    ensures
        star_write_error(err, solar_system_id, r),
{
    if is_violation(&err, DbErrorKind::UniqueViolation, "stars_solar_system_id_key") {
        TrackerError::duplicate(
            ObjectKind::Star,
            id_key(StarColumns::SolarSystemId.as_str(), solar_system_id),
        )
    } else if is_violation(&err, DbErrorKind::ForeignKeyViolation, "stars_solar_system_id_fkey") {
        TrackerError::not_found(
            ObjectKind::SolarSystem,
            id_key(SolarSystemColumns::Id.as_str(), solar_system_id),
        )
    } else {
        passthrough(err)
    }
}

/// The fields of a star are its five own fields followed by one per field of
/// its solar system: thirteen in all, each distinct.
pub proof fn lemma_star_field_count()
    ensures
        StarFields::spec_values().len() == 5 + SolarSystemFields::spec_values().len(),
        StarFields::spec_values().len() == 13,
        StarFields::spec_values().no_duplicates(),
{
    crate::solar_system::lemma_solar_system_field_count();
    StarFields::lemma_values_complete(StarFields::Id);
}

} // verus!
