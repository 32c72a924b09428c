//! The field capability: what every entity's closed set of sortable fields
//! offers to the generic sorting, paging and join logic.
use vstd::prelude::*;

verus! {

/// A field name that no variant of a field enumeration accepts.
pub struct InvalidFieldError(pub String);

impl InvalidFieldError {
    /// The message shown for the rejected name.
    pub fn message(&self) -> (r: String)
        ensures
            r@ == seq!['`'] + self.0@ + "` is invalid."@,
    {
        let mut r = String::from_str("`");
        proof {
            reveal_strlit("`");
        }
        r.append(self.0.as_str());
        r.append("` is invalid.");
        r
    }
}

/// A physical column, qualified by its table.
pub struct ColumnRef {
    pub table: String,
    pub column: String,
}

impl View for ColumnRef {
    type V = (Seq<char>, Seq<char>);

    open spec fn view(&self) -> (Seq<char>, Seq<char>) {
        (self.table@, self.column@)
    }
}

impl ColumnRef {
    /// An equal copy.
    pub fn copy(&self) -> (r: ColumnRef)
        ensures
            r == *self,
    {
        ColumnRef { table: self.table.clone(), column: self.column.clone() }
    }

    pub fn new(table: &str, column: &str) -> (r: ColumnRef)
        ensures
            r@ == (table@, column@),
    {
        ColumnRef { table: String::from_str(table), column: String::from_str(column) }
    }
}

/// A left join that a field needs: `table` joined where `column` equals
/// `foreign_key`, known by the relation path that leads to it.
pub struct Join {
    pub path: String,
    pub table: String,
    pub column: ColumnRef,
    pub foreign_key: ColumnRef,
}

/// The mathematical value of a [`Join`].
pub struct JoinView {
    pub path: Seq<char>,
    pub table: Seq<char>,
    pub column: (Seq<char>, Seq<char>),
    pub foreign_key: (Seq<char>, Seq<char>),
}

impl View for Join {
    type V = JoinView;

    open spec fn view(&self) -> JoinView {
        JoinView {
            path: self.path@,
            table: self.table@,
            column: self.column@,
            foreign_key: self.foreign_key@,
        }
    }
}

impl Join {
    /// An equal copy.
    pub fn copy(&self) -> (r: Join)
        ensures
            r == *self,
    {
        Join {
            path: self.path.clone(),
            table: self.table.clone(),
            column: self.column.copy(),
            foreign_key: self.foreign_key.copy(),
        }
    }
}

pub open spec fn join_views(js: Seq<Join>) -> Seq<JoinView> {
    js.map_values(|j: Join| j@)
}

pub open spec fn join_paths(js: Seq<JoinView>) -> Seq<Seq<char>> {
    js.map_values(|j: JoinView| j.path)
}

/// The joins of a nested relation, seen from one relation further out: each
/// path gains `prefix` and a `.` in front.
pub open spec fn prefixed_joins(prefix: Seq<char>, js: Seq<JoinView>) -> Seq<JoinView> {
    js.map_values(
        |j: JoinView|
            JoinView {
                path: prefix + seq!['.'] + j.path,
                table: j.table,
                column: j.column,
                foreign_key: j.foreign_key,
            },
    )
}

/// A closed enumeration of the fields of one entity by which its rows can be
/// sorted, possibly reaching through relations into another entity's fields.
pub trait Field: Sized + Copy {
    /// The canonical text of the field.
    spec fn spec_name(&self) -> Seq<char>;

    /// The field that a text names, if any.
    spec fn spec_parse(s: Seq<char>) -> Option<Self>;

    /// The part of a rejected text that the error reports: the text itself,
    /// or for a relation's prefix, what follows it.
    spec fn spec_unknown_part(s: Seq<char>) -> Seq<char>;

    /// Every field, once each, in declaration order.
    spec fn spec_values() -> Seq<Self>;

    /// The field used when no other is asked for.
    spec fn spec_default() -> Self;

    /// The physical column behind the field.
    spec fn spec_column(&self) -> (Seq<char>, Seq<char>);

    /// The joins that reading the field needs, outermost first.
    spec fn spec_joins(&self) -> Seq<JoinView>;

    fn column(&self) -> (r: ColumnRef)
        ensures
            r@ == self.spec_column(),
    ;

    fn name(&self) -> (r: String)
        ensures
            r@ == self.spec_name(),
    ;

    fn values() -> (r: Vec<Self>)
        ensures
            r@ == Self::spec_values(),
    ;

    fn from_str(s: &str) -> (r: Result<Self, InvalidFieldError>)
        ensures
            match r {
                Ok(f) => Self::spec_parse(s@) == Some(f),
                Err(e) => Self::spec_parse(s@) is None && e.0@ == Self::spec_unknown_part(s@),
            },
    ;

    fn default_field() -> (r: Self)
        ensures
            r == Self::spec_default(),
    ;

    fn joins(&self) -> (r: Vec<Join>)
        ensures
            join_views(r@) == self.spec_joins(),
    ;

    /// Parsing the name of a field gives that field back.
    proof fn lemma_parse_name(f: Self)
        ensures
            Self::spec_parse(f.spec_name()) == Some(f),
    ;

    /// Parsing does not depend on the case of ASCII letters.
    proof fn lemma_parse_ignores_case(a: Seq<char>, b: Seq<char>)
        requires
            crate::text::eq_ignore_case(a, b),
        ensures
            Self::spec_parse(a) == Self::spec_parse(b),
    ;

    /// The enumeration lists every field exactly once.
    proof fn lemma_values_complete(f: Self)
        ensures
            Self::spec_values().no_duplicates(),
            Self::spec_values().contains(f),
    ;

    /// No two joins of one field share a relation path.
    proof fn lemma_join_paths_distinct(f: Self)
        ensures
            join_paths(f.spec_joins()).no_duplicates(),
    ;
}

/// Round trip: for every field `f` of any field enumeration, parsing the
/// text of `f` yields `f`.
pub proof fn lemma_round_trip<F: Field>(f: F)
    ensures
        F::spec_parse(f.spec_name()) == Some(f),
{
    F::lemma_parse_name(f);
}

/// The values of a field enumeration are complete and distinct, and each of
/// them round-trips through its text.
pub proof fn lemma_values_round_trip<F: Field>()
    ensures
        F::spec_values().no_duplicates(),
        forall|f: F| #[trigger] F::spec_values().contains(f),
        forall|i: int|
            0 <= i < F::spec_values().len() ==> F::spec_parse(#[trigger] F::spec_values()[i].spec_name())
                == Some(F::spec_values()[i]),
{
    F::lemma_values_complete(F::spec_default());
    assert forall|f: F| #[trigger] F::spec_values().contains(f) by {
        F::lemma_values_complete(f);
    }
    assert forall|i: int| 0 <= i < F::spec_values().len() implies F::spec_parse(
        #[trigger] F::spec_values()[i].spec_name(),
    ) == Some(F::spec_values()[i]) by {
        F::lemma_parse_name(F::spec_values()[i]);
    }
}

/// A relation's own join followed by its nested joins, prefixed with the
/// relation's path, keeps the paths distinct.
pub proof fn lemma_prefixed_paths_distinct(head: JoinView, js: Seq<JoinView>)
    requires
        join_paths(js).no_duplicates(),
    ensures
        join_paths(seq![head] + prefixed_joins(head.path, js)).no_duplicates(),
{
    let p = head.path;
    let all = seq![head] + prefixed_joins(p, js);
    let paths = join_paths(all);
    assert forall|i: int, j: int| 0 <= i < paths.len() && 0 <= j < paths.len() && i != j implies paths[i]
        != paths[j] by {
        if i > 0 && j > 0 {
            let a = js[i - 1].path;
            let b = js[j - 1].path;
            assert(paths[i] == p + seq!['.'] + a);
            assert(paths[j] == p + seq!['.'] + b);
            if paths[i] == paths[j] {
                assert(a =~= paths[i].subrange(p.len() as int + 1, paths[i].len() as int));
                assert(b =~= paths[j].subrange(p.len() as int + 1, paths[j].len() as int));
                assert(join_paths(js)[i - 1] == a);
                assert(join_paths(js)[j - 1] == b);
            }
        } else if i == 0 {
            assert(paths[j].len() > p.len());
        } else {
            assert(paths[i].len() > p.len());
        }
    }
}

/// Prefixes each join path of a nested relation with `prefix` and a `.`.
pub fn prefix_joins(prefix: &str, js: &Vec<Join>) -> (r: Vec<Join>)
    ensures
        join_views(r@) == prefixed_joins(prefix@, join_views(js@)),
{
    let mut out: Vec<Join> = Vec::new();
    let mut k: usize = 0;
    while k < js.len()
        invariant
            k <= js@.len(),
            out@.len() == k,
            join_views(out@) == prefixed_joins(prefix@, join_views(js@)).subrange(0, k as int),
        decreases js@.len() - k,
    {
        let j = &js[k];
        let mut path = String::from_str(prefix);
        path.append(".");
        path.append(j.path.as_str());
        proof {
            reveal_strlit(".");
            assert("."@ =~= seq!['.']);
        }
        let joined = Join {
            path,
            table: j.table.clone(),
            column: j.column.copy(),
            foreign_key: j.foreign_key.copy(),
        };
        out.push(joined);
        proof {
            assert(join_views(js@)[k as int] == js@[k as int]@);
            assert(out@[k as int]@ == prefixed_joins(prefix@, join_views(js@))[k as int]);
            assert(join_views(out@) =~= prefixed_joins(prefix@, join_views(js@)).subrange(
                0,
                k + 1,
            ));
        }
        k = k + 1;
    }
    proof {
        assert(prefixed_joins(prefix@, join_views(js@)).subrange(0, k as int) =~= prefixed_joins(
            prefix@,
            join_views(js@),
        ));
    }
    out
}

} // verus!
