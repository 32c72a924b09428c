//! Sort directives, page requests and paginated results.
use crate::error::TrackerError;
use crate::field::{lemma_values_round_trip, Field};
use crate::text::{
    eq_ignore_case, lemma_eq_ignore_case_alike, lemma_first_colon_alike, find_char, first_index_of, parse_decimal, parse_u64, text_eq_ignore_case,
};
use crate::value::{is_text, AllowedValues, Bound, FieldValue, Value};
use vstd::prelude::*;

verus! {

pub const FIRST_PAGE: u64 = 1;

pub const MAX_PAGE_SIZE: u64 = 500;

pub const DEFAULT_PAGE_SIZE: u64 = 100;

/// One page of results and where it stands among all pages.
pub struct Page<T> {
    pub data: Vec<T>,
    pub metadata: PageMetadata,
}

/// Counts and neighbouring page numbers of one page of results.
#[derive(Debug, Clone, Copy, PartialEq, Eq, Structural)]
pub struct PageMetadata {
    pub total_results: u64,
    pub total_pages: u64,
    pub current_page: u64,
    pub next_page: Option<u64>,
    pub prev_page: Option<u64>,
}

/// A page request as it arrives: page, size and sort tokens, all unchecked.
#[derive(Debug, Clone)]
pub struct PageRequestRaw {
    pub page: Option<String>,
    pub size: Option<String>,
    pub sorts: Vec<String>,
}

#[derive(Debug, Clone, Copy, PartialEq, Eq, Structural)]
pub enum SortDirection {
    Asc,
    Desc,
}

/// A field to sort by, and in which direction.
#[derive(Debug, Clone, Copy)]
pub struct Sort<T: Field> {
    pub field: T,
    pub direction: SortDirection,
}

/// A validated page request.
#[derive(Debug, Clone)]
pub struct PageRequest<T: Field> {
    pub page: u64,
    pub size: u64,
    pub sorts: Vec<Sort<T>>,
}

pub open spec fn direction_text(d: SortDirection) -> Seq<char> {
    match d {
        SortDirection::Asc => "asc"@,
        SortDirection::Desc => "desc"@,
    }
}

/// The direction that a text names, without regard to case.
pub open spec fn parse_direction(s: Seq<char>) -> Option<SortDirection> {
    if eq_ignore_case(s, "asc"@) {
        Some(SortDirection::Asc)
    } else if eq_ignore_case(s, "desc"@) {
        Some(SortDirection::Desc)
    } else {
        None
    }
}

impl Default for SortDirection {
    fn default() -> (r: SortDirection)
        ensures
            r == SortDirection::Asc,
    {
        SortDirection::Asc
    }
}

impl SortDirection {
    /// The lower-case name of the direction.
    pub fn as_str(&self) -> (r: &'static str)
        ensures
            r@ == direction_text(*self),
    {
        match self {
            SortDirection::Asc => "asc",
            SortDirection::Desc => "desc",
        }
    }

    pub fn to_text(&self) -> (r: String)
        ensures
            r@ == direction_text(*self),
    {
        String::from_str(self.as_str())
    }

    /// Reads a direction, ASCII letters without case.
    pub fn parse(s: &str) -> (r: Option<SortDirection>)
        ensures
            r == parse_direction(s@),
    {
        if text_eq_ignore_case(s, "asc") {
            Some(SortDirection::Asc)
        } else if text_eq_ignore_case(s, "desc") {
            Some(SortDirection::Desc)
        } else {
            None
        }
    }

    /// Every direction, in order.
    pub fn values() -> (r: Vec<SortDirection>)
        ensures
            r@ == seq![SortDirection::Asc, SortDirection::Desc],
    {
        vec![SortDirection::Asc, SortDirection::Desc]
    }
}

/// The names of every field of `F`, in order.
pub open spec fn field_names<F: Field>() -> Seq<Seq<char>> {
    F::spec_values().map_values(|f: F| f.spec_name())
}

pub open spec fn direction_names() -> Seq<Seq<char>> {
    seq!["asc"@, "desc"@]
}

/// `vs` are the texts `names`, in order.
pub open spec fn texts_are(vs: Seq<Value>, names: Seq<Seq<char>>) -> bool {
    vs.len() == names.len() && forall|i: int| 0 <= i < vs.len() ==> is_text(#[trigger] vs[i], names[i])
}

/// `e` rejects the text `raw` given for `name`, allowing only `allowed`.
pub open spec fn invalid_choice(
    e: TrackerError,
    name: Seq<char>,
    raw: Seq<char>,
    allowed: Seq<Seq<char>>,
) -> bool {
    &&& e matches TrackerError::InvalidFieldValue(fv, av)
    &&& fv.name@ == name
    &&& fv.value matches Some(v) && is_text(v, raw)
    &&& av matches AllowedValues::Choice { values } && texts_are(values@, allowed)
}

/// What a sort token `field[:direction]` denotes, if it is valid.
pub open spec fn parse_sort<F: Field>(s: Seq<char>) -> Option<(F, SortDirection)> {
    match first_index_of(s, ':') {
        Some(i) => match F::spec_parse(s.subrange(0, i)) {
            Some(f) => match parse_direction(s.subrange(i + 1, s.len() as int)) {
                Some(d) => Some((f, d)),
                None => None,
            },
            None => None,
        },
        None => match F::spec_parse(s) {
            Some(f) => Some((f, SortDirection::Asc)),
            None => None,
        },
    }
}

/// The error that an invalid sort token gives: its field part is checked
/// first, then its direction.
pub open spec fn sort_error<F: Field>(s: Seq<char>, e: TrackerError) -> bool {
    match first_index_of(s, ':') {
        Some(i) => if F::spec_parse(s.subrange(0, i)) is None {
            invalid_choice(e, "sort:field"@, s.subrange(0, i), field_names::<F>())
        } else {
            invalid_choice(e, "sort:direction"@, s.subrange(i + 1, s.len() as int), direction_names())
        },
        None => invalid_choice(e, "sort:field"@, s, field_names::<F>()),
    }
}

/// Sort tokens are read without regard to the case of ASCII letters.
pub proof fn lemma_sort_ignores_case<F: Field>(a: Seq<char>, b: Seq<char>)
    requires
        eq_ignore_case(a, b),
    ensures
        parse_sort::<F>(a) == parse_sort::<F>(b),
{
    lemma_first_colon_alike(a, b);
    match first_index_of(a, ':') {
        Some(i) => {
            lemma_sort_parts_alike::<F>(a, b, i);
        },
        None => {
            F::lemma_parse_ignores_case(a, b);
        },
    }
}

proof fn lemma_sort_parts_alike<F: Field>(a: Seq<char>, b: Seq<char>, i: int)
    requires
        eq_ignore_case(a, b),
        0 <= i < a.len(),
    ensures
        F::spec_parse(a.subrange(0, i)) == F::spec_parse(b.subrange(0, i)),
        parse_direction(a.subrange(i + 1, a.len() as int)) == parse_direction(
            b.subrange(i + 1, b.len() as int),
        ),
{
    lemma_eq_ignore_case_alike(a, b, "asc"@);
    assert(eq_ignore_case(a.subrange(0, i), b.subrange(0, i)));
    F::lemma_parse_ignores_case(a.subrange(0, i), b.subrange(0, i));
    let ta = a.subrange(i + 1, a.len() as int);
    let tb = b.subrange(i + 1, b.len() as int);
    assert(eq_ignore_case(ta, tb));
    lemma_eq_ignore_case_alike(ta, tb, "asc"@);
    lemma_eq_ignore_case_alike(ta, tb, "desc"@);
}

/// The names of the fields of `F` are distinct and name every field.
pub proof fn lemma_field_names_complete<F: Field>()
    ensures
        field_names::<F>().no_duplicates(),
        forall|f: F| #[trigger] field_names::<F>().contains(f.spec_name()),
{
    lemma_values_round_trip::<F>();
    let vs = F::spec_values();
    let names = field_names::<F>();
    assert forall|i: int, j: int| 0 <= i < names.len() && 0 <= j < names.len() && i != j implies names[i]
        != names[j] by {
        if names[i] == names[j] {
            assert(F::spec_parse(vs[i].spec_name()) == Some(vs[i]));
            assert(F::spec_parse(vs[j].spec_name()) == Some(vs[j]));
        }
    }
    assert forall|f: F| #[trigger] names.contains(f.spec_name()) by {
        assert(vs.contains(f));
        let k = vs.index_of(f);
        assert(names[k] == f.spec_name());
    }
}

/// A sort token without a direction that names no field is rejected for
/// `sort:field` with the text as given, and the allowed values are the name
/// of every field, each once.
pub proof fn lemma_unknown_sort_field_lists_all<F: Field>(s: Seq<char>, e: TrackerError)
    requires
        first_index_of(s, ':') is None,
        sort_error::<F>(s, e),
    ensures
        invalid_choice(e, "sort:field"@, s, field_names::<F>()),
        field_names::<F>().no_duplicates(),
        forall|f: F| #[trigger] field_names::<F>().contains(f.spec_name()),
{
    lemma_field_names_complete::<F>();
}

/// The name of a field, given as a sort token without a direction, sorts by
/// that field ascending.
pub proof fn lemma_field_name_sorts_ascending<F: Field>(f: F)
    requires
        first_index_of(f.spec_name(), ':') is None,
    ensures
        parse_sort::<F>(f.spec_name()) == Some((f, SortDirection::Asc)),
{
    F::lemma_parse_name(f);
}

/// The choice of every field name of `F`.
fn field_choice<F: Field>() -> (r: Vec<Value>)
    ensures
        texts_are(r@, field_names::<F>()),
{
    let fields = F::values();
    let mut r: Vec<Value> = Vec::new();
    let mut i: usize = 0;
    while i < fields.len()
        invariant
            i <= fields@.len(),
            fields@ == F::spec_values(),
            r@.len() == i,
            forall|j: int| 0 <= j < i ==> is_text(#[trigger] r@[j], fields@[j].spec_name()),
        decreases fields@.len() - i,
    {
        let name = fields[i].name();
        r.push(Value::String(name));
        i = i + 1;
    }
    r
}

fn direction_choice() -> (r: Vec<Value>)
    ensures
        texts_are(r@, direction_names()),
{
    let r = vec![Value::text("asc"), Value::text("desc")];
    proof {
        assert(texts_are(r@, direction_names()));
    }
    r
}

fn invalid_choice_error(name: &str, raw: &str, allowed: Vec<Value>) -> (r: TrackerError)
    ensures
        r matches TrackerError::InvalidFieldValue(fv, av) && {
            &&& fv.name@ == name@
            &&& fv.value matches Some(v) && is_text(v, raw@)
            &&& av == (AllowedValues::Choice { values: allowed })
        },
{
    TrackerError::invalid_field(FieldValue::new(name, Value::text(raw)), AllowedValues::choice(allowed))
}

impl<T: Field> Default for Sort<T> {
    fn default() -> (r: Sort<T>)
        ensures
            r.field == T::spec_default(),
            r.direction == SortDirection::Asc,
    {
        Sort::default_sort()
    }
}

impl<T: Field> Sort<T> {
    /// Sorting by the default field, ascending.
    pub fn default_sort() -> (r: Sort<T>)
        ensures
            r.field == T::spec_default(),
            r.direction == SortDirection::Asc,
    {
        Sort { field: T::default_field(), direction: SortDirection::Asc }
    }

    /// Reads a sort token `field[:direction]`; the direction defaults to
    /// ascending.
    pub fn try_from(value: String) -> (r: Result<Sort<T>, TrackerError>)
        ensures
            match r {
                Ok(s) => parse_sort::<T>(value@) == Some((s.field, s.direction)),
                Err(e) => parse_sort::<T>(value@) is None && sort_error::<T>(value@, e),
            },
    {
        let s = value.as_str();
        match find_char(s, ':') {
            Some(i) => {
                let n = s.unicode_len();
                let field_raw = s.substring_char(0, i);
                let dir_raw = s.substring_char(i + 1, n);
                let field = match T::from_str(field_raw) {
                    Ok(f) => f,
                    Err(_) => {
                        let e = invalid_choice_error("sort:field", field_raw, field_choice::<T>());
                        return Err(e);
                    },
                };
                match SortDirection::parse(dir_raw) {
                    Some(direction) => Ok(Sort { field, direction }),
                    None => Err(invalid_choice_error("sort:direction", dir_raw, direction_choice())),
                }
            },
            None => match T::from_str(s) {
                Ok(field) => Ok(Sort { field, direction: SortDirection::Asc }),
                Err(_) => Err(invalid_choice_error("sort:field", s, field_choice::<T>())),
            },
        }
    }
}

/// A page or size text is absent, or reads as a number.
pub open spec fn number_ok(p: Option<String>) -> bool {
    p matches Some(s) ==> parse_decimal(s@) is Some
}

/// The page that a request asks for: 1 when absent, and never below 1.
pub open spec fn requested_page(p: Option<String>) -> u64 {
    match p {
        Some(s) => match parse_decimal(s@) {
            Some(n) => if n < FIRST_PAGE {
                FIRST_PAGE
            } else {
                n
            },
            None => FIRST_PAGE,
        },
        None => FIRST_PAGE,
    }
}

/// The page size that a request asks for: 100 when absent, and never above 500.
pub open spec fn requested_size(p: Option<String>) -> u64 {
    match p {
        Some(s) => match parse_decimal(s@) {
            Some(n) => if n > MAX_PAGE_SIZE {
                MAX_PAGE_SIZE
            } else {
                n
            },
            None => DEFAULT_PAGE_SIZE,
        },
        None => DEFAULT_PAGE_SIZE,
    }
}

/// `e` rejects the text `raw` given for the number `name`, which must be an
/// integer of at least 1.
pub open spec fn invalid_number(e: TrackerError, name: Seq<char>, raw: Seq<char>) -> bool {
    &&& e matches TrackerError::InvalidFieldValue(fv, av)
    &&& fv.name@ == name
    &&& fv.value matches Some(v) && is_text(v, raw)
    &&& av == (AllowedValues::Integer {
        min: Some(Bound { value: Value::Int32(1), inclusive: true }),
        max: None,
    })
}

pub open spec fn sorts_ok<F: Field>(tokens: Seq<String>) -> bool {
    forall|i: int| 0 <= i < tokens.len() ==> (#[trigger] parse_sort::<F>(tokens[i]@)) is Some
}

/// The sorts of a request are the tokens read in order, or the default sort
/// when there are no tokens.
pub open spec fn sorts_match<F: Field>(tokens: Seq<String>, sorts: Seq<Sort<F>>) -> bool {
    if tokens.len() == 0 {
        sorts.len() == 1 && sorts[0].field == F::spec_default() && sorts[0].direction
            == SortDirection::Asc
    } else {
        sorts.len() == tokens.len() && forall|i: int|
            0 <= i < tokens.len() ==> #[trigger] parse_sort::<F>(tokens[i]@) == Some(
                (sorts[i].field, sorts[i].direction),
            )
    }
}

/// The error of a request: the first invalid sort token's, else the page's,
/// else the size's.
pub open spec fn page_request_error<F: Field>(raw: PageRequestRaw, e: TrackerError) -> bool {
    ||| exists|i: int|
        0 <= i < raw.sorts@.len() && sorts_ok::<F>(raw.sorts@.subrange(0, i)) && parse_sort::<F>(
            #[trigger] raw.sorts@[i]@,
        ) is None && sort_error::<F>(raw.sorts@[i]@, e)
    ||| sorts_ok::<F>(raw.sorts@) && !number_ok(raw.page) && invalid_number(
        e,
        "page"@,
        raw.page->0@,
    )
    ||| sorts_ok::<F>(raw.sorts@) && number_ok(raw.page) && !number_ok(raw.size) && invalid_number(
        e,
        "size"@,
        raw.size->0@,
    )
}

/// `req` is the validated form of `raw`.
pub open spec fn normalized<F: Field>(raw: PageRequestRaw, req: PageRequest<F>) -> bool {
    &&& req.wf()
    &&& sorts_match::<F>(raw.sorts@, req.sorts@)
    &&& req.page == requested_page(raw.page)
    &&& req.size == requested_size(raw.size)
}

/// `raw` can be validated: every sort token, the page and the size read.
pub open spec fn acceptable<F: Field>(raw: PageRequestRaw) -> bool {
    sorts_ok::<F>(raw.sorts@) && number_ok(raw.page) && number_ok(raw.size)
}

impl<T: Field> PageRequest<T> {
    /// Page at least 1, size at most 500, and at least one sort.
    pub open spec fn wf(&self) -> bool {
        &&& self.page >= FIRST_PAGE
        &&& self.size <= MAX_PAGE_SIZE
        &&& self.sorts@.len() >= 1
    }

    /// Validates a raw request: each sort token is read in order, and the
    /// default sort stands in when there is none; page and size are read in
    /// base 10, the page defaulting to 1 and raised to at least 1, the size
    /// defaulting to 100 and lowered to at most 500.
    pub fn try_from(raw: PageRequestRaw) -> (r: Result<PageRequest<T>, TrackerError>)
        ensures
            r is Ok <==> acceptable::<T>(raw),
            match r {
                Ok(req) => normalized::<T>(raw, req),
                Err(e) => page_request_error::<T>(raw, e),
            },
    {
        let mut sorts: Vec<Sort<T>> = Vec::new();
        let mut i: usize = 0;
        while i < raw.sorts.len()
            invariant
                i <= raw.sorts@.len(),
                sorts@.len() == i,
                sorts_ok::<T>(raw.sorts@.subrange(0, i as int)),
                forall|j: int|
                    0 <= j < i ==> #[trigger] parse_sort::<T>(raw.sorts@[j]@) == Some(
                        (sorts@[j].field, sorts@[j].direction),
                    ),
            decreases raw.sorts@.len() - i,
        {
            match Sort::<T>::try_from(raw.sorts[i].clone()) {
                Ok(s) => sorts.push(s),
                Err(e) => {
                    proof {
                        assert(page_request_error::<T>(raw, e));
                        assert(!sorts_ok::<T>(raw.sorts@));
                    }
                    return Err(e);
                },
            }
            proof {
                let prefix = raw.sorts@.subrange(0, i + 1);
                assert forall|j: int| 0 <= j < prefix.len() implies (#[trigger] parse_sort::<T>(
                    prefix[j]@,
                )) is Some by {
                    assert(prefix[j] == raw.sorts@[j]);
                }
            }
            i = i + 1;
        }
        proof {
            assert(raw.sorts@.subrange(0, i as int) =~= raw.sorts@);
        }
        if sorts.len() == 0 {
            sorts.push(Sort::<T>::default_sort());
        }
        let page = match &raw.page {
            Some(p) => match parse_u64(p.as_str()) {
                Some(n) => if n < FIRST_PAGE {
                    FIRST_PAGE
                } else {
                    n
                },
                None => {
                    let e = TrackerError::invalid_field(
                        FieldValue::new("page", Value::text(p.as_str())),
                        AllowedValues::integer_min(Bound::inclusive(Value::Int32(1))),
                    );
                    return Err(e);
                },
            },
            None => FIRST_PAGE,
        };
        let size = match &raw.size {
            Some(p) => match parse_u64(p.as_str()) {
                Some(n) => if n > MAX_PAGE_SIZE {
                    MAX_PAGE_SIZE
                } else {
                    n
                },
                None => {
                    let e = TrackerError::invalid_field(
                        FieldValue::new("size", Value::text(p.as_str())),
                        AllowedValues::integer_min(Bound::inclusive(Value::Int32(1))),
                    );
                    return Err(e);
                },
            },
            None => DEFAULT_PAGE_SIZE,
        };
        Ok(PageRequest { page, size, sorts })
    }

    /// The number of rows before the requested page.
    pub fn offset(&self) -> (r: u64)
        requires
            self.page >= FIRST_PAGE,
            (self.page - 1) * self.size <= u64::MAX,
        ensures
            r == (self.page - 1) * self.size,
    {
        (self.page - 1) * self.size
    }
}

/// A validated request has a page of at least 1 and a size of at most 500;
/// the size is at least 1 too unless it was given as zero.
pub proof fn lemma_size_bounds<F: Field>(raw: PageRequestRaw, req: PageRequest<F>)
    requires
        normalized::<F>(raw, req),
    ensures
        req.page >= FIRST_PAGE,
        req.size <= MAX_PAGE_SIZE,
        !(raw.size matches Some(s) && parse_decimal(s@) == Some(0u64)) ==> req.size >= 1,
        raw.size matches Some(s) && parse_decimal(s@) matches Some(n) && n > MAX_PAGE_SIZE
            ==> req.size == MAX_PAGE_SIZE,
{
}

/// The number of pages of `size` rows that `total` rows fill. A size of zero
/// holds nothing: no pages for no rows, and the largest count otherwise.
pub open spec fn page_count(size: u64, total: u64) -> u64 {
    if size == 0 {
        if total == 0 {
            0
        } else {
            u64::MAX
        }
    } else if total % size == 0 {
        total / size
    } else {
        (total / size + 1) as u64
    }
}

impl PageMetadata {
    /// The metadata of page `page` of `size` rows among `total_results` rows.
    pub fn new(page: u64, size: u64, total_results: u64) -> (r: PageMetadata)
        ensures
            r.total_results == total_results,
            r.total_pages == page_count(size, total_results),
            r.current_page == page,
            r.next_page == (if page < r.total_pages {
                Some((page + 1) as u64)
            } else {
                None
            }),
            r.prev_page == (if page > 1 {
                Some((page - 1) as u64)
            } else {
                None
            }),
    {
        let total_pages = if size == 0 {
            if total_results == 0 {
                0
            } else {
                u64::MAX
            }
        } else if total_results % size == 0 {
            total_results / size
        } else {
            assert(total_results / size < u64::MAX) by (nonlinear_arith)
                requires
                    size > 0,
                    total_results % size != 0,
            ;
            total_results / size + 1
        };
        PageMetadata {
            total_results,
            total_pages,
            current_page: page,
            next_page: if page < total_pages {
                Some(page + 1)
            } else {
                None
            },
            prev_page: if page > 1 {
                Some(page - 1)
            } else {
                None
            },
        }
    }
}

impl<T> Page<T> {
    pub fn new(data: Vec<T>, metadata: PageMetadata) -> (r: Page<T>)
        ensures
            r.data == data,
            r.metadata == metadata,
    {
        Page { data, metadata }
    }

    /// Applies `f` to each row, in order, keeping the metadata.
    pub fn map<U, F: Fn(T) -> U>(self, f: F) -> (r: Page<U>)
        requires
            forall|t: T| #[trigger] f.requires((t,)),
        ensures
            r.metadata == self.metadata,
            r.data@.len() == self.data@.len(),
            forall|i: int| 0 <= i < self.data@.len() ==> f.ensures((self.data@[i],), #[trigger] r.data@[i]),
    {
        let Page { data, metadata } = self;
        let ghost orig = data@;
        let mut data = data;
        let mut new_data: Vec<U> = Vec::new();
        while data.len() > 0
            invariant
                new_data@.len() + data@.len() == orig.len(),
                data@ == orig.subrange(new_data@.len() as int, orig.len() as int),
                forall|t: T| #[trigger] f.requires((t,)),
                forall|i: int| 0 <= i < new_data@.len() ==> f.ensures((orig[i],), #[trigger] new_data@[i]),
            decreases data@.len(),
        {
            let e = data.remove(0);
            let ghost k = new_data@.len();
            let u = f(e);
            new_data.push(u);
            proof {
                assert(data@ =~= orig.subrange(new_data@.len() as int, orig.len() as int));
                assert(new_data@[k as int] == u);
            }
        }
        Page { data: new_data, metadata }
    }

    /// Converts each row into `U`, in order, keeping the metadata.
    pub fn convert<U: From<T>>(self) -> (r: Page<U>)
        ensures
            r.metadata == self.metadata,
            r.data@.len() == self.data@.len(),
            forall|i: int| 0 <= i < self.data@.len() ==> call_ensures(U::from, (self.data@[i],), #[trigger] r.data@[i]),
    {
        let Page { data, metadata } = self;
        let ghost orig = data@;
        let mut data = data;
        let mut new_data: Vec<U> = Vec::new();
        while data.len() > 0
            invariant
                new_data@.len() + data@.len() == orig.len(),
                data@ == orig.subrange(new_data@.len() as int, orig.len() as int),
                forall|i: int| 0 <= i < new_data@.len() ==> call_ensures(U::from, (orig[i],), #[trigger] new_data@[i]),
            decreases data@.len(),
        {
            let e = data.remove(0);
            let ghost k = new_data@.len();
            let u = U::from(e);
            new_data.push(u);
            proof {
                assert(data@ =~= orig.subrange(new_data@.len() as int, orig.len() as int));
                assert(new_data@[k as int] == u);
            }
        }
        Page { data: new_data, metadata }
    }
}

} // verus!
