//! The join tracker: each relation that sort keys reach is joined once, in
//! the order in which it is first needed.
use crate::data::{Sort, SortDirection};
use crate::field::{join_paths, join_views, ColumnRef, Field, Join, JoinView};
use vstd::prelude::*;

verus! {

/// The joins of `js` whose paths are not yet in `added`, in order, each path
/// at most once.
pub open spec fn fresh_joins(added: Seq<Seq<char>>, js: Seq<JoinView>) -> Seq<JoinView>
    decreases js.len(),
{
    if js.len() == 0 {
        seq![]
    } else if added.contains(js[0].path) {
        fresh_joins(added, js.drop_first())
    } else {
        seq![js[0]] + fresh_joins(added.push(js[0].path), js.drop_first())
    }
}

/// The relation paths already joined in one query.
pub struct JoinTracker {
    pub added: Vec<String>,
}

impl View for JoinTracker {
    type V = Seq<Seq<char>>;

    open spec fn view(&self) -> Seq<Seq<char>> {
        self.added@.map_values(|s: String| s@)
    }
}

impl JoinTracker {
    /// No path is recorded twice.
    pub open spec fn wf(&self) -> bool {
        self@.no_duplicates()
    }

    pub fn new() -> (r: JoinTracker)
        ensures
            r@ == Seq::<Seq<char>>::empty(),
            r.wf(),
    {
        let r = JoinTracker { added: Vec::new() };
        proof {
            assert(r@ =~= Seq::<Seq<char>>::empty());
        }
        r
    }

    /// Whether `path` is already joined.
    pub fn contains(&self, path: &String) -> (r: bool)
        ensures
            r == self@.contains(path@),
    {
        let mut i: usize = 0;
        while i < self.added.len()
            invariant
                i <= self.added@.len(),
                forall|j: int| 0 <= j < i ==> self@[j] != path@,
            decreases self.added@.len() - i,
        {
            if self.added[i] == *path {
                assert(self@[i as int] == path@);
                return true;
            }
            i = i + 1;
        }
        false
    }
}

/// Records the relations that `field` reaches and returns the joins among
/// them that the query does not have yet.
pub fn add_join_for_field<F: Field>(field: F, joins_tracker: &mut JoinTracker) -> (r: Vec<Join>)
    requires
        old(joins_tracker).wf(),
    ensures
        join_views(r@) == fresh_joins(old(joins_tracker)@, field.spec_joins()),
        final(joins_tracker)@ == old(joins_tracker)@ + join_paths(join_views(r@)),
        final(joins_tracker).wf(),
        forall|m: int| 0 <= m < r@.len() ==> field.spec_joins().contains(#[trigger] r@[m]@),
{
    let js = field.joins();
    let ghost all = join_views(js@);
    let ghost start = joins_tracker@;
    let mut out: Vec<Join> = Vec::new();
    let mut i: usize = 0;
    proof {
        assert(all.subrange(0, all.len() as int) =~= all);
        assert(join_views(out@) =~= Seq::<JoinView>::empty());
        assert(join_paths(join_views(out@)) =~= Seq::<Seq<char>>::empty());
        assert(joins_tracker@ =~= start + join_paths(join_views(out@)));
        assert(join_views(out@) + fresh_joins(start, all) =~= fresh_joins(start, all));
    }
    while i < js.len()
        invariant
            i <= js@.len(),
            all == join_views(js@),
            all == field.spec_joins(),
            start == old(joins_tracker)@,
            joins_tracker.wf(),
            joins_tracker@ == start + join_paths(join_views(out@)),
            join_views(out@) + fresh_joins(joins_tracker@, all.subrange(i as int, all.len() as int))
                == fresh_joins(start, all),
            forall|m: int| 0 <= m < out@.len() ==> all.contains(#[trigger] out@[m]@),
        decreases js@.len() - i,
    {
        let ghost rest = all.subrange(i as int, all.len() as int);
        let ghost added = joins_tracker@;
        proof {
            assert(rest.drop_first() =~= all.subrange(i + 1, all.len() as int));
            assert(rest[0] == js@[i as int]@);
        }
        if !joins_tracker.contains(&js[i].path) {
            let ghost before = join_views(out@);
            out.push(js[i].copy());
            joins_tracker.added.push(js[i].path.clone());
            proof {
                assert(all[i as int] == out@[out@.len() - 1]@);
                assert(join_views(out@) =~= before.push(rest[0]));
                assert(joins_tracker@ =~= added.push(rest[0].path));
                assert(join_paths(join_views(out@)) =~= join_paths(before).push(rest[0].path));
                assert(joins_tracker@ =~= start + join_paths(join_views(out@)));
                assert(join_views(out@) + fresh_joins(
                    joins_tracker@,
                    all.subrange(i + 1, all.len() as int),
                ) =~= before + fresh_joins(added, rest));
            }
        }
        i = i + 1;
    }
    proof {
        assert(all.subrange(i as int, all.len() as int) =~= Seq::<JoinView>::empty());
        assert(join_views(out@) =~= join_views(out@) + Seq::<JoinView>::empty());
    }
    out
}

/// After the fresh joins of `js` are added, every path of `js` is present.
pub proof fn lemma_fresh_covers(added: Seq<Seq<char>>, js: Seq<JoinView>)
    ensures
        forall|k: int|
            0 <= k < js.len() ==> (added + join_paths(fresh_joins(added, js))).contains(
                #[trigger] js[k].path,
            ),
    decreases js.len(),
{
    if js.len() > 0 {
        let tail = js.drop_first();
        if added.contains(js[0].path) {
            lemma_fresh_covers(added, tail);
            assert forall|k: int| 0 <= k < js.len() implies (added + join_paths(
                fresh_joins(added, js),
            )).contains(#[trigger] js[k].path) by {
                if k == 0 {
                    let i = added.index_of(js[0].path);
                    assert((added + join_paths(fresh_joins(added, js)))[i] == js[0].path);
                } else {
                    assert(tail[k - 1] == js[k]);
                }
            }
        } else {
            let next = added.push(js[0].path);
            lemma_fresh_covers(next, tail);
            assert(added + join_paths(fresh_joins(added, js)) =~= next + join_paths(
                fresh_joins(next, tail),
            ));
            assert forall|k: int| 0 <= k < js.len() implies (added + join_paths(
                fresh_joins(added, js),
            )).contains(#[trigger] js[k].path) by {
                if k == 0 {
                    assert((next + join_paths(fresh_joins(next, tail)))[added.len() as int]
                        == js[0].path);
                } else {
                    assert(tail[k - 1] == js[k]);
                }
            }
        }
    }
}

/// An ORDER BY term: a column and a direction.
pub struct OrderBy {
    pub column: ColumnRef,
    pub direction: SortDirection,
}

/// What a list of sorts asks of a query: the joins to add, once each, and the
/// ORDER BY terms in precedence order.
pub struct SortPlan {
    pub joins: Vec<Join>,
    pub order_by: Vec<OrderBy>,
}

/// The joins that sorts need, relation by relation, in order of first need.
pub open spec fn sort_joins<F: Field>(added: Seq<Seq<char>>, sorts: Seq<Sort<F>>) -> Seq<JoinView>
    decreases sorts.len(),
{
    if sorts.len() == 0 {
        seq![]
    } else {
        let first = fresh_joins(added, sorts[0].field.spec_joins());
        first + sort_joins(added + join_paths(first), sorts.drop_first())
    }
}

/// Plans the ORDER BY terms of `sorts` and the joins they need: each relation
/// is joined once, in the order in which a sort first reaches it.
pub fn add_sorts<F: Field>(sorts: &Vec<Sort<F>>) -> (r: SortPlan)
    ensures
        join_views(r.joins@) == sort_joins(Seq::<Seq<char>>::empty(), sorts@),
        join_paths(join_views(r.joins@)).no_duplicates(),
        forall|i: int, k: int|
            0 <= i < sorts@.len() && 0 <= k < sorts@[i].field.spec_joins().len() ==> join_paths(
                join_views(r.joins@),
            ).contains(#[trigger] sorts@[i].field.spec_joins()[k].path),
        forall|m: int|
            0 <= m < r.joins@.len() ==> exists|i: int|
                0 <= i < sorts@.len() && sorts@[i].field.spec_joins().contains(
                    #[trigger] r.joins@[m]@,
                ),
        r.order_by@.len() == sorts@.len(),
        forall|i: int|
            0 <= i < sorts@.len() ==> (#[trigger] r.order_by@[i]).column@
                == sorts@[i].field.spec_column() && r.order_by@[i].direction
                == sorts@[i].direction,
{
    let mut tracker = JoinTracker::new();
    let mut joins: Vec<Join> = Vec::new();
    let mut order_by: Vec<OrderBy> = Vec::new();
    let ghost all = sorts@;
    let mut i: usize = 0;
    proof {
        assert(all.subrange(0, all.len() as int) =~= all);
        assert(join_views(joins@) =~= Seq::<JoinView>::empty());
        assert(join_paths(join_views(joins@)) =~= Seq::<Seq<char>>::empty());
        assert(tracker@ =~= join_paths(join_views(joins@)));
        assert(join_views(joins@) + sort_joins(tracker@, all) =~= sort_joins(tracker@, all));
    }
    while i < sorts.len()
        invariant
            i <= sorts@.len(),
            all == sorts@,
            tracker.wf(),
            tracker@ == join_paths(join_views(joins@)),
            join_views(joins@) + sort_joins(tracker@, all.subrange(i as int, all.len() as int))
                == sort_joins(Seq::<Seq<char>>::empty(), all),
            forall|i2: int, k: int|
                0 <= i2 < i && 0 <= k < all[i2].field.spec_joins().len() ==> tracker@.contains(
                    #[trigger] all[i2].field.spec_joins()[k].path,
                ),
            forall|m: int|
                0 <= m < joins@.len() ==> exists|i2: int|
                    0 <= i2 < i && all[i2].field.spec_joins().contains(#[trigger] joins@[m]@),
            order_by@.len() == i,
            forall|j: int|
                0 <= j < i ==> (#[trigger] order_by@[j]).column@ == all[j].field.spec_column()
                    && order_by@[j].direction == all[j].direction,
        decreases sorts@.len() - i,
    {
        let ghost rest = all.subrange(i as int, all.len() as int);
        let ghost before = tracker@;
        let ghost before_joins = join_views(joins@);
        let sort = &sorts[i];
        let mut added = add_join_for_field(sort.field, &mut tracker);
        let ghost fresh = join_views(added@);
        let ghost added_seq = added@;
        let ghost joins_before = joins@;
        proof {
            lemma_fresh_covers(before, sort.field.spec_joins());
            assert(rest.drop_first() =~= all.subrange(i + 1, all.len() as int));
            assert(rest[0] == all[i as int]);
        }
        joins.append(&mut added);
        order_by.push(OrderBy { column: sort.field.column(), direction: sort.direction });
        proof {
            assert(join_views(joins@) =~= before_joins + fresh);
            assert(joins@ =~= joins_before + added_seq);
            assert forall|m: int| 0 <= m < joins@.len() implies exists|i2: int|
                0 <= i2 < i + 1 && all[i2].field.spec_joins().contains(#[trigger] joins@[m]@) by {
                if m >= joins_before.len() {
                    assert(joins@[m] == added_seq[m - joins_before.len()]);
                    assert(all[i as int].field.spec_joins().contains(joins@[m]@));
                } else {
                    assert(joins@[m] == joins_before[m]);
                }
            }
            assert(join_paths(join_views(joins@)) =~= join_paths(before_joins) + join_paths(fresh));
            assert(join_views(joins@) + sort_joins(tracker@, all.subrange(i + 1, all.len() as int))
                =~= before_joins + sort_joins(before, rest));
            assert forall|i2: int, k: int|
                0 <= i2 < i + 1 && 0 <= k < all[i2].field.spec_joins().len() implies tracker@.contains(
                #[trigger] all[i2].field.spec_joins()[k].path,
            ) by {
                if i2 < i {
                    let p = all[i2].field.spec_joins()[k].path;
                    let m = before.index_of(p);
                    assert(tracker@[m] == p);
                }
            }
        }
        i = i + 1;
    }
    proof {
        assert(all.subrange(i as int, all.len() as int) =~= Seq::<Sort<F>>::empty());
        assert(join_views(joins@) + Seq::<JoinView>::empty() =~= join_views(joins@));
    }
    SortPlan { joins, order_by }
}

} // verus!
