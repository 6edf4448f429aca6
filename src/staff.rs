//! Sums over the staff, and hiring and firing by id.

use crate::employee::{Employee, EmployeeView, is_random_candidate};
use crate::restaurant::{RestaurantView, after_fire, after_hire, POOL_SIZE};
use vstd::prelude::*;

verus! {

/// Hours in one shift; each hired employee works one shift a day.
pub const SHIFT_HOURS: i64 = 8;

/// The models of a list of employees.
pub open spec fn staff_view(staff: Seq<Employee>) -> Seq<EmployeeView> {
    staff.map_values(|e: Employee| e@)
}

/// Sum of the ratings of the given staff.
pub open spec fn total_rating(staff: Seq<EmployeeView>) -> int
    decreases staff.len(),
{
    if staff.len() == 0 {
        0
    } else {
        total_rating(staff.drop_last()) + staff.last().rating
    }
}

/// What the given staff cost for one day: each works one shift at their wage.
pub open spec fn labor_cost(staff: Seq<EmployeeView>) -> int
    decreases staff.len(),
{
    if staff.len() == 0 {
        0
    } else {
        labor_cost(staff.drop_last()) + staff.last().wage * SHIFT_HOURS
    }
}

/// Whether an employee's id differs from `id`.
pub open spec fn id_differs(id: int) -> spec_fn(EmployeeView) -> bool {
    |e: EmployeeView| e.id != id
}

/// No two employees in `staff` share an id.
pub open spec fn distinct_ids(staff: Seq<EmployeeView>) -> bool {
    forall|i: int, j: int|
        0 <= i < staff.len() && 0 <= j < staff.len() && i != j ==> #[trigger] staff[i].id
            != #[trigger] staff[j].id
}

/// A prefix of a staff list has no greater total rating, when no rating is
/// negative.
pub proof fn lemma_total_rating_prefix(staff: Seq<EmployeeView>, k: int)
    requires
        0 <= k <= staff.len(),
        forall|i: int| 0 <= i < staff.len() ==> #[trigger] staff[i].rating >= 0,
    ensures
        0 <= total_rating(staff.take(k)) <= total_rating(staff),
    decreases staff.len(),
{
    if staff.len() == 0 {
        assert(staff.take(k) =~= staff);
    } else {
        let rest = staff.drop_last();
        lemma_total_rating_prefix(rest, rest.len() as int);
        assert(rest.take(rest.len() as int) =~= rest);
        if k == staff.len() {
            assert(staff.take(k) =~= staff);
        } else {
            assert(staff.take(k) =~= rest.take(k));
            lemma_total_rating_prefix(rest, k);
        }
    }
}

/// A prefix of a staff list costs no more, when no wage is negative.
pub proof fn lemma_labor_cost_prefix(staff: Seq<EmployeeView>, k: int)
    requires
        0 <= k <= staff.len(),
        forall|i: int| 0 <= i < staff.len() ==> #[trigger] staff[i].wage >= 0,
    ensures
        0 <= labor_cost(staff.take(k)) <= labor_cost(staff),
    decreases staff.len(),
{
    if staff.len() == 0 {
        assert(staff.take(k) =~= staff);
    } else {
        let rest = staff.drop_last();
        lemma_labor_cost_prefix(rest, rest.len() as int);
        assert(rest.take(rest.len() as int) =~= rest);
        if k == staff.len() {
            assert(staff.take(k) =~= staff);
        } else {
            assert(staff.take(k) =~= rest.take(k));
            lemma_labor_cost_prefix(rest, k);
        }
    }
}

/// The staff without the employees whose id is `id`.
pub(crate) fn without_id(staff: &Vec<Employee>, id: i64) -> (r: Vec<Employee>)
    ensures
        staff_view(r@) == staff_view(staff@).filter(
            id_differs(id as int),
        ),
        forall|a: int|
            0 <= a < r@.len() ==> staff_view(staff@).contains(
                #[trigger] staff_view(r@)[a],
            ),
        distinct_ids(staff_view(staff@)) ==> distinct_ids(
            staff_view(r@),
        ),
{
    let ghost all = staff_view(staff@);
    let mut kept: Vec<Employee> = Vec::new();
    let mut i: usize = 0;
    while i < staff.len()
        invariant
            i <= staff@.len(),
            all == staff_view(staff@),
            staff_view(kept@) == all.take(i as int).filter(id_differs(id as int)),
            forall|a: int|
                0 <= a < kept@.len() ==> all.take(i as int).contains(
                    #[trigger] staff_view(kept@)[a],
                ),
            distinct_ids(all) ==> distinct_ids(staff_view(kept@)),
        decreases staff@.len() - i,
    {
        proof {
            assert(all.take(i + 1) =~= all.take(i as int).push(all[i as int]));
            all.take(i as int).lemma_filter_push(all[i as int], id_differs(id as int));
        }
        if staff[i].get_id() != id {
            let e = staff[i].clone();
            let ghost before = staff_view(kept@);
            let ghost kept_before = kept@;
            kept.push(e);
            assert(staff_view(kept@) =~= before.push(all[i as int]));
            assert forall|a: int| 0 <= a < kept@.len() implies all.take(i + 1).contains(
                #[trigger] staff_view(kept@)[a],
            ) by {
                let kv = staff_view(kept@);
                if a == kept@.len() - 1 {
                    assert(all.take(i + 1)[i as int] == kv[a]);
                } else {
                    assert(kv[a] == before[a]);
                    let j = choose|j: int| 0 <= j < i && all.take(i as int)[j] == before[a];
                    assert(all.take(i + 1)[j] == kv[a]);
                }
            }
        }
        i = i + 1;
    }
    proof {
        assert(all.take(i as int) =~= all);
    }
    kept
}

/// How many employees in `staff` have the given id.
pub open spec fn id_count(staff: Seq<EmployeeView>, id: int) -> int
    decreases staff.len(),
{
    if staff.len() == 0 {
        0
    } else {
        id_count(staff.drop_last(), id) + if staff.last().id == id {
            1int
        } else {
            0int
        }
    }
}

/// Leaving out the employees with a given id shortens the list by their
/// number, and leaves it as it is when there are none.
pub proof fn lemma_filter_id(staff: Seq<EmployeeView>, id: int)
    ensures
        staff.filter(id_differs(id)).len() == staff.len() - id_count(staff, id),
        id_count(staff, id) == 0 <==> forall|i: int| 0 <= i < staff.len() ==> #[trigger] staff[i].id != id,
        id_count(staff, id) == 0 ==> staff.filter(id_differs(id)) == staff,
    decreases staff.len(),
{
    if staff.len() > 0 {
        let rest = staff.drop_last();
        lemma_filter_id(rest, id);
        assert(staff =~= rest.push(staff.last()));
        rest.lemma_filter_push(staff.last(), id_differs(id));
        if id_count(staff, id) == 0 {
            assert forall|i: int| 0 <= i < staff.len() implies #[trigger] staff[i].id != id by {
                if i < rest.len() {
                    assert(rest[i] == staff[i]);
                }
            }
        }
        if forall|i: int| 0 <= i < staff.len() ==> #[trigger] staff[i].id != id {
            assert(staff[staff.len() - 1].id != id);
            assert forall|i: int| 0 <= i < rest.len() implies #[trigger] rest[i].id != id by {
                assert(rest[i] == staff[i]);
            }
        }
    } else {
        assert(staff.filter(id_differs(id)) =~= staff) by {
            reveal(Seq::filter);
        }
    }
}

/// With distinct ids, each id occurs at most once.
pub proof fn lemma_id_count_distinct(staff: Seq<EmployeeView>, id: int)
    requires
        distinct_ids(staff),
    ensures
        id_count(staff, id) <= 1,
    decreases staff.len(),
{
    if staff.len() > 0 {
        let rest = staff.drop_last();
        assert forall|i: int, j: int|
            0 <= i < rest.len() && 0 <= j < rest.len() && i != j implies #[trigger] rest[i].id
            != #[trigger] rest[j].id by {
            assert(rest[i] == staff[i] && rest[j] == staff[j]);
        }
        lemma_id_count_distinct(rest, id);
        if staff.last().id == id {
            lemma_filter_id(rest, id);
            assert forall|i: int| 0 <= i < rest.len() implies #[trigger] rest[i].id != id by {
                assert(rest[i] == staff[i]);
                assert(staff[i].id != staff[staff.len() - 1].id);
            }
        }
    }
}

/// An id held only by the employee at `k` occurs once.
pub proof fn lemma_id_count_once(staff: Seq<EmployeeView>, k: int)
    requires
        0 <= k < staff.len(),
        forall|j: int| 0 <= j < staff.len() && j != k ==> #[trigger] staff[j].id != staff[k].id,
    ensures
        id_count(staff, staff[k].id) == 1,
    decreases staff.len(),
{
    let id = staff[k].id;
    let rest = staff.drop_last();
    if k == staff.len() - 1 {
        lemma_filter_id(rest, id);
        assert forall|i: int| 0 <= i < rest.len() implies #[trigger] rest[i].id != id by {
            assert(rest[i] == staff[i]);
        }
    } else {
        assert(rest[k] == staff[k]);
        assert forall|j: int| 0 <= j < rest.len() && j != k implies #[trigger] rest[j].id != rest[k].id by {
            assert(rest[j] == staff[j]);
        }
        lemma_id_count_once(rest, k);
        assert(staff.last() == staff[staff.len() - 1]);
    }
}

/// Hiring the candidate at `k`, whose id no other candidate shares, takes
/// exactly one entry out of the pool and adds exactly one employee to the
/// staff, under an id greater than any handed out before.
pub proof fn lemma_hire_moves_one(v: RestaurantView, k: int)
    requires
        v.wf(),
        0 <= k < v.pot.len(),
        forall|j: int| 0 <= j < v.pot.len() && j != k ==> #[trigger] v.pot[j].id != v.pot[k].id,
    ensures
        after_hire(v, v.pot[k]).pot.len() == v.pot.len() - 1,
        after_hire(v, v.pot[k]).hired.len() == v.hired.len() + 1,
        after_hire(v, v.pot[k]).hired.drop_last() == v.hired,
        after_hire(v, v.pot[k]).hired.last().id > v.id,
        forall|i: int|
            0 <= i < v.hired.len() ==> after_hire(v, v.pot[k]).hired.last().id > #[trigger] v.hired[i].id,
{
    lemma_id_count_once(v.pot, k);
    lemma_filter_id(v.pot, v.pot[k].id);
    assert(after_hire(v, v.pot[k]).hired.drop_last() =~= v.hired);
}

/// Firing by id takes out at most one hired employee, and changes nothing
/// when no one has that id.
pub proof fn lemma_fire_removes_at_most_one(v: RestaurantView, id: int)
    requires
        v.wf(),
    ensures
        v.hired.len() - 1 <= after_fire(v, id).hired.len() <= v.hired.len(),
        (forall|i: int| 0 <= i < v.hired.len() ==> #[trigger] v.hired[i].id != id) ==> after_fire(v, id)
            == v,
{
    lemma_id_count_distinct(v.hired, id);
    lemma_filter_id(v.hired, id);
    assert(id_count(v.hired, id) >= 0) by {
        lemma_id_count_nonneg(v.hired, id);
    }
    if forall|i: int| 0 <= i < v.hired.len() ==> #[trigger] v.hired[i].id != id {
        assert(after_fire(v, id) =~= v);
    }
}

/// No id occurs a negative number of times.
pub proof fn lemma_id_count_nonneg(staff: Seq<EmployeeView>, id: int)
    ensures
        id_count(staff, id) >= 0,
    decreases staff.len(),
{
    if staff.len() > 0 {
        lemma_id_count_nonneg(staff.drop_last(), id);
    }
}

/// A freshly drawn list of candidates.
pub(crate) fn random_pool() -> (r: Vec<Employee>)
    ensures
        r@.len() == POOL_SIZE,
        forall|i: int| 0 <= i < r@.len() ==> is_random_candidate(#[trigger] r@[i]@),
{
    let mut pool: Vec<Employee> = Vec::new();
    let mut i: usize = 0;
    while i < POOL_SIZE
        invariant
            i <= POOL_SIZE,
            pool@.len() == i,
            forall|j: int| 0 <= j < pool@.len() ==> is_random_candidate(#[trigger] pool@[j]@),
        decreases POOL_SIZE - i,
    {
        pool.push(Employee::rand_empl());
        i = i + 1;
    }
    pool
}

} // verus!
