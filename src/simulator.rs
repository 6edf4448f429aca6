//! One simulated day, and the game state around the restaurant: the day
//! counter and the player's commands.

use crate::employee::{EmployeeView, is_random_candidate};
use crate::menu_item::{MenuItemView, inv_after_increase};
use crate::restaurant::{
    Restaurant, RestaurantView, after_fire, after_hire, is_opening_state, quality_of, burger, fries,
    soda, burger_name, fries_name, soda_name, inv_of, quality_modifier, quality_total, update_item,
    MAX_CUST, MIN_CUST, LOWEST_QUALITY, HIGHEST_QUALITY, POOL_SIZE,
};
use crate::sales::{
    CustomerView, after_serving, lemma_after_serving, lemma_only_sold_inv, magnitude,
    only_sold_from, order_span, MIN_CASH, MAX_CASH,
};
use crate::staff::{labor_cost, lemma_labor_cost_prefix, lemma_total_rating_prefix, total_rating, SHIFT_HOURS};
use vstd::math::min;
use vstd::prelude::*;

verus! {

/// No day brings more customers than this: the demand stays below
/// `MAX_CUST` plus the largest quality modifier.
pub const MAX_DAILY_CUSTOMERS: i64 = 49;

/// What one day came to.
#[derive(Clone, Copy, Debug, PartialEq, Eq)]
pub struct DaySummary {
    pub customers_served: i64,
    pub burgers_sold: i64,
    pub fries_sold: i64,
    pub sodas_sold: i64,
    /// Change of revenue over the day, in cents.
    pub profit: i64,
}

/// The restaurant after a day with the customers `cs`: they are served in
/// order, then the day's labor is paid.
pub open spec fn day_outcome(v: RestaurantView, cs: Seq<CustomerView>) -> RestaurantView {
    let served = after_serving(RestaurantView { customers: cs, ..v }, cs);
    RestaurantView { revenue: served.revenue - labor_cost(v.hired), ..served }
}

/// Whether every sum a day can reach fits in an `i64`, whatever the draws.
pub open spec fn day_fits(v: RestaurantView) -> bool {
    let gain = MAX_DAILY_CUSTOMERS * order_span(v.menu);
    let cost = labor_cost(v.hired);
    &&& total_rating(v.hired) <= i64::MAX
    &&& cost <= i64::MAX
    &&& v.revenue + gain <= i64::MAX
    &&& i64::MIN <= v.revenue - gain - cost
    &&& gain + cost <= i64::MAX
}

/// Whether `after` and the report `r` are what a day can make of `before`:
/// some demand from `[5 + m, 25 + m)`, capped by the staff's total rating,
/// brings that many customers with cash from `[$10.00, $100.00)`; they are
/// served in order, the staff are paid, and `r` counts the customers, the
/// units sold of each item and the change of revenue.
pub open spec fn is_day_of(before: RestaurantView, after: RestaurantView, r: DaySummary) -> bool {
    let m = quality_modifier(quality_total(before.menu));
    &&& after == day_outcome(before, after.customers)
    &&& r.customers_served == after.customers.len()
    &&& exists|demand: int|
        MIN_CUST + m <= demand < MAX_CUST + m && r.customers_served == min(
            total_rating(before.hired),
            demand,
        )
    &&& forall|i: int|
        0 <= i < after.customers.len() ==> MIN_CASH <= (#[trigger] after.customers[i]).cash
            < MAX_CASH
    &&& only_sold_from(before.menu, after.menu)
    &&& r.burgers_sold == inv_of(before.menu, burger()) - inv_of(after.menu, burger())
    &&& r.fries_sold == inv_of(before.menu, fries()) - inv_of(after.menu, fries())
    &&& r.sodas_sold == inv_of(before.menu, soda()) - inv_of(after.menu, soda())
    &&& r.profit == after.revenue - before.revenue
}

/// An item that is out of stock when a day starts sells nothing that day,
/// whatever the customers like or carry.
pub proof fn lemma_out_of_stock_sells_nothing(before: RestaurantView, after: RestaurantView, r: DaySummary)
    requires
        is_day_of(before, after, r),
    ensures
        inv_of(before.menu, burger()) <= 0 ==> r.burgers_sold == 0,
        inv_of(before.menu, fries()) <= 0 ==> r.fries_sold == 0,
        inv_of(before.menu, soda()) <= 0 ==> r.sodas_sold == 0,
{
    lemma_only_sold_inv(before.menu, after.menu, burger());
    lemma_only_sold_inv(before.menu, after.menu, fries());
    lemma_only_sold_inv(before.menu, after.menu, soda());
}

/// Plays out one day: draws the customers, serves them in order, pays the
/// staff for a shift each, and reports what happened.
pub fn simulate_day(restaurant: &mut Restaurant) -> (r: DaySummary)
    requires
        old(restaurant)@.wf(),
        day_fits(old(restaurant)@),
    ensures
        final(restaurant)@.wf(),
        is_day_of(old(restaurant)@, final(restaurant)@, r),
        r.customers_served <= total_rating(old(restaurant)@.hired),
{
    let ghost start = restaurant@;
    let ghost span = order_span(start.menu);
    let revenue = restaurant.get_revenue();
    let burg_inv = restaurant.get_inv(burger_name());
    let fries_inv = restaurant.get_inv(fries_name());
    let soda_inv = restaurant.get_inv(soda_name());

    let cust_served = restaurant.generate_customers();
    let ghost drawn = restaurant@;
    proof {
        assert(quality_modifier(quality_total(start.menu)) <= 25);
        assert(cust_served <= MAX_DAILY_CUSTOMERS);
        assert(span >= 0);
        lemma_labor_cost_prefix(start.hired, 0);
        assert(start.hired.take(0) =~= Seq::<EmployeeView>::empty());
        assert(cust_served * span <= MAX_DAILY_CUSTOMERS * span) by (nonlinear_arith)
            requires cust_served <= MAX_DAILY_CUSTOMERS, span >= 0;
        lemma_after_serving(drawn, drawn.customers);
    }
    restaurant.serve_customers();
    let ghost served = restaurant@;
    let cost = restaurant.calc_empl_day_cost();
    restaurant.reduce_revenue(cost);
    proof {
        lemma_only_sold_inv(start.menu, restaurant@.menu, burger());
        lemma_only_sold_inv(start.menu, restaurant@.menu, fries());
        lemma_only_sold_inv(start.menu, restaurant@.menu, soda());
    }
    let burgers_sold = burg_inv - restaurant.get_inv(burger_name());
    let fries_sold = fries_inv - restaurant.get_inv(fries_name());
    let sodas_sold = soda_inv - restaurant.get_inv(soda_name());
    let profit = restaurant.get_revenue() - revenue;
    let r = DaySummary { customers_served: cust_served, burgers_sold, fries_sold, sodas_sold, profit };
    r
}

/// The staff's total rating, or `None` when it does not fit in an `i64`.
fn bounded_total_rating(restaurant: &Restaurant) -> (r: Option<i64>)
    requires
        restaurant@.wf(),
    ensures
        r matches Some(t) ==> t == total_rating(restaurant@.hired),
        r is None ==> total_rating(restaurant@.hired) > i64::MAX,
{
    let ghost staff = restaurant@.hired;
    let n = restaurant.hired_count();
    let mut acc: i64 = 0;
    let mut i: usize = 0;
    while i < n
        invariant
            i <= n == staff.len(),
            staff == restaurant@.hired,
            restaurant@.wf(),
            acc == total_rating(staff.take(i as int)),
        decreases n - i,
    {
        let rating = restaurant.get_hired_empl(i).get_rating();
        proof {
            assert(staff.take(i + 1).drop_last() =~= staff.take(i as int));
            lemma_total_rating_prefix(staff, i + 1);
        }
        if acc > i64::MAX - rating {
            return None;
        }
        acc = acc + rating;
        i = i + 1;
    }
    proof {
        assert(staff.take(i as int) =~= staff);
    }
    Some(acc)
}

/// What the staff cost for one day, or `None` when it does not fit in an
/// `i64`.
fn bounded_labor_cost(restaurant: &Restaurant) -> (r: Option<i64>)
    requires
        restaurant@.wf(),
    ensures
        r matches Some(t) ==> t == labor_cost(restaurant@.hired),
        r is None ==> labor_cost(restaurant@.hired) > i64::MAX,
{
    let ghost staff = restaurant@.hired;
    let n = restaurant.hired_count();
    let mut acc: i128 = 0;
    let mut i: usize = 0;
    while i < n
        invariant
            i <= n == staff.len(),
            staff == restaurant@.hired,
            restaurant@.wf(),
            acc == labor_cost(staff.take(i as int)),
            0 <= acc <= i64::MAX,
        decreases n - i,
    {
        let wage = restaurant.get_hired_empl(i).get_wage();
        proof {
            assert(staff.take(i + 1).drop_last() =~= staff.take(i as int));
            lemma_labor_cost_prefix(staff, i + 1);
        }
        acc = acc + (wage as i128) * (SHIFT_HOURS as i128);
        if acc > i64::MAX as i128 {
            return None;
        }
        i = i + 1;
    }
    proof {
        assert(staff.take(i as int) =~= staff);
    }
    Some(acc as i64)
}

/// `|x|`, widened.
fn magnitude_of(x: i64) -> (r: i128)
    ensures
        r == magnitude(x as int),
        0 <= r <= 0x8000_0000_0000_0000,
{
    if x < 0 {
        -(x as i128)
    } else {
        x as i128
    }
}

/// Whether a day can be played out on this restaurant: exactly
/// [`day_fits`].
pub fn day_within_limits(restaurant: &Restaurant) -> (r: bool)
    requires
        restaurant@.wf(),
    ensures
        r == day_fits(restaurant@),
{
    let rating = bounded_total_rating(restaurant);
    let cost = bounded_labor_cost(restaurant);
    if rating.is_none() || cost.is_none() {
        return false;
    }
    let cost = cost.unwrap() as i128;
    let span = magnitude_of(restaurant.get_price(burger_name())) + magnitude_of(
        restaurant.get_price(fries_name()),
    ) + magnitude_of(restaurant.get_price(soda_name()));
    assert(0 <= span <= 3 * 0x8000_0000_0000_0000);
    assert(MAX_DAILY_CUSTOMERS * span <= MAX_DAILY_CUSTOMERS * (3 * 0x8000_0000_0000_0000)) by (nonlinear_arith)
        requires
            0 <= span <= 3 * 0x8000_0000_0000_0000,
    ;
    let gain = (MAX_DAILY_CUSTOMERS as i128) * span;
    let revenue = restaurant.get_revenue() as i128;
    revenue + gain <= i64::MAX as i128 && i64::MIN as i128 <= revenue - gain - cost && gain + cost
        <= i64::MAX as i128
}

/// What one unit of the item called `name` costs the restaurant to order
/// at the given quality, in cents. Names other than Burger and Fries are
/// priced as Soda; qualities other than 1 and 2 as quality 3.
pub open spec fn unit_cost(name: Seq<char>, quality: int) -> int {
    if name == burger() {
        if quality == 1 {
            250
        } else if quality == 2 {
            400
        } else {
            550
        }
    } else if name == fries() {
        if quality == 1 {
            100
        } else if quality == 2 {
            150
        } else {
            200
        }
    } else {
        if quality == 1 {
            25
        } else if quality == 2 {
            37
        } else {
            50
        }
    }
}

/// What ordering `amount` units of the item called `name` costs, at the
/// item's current quality.
pub open spec fn order_cost(v: RestaurantView, name: Seq<char>, amount: int) -> int {
    amount * unit_cost(name, quality_of(v.menu, name))
}

/// The menu item a player picks by number: 1 for Burger, 2 for Fries, 3 for
/// Soda; `None` for any other number.
pub fn menu_item_name(choice: i64) -> (r: Option<String>)
    ensures
        choice == 1 ==> (r matches Some(n) && n@ == burger()),
        choice == 2 ==> (r matches Some(n) && n@ == fries()),
        choice == 3 ==> (r matches Some(n) && n@ == soda()),
        !(1 <= choice <= 3) ==> r is None,
{
    if choice == 1 {
        Some(burger_name())
    } else if choice == 2 {
        Some(fries_name())
    } else if choice == 3 {
        Some(soda_name())
    } else {
        None
    }
}

/// The mathematical model of a [`Simulator`].
pub ghost struct SimulatorView {
    pub day: int,
    pub restaurant: RestaurantView,
}

impl SimulatorView {
    pub open spec fn wf(self) -> bool {
        self.restaurant.wf() && 0 <= self.day <= i64::MAX
    }
}

/// The game: a restaurant and the number of days played.
pub struct Simulator {
    day: i64,
    restaurant: Restaurant,
}

impl View for Simulator {
    type V = SimulatorView;

    closed spec fn view(&self) -> SimulatorView {
        SimulatorView { day: self.day as int, restaurant: self.restaurant@ }
    }
}

impl Simulator {
    /// Starts a game at day 0 with a new restaurant of the given name.
    pub fn new(name: String) -> (r: Simulator)
        ensures
            r@.wf(),
            r@.day == 0,
            is_opening_state(r@.restaurant, name@),
    {
        let restaurant = Restaurant::new(name);
        Simulator { day: 0, restaurant }
    }

    /// Plays out one more day; see [`simulate_day`].
    pub fn sim_day(&mut self) -> (r: DaySummary)
        requires
            old(self)@.wf(),
            old(self)@.day < i64::MAX,
            day_fits(old(self)@.restaurant),
        ensures
            final(self)@.wf(),
            final(self)@.day == old(self)@.day + 1,
            is_day_of(old(self)@.restaurant, final(self)@.restaurant, r),
            r.customers_served <= total_rating(old(self)@.restaurant.hired),
    {
        self.day = self.day + 1;
        simulate_day(&mut self.restaurant)
    }

    /// Whether [`Simulator::sim_day`] may be called now.
    pub fn day_within_limits(&self) -> (r: bool)
        requires
            self@.wf(),
        ensures
            r == (self@.day < i64::MAX && day_fits(self@.restaurant)),
    {
        self.day < i64::MAX && day_within_limits(&self.restaurant)
    }

    /// Whether [`Simulator::order_inv`] may be called with these arguments:
    /// the cost and the new revenue and stock all fit in an `i64`.
    pub fn order_within_limits(&self, name: String, inc_amount: i64) -> (r: bool)
        requires
            self@.wf(),
        ensures
            r == (i64::MIN <= order_cost(self@.restaurant, name@, inc_amount as int) <= i64::MAX
                && i64::MIN <= self@.restaurant.revenue - order_cost(self@.restaurant, name@, inc_amount as int)
                <= i64::MAX && i64::MIN <= inv_after_increase(
                inv_of(self@.restaurant.menu, name@),
                inc_amount as int,
            ) <= i64::MAX),
    {
        let quality = self.restaurant.get_item_quality(name.clone());
        let unit = Simulator::calc_item_price(name.clone(), quality);
        assert(0 <= unit <= 550);
        assert(i64::MIN * 550 <= inc_amount * unit <= i64::MAX * 550) by (nonlinear_arith)
            requires
                0 <= unit <= 550,
                i64::MIN <= inc_amount <= i64::MAX,
        ;
        let cost = (inc_amount as i128) * (unit as i128);
        let revenue = self.restaurant.get_revenue() as i128;
        let stock = (self.restaurant.get_inv(name) as i128) + (inc_amount as i128);
        i64::MIN as i128 <= cost && cost <= i64::MAX as i128 && i64::MIN as i128 <= revenue - cost
            && revenue - cost <= i64::MAX as i128 && i64::MIN as i128 <= stock && stock
            <= i64::MAX as i128
    }

    /// Whether [`Simulator::hire_empl`] may be called with this position.
    pub fn can_hire(&self, position: usize) -> (r: bool)
        ensures
            r == (position < self@.restaurant.pot.len() && self@.restaurant.id < i64::MAX),
    {
        position < self.restaurant.pot_count() && self.restaurant.get_id() < i64::MAX
    }

    pub fn get_restaurant(&self) -> (r: &Restaurant)
        ensures
            r@ == self@.restaurant,
    {
        &self.restaurant
    }

    pub fn get_day(&self) -> (r: i64)
        ensures
            r == self@.day,
    {
        self.day
    }

    /// The stock of the item called `name`; 0 when there is none.
    pub fn get_inv(&self, name: String) -> (r: i64)
        ensures
            r == inv_of(self@.restaurant.menu, name@),
    {
        self.restaurant.get_inv(name)
    }

    pub fn get_name(&self) -> (r: String)
        ensures
            r@ == self@.restaurant.name,
    {
        self.restaurant.get_name()
    }

    /// The number of hired employees.
    pub fn hired_len(&self) -> (r: i64)
        requires
            self@.restaurant.hired.len() <= i64::MAX,
        ensures
            r == self@.restaurant.hired.len(),
    {
        self.restaurant.hired_count() as i64
    }

    /// The number of candidates.
    pub fn pot_len(&self) -> (r: i64)
        requires
            self@.restaurant.pot.len() <= i64::MAX,
        ensures
            r == self@.restaurant.pot.len(),
    {
        self.restaurant.pot_count() as i64
    }

    /// The revenue, in cents.
    pub fn get_revenue(&self) -> (r: i64)
        ensures
            r == self@.restaurant.revenue,
    {
        self.restaurant.get_revenue()
    }

    /// The quality of the item called `name`; 0 when there is none.
    pub fn get_item_quality(&self, name: String) -> (r: i64)
        ensures
            r == quality_of(self@.restaurant.menu, name@),
    {
        self.restaurant.get_item_quality(name)
    }

    pub fn set_item_quality(&mut self, name: String, new_quality: i64)
        requires
            old(self)@.wf(),
            LOWEST_QUALITY <= new_quality <= HIGHEST_QUALITY,
        ensures
            final(self)@.wf(),
            final(self)@ == (SimulatorView {
                restaurant: RestaurantView {
                    menu: update_item(
                        old(self)@.restaurant.menu,
                        name@,
                        |m: MenuItemView| (MenuItemView { quality: new_quality as int, ..m }),
                    ),
                    ..old(self)@.restaurant
                },
                ..old(self)@
            }),
    {
        self.restaurant.set_item_quality(name, new_quality);
    }

    /// Sets the price, in cents, of the item called `name`.
    pub fn set_item_price(&mut self, name: String, new_price: i64)
        requires
            old(self)@.wf(),
        ensures
            final(self)@.wf(),
            final(self)@ == (SimulatorView {
                restaurant: RestaurantView {
                    menu: update_item(
                        old(self)@.restaurant.menu,
                        name@,
                        |m: MenuItemView| (MenuItemView { price: new_price as int, ..m }),
                    ),
                    ..old(self)@.restaurant
                },
                ..old(self)@
            }),
    {
        self.restaurant.set_item_price(name, new_price);
    }

    /// Hires the candidate at the given position of the pool.
    pub fn hire_empl(&mut self, position: usize)
        requires
            old(self)@.wf(),
            position < old(self)@.restaurant.pot.len(),
            old(self)@.restaurant.id < i64::MAX,
        ensures
            final(self)@.wf(),
            final(self)@ == (SimulatorView {
                restaurant: after_hire(old(self)@.restaurant, old(self)@.restaurant.pot[position as int]),
                ..old(self)@
            }),
    {
        let new_emp = self.restaurant.get_pot_empl(position);
        self.restaurant.hire_emp(new_emp);
    }

    /// Lets go the hired employee at the given position of the staff list.
    pub fn fire_empl(&mut self, position: usize)
        requires
            old(self)@.wf(),
            position < old(self)@.restaurant.hired.len(),
        ensures
            final(self)@.wf(),
            final(self)@ == (SimulatorView {
                restaurant: after_fire(old(self)@.restaurant, old(self)@.restaurant.hired[position as int].id),
                ..old(self)@
            }),
    {
        let fired_id = self.restaurant.get_hired_empl(position).get_id();
        self.restaurant.fire_emp(fired_id);
    }

    /// Replaces the candidates with ten freshly drawn ones.
    pub fn update_pot(&mut self)
        requires
            old(self)@.wf(),
        ensures
            final(self)@.wf(),
            final(self)@ == (SimulatorView {
                restaurant: RestaurantView { pot: final(self)@.restaurant.pot, ..old(self)@.restaurant },
                ..old(self)@
            }),
            final(self)@.restaurant.pot.len() == POOL_SIZE,
            forall|i: int|
                0 <= i < final(self)@.restaurant.pot.len() ==> is_random_candidate(
                    #[trigger] final(self)@.restaurant.pot[i],
                ),
    {
        self.restaurant.generate_pot_empls();
    }

    /// What one unit of the item called `name` costs to order at the given
    /// quality, in cents.
    pub fn calc_item_price(name: String, quality: i64) -> (r: i64)
        ensures
            r == unit_cost(name@, quality as int),
    {
        if name == burger_name() {
            if quality == 1 {
                250
            } else if quality == 2 {
                400
            } else {
                550
            }
        } else if name == fries_name() {
            if quality == 1 {
                100
            } else if quality == 2 {
                150
            } else {
                200
            }
        } else {
            if quality == 1 {
                25
            } else if quality == 2 {
                37
            } else {
                50
            }
        }
    }

    /// Orders `inc_amount` units of the item called `name`: their cost at the
    /// item's current quality comes off the revenue and they go into stock.
    pub fn order_inv(&mut self, name: String, inc_amount: i64)
        requires
            old(self)@.wf(),
            i64::MIN <= order_cost(old(self)@.restaurant, name@, inc_amount as int) <= i64::MAX,
            i64::MIN <= old(self)@.restaurant.revenue - order_cost(old(self)@.restaurant, name@, inc_amount as int)
                <= i64::MAX,
            i64::MIN <= inv_after_increase(inv_of(old(self)@.restaurant.menu, name@), inc_amount as int)
                <= i64::MAX,
        ensures
            final(self)@.wf(),
            final(self)@ == (SimulatorView {
                restaurant: RestaurantView {
                    revenue: old(self)@.restaurant.revenue - order_cost(old(self)@.restaurant, name@, inc_amount as int),
                    menu: update_item(
                        old(self)@.restaurant.menu,
                        name@,
                        |m: MenuItemView|
                            (MenuItemView { inv: inv_after_increase(m.inv, inc_amount as int), ..m }),
                    ),
                    ..old(self)@.restaurant
                },
                ..old(self)@
            }),
    {
        let quality = self.restaurant.get_item_quality(name.clone());
        let item_price = Simulator::calc_item_price(name.clone(), quality);
        self.restaurant.reduce_revenue(inc_amount * item_price);
        self.restaurant.inc_inv(name, inc_amount);
    }
}

} // verus!
