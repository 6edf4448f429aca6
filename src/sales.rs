//! Customers, and the rules by which they are served: what one order, one
//! customer and a whole line of customers do to the restaurant.

use crate::menu_item::MenuItemView;
use crate::random::random_in_range;
use crate::restaurant::{
    Restaurant, RestaurantView, burger, fries, soda, index_of, inv_of, price_of,
    lemma_index_of, lemma_index_of_same_names,
};
use vstd::prelude::*;

verus! {

/// A customer's cash, in cents, is drawn from `[MIN_CASH, MAX_CASH)`.
pub const MIN_CASH: i64 = 1000;

pub const MAX_CASH: i64 = 10000;

/// The mathematical model of a [`Customer`].
pub ghost struct CustomerView {
    /// Cash in cents.
    pub cash: int,
    pub likes_fries: bool,
    pub likes_soda: bool,
}

/// Someone who comes in for one day: a burger for everyone who can pay for
/// it, then fries and a soda for those who like them.
#[derive(Clone, Copy)]
pub struct Customer {
    cash: i64,
    likes_fries: bool,
    likes_soda: bool,
}

impl View for Customer {
    type V = CustomerView;

    closed spec fn view(&self) -> CustomerView {
        CustomerView { cash: self.cash as int, likes_fries: self.likes_fries, likes_soda: self.likes_soda }
    }
}

/// The models of a list of customers.
pub open spec fn customers_view(customers: Seq<Customer>) -> Seq<CustomerView> {
    customers.map_values(|c: Customer| c@)
}

/// Whether a customer holding `cash` cents buys the item called `name`: it
/// is on the menu, affordable and in stock.
pub open spec fn buys(v: RestaurantView, cash: int, name: Seq<char>) -> bool {
    let k = index_of(v.menu, name);
    k >= 0 && cash >= v.menu[k].price && v.menu[k].inv > 0
}

/// The restaurant after a customer holding `cash` cents tries to buy the item
/// called `name`: on a sale one unit leaves the stock and the price is added
/// to the revenue; otherwise nothing changes.
pub open spec fn after_order(v: RestaurantView, cash: int, name: Seq<char>) -> RestaurantView {
    let k = index_of(v.menu, name);
    if buys(v, cash, name) {
        RestaurantView {
            menu: v.menu.update(k, MenuItemView { inv: v.menu[k].inv - 1, ..v.menu[k] }),
            revenue: v.revenue + v.menu[k].price,
            ..v
        }
    } else {
        v
    }
}

/// The restaurant after serving one customer: a burger, then fries if they
/// like fries, then a soda if they like soda. The customer's cash is compared with
/// each price on its own.
pub open spec fn after_customer(v: RestaurantView, c: CustomerView) -> RestaurantView {
    let v1 = after_order(v, c.cash, burger());
    let v2 = if c.likes_fries {
        after_order(v1, c.cash, fries())
    } else {
        v1
    };
    if c.likes_soda {
        after_order(v2, c.cash, soda())
    } else {
        v2
    }
}

/// The restaurant after serving the customers one after another, in order.
pub open spec fn after_serving(v: RestaurantView, cs: Seq<CustomerView>) -> RestaurantView
    decreases cs.len(),
{
    if cs.len() == 0 {
        v
    } else {
        after_customer(after_serving(v, cs.drop_last()), cs.last())
    }
}

/// `|x|`
pub open spec fn magnitude(x: int) -> int {
    if x < 0 {
        -x
    } else {
        x
    }
}

/// The most that serving one customer can move the revenue by.
pub open spec fn order_span(menu: Seq<MenuItemView>) -> int {
    magnitude(price_of(menu, burger())) + magnitude(price_of(menu, fries())) + magnitude(
        price_of(menu, soda()),
    )
}

/// `after` is `before` with only stock sold off: names, prices and qualities
/// are kept, an item out of stock stays as it is, and an item in stock loses
/// units without going below zero.
pub open spec fn only_sold_from(before: Seq<MenuItemView>, after: Seq<MenuItemView>) -> bool {
    &&& after.len() == before.len()
    &&& forall|i: int|
        0 <= i < before.len() ==> {
            &&& (#[trigger] after[i]).name == before[i].name
            &&& after[i].price == before[i].price
            &&& after[i].quality == before[i].quality
            &&& before[i].inv <= 0 ==> after[i].inv == before[i].inv
            &&& before[i].inv > 0 ==> 0 <= after[i].inv <= before[i].inv
        }
}

/// Lookups by name give the same price on menus that differ only in stock.
pub proof fn lemma_only_sold_prices(m1: Seq<MenuItemView>, m2: Seq<MenuItemView>, name: Seq<char>)
    requires
        only_sold_from(m1, m2),
    ensures
        index_of(m1, name) == index_of(m2, name),
        price_of(m1, name) == price_of(m2, name),
        order_span(m1) == order_span(m2),
{
    lemma_index_of_same_names(m1, m2, name);
    lemma_index_of_same_names(m1, m2, burger());
    lemma_index_of_same_names(m1, m2, fries());
    lemma_index_of_same_names(m1, m2, soda());
    lemma_index_of(m1, name);
    lemma_index_of(m1, burger());
    lemma_index_of(m1, fries());
    lemma_index_of(m1, soda());
}

/// On menus that differ only in stock sold off, the stock of any item has not
/// grown, stayed put when it was zero or below, and not gone below zero.
pub proof fn lemma_only_sold_inv(m1: Seq<MenuItemView>, m2: Seq<MenuItemView>, name: Seq<char>)
    requires
        only_sold_from(m1, m2),
    ensures
        inv_of(m1, name) <= 0 ==> inv_of(m2, name) == inv_of(m1, name),
        inv_of(m1, name) > 0 ==> 0 <= inv_of(m2, name) <= inv_of(m1, name),
{
    lemma_only_sold_prices(m1, m2, name);
    lemma_index_of(m1, name);
}

/// Selling stock off twice is selling stock off.
pub proof fn lemma_only_sold_trans(m1: Seq<MenuItemView>, m2: Seq<MenuItemView>, m3: Seq<MenuItemView>)
    requires
        only_sold_from(m1, m2),
        only_sold_from(m2, m3),
    ensures
        only_sold_from(m1, m3),
{
    assert forall|i: int| 0 <= i < m1.len() implies {
        &&& (#[trigger] m3[i]).name == m1[i].name
        &&& m3[i].price == m1[i].price
        &&& m3[i].quality == m1[i].quality
        &&& m1[i].inv <= 0 ==> m3[i].inv == m1[i].inv
        &&& m1[i].inv > 0 ==> 0 <= m3[i].inv <= m1[i].inv
    } by {
        assert(m2[i].name == m1[i].name);
        assert(m3[i].name == m2[i].name);
    }
}

/// One order sells off at most one unit and moves the revenue by its price
/// or not at all.
pub proof fn lemma_after_order(v: RestaurantView, cash: int, name: Seq<char>)
    ensures
        only_sold_from(v.menu, after_order(v, cash, name).menu),
        after_order(v, cash, name) == (RestaurantView {
            menu: after_order(v, cash, name).menu,
            revenue: after_order(v, cash, name).revenue,
            ..v
        }),
        after_order(v, cash, name).revenue == v.revenue || after_order(v, cash, name).revenue
            == v.revenue + price_of(v.menu, name),
        v.wf() && i64::MIN <= after_order(v, cash, name).revenue <= i64::MAX ==> after_order(
            v,
            cash,
            name,
        ).wf(),
{
    lemma_index_of(v.menu, name);
    let r = after_order(v, cash, name);
    if buys(v, cash, name) && v.wf() {
        assert forall|i: int| 0 <= i < v.menu.len() implies (#[trigger] r.menu[i]).fits() by {
            assert(v.menu[i].fits());
        }
    }
}

/// Serving one customer sells off stock only and moves the revenue by at
/// most the order span.
pub proof fn lemma_after_customer(v: RestaurantView, c: CustomerView)
    requires
        v.wf(),
        i64::MIN <= v.revenue - order_span(v.menu),
        v.revenue + order_span(v.menu) <= i64::MAX,
    ensures
        only_sold_from(v.menu, after_customer(v, c).menu),
        after_customer(v, c) == (RestaurantView {
            menu: after_customer(v, c).menu,
            revenue: after_customer(v, c).revenue,
            ..v
        }),
        magnitude(after_customer(v, c).revenue - v.revenue) <= order_span(v.menu),
        after_customer(v, c).wf(),
{
    let v1 = after_order(v, c.cash, burger());
    lemma_after_order(v, c.cash, burger());
    lemma_only_sold_prices(v.menu, v1.menu, fries());
    lemma_only_sold_prices(v.menu, v1.menu, soda());
    let v2 = if c.likes_fries {
        after_order(v1, c.cash, fries())
    } else {
        v1
    };
    lemma_after_order(v1, c.cash, fries());
    if c.likes_fries {
        lemma_only_sold_trans(v.menu, v1.menu, v2.menu);
    }
    lemma_only_sold_prices(v.menu, v2.menu, soda());
    lemma_after_order(v2, c.cash, soda());
    if c.likes_soda {
        lemma_only_sold_trans(v.menu, v2.menu, after_order(v2, c.cash, soda()).menu);
    }
}

/// Serving customers sells off stock only and moves the revenue by at most
/// the order span for each of them.
pub proof fn lemma_after_serving(v: RestaurantView, cs: Seq<CustomerView>)
    requires
        v.wf(),
        i64::MIN <= v.revenue - cs.len() * order_span(v.menu),
        v.revenue + cs.len() * order_span(v.menu) <= i64::MAX,
    ensures
        only_sold_from(v.menu, after_serving(v, cs).menu),
        after_serving(v, cs) == (RestaurantView {
            menu: after_serving(v, cs).menu,
            revenue: after_serving(v, cs).revenue,
            ..v
        }),
        magnitude(after_serving(v, cs).revenue - v.revenue) <= cs.len() * order_span(v.menu),
        after_serving(v, cs).wf(),
    decreases cs.len(),
{
    let span = order_span(v.menu);
    let n = cs.len() as int;
    assert(span >= 0);
    if n == 0 {
        assert forall|i: int| 0 <= i < v.menu.len() implies (#[trigger] v.menu[i]).name == v.menu[i].name by {}
    } else {
        let rest = cs.drop_last();
        assert((n - 1) * span <= n * span) by (nonlinear_arith)
            requires span >= 0;
        lemma_after_serving(v, rest);
        let w = after_serving(v, rest);
        lemma_only_sold_prices(v.menu, w.menu, burger());
        assert(n * span == (n - 1) * span + span) by (nonlinear_arith);
        lemma_after_customer(w, cs.last());
        lemma_only_sold_trans(v.menu, w.menu, after_customer(w, cs.last()).menu);
    }
}

impl Customer {
    /// A customer with random cash from `[$10.00, $100.00)` and a coin toss
    /// each for liking fries and liking soda.
    pub fn new() -> (r: Customer)
        ensures
            MIN_CASH <= r@.cash < MAX_CASH,
    {
        let likes_fries = random_in_range(0, 2) == 1;
        let likes_soda = random_in_range(0, 2) == 1;
        let cash = random_in_range(MIN_CASH, MAX_CASH);
        Customer { cash, likes_fries, likes_soda }
    }

    /// A customer with the given cash, in cents, and tastes.
    pub fn with_cash(cash: i64, likes_fries: bool, likes_soda: bool) -> (r: Customer)
        ensures
            r@ == (CustomerView { cash: cash as int, likes_fries, likes_soda }),
    {
        Customer { cash, likes_fries, likes_soda }
    }

    /// The customer's cash, in cents.
    pub fn get_cash(&self) -> (r: i64)
        ensures
            r == self@.cash,
    {
        self.cash
    }

    pub fn get_likes_fries(&self) -> (r: bool)
        ensures
            r == self@.likes_fries,
    {
        self.likes_fries
    }

    pub fn get_likes_soda(&self) -> (r: bool)
        ensures
            r == self@.likes_soda,
    {
        self.likes_soda
    }

    /// Takes `amount` cents from the customer's cash.
    pub fn reduce_cash(&mut self, amount: i64)
        requires
            i64::MIN <= old(self)@.cash - amount <= i64::MAX,
        ensures
            final(self)@ == (CustomerView { cash: old(self)@.cash - amount, ..old(self)@ }),
    {
        self.cash = self.cash - amount;
    }

    /// Tries to buy the item called `name`: the sale goes through when the
    /// item is on the menu, in stock, and the customer's cash covers its
    /// price; one unit then leaves the stock and the price goes to the
    /// revenue. The customer's cash is left as it is.
    pub fn order(&mut self, restaurant: &mut Restaurant, name: String)
        requires
            old(restaurant)@.wf(),
            i64::MIN <= after_order(old(restaurant)@, old(self)@.cash, name@).revenue <= i64::MAX,
        ensures
            final(restaurant)@.wf(),
            final(restaurant)@ == after_order(old(restaurant)@, old(self)@.cash, name@),
            *final(self) == *old(self),
    {
        proof {
            lemma_index_of(restaurant@.menu, name@);
            lemma_after_order(restaurant@, self@.cash, name@);
        }
        let price = restaurant.get_price(name.clone());
        if self.cash >= price && restaurant.get_inv(name.clone()) > 0 {
            restaurant.reduce_inv(name, 1);
            restaurant.inc_revenue(price);
        }
    }
}

} // verus!
