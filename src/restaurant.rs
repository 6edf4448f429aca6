//! The restaurant: its menu, staff, candidates and the day's customers, and
//! the operations on them.

use crate::employee::{
    Employee, EmployeeView, is_random_candidate, COOK, SERVER, WASHER, MIN_WAGE, BASE_RATING,
    ADULT_MAX_HOURS,
};
use crate::menu_item::{MenuItem, MenuItemView, STARTING_INVENTORY, inv_after_decrease, inv_after_increase};
use crate::random::random_in_range;
use crate::sales::{
    Customer, CustomerView, after_order, after_serving, customers_view, lemma_after_customer,
    lemma_after_order, lemma_after_serving, lemma_only_sold_prices, order_span, MIN_CASH, MAX_CASH,
};
use crate::staff::{
    distinct_ids, id_differs, labor_cost, lemma_labor_cost_prefix, lemma_total_rating_prefix,
    random_pool, staff_view, total_rating, without_id, SHIFT_HOURS,
};
use vstd::math::min;
use vstd::prelude::*;

verus! {

/// Revenue a new restaurant starts with, in cents.
pub const STARTING_REVENUE: i64 = 100000;

/// Starting prices, in cents.
pub const BURGER_PRICE: i64 = 500;

pub const FRIES_PRICE: i64 = 200;

pub const SODA_PRICE: i64 = 100;

pub const LOWEST_QUALITY: i64 = 1;

pub const HIGHEST_QUALITY: i64 = 3;

/// Number of candidates offered at a time.
pub const POOL_SIZE: usize = 10;

/// The day's demand is drawn from `[MIN_CUST + m, MAX_CUST + m)`, where `m`
/// is the quality modifier.
pub const MIN_CUST: i64 = 5;

pub const MAX_CUST: i64 = 25;

/// The names of the three menu items.
pub open spec fn burger() -> Seq<char> {
    seq!['B', 'u', 'r', 'g', 'e', 'r']
}

pub open spec fn fries() -> Seq<char> {
    seq!['F', 'r', 'i', 'e', 's']
}

pub open spec fn soda() -> Seq<char> {
    seq!['S', 'o', 'd', 'a']
}

/// The customer-count modifier for a total menu quality: a step function.
pub open spec fn quality_modifier(q: int) -> int {
    if q <= 3 {
        1
    } else if q <= 5 {
        10
    } else if q <= 8 {
        20
    } else {
        25
    }
}

/// The index of the last item called `name`, or -1 when there is none.
pub open spec fn index_of(menu: Seq<MenuItemView>, name: Seq<char>) -> int
    decreases menu.len(),
{
    if menu.len() == 0 {
        -1
    } else if menu.last().name == name {
        menu.len() - 1
    } else {
        index_of(menu.drop_last(), name)
    }
}

/// The price of the item called `name`, or 0 when there is none.
pub open spec fn price_of(menu: Seq<MenuItemView>, name: Seq<char>) -> int {
    let k = index_of(menu, name);
    if k >= 0 {
        menu[k].price
    } else {
        0
    }
}

/// The quality of the item called `name`, or 0 when there is none.
pub open spec fn quality_of(menu: Seq<MenuItemView>, name: Seq<char>) -> int {
    let k = index_of(menu, name);
    if k >= 0 {
        menu[k].quality
    } else {
        0
    }
}

/// The stock of the item called `name`, or 0 when there is none.
pub open spec fn inv_of(menu: Seq<MenuItemView>, name: Seq<char>) -> int {
    let k = index_of(menu, name);
    if k >= 0 {
        menu[k].inv
    } else {
        0
    }
}

/// The menu with the item called `name` replaced by `f` of it; unchanged when
/// there is no such item.
pub open spec fn update_item(
    menu: Seq<MenuItemView>,
    name: Seq<char>,
    f: spec_fn(MenuItemView) -> MenuItemView,
) -> Seq<MenuItemView> {
    let k = index_of(menu, name);
    if k >= 0 {
        menu.update(k, f(menu[k]))
    } else {
        menu
    }
}

/// Sum of the qualities of all items.
pub open spec fn quality_total(menu: Seq<MenuItemView>) -> int
    decreases menu.len(),
{
    if menu.len() == 0 {
        0
    } else {
        quality_total(menu.drop_last()) + menu.last().quality
    }
}

/// The models of a list of menu items.
pub open spec fn menu_view(items: Seq<MenuItem>) -> Seq<MenuItemView> {
    items.map_values(|m: MenuItem| m@)
}

/// The mathematical model of a [`Restaurant`].
pub ghost struct RestaurantView {
    pub name: Seq<char>,
    /// Revenue in cents.
    pub revenue: int,
    /// The last id handed out to a hired employee.
    pub id: int,
    pub menu: Seq<MenuItemView>,
    pub hired: Seq<EmployeeView>,
    pub pot: Seq<EmployeeView>,
    pub customers: Seq<CustomerView>,
}

impl RestaurantView {
    /// What holds of every restaurant: the menu is Burger, Fries and Soda in
    /// that order, each of quality 1 to 3; every hired employee is valid, has
    /// an id no greater than the last id handed out, and no two share an id.
    pub open spec fn wf(self) -> bool {
        &&& self.menu.len() == 3
        &&& self.menu[0].name == burger()
        &&& self.menu[1].name == fries()
        &&& self.menu[2].name == soda()
        &&& forall|i: int|
            0 <= i < self.menu.len() ==> LOWEST_QUALITY <= #[trigger] self.menu[i].quality
                <= HIGHEST_QUALITY
        &&& forall|i: int| 0 <= i < self.menu.len() ==> (#[trigger] self.menu[i]).fits()
        &&& forall|i: int| 0 <= i < self.hired.len() ==> (#[trigger] self.hired[i]).wf()
        &&& forall|i: int| 0 <= i < self.hired.len() ==> (#[trigger] self.hired[i]).id <= self.id
        &&& distinct_ids(self.hired)
        &&& i64::MIN <= self.revenue <= i64::MAX
        &&& 0 <= self.id <= i64::MAX
    }
}

/// A restaurant and everything it owns.
pub struct Restaurant {
    name: String,
    revenue: i64,
    id: i64,
    menu: Vec<MenuItem>,
    hired_empls: Vec<Employee>,
    pot_empls: Vec<Employee>,
    customers: Vec<Customer>,
}

impl View for Restaurant {
    type V = RestaurantView;

    closed spec fn view(&self) -> RestaurantView {
        RestaurantView {
            name: self.name@,
            revenue: self.revenue as int,
            id: self.id as int,
            menu: menu_view(self.menu@),
            hired: staff_view(self.hired_empls@),
            pot: staff_view(self.pot_empls@),
            customers: customers_view(self.customers@),
        }
    }
}

/// `index_of` finds a matching item, and the last one.
pub proof fn lemma_index_of(menu: Seq<MenuItemView>, name: Seq<char>)
    ensures
        -1 <= index_of(menu, name) < menu.len(),
        index_of(menu, name) >= 0 ==> menu[index_of(menu, name)].name == name,
        forall|j: int| index_of(menu, name) < j < menu.len() ==> menu[j].name != name,
    decreases menu.len(),
{
    if menu.len() > 0 && menu.last().name != name {
        let rest = menu.drop_last();
        lemma_index_of(rest, name);
        assert forall|j: int| index_of(menu, name) < j < menu.len() implies menu[j].name != name by {
            if j < rest.len() {
                assert(rest[j] == menu[j]);
            }
        }
    }
}

/// `index_of` reads names only.
pub proof fn lemma_index_of_same_names(m1: Seq<MenuItemView>, m2: Seq<MenuItemView>, name: Seq<char>)
    requires
        m1.len() == m2.len(),
        forall|i: int| 0 <= i < m1.len() ==> #[trigger] m1[i].name == m2[i].name,
    ensures
        index_of(m1, name) == index_of(m2, name),
    decreases m1.len(),
{
    if m1.len() > 0 {
        lemma_index_of_same_names(m1.drop_last(), m2.drop_last(), name);
    }
}

/// The names of the three menu items, as strings.
pub fn burger_name() -> (r: String)
    ensures
        r@ == burger(),
{
    proof {
        reveal_strlit("Burger");
    }
    let r = String::from_str("Burger");
    assert(r@ =~= burger());
    r
}

pub fn fries_name() -> (r: String)
    ensures
        r@ == fries(),
{
    proof {
        reveal_strlit("Fries");
    }
    let r = String::from_str("Fries");
    assert(r@ =~= fries());
    r
}

pub fn soda_name() -> (r: String)
    ensures
        r@ == soda(),
{
    proof {
        reveal_strlit("Soda");
    }
    let r = String::from_str("Soda");
    assert(r@ =~= soda());
    r
}

/// One of the staff a new restaurant opens with.
pub open spec fn is_opening_staff(e: EmployeeView, posit: int, id: int) -> bool {
    &&& e.posit == posit
    &&& e.id == id
    &&& e.rating == BASE_RATING
    &&& e.wage == MIN_WAGE
    &&& e.max_hrs == ADULT_MAX_HOURS
    &&& e.hrs_worked == 0
}

/// The state a restaurant called `name` opens in: revenue $1000.00; Burger
/// at $5.00, Fries at $2.00 and Soda at $1.00, each of quality 1 with 100 in
/// stock; a cook, a server and a washer on staff with ids 1 to 3; ten random
/// candidates; no customers yet.
pub open spec fn is_opening_state(v: RestaurantView, name: Seq<char>) -> bool {
    &&& v.name == name
    &&& v.revenue == STARTING_REVENUE
    &&& v.id == 3
    &&& v.menu == seq![
        MenuItemView { name: burger(), price: BURGER_PRICE as int, quality: 1, inv: STARTING_INVENTORY as int },
        MenuItemView { name: fries(), price: FRIES_PRICE as int, quality: 1, inv: STARTING_INVENTORY as int },
        MenuItemView { name: soda(), price: SODA_PRICE as int, quality: 1, inv: STARTING_INVENTORY as int },
    ]
    &&& v.hired.len() == 3
    &&& is_opening_staff(v.hired[0], COOK as int, 1)
    &&& is_opening_staff(v.hired[1], SERVER as int, 2)
    &&& is_opening_staff(v.hired[2], WASHER as int, 3)
    &&& v.pot.len() == POOL_SIZE
    &&& forall|i: int| 0 <= i < v.pot.len() ==> is_random_candidate(#[trigger] v.pot[i])
    &&& v.customers.len() == 0
}

/// The restaurant after hiring `e`: every candidate with its id leaves the
/// pool, and it joins the staff under the next id.
pub open spec fn after_hire(v: RestaurantView, e: EmployeeView) -> RestaurantView {
    RestaurantView {
        pot: v.pot.filter(id_differs(e.id)),
        id: v.id + 1,
        hired: v.hired.push(EmployeeView { id: v.id + 1, ..e }),
        ..v
    }
}

/// The restaurant after letting go every hired employee with the given id.
pub open spec fn after_fire(v: RestaurantView, id: int) -> RestaurantView {
    RestaurantView { hired: v.hired.filter(id_differs(id)), ..v }
}

impl Restaurant {
    /// Opens a restaurant with the given name.
    pub fn new(name: String) -> (r: Restaurant)
        ensures
            r@.wf(),
            is_opening_state(r@, name@),
    {
        proof {
            reveal_strlit("Burger");
            reveal_strlit("Fries");
            reveal_strlit("Soda");
            assert("Burger"@ =~= burger());
            assert("Fries"@ =~= fries());
            assert("Soda"@ =~= soda());
        }
        let mut menu: Vec<MenuItem> = Vec::new();
        menu.push(MenuItem::new(String::from_str("Burger"), BURGER_PRICE, LOWEST_QUALITY));
        menu.push(MenuItem::new(String::from_str("Fries"), FRIES_PRICE, LOWEST_QUALITY));
        menu.push(MenuItem::new(String::from_str("Soda"), SODA_PRICE, LOWEST_QUALITY));

        let mut hired_empls: Vec<Employee> = Vec::new();
        let mut id: i64 = 0;
        hired_empls.push(Employee::default(COOK, id + 1));
        id = id + 1;
        hired_empls.push(Employee::default(SERVER, id + 1));
        id = id + 1;
        hired_empls.push(Employee::default(WASHER, id + 1));
        id = id + 1;

        let pot_empls = random_pool();
        let customers: Vec<Customer> = Vec::new();
        proof {
            let mv = menu_view(menu@);
            assert(mv =~= seq![
                MenuItemView { name: burger(), price: BURGER_PRICE as int, quality: 1, inv: STARTING_INVENTORY as int },
                MenuItemView { name: fries(), price: FRIES_PRICE as int, quality: 1, inv: STARTING_INVENTORY as int },
                MenuItemView { name: soda(), price: SODA_PRICE as int, quality: 1, inv: STARTING_INVENTORY as int },
            ]);
            let hv = staff_view(hired_empls@);
            assert(hv[0].id == 1 && hv[1].id == 2 && hv[2].id == 3);
            assert(customers_view(customers@) =~= Seq::<CustomerView>::empty());
        }
        let r = Restaurant { name, revenue: STARTING_REVENUE, id, menu, hired_empls, pot_empls, customers };
        assert(r@.menu =~= seq![
            MenuItemView { name: burger(), price: BURGER_PRICE as int, quality: 1, inv: STARTING_INVENTORY as int },
            MenuItemView { name: fries(), price: FRIES_PRICE as int, quality: 1, inv: STARTING_INVENTORY as int },
            MenuItemView { name: soda(), price: SODA_PRICE as int, quality: 1, inv: STARTING_INVENTORY as int },
        ]);
        r
    }

    pub fn get_name(&self) -> (r: String)
        ensures
            r@ == self@.name,
    {
        self.name.clone()
    }

    /// The revenue, in cents.
    pub fn get_revenue(&self) -> (r: i64)
        ensures
            r == self@.revenue,
    {
        self.revenue
    }

    pub fn get_menu(self) -> (r: Vec<MenuItem>)
        ensures
            menu_view(r@) == self@.menu,
    {
        self.menu
    }

    pub fn get_hired_empls(&self) -> (r: Vec<Employee>)
        ensures
            staff_view(r@) == self@.hired,
    {
        let r = self.hired_empls.clone();
        assert(staff_view(r@) =~= self@.hired);
        r
    }

    pub fn get_pot_empls(&self) -> (r: Vec<Employee>)
        ensures
            staff_view(r@) == self@.pot,
    {
        let r = self.pot_empls.clone();
        assert(staff_view(r@) =~= self@.pot);
        r
    }

    pub fn get_customers(self) -> (r: Vec<Customer>)
        ensures
            customers_view(r@) == self@.customers,
    {
        self.customers
    }

    /// The last id handed out to a hired employee.
    pub fn get_id(&self) -> (r: i64)
        ensures
            r == self@.id,
    {
        self.id
    }

    /// The number of hired employees.
    pub fn hired_count(&self) -> (r: usize)
        ensures
            r == self@.hired.len(),
    {
        self.hired_empls.len()
    }

    /// The number of candidates.
    pub fn pot_count(&self) -> (r: usize)
        ensures
            r == self@.pot.len(),
    {
        self.pot_empls.len()
    }

    pub fn get_hired_empl(&self, position: usize) -> (r: &Employee)
        requires
            position < self@.hired.len(),
        ensures
            r@ == self@.hired[position as int],
    {
        &self.hired_empls[position]
    }

    pub fn get_pot_empl(&self, position: usize) -> (r: Employee)
        requires
            position < self@.pot.len(),
        ensures
            r@ == self@.pot[position as int],
    {
        self.pot_empls[position].clone()
    }

    /// The index of the last menu item called `name`.
    fn find_item(&self, name: &String) -> (r: Option<usize>)
        ensures
            r matches Some(k) ==> k == index_of(self@.menu, name@),
            r is None <==> index_of(self@.menu, name@) == -1,
            r matches Some(k) ==> k < self@.menu.len(),
    {
        let mut found: Option<usize> = None;
        let mut i: usize = 0;
        while i < self.menu.len()
            invariant
                0 <= i <= self.menu@.len(),
                found matches Some(k) ==> k == index_of(self@.menu.take(i as int), name@),
                found is None <==> index_of(self@.menu.take(i as int), name@) == -1,
            decreases self.menu@.len() - i,
        {
            let ghost before = self@.menu.take(i as int);
            proof {
                lemma_index_of(before, name@);
                assert(self@.menu.take(i + 1).drop_last() =~= before);
            }
            if self.menu[i].get_name() == *name {
                found = Some(i);
            }
            i = i + 1;
        }
        proof {
            assert(self@.menu.take(i as int) =~= self@.menu);
            lemma_index_of(self@.menu, name@);
        }
        found
    }

    /// Puts `item` in place of the menu item at `k`, which has the same name.
    fn put_item(&mut self, k: usize, item: MenuItem)
        requires
            old(self)@.wf(),
            k < old(self)@.menu.len(),
            item@.name == old(self)@.menu[k as int].name,
            LOWEST_QUALITY <= item@.quality <= HIGHEST_QUALITY,
        ensures
            final(self)@.wf(),
            final(self)@ == (RestaurantView { menu: old(self)@.menu.update(k as int, item@), ..old(self)@ }),
    {
        proof {
            item.lemma_view_fits();
        }
        self.menu.set(k, item);
        assert(self@.menu =~= old(self)@.menu.update(k as int, item@));
    }

    /// The price of the item called `name`, in cents; 0 when there is none.
    pub fn get_price(&self, name: String) -> (r: i64)
        ensures
            r == price_of(self@.menu, name@),
    {
        match self.find_item(&name) {
            Some(k) => self.menu[k].get_price(),
            None => 0,
        }
    }

    /// The quality of the item called `name`; 0 when there is none.
    pub fn get_item_quality(&self, name: String) -> (r: i64)
        ensures
            r == quality_of(self@.menu, name@),
    {
        match self.find_item(&name) {
            Some(k) => self.menu[k].get_quality(),
            None => 0,
        }
    }

    /// The stock of the item called `name`; 0 when there is none.
    pub fn get_inv(&self, name: String) -> (r: i64)
        ensures
            r == inv_of(self@.menu, name@),
    {
        match self.find_item(&name) {
            Some(k) => self.menu[k].get_inv(),
            None => 0,
        }
    }

    /// Sets the revenue, in cents.
    pub fn set_revenue(&mut self, new_rev: i64)
        requires
            old(self)@.wf(),
        ensures
            final(self)@.wf(),
            final(self)@ == (RestaurantView { revenue: new_rev as int, ..old(self)@ }),
    {
        self.revenue = new_rev;
    }

    pub fn set_customers(&mut self, new_customers: Vec<Customer>)
        requires
            old(self)@.wf(),
        ensures
            final(self)@.wf(),
            final(self)@ == (RestaurantView {
                customers: customers_view(new_customers@),
                ..old(self)@
            }),
    {
        self.customers = new_customers;
    }

    /// Sets the quality of the item called `name`; nothing changes when there
    /// is no such item.
    pub fn set_item_quality(&mut self, name: String, new_quality: i64)
        requires
            old(self)@.wf(),
            LOWEST_QUALITY <= new_quality <= HIGHEST_QUALITY,
        ensures
            final(self)@.wf(),
            final(self)@ == (RestaurantView {
                menu: update_item(
                    old(self)@.menu,
                    name@,
                    |m: MenuItemView| (MenuItemView { quality: new_quality as int, ..m }),
                ),
                ..old(self)@
            }),
    {
        if let Some(k) = self.find_item(&name) {
            let mut item = self.menu[k].clone();
            item.set_quality(new_quality);
            self.put_item(k, item);
        }
    }

    /// Sets the price, in cents, of the item called `name`; nothing changes
    /// when there is no such item.
    pub fn set_item_price(&mut self, name: String, new_price: i64)
        requires
            old(self)@.wf(),
        ensures
            final(self)@.wf(),
            final(self)@ == (RestaurantView {
                menu: update_item(
                    old(self)@.menu,
                    name@,
                    |m: MenuItemView| (MenuItemView { price: new_price as int, ..m }),
                ),
                ..old(self)@
            }),
    {
        if let Some(k) = self.find_item(&name) {
            let mut item = self.menu[k].clone();
            item.set_price(new_price);
            self.put_item(k, item);
        }
    }

    /// The same as [`Restaurant::set_item_quality`].
    pub fn set_inv_quality(&mut self, name: String, new_qual: i64)
        requires
            old(self)@.wf(),
            LOWEST_QUALITY <= new_qual <= HIGHEST_QUALITY,
        ensures
            final(self)@.wf(),
            final(self)@ == (RestaurantView {
                menu: update_item(
                    old(self)@.menu,
                    name@,
                    |m: MenuItemView| (MenuItemView { quality: new_qual as int, ..m }),
                ),
                ..old(self)@
            }),
    {
        self.set_item_quality(name, new_qual);
    }

    /// Replaces the candidates with ten freshly drawn ones.
    pub fn generate_pot_empls(&mut self)
        requires
            old(self)@.wf(),
        ensures
            final(self)@.wf(),
            final(self)@ == (RestaurantView { pot: final(self)@.pot, ..old(self)@ }),
            final(self)@.pot.len() == POOL_SIZE,
            forall|i: int|
                0 <= i < final(self)@.pot.len() ==> is_random_candidate(#[trigger] final(self)@.pot[i]),
    {
        self.pot_empls = random_pool();
    }

    /// Hires `new_emp`: every candidate with its id leaves the pool, and it
    /// joins the staff under the next id.
    pub fn hire_emp(&mut self, new_emp: Employee)
        requires
            old(self)@.wf(),
            old(self)@.id < i64::MAX,
        ensures
            final(self)@.wf(),
            final(self)@ == after_hire(old(self)@, new_emp@),
    {
        let old_id = new_emp.get_id();
        self.pot_empls = without_id(&self.pot_empls, old_id);
        self.id = self.id + 1;
        let mut new_emp = new_emp;
        new_emp.set_id(self.id);
        new_emp.establish_wf();
        let ghost hired_before = staff_view(self.hired_empls@);
        self.hired_empls.push(new_emp);
        assert(staff_view(self.hired_empls@) =~= hired_before.push(new_emp@));
    }

    /// Lets go every hired employee with the given id.
    pub fn fire_emp(&mut self, id: i64)
        requires
            old(self)@.wf(),
        ensures
            final(self)@.wf(),
            final(self)@ == after_fire(old(self)@, id as int),
    {
        let ghost before = self@;
        let kept = without_id(&self.hired_empls, id);
        proof {
            let kv = staff_view(kept@);
            assert forall|i: int| 0 <= i < kv.len() implies (#[trigger] kv[i]).wf() && kv[i].id <= before.id by {
                assert(before.hired.contains(kv[i]));
            }
        }
        self.hired_empls = kept;
    }

    /// The total rating of the hired staff: how many customers they can serve
    /// in a day.
    pub fn calc_cust_serv(&self) -> (r: i64)
        requires
            self@.wf(),
            total_rating(self@.hired) <= i64::MAX,
        ensures
            r == total_rating(self@.hired),
    {
        let ghost staff = self@.hired;
        let mut tot_rating: i64 = 0;
        let mut i: usize = 0;
        while i < self.hired_empls.len()
            invariant
                i <= staff.len(),
                staff == self@.hired,
                self@.wf(),
                total_rating(staff) <= i64::MAX,
                tot_rating == total_rating(staff.take(i as int)),
            decreases staff.len() - i,
        {
            proof {
                assert(staff.take(i + 1).drop_last() =~= staff.take(i as int));
                lemma_total_rating_prefix(staff, i + 1);
            }
            tot_rating = tot_rating + self.hired_empls[i].get_rating();
            i = i + 1;
        }
        proof {
            assert(staff.take(i as int) =~= staff);
        }
        tot_rating
    }

    /// The customer-count modifier for a total menu quality.
    pub fn num_cust_helper(quality: i64) -> (r: i64)
        ensures
            r == quality_modifier(quality as int),
    {
        if quality <= 3 {
            return 1;
        }
        if quality > 3 && quality <= 5 {
            return 10;
        }
        if quality > 5 && quality <= 8 {
            return 20;
        }
        25
    }

    /// The customer-count modifier for the menu's total quality.
    pub fn num_cust_mod(&self) -> (r: i64)
        requires
            self@.wf(),
        ensures
            r == quality_modifier(quality_total(self@.menu)),
    {
        let ghost menu = self@.menu;
        let mut tot_quality: i64 = 0;
        let mut i: usize = 0;
        while i < self.menu.len()
            invariant
                i <= menu.len(),
                menu == self@.menu,
                self@.wf(),
                tot_quality == quality_total(menu.take(i as int)),
                i <= tot_quality <= 3 * i,
            decreases menu.len() - i,
        {
            proof {
                assert(menu.take(i + 1).drop_last() =~= menu.take(i as int));
                assert(menu[i as int].quality <= HIGHEST_QUALITY);
            }
            tot_quality = tot_quality + self.menu[i].get_quality();
            i = i + 1;
        }
        proof {
            assert(menu.take(i as int) =~= menu);
        }
        Restaurant::num_cust_helper(tot_quality)
    }

    /// What the hired staff cost for one day, in cents.
    pub fn calc_empl_day_cost(&self) -> (r: i64)
        requires
            self@.wf(),
            labor_cost(self@.hired) <= i64::MAX,
        ensures
            r == labor_cost(self@.hired),
    {
        let ghost staff = self@.hired;
        let mut empl_cost: i64 = 0;
        let mut i: usize = 0;
        while i < self.hired_empls.len()
            invariant
                i <= staff.len(),
                staff == self@.hired,
                self@.wf(),
                labor_cost(staff) <= i64::MAX,
                empl_cost == labor_cost(staff.take(i as int)),
            decreases staff.len() - i,
        {
            proof {
                assert(staff.take(i + 1).drop_last() =~= staff.take(i as int));
                lemma_labor_cost_prefix(staff, i + 1);
                lemma_labor_cost_prefix(staff, i as int);
            }
            let wage = self.hired_empls[i].get_wage();
            assert(wage * SHIFT_HOURS == labor_cost(staff.take(i + 1)) - labor_cost(staff.take(i as int)));
            empl_cost = empl_cost + wage * SHIFT_HOURS;
            i = i + 1;
        }
        proof {
            assert(staff.take(i as int) =~= staff);
        }
        empl_cost
    }

    /// Draws the day's customers: a demand from `[5 + m, 25 + m)`, where `m`
    /// is the quality modifier, capped by the staff's total rating. Returns
    /// how many came.
    pub fn generate_customers(&mut self) -> (r: i64)
        requires
            old(self)@.wf(),
            total_rating(old(self)@.hired) <= i64::MAX,
        ensures
            final(self)@.wf(),
            final(self)@ == (RestaurantView { customers: final(self)@.customers, ..old(self)@ }),
            r == final(self)@.customers.len(),
            exists|demand: int|
                MIN_CUST + quality_modifier(quality_total(old(self)@.menu)) <= demand < MAX_CUST
                    + quality_modifier(quality_total(old(self)@.menu)) && r == min(
                    total_rating(old(self)@.hired),
                    demand,
                ),
            forall|i: int|
                0 <= i < final(self)@.customers.len() ==> MIN_CASH <= (
                #[trigger] final(self)@.customers[i]).cash < MAX_CASH,
    {
        let modifier = self.num_cust_mod();
        let demand = random_in_range(MIN_CUST + modifier, MAX_CUST + modifier);
        let capacity = self.calc_cust_serv();
        proof {
            lemma_total_rating_prefix(self@.hired, 0);
            assert(self@.hired.take(0) =~= Seq::<EmployeeView>::empty());
        }
        let count = if capacity < demand {
            capacity
        } else {
            demand
        };
        let mut new_customers: Vec<Customer> = Vec::new();
        let mut i: i64 = 0;
        while i < count
            invariant
                0 <= i <= count,
                new_customers@.len() == i,
                forall|j: int|
                    0 <= j < new_customers@.len() ==> MIN_CASH <= (#[trigger] new_customers@[j])@.cash
                        < MAX_CASH,
            decreases count - i,
        {
            new_customers.push(Customer::new());
            i = i + 1;
        }
        self.customers = new_customers;
        assert(count == min(total_rating(old(self)@.hired), demand as int));
        count
    }

    /// Serves the day's customers one after another, in order.
    pub fn serve_customers(&mut self)
        requires
            old(self)@.wf(),
            i64::MIN <= old(self)@.revenue - old(self)@.customers.len() * order_span(old(self)@.menu),
            old(self)@.revenue + old(self)@.customers.len() * order_span(old(self)@.menu) <= i64::MAX,
        ensures
            final(self)@.wf(),
            final(self)@ == after_serving(old(self)@, old(self)@.customers),
    {
        let ghost start = self@;
        let ghost cs = self@.customers;
        let ghost span = order_span(start.menu);
        let n = self.customers.len();
        let mut i: usize = 0;
        while i < n
            invariant
                i <= n == cs.len(),
                cs == start.customers,
                span == order_span(start.menu),
                start.wf(),
                i64::MIN <= start.revenue - cs.len() * span,
                start.revenue + cs.len() * span <= i64::MAX,
                self@ == after_serving(start, cs.take(i as int)),
                self@.wf(),
            decreases n - i,
        {
            let ghost done = cs.take(i as int);
            proof {
                assert(span >= 0);
                assert(i * span <= cs.len() * span) by (nonlinear_arith)
                    requires i <= cs.len(), span >= 0;
                lemma_after_serving(start, done);
                lemma_only_sold_prices(start.menu, self@.menu, burger());
                assert(span >= 0);
                assert(i * span + span <= cs.len() * span) by (nonlinear_arith)
                    requires i + 1 <= cs.len(), span >= 0;
                lemma_after_customer(self@, cs[i as int]);
                assert(cs.take(i + 1).drop_last() =~= done);
                assert(self.customers@[i as int]@ == cs[i as int]);
            }
            let mut customer = self.customers[i];
            let ghost c = customer@;
            let ghost v0 = self@;
            let ghost v1 = after_order(v0, c.cash, burger());
            proof {
                lemma_after_order(v0, c.cash, burger());
                lemma_only_sold_prices(v0.menu, v1.menu, fries());
                lemma_only_sold_prices(v0.menu, v1.menu, soda());
                lemma_after_order(v1, c.cash, fries());
            }
            customer.order(self, burger_name());
            if customer.get_likes_fries() {
                customer.order(self, fries_name());
            }
            proof {
                lemma_only_sold_prices(v0.menu, self@.menu, soda());
                lemma_after_order(self@, c.cash, soda());
            }
            if customer.get_likes_soda() {
                customer.order(self, soda_name());
            }
            i = i + 1;
        }
        proof {
            assert(cs.take(i as int) =~= cs);
        }
    }

    /// Takes `cost` cents off the revenue.
    pub fn reduce_revenue(&mut self, cost: i64)
        requires
            old(self)@.wf(),
            i64::MIN <= old(self)@.revenue - cost <= i64::MAX,
        ensures
            final(self)@.wf(),
            final(self)@ == (RestaurantView { revenue: old(self)@.revenue - cost, ..old(self)@ }),
    {
        self.revenue = self.revenue - cost;
    }

    /// Adds `profit` cents to the revenue.
    pub fn inc_revenue(&mut self, profit: i64)
        requires
            old(self)@.wf(),
            i64::MIN <= old(self)@.revenue + profit <= i64::MAX,
        ensures
            final(self)@.wf(),
            final(self)@ == (RestaurantView { revenue: old(self)@.revenue + profit, ..old(self)@ }),
    {
        self.revenue = self.revenue + profit;
    }

    /// Adds `inc_amount` units to the stock of the item called `name`;
    /// nothing changes when there is no such item.
    pub fn inc_inv(&mut self, name: String, inc_amount: i64)
        requires
            old(self)@.wf(),
            i64::MIN <= inv_after_increase(inv_of(old(self)@.menu, name@), inc_amount as int)
                <= i64::MAX,
        ensures
            final(self)@.wf(),
            final(self)@ == (RestaurantView {
                menu: update_item(
                    old(self)@.menu,
                    name@,
                    |m: MenuItemView|
                        (MenuItemView { inv: inv_after_increase(m.inv, inc_amount as int), ..m }),
                ),
                ..old(self)@
            }),
    {
        if let Some(k) = self.find_item(&name) {
            let mut item = self.menu[k].clone();
            item.inc_inv(inc_amount);
            self.put_item(k, item);
        }
    }

    /// Takes `dec_amount` units off the stock of the item called `name`, the
    /// way [`MenuItem::dec_inv`] does; nothing changes when there is no such
    /// item.
    pub fn reduce_inv(&mut self, name: String, dec_amount: i64)
        requires
            old(self)@.wf(),
            i64::MIN <= inv_after_decrease(inv_of(old(self)@.menu, name@), dec_amount as int)
                <= i64::MAX,
        ensures
            final(self)@.wf(),
            final(self)@ == (RestaurantView {
                menu: update_item(
                    old(self)@.menu,
                    name@,
                    |m: MenuItemView|
                        (MenuItemView { inv: inv_after_decrease(m.inv, dec_amount as int), ..m }),
                ),
                ..old(self)@
            }),
    {
        if let Some(k) = self.find_item(&name) {
            let mut item = self.menu[k].clone();
            item.dec_inv(dec_amount);
            self.put_item(k, item);
        }
    }
}

} // verus!
