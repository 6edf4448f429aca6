use restaurant_sim::employee::{COOK, MIN_WAGE};
use restaurant_sim::restaurant::{MIN_CUST, STARTING_REVENUE};
use restaurant_sim::{simulate_day, Customer, Restaurant, Simulator};

#[test]
fn inc_profit_test() {
    let mut restaurant_test = Restaurant::new("Test".to_owned());
    // Revenue starts at $1000.00.
    restaurant_test.inc_revenue(10000);
    assert_eq!(110000, restaurant_test.get_revenue());
}

#[test]
fn reduce_profit_test() {
    let mut restaurant_test = Restaurant::new("Test".to_owned());
    restaurant_test.reduce_revenue(10000);
    assert_eq!(90000, restaurant_test.get_revenue());
}

#[test]
fn restaurant_inc_inv_test() {
    let mut restaurant_test = Restaurant::new("Test".to_owned());
    let name = "Burger".to_owned();
    // Stock starts at 100.
    restaurant_test.inc_inv(name.clone(), 25);
    assert_eq!(125, restaurant_test.get_inv(name));
}

#[test]
fn reduce_inv_test() {
    let mut restaurant_test = Restaurant::new("Test".to_owned());
    let name = "Burger".to_owned();
    restaurant_test.reduce_inv(name.clone(), 25);
    assert_eq!(75, restaurant_test.get_inv(name));
}

#[test]
fn calc_day_cost_test() {
    let restaurant_test = Restaurant::new("Test".to_owned());
    // Three staff at $7.25 for an eight-hour shift: $174.00.
    assert_eq!(17400, restaurant_test.calc_empl_day_cost());
}

#[test]
fn gen_customer_test() {
    let mut restaurant_test = Restaurant::new("Test".to_owned());
    let num_cust = MIN_CUST + Restaurant::num_cust_mod(&mut restaurant_test);
    let min = std::cmp::min(restaurant_test.calc_cust_serv(), num_cust);
    let served = restaurant_test.generate_customers();
    assert!(min <= served);
    assert!(served <= restaurant_test.calc_cust_serv());
}

#[test]
fn new_restaurant_opening_state() {
    let r = Restaurant::new("Diner".to_owned());
    assert_eq!("Diner", r.get_name());
    assert_eq!(STARTING_REVENUE, r.get_revenue());
    assert_eq!(100000, r.get_revenue());
    assert_eq!(500, r.get_price("Burger".to_owned()));
    assert_eq!(200, r.get_price("Fries".to_owned()));
    assert_eq!(100, r.get_price("Soda".to_owned()));
    for name in ["Burger", "Fries", "Soda"] {
        assert_eq!(1, r.get_item_quality(name.to_owned()));
        assert_eq!(100, r.get_inv(name.to_owned()));
    }
    assert_eq!(3, r.hired_count());
    assert_eq!(10, r.pot_count());
    assert_eq!(3, r.get_id());
    for i in 0..3 {
        let e = r.get_hired_empl(i);
        assert_eq!(i as i64 + 1, e.get_id());
        assert_eq!(i as i64, e.get_posit());
        assert_eq!(5, e.get_rating());
        assert_eq!(MIN_WAGE, e.get_wage());
    }
    assert_eq!(0, r.get_customers().len());
}

#[test]
fn unknown_item_lookups_and_setters() {
    let mut r = Restaurant::new("Test".to_owned());
    assert_eq!(0, r.get_price("Pizza".to_owned()));
    assert_eq!(0, r.get_item_quality("Pizza".to_owned()));
    assert_eq!(0, r.get_inv("Pizza".to_owned()));
    r.set_item_price("Pizza".to_owned(), 999);
    r.set_item_quality("Pizza".to_owned(), 3);
    r.inc_inv("Pizza".to_owned(), 5);
    r.reduce_inv("Pizza".to_owned(), 5);
    assert_eq!(500, r.get_price("Burger".to_owned()));
    assert_eq!(200, r.get_price("Fries".to_owned()));
    assert_eq!(100, r.get_price("Soda".to_owned()));
    assert_eq!(100, r.get_inv("Burger".to_owned()));
    assert_eq!(1, r.get_item_quality("Soda".to_owned()));
}

#[test]
fn set_price_and_quality_by_name() {
    let mut r = Restaurant::new("Test".to_owned());
    r.set_item_price("Fries".to_owned(), 350);
    r.set_item_quality("Soda".to_owned(), 3);
    r.set_inv_quality("Burger".to_owned(), 2);
    assert_eq!(350, r.get_price("Fries".to_owned()));
    assert_eq!(500, r.get_price("Burger".to_owned()));
    assert_eq!(3, r.get_item_quality("Soda".to_owned()));
    assert_eq!(2, r.get_item_quality("Burger".to_owned()));
    assert_eq!(1, r.get_item_quality("Fries".to_owned()));
    // Total quality 6 gives modifier 20.
    assert_eq!(20, r.num_cust_mod());
}

#[test]
fn reduce_inv_out_of_stock_is_ignored() {
    let mut r = Restaurant::new("Test".to_owned());
    r.reduce_inv("Soda".to_owned(), 100);
    assert_eq!(0, r.get_inv("Soda".to_owned()));
    r.reduce_inv("Soda".to_owned(), 7);
    assert_eq!(0, r.get_inv("Soda".to_owned()));
    // A decrement larger than the stock is not clamped.
    r.reduce_inv("Fries".to_owned(), 130);
    assert_eq!(-30, r.get_inv("Fries".to_owned()));
}

#[test]
fn quality_modifier_steps() {
    assert_eq!(1, Restaurant::num_cust_helper(-4));
    assert_eq!(1, Restaurant::num_cust_helper(0));
    assert_eq!(1, Restaurant::num_cust_helper(3));
    assert_eq!(10, Restaurant::num_cust_helper(4));
    assert_eq!(10, Restaurant::num_cust_helper(5));
    assert_eq!(20, Restaurant::num_cust_helper(6));
    assert_eq!(20, Restaurant::num_cust_helper(8));
    assert_eq!(25, Restaurant::num_cust_helper(9));
    assert_eq!(25, Restaurant::num_cust_helper(1000));
}

#[test]
fn staff_rating_and_starting_modifier() {
    let r = Restaurant::new("Test".to_owned());
    assert_eq!(15, r.calc_cust_serv());
    assert_eq!(1, r.num_cust_mod());
}

#[test]
fn customers_drawn_within_demand_and_capacity() {
    // Capacity 15 and quality total 3: demand from [6, 26), capped at 15.
    for _ in 0..50 {
        let mut r = Restaurant::new("Test".to_owned());
        let served = r.generate_customers();
        assert!((6..=15).contains(&served));
        let customers = r.get_customers();
        assert_eq!(served as usize, customers.len());
        for c in customers {
            assert!((1000..10000).contains(&c.get_cash()));
        }
    }
}

#[test]
fn hiring_raises_capacity_and_demand_range_follows_quality() {
    let mut r = Restaurant::new("Test".to_owned());
    for _ in 0..10 {
        let e = r.get_pot_empl(0);
        r.hire_emp(e);
    }
    assert!(r.calc_cust_serv() >= 25);
    r.set_item_quality("Burger".to_owned(), 3);
    r.set_item_quality("Fries".to_owned(), 3);
    r.set_item_quality("Soda".to_owned(), 3);
    assert_eq!(25, r.num_cust_mod());
    let cap = r.calc_cust_serv();
    let served = r.generate_customers();
    assert!(served <= cap);
    assert!(served == cap || (30..50).contains(&served));
}

#[test]
fn order_sells_when_affordable_and_in_stock() {
    let mut r = Restaurant::new("Test".to_owned());
    let mut c = Customer::with_cash(600, false, false);
    c.order(&mut r, "Burger".to_owned());
    assert_eq!(99, r.get_inv("Burger".to_owned()));
    assert_eq!(100500, r.get_revenue());
    // Cash is not spent by an order.
    assert_eq!(600, c.get_cash());
    c.order(&mut r, "Burger".to_owned());
    assert_eq!(98, r.get_inv("Burger".to_owned()));
    assert_eq!(101000, r.get_revenue());
}

#[test]
fn order_refused_when_too_expensive_or_out_of_stock() {
    let mut r = Restaurant::new("Test".to_owned());
    let mut poor = Customer::with_cash(499, true, true);
    poor.order(&mut r, "Burger".to_owned());
    assert_eq!(100, r.get_inv("Burger".to_owned()));
    assert_eq!(100000, r.get_revenue());
    r.reduce_inv("Soda".to_owned(), 100);
    let mut rich = Customer::with_cash(9000, true, true);
    rich.order(&mut r, "Soda".to_owned());
    assert_eq!(0, r.get_inv("Soda".to_owned()));
    assert_eq!(100000, r.get_revenue());
    rich.order(&mut r, "Pizza".to_owned());
    assert_eq!(100000, r.get_revenue());
}

#[test]
fn serve_customers_in_order_with_preferences() {
    let mut r = Restaurant::new("Test".to_owned());
    r.reduce_inv("Fries".to_owned(), 99);
    let customers = vec![
        Customer::with_cash(1000, true, false),
        Customer::with_cash(1000, true, true),
        Customer::with_cash(150, true, true),
    ];
    r.set_customers(customers);
    r.serve_customers();
    // Burgers: first two buy; third cannot afford one.
    assert_eq!(98, r.get_inv("Burger".to_owned()));
    // Fries: only one left, the first customer takes it.
    assert_eq!(0, r.get_inv("Fries".to_owned()));
    // Soda: second customer, and the third who can afford $1.00.
    assert_eq!(98, r.get_inv("Soda".to_owned()));
    assert_eq!(100000 + 500 + 500 + 200 + 100 + 100, r.get_revenue());
}

#[test]
fn day_summary_matches_restaurant_changes() {
    for _ in 0..20 {
        let mut r = Restaurant::new("Test".to_owned());
        let before_rev = r.get_revenue();
        let cap = r.calc_cust_serv();
        let summary = simulate_day(&mut r);
        assert!(summary.customers_served <= cap);
        assert!(summary.customers_served >= 6);
        assert_eq!(100 - r.get_inv("Burger".to_owned()), summary.burgers_sold);
        assert_eq!(100 - r.get_inv("Fries".to_owned()), summary.fries_sold);
        assert_eq!(100 - r.get_inv("Soda".to_owned()), summary.sodas_sold);
        assert!(summary.burgers_sold <= summary.customers_served);
        assert_eq!(r.get_revenue() - before_rev, summary.profit);
        let sales = 500 * summary.burgers_sold + 200 * summary.fries_sold + 100 * summary.sodas_sold;
        assert_eq!(sales - 17400, summary.profit);
    }
}

#[test]
fn served_never_exceeds_total_rating() {
    let mut sim = Simulator::new("Test".to_owned());
    for _ in 0..30 {
        assert!(sim.day_within_limits());
        let summary = sim.sim_day();
        assert!(summary.customers_served <= 15);
    }
    assert_eq!(30, sim.get_day());
}

#[test]
fn soda_out_of_stock_sells_nothing() {
    for _ in 0..20 {
        let mut r = Restaurant::new("Test".to_owned());
        r.reduce_inv("Soda".to_owned(), 100);
        assert_eq!(0, r.get_inv("Soda".to_owned()));
        let summary = simulate_day(&mut r);
        assert_eq!(0, summary.sodas_sold);
        assert_eq!(0, r.get_inv("Soda".to_owned()));
    }
}

#[test]
fn no_staff_means_no_customers() {
    let mut r = Restaurant::new("Test".to_owned());
    r.fire_emp(1);
    r.fire_emp(2);
    r.fire_emp(3);
    assert_eq!(0, r.hired_count());
    assert_eq!(0, r.calc_cust_serv());
    assert_eq!(0, r.calc_empl_day_cost());
    let summary = simulate_day(&mut r);
    assert_eq!(0, summary.customers_served);
    assert_eq!(0, summary.profit);
    assert_eq!(100000, r.get_revenue());
}

#[test]
fn hire_moves_one_candidate_with_next_id() {
    let mut r = Restaurant::new("Test".to_owned());
    let pot_before = r.pot_count();
    let candidate = r.get_pot_empl(4);
    let same_id = r.get_pot_empls().iter().filter(|e| e.get_id() == candidate.get_id()).count();
    r.hire_emp(candidate.clone());
    assert_eq!(pot_before - same_id, r.pot_count());
    assert_eq!(4, r.hired_count());
    let hired = r.get_hired_empl(3);
    assert_eq!(4, hired.get_id());
    assert_eq!(4, r.get_id());
    assert_eq!(candidate.get_rating(), hired.get_rating());
    assert_eq!(candidate.get_wage(), hired.get_wage());
    for i in 0..3 {
        assert!(r.get_hired_empl(i).get_id() < hired.get_id());
    }
    assert!(r.get_pot_empls().iter().all(|e| e.get_id() != candidate.get_id()));
}

#[test]
fn fire_by_id_removes_at_most_one() {
    let mut r = Restaurant::new("Test".to_owned());
    r.fire_emp(2);
    assert_eq!(2, r.hired_count());
    assert_eq!(1, r.get_hired_empl(0).get_id());
    assert_eq!(3, r.get_hired_empl(1).get_id());
    r.fire_emp(42);
    assert_eq!(2, r.hired_count());
    assert_eq!(1, r.get_hired_empl(0).get_id());
    assert_eq!(3, r.get_hired_empl(1).get_id());
    assert_eq!(10, r.calc_cust_serv());
}

#[test]
fn regenerated_pool_has_ten_candidates() {
    let mut r = Restaurant::new("Test".to_owned());
    r.generate_pot_empls();
    assert_eq!(10, r.pot_count());
    for e in r.get_pot_empls() {
        assert!((1..=10).contains(&e.get_rating()));
        assert!((0..5).contains(&e.get_posit()));
    }
    assert_eq!(3, r.get_hired_empls().len());
    assert_eq!(COOK, r.get_hired_empl(0).get_posit());
}

#[test]
fn labor_cost_counts_hired_wages() {
    let mut r = Restaurant::new("Test".to_owned());
    let candidate = r.get_pot_empl(0);
    let wage = candidate.get_wage();
    r.hire_emp(candidate);
    assert_eq!(17400 + 8 * wage, r.calc_empl_day_cost());
}
