use restaurant_sim::simulator::menu_item_name;
use restaurant_sim::Simulator;

#[test]
fn new_simulator_starts_at_day_zero() {
    let sim = Simulator::new("Bistro".to_owned());
    assert_eq!(0, sim.get_day());
    assert_eq!("Bistro", sim.get_name());
    assert_eq!(100000, sim.get_revenue());
    assert_eq!(3, sim.hired_len());
    assert_eq!(10, sim.pot_len());
    assert_eq!(100, sim.get_inv("Fries".to_owned()));
}

#[test]
fn item_unit_costs() {
    assert_eq!(250, Simulator::calc_item_price("Burger".to_owned(), 1));
    assert_eq!(400, Simulator::calc_item_price("Burger".to_owned(), 2));
    assert_eq!(550, Simulator::calc_item_price("Burger".to_owned(), 3));
    assert_eq!(100, Simulator::calc_item_price("Fries".to_owned(), 1));
    assert_eq!(150, Simulator::calc_item_price("Fries".to_owned(), 2));
    assert_eq!(200, Simulator::calc_item_price("Fries".to_owned(), 3));
    assert_eq!(25, Simulator::calc_item_price("Soda".to_owned(), 1));
    assert_eq!(37, Simulator::calc_item_price("Soda".to_owned(), 2));
    assert_eq!(50, Simulator::calc_item_price("Soda".to_owned(), 3));
}

#[test]
fn ordering_stock_costs_revenue() {
    let mut sim = Simulator::new("Test".to_owned());
    assert!(sim.order_within_limits("Burger".to_owned(), 10));
    sim.order_inv("Burger".to_owned(), 10);
    assert_eq!(110, sim.get_inv("Burger".to_owned()));
    assert_eq!(100000 - 2500, sim.get_revenue());
    sim.set_item_quality("Soda".to_owned(), 2);
    sim.order_inv("Soda".to_owned(), 100);
    assert_eq!(200, sim.get_inv("Soda".to_owned()));
    assert_eq!(100000 - 2500 - 3700, sim.get_revenue());
    assert!(!sim.order_within_limits("Burger".to_owned(), i64::MAX));
}

#[test]
fn simulator_hire_and_fire_by_position() {
    let mut sim = Simulator::new("Test".to_owned());
    assert!(sim.can_hire(0));
    assert!(!sim.can_hire(10));
    sim.hire_empl(0);
    assert_eq!(4, sim.hired_len());
    assert!(sim.pot_len() <= 9);
    sim.fire_empl(0);
    assert_eq!(3, sim.hired_len());
    sim.update_pot();
    assert_eq!(10, sim.pot_len());
}

#[test]
fn simulator_price_and_quality_setters() {
    let mut sim = Simulator::new("Test".to_owned());
    sim.set_item_price("Burger".to_owned(), 650);
    sim.set_item_quality("Burger".to_owned(), 3);
    assert_eq!(3, sim.get_item_quality("Burger".to_owned()));
    assert_eq!(1, sim.get_item_quality("Fries".to_owned()));
}

#[test]
fn sim_day_advances_the_day() {
    let mut sim = Simulator::new("Test".to_owned());
    let before = sim.get_revenue();
    let summary = sim.sim_day();
    assert_eq!(1, sim.get_day());
    assert_eq!(sim.get_revenue() - before, summary.profit);
}

#[test]
fn menu_choice_names() {
    assert_eq!(Some("Burger".to_owned()), menu_item_name(1));
    assert_eq!(Some("Fries".to_owned()), menu_item_name(2));
    assert_eq!(Some("Soda".to_owned()), menu_item_name(3));
    assert_eq!(None, menu_item_name(0));
    assert_eq!(None, menu_item_name(4));
}
