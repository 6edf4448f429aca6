use restaurant_sim::employee::{ADULT_MAX_HOURS, COOK, HOST, MIN_WAGE, SERVER};
use restaurant_sim::{Employee, Generator, MenuItem, Name};

#[test]
fn employee_test() {
    let emp_test = Employee::default(COOK, 1);
    assert!(emp_test.get_age() > 15 && emp_test.get_age() < 76);
    assert!(emp_test.get_wage() >= MIN_WAGE);
    assert!(emp_test.get_max_hrs() > 19 && emp_test.get_max_hrs() < 41);
    assert_eq!(0, emp_test.get_hrs_worked());
    assert!(emp_test.get_rating() > 0 && emp_test.get_rating() < 11);
    assert!(emp_test.get_posit() >= 0 && emp_test.get_posit() <= 2);
}

#[test]
fn set_wage_test() {
    let mut emp_test = Employee::default(COOK, 1);
    Employee::set_wage(&mut emp_test, 1234);
    assert_eq!(1234, emp_test.get_wage());
}

#[test]
fn set_rating_test() {
    let mut emp_test = Employee::default(COOK, 1);
    Employee::set_rating(&mut emp_test, 8);
    assert_eq!(8, emp_test.get_rating());
}

#[test]
fn set_rating_test_over_ten() {
    let mut emp_test = Employee::default(COOK, 1);
    Employee::set_rating(&mut emp_test, 11);
    assert_eq!(10, emp_test.get_rating());
}

#[test]
fn set_rating_test_under_one() {
    let mut emp_test = Employee::default(COOK, 1);
    Employee::set_rating(&mut emp_test, 0);
    assert_eq!(1, emp_test.get_rating());
}

#[test]
fn set_rating_clamps_far_values() {
    let mut e = Employee::default(SERVER, 2);
    e.set_rating(-3);
    assert_eq!(1, e.get_rating());
    e.set_rating(99);
    assert_eq!(10, e.get_rating());
    e.set_rating(1);
    assert_eq!(1, e.get_rating());
    e.set_rating(10);
    assert_eq!(10, e.get_rating());
}

#[test]
fn default_employee_fields() {
    let e = Employee::default(HOST, 7);
    assert_eq!(7, e.get_id());
    assert_eq!(HOST, e.get_posit());
    assert_eq!(5, e.get_rating());
    assert_eq!(725, e.get_wage());
    assert_eq!(ADULT_MAX_HOURS, e.get_max_hrs());
    assert!((18..75).contains(&e.get_age()));
    assert!(e.get_name().contains('-'));
}

#[test]
fn random_candidates_follow_their_rules() {
    for _ in 0..200 {
        let e = Employee::rand_empl();
        assert!((1..99999).contains(&e.get_id()));
        assert!((16..76).contains(&e.get_age()));
        assert!((1..=10).contains(&e.get_rating()));
        assert!((0..5).contains(&e.get_posit()));
        let expected_wage = 725 + 100 * std::cmp::max(0, e.get_rating() - 5);
        assert_eq!(expected_wage, e.get_wage());
        let expected_hours = if e.get_age() < 18 { 20 } else { 40 };
        assert_eq!(expected_hours, e.get_max_hrs());
        assert_eq!(0, e.get_hrs_worked());
    }
}

#[test]
fn role_names() {
    let names = ["Cook", "Server", "Washer", "Busser", "Host"];
    for (i, n) in names.iter().enumerate() {
        assert_eq!(*n, Employee::default(i as i64, 1).get_posit_string());
    }
    assert_eq!("Host", Employee::default(9, 1).get_posit_string());
    assert_eq!("Host", Employee::default(-1, 1).get_posit_string());
}

#[test]
fn set_id_and_clone() {
    let mut e = Employee::default(COOK, 1);
    e.set_id(55);
    let c = e.clone();
    assert_eq!(55, c.get_id());
    assert_eq!(e.get_age(), c.get_age());
    assert_eq!(e.clone().get_name(), c.get_name());
}

#[test]
fn menu_item_inc_inv_test() {
    let mut menu_test = MenuItem::new("Test".to_owned(), 999, 1);
    MenuItem::set_inv(&mut menu_test, 0);
    MenuItem::inc_inv(&mut menu_test, 25);
    assert_eq!(25, menu_test.get_inv());
}

#[test]
fn dec_inv_test() {
    let mut menu_test = MenuItem::new("Test".to_owned(), 999, 1);
    MenuItem::set_inv(&mut menu_test, 25);
    MenuItem::dec_inv(&mut menu_test, 25);
    assert_eq!(0, menu_test.get_inv());
}

#[test]
fn dec_inv_test_zero() {
    let mut menu_test = MenuItem::new("Test".to_owned(), 999, 1);
    MenuItem::set_inv(&mut menu_test, 0);
    MenuItem::dec_inv(&mut menu_test, 25);
    assert_eq!(0, menu_test.get_inv());
}

#[test]
fn dec_inv_below_zero_is_ignored_and_not_clamped_above() {
    let mut item = MenuItem::new("Soda".to_owned(), 100, 2);
    item.set_inv(-5);
    item.dec_inv(3);
    assert_eq!(-5, item.get_inv());
    item.set_inv(2);
    item.dec_inv(5);
    assert_eq!(-3, item.get_inv());
    item.set_inv(10);
    item.dec_inv(0);
    assert_eq!(10, item.get_inv());
}

#[test]
fn increase_then_decrease_restores_stock() {
    for (start, amount) in [(1, 5), (100, 25), (7, -3), (50, 0)] {
        let mut item = MenuItem::new("Fries".to_owned(), 200, 1);
        item.set_inv(start);
        item.inc_inv(amount);
        item.dec_inv(amount);
        assert_eq!(start, item.get_inv());
    }
}

#[test]
fn menu_item_fields() {
    let mut item = MenuItem::new("Burger".to_owned(), 500, 1);
    assert_eq!("Burger", item.get_name());
    assert_eq!(500, item.get_price());
    assert_eq!(1, item.get_quality());
    assert_eq!(100, item.get_inv());
    item.set_name("Wrap".to_owned());
    item.set_price(650);
    item.set_quality(3);
    assert_eq!("Wrap", item.get_name());
    assert_eq!(650, item.get_price());
    assert_eq!(3, item.get_quality());
    assert_eq!(100, item.clone().get_inv());
}

#[test]
fn generator_with_single_words() {
    let first = ["sassy"];
    let last = ["clocks"];
    let mut generator = Generator::new(&first, &last, Name::Plain);
    assert_eq!(Some("sassy-clocks".to_owned()), generator.next());
}

#[test]
fn numbered_names_end_in_four_digits() {
    let first = ["imaginary"];
    let last = ["roll"];
    let mut generator = Generator::new(&first, &last, Name::Numbered);
    for _ in 0..100 {
        let name = generator.next().unwrap();
        assert!(name.starts_with("imaginary-roll-"));
        let digits = &name["imaginary-roll-".len()..];
        assert_eq!(4, digits.len());
        assert!(digits.chars().all(|c| c.is_ascii_digit()));
        let n: u32 = digits.parse().unwrap();
        assert!((1..10000).contains(&n));
    }
}

#[test]
fn generator_picks_from_lists() {
    let first = ["a", "b"];
    let last = ["x", "y", "z"];
    let mut generator = Generator::new(&first, &last, Name::Plain);
    for _ in 0..50 {
        let name = generator.next().unwrap();
        let (f, l) = name.split_once('-').unwrap();
        assert!(first.contains(&f));
        assert!(last.contains(&l));
    }
    let mut plain = Generator::with_naming(Name::Plain);
    let name = plain.next().unwrap();
    assert_eq!(1, name.matches('-').count());
    let mut default: Generator = Default::default();
    assert!(default.next().unwrap().contains('-'));
    assert_eq!(Name::Plain, Name::default());
}
