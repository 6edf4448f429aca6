//! A turn-based restaurant simulation: menu items, staff, customers and the
//! engine that plays out one business day.
//!
//! Money is held as a whole number of cents throughout.

pub mod employee;
pub mod menu_item;
pub mod names;
mod random;
pub mod restaurant;
pub mod sales;
pub mod simulator;
pub mod staff;

pub use employee::Employee;
pub use menu_item::MenuItem;
pub use names::{Generator, Name};
pub use restaurant::Restaurant;
pub use sales::Customer;
pub use simulator::{simulate_day, DaySummary, Simulator};
