//! A member of staff: pay, rating and role.

use crate::names::{Generator, Name};
use crate::random::random_in_range;
use vstd::prelude::*;

verus! {

/// The lowest hourly wage, in cents.
pub const MIN_WAGE: i64 = 725;

/// Weekly hours an adult may work.
pub const ADULT_MAX_HOURS: i64 = 40;

/// Weekly hours a minor may work.
pub const MINOR_MAX_HOURS: i64 = 20;

/// The age from which a worker counts as an adult.
pub const ADULT_AGE: i64 = 18;

/// The rating every default employee starts with, and the rating above which
/// a random candidate asks for more pay.
pub const BASE_RATING: i64 = 5;

pub const LOWEST_RATING: i64 = 1;

pub const HIGHEST_RATING: i64 = 10;

/// Extra hourly pay, in cents, for each rating point above the base rating.
pub const PAY_PER_RATING_POINT: i64 = 100;

pub const COOK: i64 = 0;

pub const SERVER: i64 = 1;

pub const WASHER: i64 = 2;

pub const BUSSER: i64 = 3;

pub const HOST: i64 = 4;

/// Number of roles; roles are numbered from 0.
pub const ROLE_COUNT: i64 = 5;

/// The mathematical model of an [`Employee`].
pub ghost struct EmployeeView {
    pub name: Seq<char>,
    pub id: int,
    pub age: int,
    /// Hourly wage in cents.
    pub wage: int,
    pub max_hrs: int,
    pub hrs_worked: int,
    pub rating: int,
    pub posit: int,
}

impl EmployeeView {
    /// What holds of every employee: the rating lies in `[1, 10]` and the
    /// wage is at least the minimum wage.
    pub open spec fn wf(self) -> bool {
        &&& LOWEST_RATING <= self.rating <= HIGHEST_RATING
        &&& MIN_WAGE <= self.wage <= i64::MAX
    }
}

/// `v` clamped into `[lo, hi]`.
pub open spec fn clamp(v: int, lo: int, hi: int) -> int {
    if v > hi {
        hi
    } else if v < lo {
        lo
    } else {
        v
    }
}

/// The wage asked by a candidate with the given rating: the minimum wage plus
/// one dollar for each point above the base rating.
pub open spec fn wage_for_rating(rating: int) -> int {
    if rating > BASE_RATING {
        MIN_WAGE + PAY_PER_RATING_POINT * (rating - BASE_RATING)
    } else {
        MIN_WAGE as int
    }
}

/// What every randomly drawn candidate satisfies.
pub open spec fn is_random_candidate(e: EmployeeView) -> bool {
    &&& 1 <= e.id < 99999
    &&& 16 <= e.age < 76
    &&& LOWEST_RATING <= e.rating <= HIGHEST_RATING
    &&& 0 <= e.posit < ROLE_COUNT
    &&& e.wage == wage_for_rating(e.rating)
    &&& e.max_hrs == max_hours_for_age(e.age)
    &&& e.hrs_worked == 0
}

/// The weekly hours allowed at the given age.
pub open spec fn max_hours_for_age(age: int) -> int {
    if age < ADULT_AGE {
        MINOR_MAX_HOURS as int
    } else {
        ADULT_MAX_HOURS as int
    }
}

/// The display name of a role; every number from 4 on, and every negative
/// number, reads as a host.
pub open spec fn role_name(posit: int) -> Seq<char> {
    if posit == COOK {
        seq!['C', 'o', 'o', 'k']
    } else if posit == SERVER {
        seq!['S', 'e', 'r', 'v', 'e', 'r']
    } else if posit == WASHER {
        seq!['W', 'a', 's', 'h', 'e', 'r']
    } else if posit == BUSSER {
        seq!['B', 'u', 's', 's', 'e', 'r']
    } else {
        seq!['H', 'o', 's', 't']
    }
}

/// A member of staff, hired or a candidate.
pub struct Employee {
    name: String,
    id: i64,
    age: i64,
    wage: i64,
    max_hrs: i64,
    hrs_worked: i64,
    rating: i64,
    posit: i64,
}

impl View for Employee {
    type V = EmployeeView;

    closed spec fn view(&self) -> EmployeeView {
        EmployeeView {
            name: self.name@,
            id: self.id as int,
            age: self.age as int,
            wage: self.wage as int,
            max_hrs: self.max_hrs as int,
            hrs_worked: self.hrs_worked as int,
            rating: self.rating as int,
            posit: self.posit as int,
        }
    }
}

impl Clone for Employee {
    fn clone(&self) -> (r: Employee)
        ensures
            r@ == self@,
    {
        proof {
            use_type_invariant(self);
        }
        Employee {
            name: self.name.clone(),
            id: self.id,
            age: self.age,
            wage: self.wage,
            max_hrs: self.max_hrs,
            hrs_worked: self.hrs_worked,
            rating: self.rating,
            posit: self.posit,
        }
    }
}

/// A random name from the built-in word lists.
fn random_name() -> (r: String) {
    let mut generator = Generator::with_naming(Name::Plain);
    generator.next().unwrap()
}

impl Employee {
    #[verifier::type_invariant]
    spec fn inv(self) -> bool {
        self@.wf()
    }

    /// Every employee satisfies [`EmployeeView::wf`]; this call makes the
    /// fact available to the caller's proof.
    pub(crate) fn establish_wf(&self)
        ensures
            self@.wf(),
    {
        proof {
            use_type_invariant(self);
        }
    }

    /// A new member of staff in the given role with the given id: rating 5,
    /// minimum wage, full-time hours, an adult age drawn from `[18, 75)`.
    pub fn default(posit: i64, id: i64) -> (r: Employee)
        ensures
            r@.id == id,
            r@.posit == posit,
            r@.rating == BASE_RATING,
            r@.wage == MIN_WAGE,
            r@.max_hrs == ADULT_MAX_HOURS,
            r@.hrs_worked == 0,
            ADULT_AGE <= r@.age < 75,
    {
        let name = random_name();
        let age = random_in_range(ADULT_AGE, 75);
        Employee {
            name,
            id,
            age,
            wage: MIN_WAGE,
            max_hrs: ADULT_MAX_HOURS,
            hrs_worked: 0,
            rating: BASE_RATING,
            posit,
        }
    }

    /// A random candidate: id from `[1, 99999)`, age from `[16, 76)`, rating
    /// from `[1, 10]`, role from the five roles; the wage follows from the
    /// rating and the allowed hours from the age.
    pub fn rand_empl() -> (r: Employee)
        ensures
            is_random_candidate(r@),
    {
        let name = random_name();
        let id = random_in_range(1, 99999);
        let age = random_in_range(16, 76);
        let rating = random_in_range(LOWEST_RATING, HIGHEST_RATING + 1);
        let posit = random_in_range(0, ROLE_COUNT);
        let mut wage = MIN_WAGE;
        if rating > BASE_RATING {
            wage = wage + PAY_PER_RATING_POINT * (rating - BASE_RATING);
        }
        let mut max_hrs = ADULT_MAX_HOURS;
        if age < ADULT_AGE {
            max_hrs = MINOR_MAX_HOURS;
        }
        Employee { name, id, age, wage, max_hrs, hrs_worked: 0, rating, posit }
    }

    pub fn get_name(self) -> (r: String)
        ensures
            r@ == self@.name,
    {
        self.name
    }

    pub fn get_wage(&self) -> (r: i64)
        ensures
            r == self@.wage,
    {
        self.wage
    }

    pub fn get_age(&self) -> (r: i64)
        ensures
            r == self@.age,
    {
        self.age
    }

    pub fn get_hrs_worked(&self) -> (r: i64)
        ensures
            r == self@.hrs_worked,
    {
        self.hrs_worked
    }

    pub fn get_max_hrs(&self) -> (r: i64)
        ensures
            r == self@.max_hrs,
    {
        self.max_hrs
    }

    pub fn get_posit(&self) -> (r: i64)
        ensures
            r == self@.posit,
    {
        self.posit
    }

    /// The name of the employee's role.
    pub fn get_posit_string(&self) -> (r: String)
        ensures
            r@ == role_name(self@.posit),
    {
        proof {
            reveal_strlit("Cook");
            reveal_strlit("Server");
            reveal_strlit("Washer");
            reveal_strlit("Busser");
            reveal_strlit("Host");
        }
        if self.posit == COOK {
            String::from_str("Cook")
        } else if self.posit == SERVER {
            String::from_str("Server")
        } else if self.posit == WASHER {
            String::from_str("Washer")
        } else if self.posit == BUSSER {
            String::from_str("Busser")
        } else {
            String::from_str("Host")
        }
    }

    pub fn get_id(&self) -> (r: i64)
        ensures
            r == self@.id,
    {
        self.id
    }

    pub fn get_rating(&self) -> (r: i64)
        ensures
            r == self@.rating,
    {
        self.rating
    }

    /// Sets the hourly wage (in cents), which may not fall below the minimum
    /// wage.
    pub fn set_wage(&mut self, new_wage: i64)
        requires
            new_wage >= MIN_WAGE,
        ensures
            final(self)@ == (EmployeeView { wage: new_wage as int, ..old(self)@ }),
    {
        proof {
            use_type_invariant(&*self);
        }
        self.wage = new_wage;
    }

    /// Sets the rating, clamped into `[1, 10]`.
    pub fn set_rating(&mut self, new_rating: i64)
        ensures
            final(self)@ == (EmployeeView {
                rating: clamp(new_rating as int, LOWEST_RATING as int, HIGHEST_RATING as int),
                ..old(self)@
            }),
    {
        proof {
            use_type_invariant(&*self);
        }
        if new_rating > HIGHEST_RATING {
            self.rating = HIGHEST_RATING;
            return;
        }
        if new_rating < LOWEST_RATING {
            self.rating = LOWEST_RATING;
            return;
        }
        self.rating = new_rating;
    }

    pub fn set_id(&mut self, new_id: i64)
        ensures
            final(self)@ == (EmployeeView { id: new_id as int, ..old(self)@ }),
    {
        proof {
            use_type_invariant(&*self);
        }
        self.id = new_id;
    }
}

} // verus!
