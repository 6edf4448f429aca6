//! Random names for staff, made of a first name and a last name, optionally
//! followed by a four-digit number.

use crate::random::{random_choice, random_in_range};
use vstd::prelude::*;

verus! {

/// How a [`Generator`] shapes a name.
#[derive(Clone, Copy, PartialEq, Eq, Structural, Debug)]
pub enum Name {
    /// `"FIRST-LAST"`
    Plain,
    /// `"FIRST-LAST-NNNN"`, with a number from 1 to 9999 written in four digits
    Numbered,
}

impl Default for Name {
    fn default() -> (r: Name)
        ensures
            r == Name::Plain,
    {
        Name::Plain
    }
}

/// The decimal digits, in order.
pub open spec fn decimal_digits() -> Seq<char> {
    seq!['0', '1', '2', '3', '4', '5', '6', '7', '8', '9']
}

/// `n` written with exactly four decimal digits, padded with zeros.
pub open spec fn four_digits(n: int) -> Seq<char> {
    seq![
        decimal_digits()[(n / 1000) % 10],
        decimal_digits()[(n / 100) % 10],
        decimal_digits()[(n / 10) % 10],
        decimal_digits()[n % 10],
    ]
}

/// A name made of `first` and `last`, with `number` appended for the
/// numbered strategy.
pub open spec fn name_of(naming: Name, first: Seq<char>, last: Seq<char>, number: int) -> Seq<char> {
    match naming {
        Name::Plain => first + seq!['-'] + last,
        Name::Numbered => first + seq!['-'] + last + seq!['-'] + four_digits(number),
    }
}

/// The mathematical model of a [`Generator`].
pub ghost struct GeneratorView {
    pub first_names: Seq<Seq<char>>,
    pub last_names: Seq<Seq<char>>,
    pub naming: Name,
}

impl GeneratorView {
    /// Whether `name` is one that the generator can produce.
    pub open spec fn can_produce(self, name: Seq<char>) -> bool {
        exists|i: int, j: int, number: int|
            0 <= i < self.first_names.len() && 0 <= j < self.last_names.len() && 1 <= number
                < 10000 && name == name_of(
                self.naming,
                self.first_names[i],
                self.last_names[j],
                number,
            )
    }

    /// Both word lists hold at least one word.
    pub open spec fn wf(self) -> bool {
        self.first_names.len() > 0 && self.last_names.len() > 0
    }
}

/// A random name generator over a list of first names and a list of last
/// names.
pub struct Generator<'a> {
    first_names: &'a [&'a str],
    last_names: &'a [&'a str],
    naming: Name,
}

impl<'a> View for Generator<'a> {
    type V = GeneratorView;

    closed spec fn view(&self) -> GeneratorView {
        GeneratorView {
            first_names: self.first_names@.map_values(|w: &str| w@),
            last_names: self.last_names@.map_values(|w: &str| w@),
            naming: self.naming,
        }
    }
}

/// Writes `n` with four decimal digits after the end of `s`.
fn append_four_digits(s: &mut String, n: i64)
    requires
        0 <= n < 10000,
    ensures
        final(s)@ == old(s)@ + four_digits(n as int),
{
    let digits = "0123456789";
    proof {
        reveal_strlit("0123456789");
        assert(digits@ =~= decimal_digits());
    }
    let d0 = ((n / 1000) % 10) as usize;
    let d1 = ((n / 100) % 10) as usize;
    let d2 = ((n / 10) % 10) as usize;
    let d3 = (n % 10) as usize;
    s.append(digits.substring_char(d0, d0 + 1));
    s.append(digits.substring_char(d1, d1 + 1));
    s.append(digits.substring_char(d2, d2 + 1));
    s.append(digits.substring_char(d3, d3 + 1));
    assert(final(s)@ =~= old(s)@ + four_digits(n as int));
}

impl<'a> Generator<'a> {
    /// Creates a generator over the given word lists.
    pub fn new(first_names: &'a [&'a str], last_names: &'a [&'a str], naming: Name) -> (r: Generator<'a>)
        ensures
            r@.first_names == first_names@.map_values(|w: &str| w@),
            r@.last_names == last_names@.map_values(|w: &str| w@),
            r@.naming == naming,
    {
        Generator { first_names, last_names, naming }
    }

    /// Creates a generator over the built-in word lists.
    pub fn with_naming(naming: Name) -> (r: Generator<'a>)
        ensures
            r@.wf(),
            r@.naming == naming,
    {
        Generator::new(
            &["Alex", "Blair", "Casey", "Dana", "Eli", "Frankie", "Gale", "Harper"],
            &["Adams", "Baker", "Chen", "Diaz", "Evans", "Fischer", "Garcia", "Hughes"],
            naming,
        )
    }

    /// Produces a random name.
    pub fn next(&mut self) -> (r: Option<String>)
        requires
            old(self)@.wf(),
        ensures
            final(self)@ == old(self)@,
            r matches Some(name) && old(self)@.can_produce(name@),
    {
        let first = random_choice(self.first_names);
        let last = random_choice(self.last_names);
        let first = first.unwrap();
        let last = last.unwrap();
        let mut name = String::from_str(first);
        name.append("-");
        name.append(last);
        let number = random_in_range(1, 10000);
        match self.naming {
            Name::Plain => {},
            Name::Numbered => {
                name.append("-");
                append_four_digits(&mut name, number);
            },
        }
        proof {
            reveal_strlit("-");
            let i = choose|i: int| 0 <= i < self.first_names@.len() && self.first_names@[i] == first;
            let j = choose|j: int| 0 <= j < self.last_names@.len() && self.last_names@[j] == last;
            assert(name@ =~= name_of(self@.naming, self@.first_names[i], self@.last_names[j], number as int));
        }
        Some(name)
    }
}

impl<'a> Default for Generator<'a> {
    /// A generator over the built-in word lists with plain names.
    fn default() -> (r: Generator<'a>)
        ensures
            r@.wf(),
            r@.naming == Name::Plain,
    {
        Generator::with_naming(Name::default())
    }
}

} // verus!
