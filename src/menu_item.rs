//! One product on the menu: its name, price, quality and stock.

use vstd::prelude::*;

verus! {

/// Stock that a freshly created item starts with.
pub const STARTING_INVENTORY: i64 = 100;

/// The mathematical model of a [`MenuItem`].
pub ghost struct MenuItemView {
    pub name: Seq<char>,
    /// Price in cents.
    pub price: int,
    pub quality: int,
    pub inv: int,
}

impl MenuItemView {
    /// Whether every number of the model fits in an `i64`.
    pub open spec fn fits(self) -> bool {
        &&& i64::MIN <= self.price <= i64::MAX
        &&& i64::MIN <= self.quality <= i64::MAX
        &&& i64::MIN <= self.inv <= i64::MAX
    }
}

/// Stock after adding `amount` units.
pub open spec fn inv_after_increase(inv: int, amount: int) -> int {
    inv + amount
}

/// Stock after removing `amount` units: nothing happens on an item that is
/// already out of stock, otherwise the amount is taken off without clamping.
pub open spec fn inv_after_decrease(inv: int, amount: int) -> int {
    if inv <= 0 {
        inv
    } else {
        inv - amount
    }
}

/// A product on the menu.
pub struct MenuItem {
    name: String,
    price: i64,
    quality: i64,
    inv: i64,
}

impl View for MenuItem {
    type V = MenuItemView;

    closed spec fn view(&self) -> MenuItemView {
        MenuItemView {
            name: self.name@,
            price: self.price as int,
            quality: self.quality as int,
            inv: self.inv as int,
        }
    }
}

impl Clone for MenuItem {
    fn clone(&self) -> (r: MenuItem)
        ensures
            r@ == self@,
    {
        MenuItem { name: self.name.clone(), price: self.price, quality: self.quality, inv: self.inv }
    }
}

impl MenuItem {
    pub proof fn lemma_view_fits(&self)
        ensures
            self@.fits(),
    {
    }

    /// Creates an item with the given name, price (in cents) and quality,
    /// holding the starting stock.
    pub fn new(name: String, price: i64, quality: i64) -> (r: MenuItem)
        ensures
            r@ == (MenuItemView {
                name: name@,
                price: price as int,
                quality: quality as int,
                inv: STARTING_INVENTORY as int,
            }),
    {
        MenuItem { name, price, quality, inv: STARTING_INVENTORY }
    }

    pub fn get_name(&self) -> (r: String)
        ensures
            r@ == self@.name,
    {
        self.name.clone()
    }

    pub fn get_price(&self) -> (r: i64)
        ensures
            r == self@.price,
    {
        self.price
    }

    pub fn get_quality(&self) -> (r: i64)
        ensures
            r == self@.quality,
    {
        self.quality
    }

    pub fn get_inv(&self) -> (r: i64)
        ensures
            r == self@.inv,
    {
        self.inv
    }

    pub fn set_name(&mut self, new_name: String)
        ensures
            final(self)@ == (MenuItemView { name: new_name@, ..old(self)@ }),
    {
        self.name = new_name;
    }

    pub fn set_quality(&mut self, new_quality: i64)
        ensures
            final(self)@ == (MenuItemView { quality: new_quality as int, ..old(self)@ }),
    {
        self.quality = new_quality;
    }

    pub fn set_price(&mut self, new_price: i64)
        ensures
            final(self)@ == (MenuItemView { price: new_price as int, ..old(self)@ }),
    {
        self.price = new_price;
    }

    pub fn set_inv(&mut self, new_inv: i64)
        ensures
            final(self)@ == (MenuItemView { inv: new_inv as int, ..old(self)@ }),
    {
        self.inv = new_inv;
    }

    /// Adds `inc_amount` units to the stock.
    pub fn inc_inv(&mut self, inc_amount: i64)
        requires
            i64::MIN <= inv_after_increase(old(self)@.inv, inc_amount as int) <= i64::MAX,
        ensures
            final(self)@ == (MenuItemView {
                inv: inv_after_increase(old(self)@.inv, inc_amount as int),
                ..old(self)@
            }),
    {
        self.inv = self.inv + inc_amount;
    }

    /// Takes `dec_amount` units off the stock, unless the item is already out
    /// of stock (inventory zero or below), in which case nothing changes.
    pub fn dec_inv(&mut self, dec_amount: i64)
        requires
            i64::MIN <= inv_after_decrease(old(self)@.inv, dec_amount as int) <= i64::MAX,
        ensures
            final(self)@ == (MenuItemView {
                inv: inv_after_decrease(old(self)@.inv, dec_amount as int),
                ..old(self)@
            }),
            old(self)@.inv <= 0 ==> final(self)@ == old(self)@,
            dec_amount >= 0 ==> final(self)@.inv <= old(self)@.inv,
    {
        if self.inv <= 0 {
            return;
        }
        self.inv = self.inv - dec_amount;
    }
}

/// Ordering `amount` more units and then selling `amount` units gives back the
/// stock it started from, as long as the stock stayed above zero throughout.
pub proof fn lemma_increase_then_decrease(inv: int, amount: int)
    requires
        inv > 0,
        inv_after_increase(inv, amount) > 0,
    ensures
        inv_after_decrease(inv_after_increase(inv, amount), amount) == inv,
{
}

} // verus!
