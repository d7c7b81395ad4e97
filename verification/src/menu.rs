use vstd::prelude::*;

verus! {

/// The burgers on sale. The menu is closed: each kind has one fixed unit price.
#[derive(Clone, Copy, Debug, PartialEq, Eq, Structural)]
pub enum BurgerMenu {
    CheeseBurger,
    ChickenBurger,
    VeggieBurger,
}

/// One line of an order: a kind of burger and how many of it.
#[derive(Clone, Copy, Debug, PartialEq, Eq, Structural)]
pub struct FoodItem {
    pub burger_menu: BurgerMenu,
    pub amount: u32,
}

/// Number of values of a price: prices are counted modulo this.
pub open spec fn price_range() -> nat {
    0x1_0000_0000_0000_0000_0000_0000_0000_0000nat
}

impl BurgerMenu {
    /// Unit price of a kind, in menu currency.
    pub open spec fn spec_price(self) -> nat {
        match self {
            BurgerMenu::CheeseBurger => 12,
            BurgerMenu::ChickenBurger => 15,
            BurgerMenu::VeggieBurger => 10,
        }
    }

    /// Unit price of this kind.
    pub fn price(&self) -> (r: u128)
        ensures
            r == self.spec_price(),
    {
        match self {
            Self::CheeseBurger => 12,
            Self::VeggieBurger => 10,
            Self::ChickenBurger => 15,
        }
    }
}

impl FoodItem {
    /// A line is valid when it asks for at least one burger.
    pub open spec fn wf(self) -> bool {
        self.amount > 0
    }

    /// Price of a line: unit price times quantity. With a 32-bit quantity the
    /// product always fits a price, so nothing is lost to wraparound here.
    pub open spec fn spec_price(self) -> nat {
        match self.burger_menu {
            BurgerMenu::CheeseBurger => 12 * (self.amount as nat),
            BurgerMenu::ChickenBurger => 15 * (self.amount as nat),
            BurgerMenu::VeggieBurger => 10 * (self.amount as nat),
        }
    }

    /// The price of a line is the unit price of its kind times its quantity,
    /// and stays far below the range of a price.
    pub proof fn lemma_price_is_unit_times_amount(self)
        ensures
            self.spec_price() == self.burger_menu.spec_price() * (self.amount as nat),
            self.spec_price() <= 15 * 0xffff_ffff,
    {
    }

    /// Price of this line.
    pub fn price(&self) -> (r: u128)
        ensures
            r == self.spec_price(),
            r == self.burger_menu.spec_price() * self.amount,
    {
        let unit: u128 = self.burger_menu.price();
        let amount: u128 = self.amount as u128;
        proof {
            self.lemma_price_is_unit_times_amount();
            vstd::arithmetic::div_mod::lemma_small_mod(self.spec_price(), price_range());
        }
        unit.wrapping_mul(amount)
    }
}

/// Sum of the line prices of an order, not reduced.
pub open spec fn lines_sum(items: Seq<FoodItem>) -> nat
    decreases items.len(),
{
    if items.len() == 0 {
        0
    } else {
        lines_sum(items.drop_last()) + items.last().spec_price()
    }
}

/// Total price of an order: the sum of its line prices, wrapped into the
/// range of a price.
pub open spec fn spec_total_price(items: Seq<FoodItem>) -> nat {
    lines_sum(items) % price_range()
}

/// Every line of the order asks for at least one burger.
pub open spec fn all_lines_wf(items: Seq<FoodItem>) -> bool {
    forall|i: int| 0 <= i < items.len() ==> (#[trigger] items[i]).wf()
}

} // verus!
