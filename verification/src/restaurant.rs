//! A restaurant's front and back of house: module paths, a breakfast whose
//! fruit the kitchen chooses, and the appetizer menu.

use vstd::prelude::*;
use vstd::string::StringExecFns;

pub mod hosting;
pub mod hosting_advanced;

verus! {

/// Eat at the restaurant: join the waiting list, twice over, once through an
/// absolute path and once through a relative one.
pub fn eat_at_restaurant() {
    crate::restaurant::hosting::add_to_waitlist();
    hosting::add_to_waitlist();
}

#[allow(dead_code)]
fn take_order() {
}

#[allow(dead_code)]
fn serve_order() {
}

#[allow(dead_code)]
fn take_payment() {
}

#[allow(dead_code)]
fn cook_order() {
}

#[allow(dead_code)]
fn fix_incorrect_order() {
    cook_order();
    serve_order();
}

/// A breakfast order; the customer picks the toast, the kitchen picks the
/// seasonal fruit.
pub struct Breakfast {
    /// The customer's choice of bread.
    pub toast: String,
    seasonal_fruit: String,
}

impl Breakfast {
    /// The fruit the kitchen put on the plate.
    pub closed spec fn spec_fruit(&self) -> Seq<char> {
        self.seasonal_fruit@
    }

    /// The chosen bread.
    pub closed spec fn spec_toast(&self) -> Seq<char> {
        self.toast@
    }

    /// The summer breakfast: the chosen toast with peaches on the side.
    pub fn summer(toast: &str) -> (b: Breakfast)
        ensures
            b.spec_toast() == toast@,
            b.spec_fruit() == "peaches"@,
    {
        Breakfast { toast: String::from_str(toast), seasonal_fruit: String::from_str("peaches") }
    }
}

/// A first course.
#[derive(Debug, Clone, Copy, PartialEq, Eq, Structural)]
pub enum Appetizer {
    Soup,
    Salad,
}

/// Order both appetizers.
pub fn eat_at_restaurant3() -> (orders: (Appetizer, Appetizer))
    ensures
        orders.0 is Soup,
        orders.1 is Salad,
{
    let order1 = Appetizer::Soup;
    let order2 = Appetizer::Salad;
    (order1, order2)
}

/// Join the waiting list three times, through the imported module name.
pub fn eat_at_restaurant4() {
    hosting::add_to_waitlist();
    hosting::add_to_waitlist();
    hosting::add_to_waitlist();
}

/// Join the waiting list three times more.
pub fn eat_at_restaurant5() {
    hosting::add_to_waitlist();
    hosting::add_to_waitlist();
    hosting::add_to_waitlist();
}

} // verus!
