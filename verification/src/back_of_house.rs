//! The kitchen: who cooks, and what is on the menu.

use vstd::prelude::*;
use vstd::string::*;

verus! {

/// What a chef is, as plain values.
pub struct ChefView {
    pub name: Seq<char>,
    pub experience: nat,
}

/// A chef. The name is for everyone to read; the years of experience stay
/// in the kitchen.
pub struct Chef {
    pub name: String,
    experience: u32,
}

impl View for Chef {
    type V = ChefView;

    closed spec fn view(&self) -> ChefView {
        ChefView { name: self.name@, experience: self.experience as nat }
    }
}

impl Chef {
    /// A chef with the given name and years of experience.
    pub fn new(name: String, experience: u32) -> (chef: Chef)
        ensures
            chef@ == (ChefView { name: name@, experience: experience as nat }),
    {
        Chef { name, experience }
    }

    /// The line that announces the chef at work.
    pub fn cook_food(&self) -> (line: String)
        ensures
            line@ == self@.name + " is cooking food!"@,
    {
        let mut line = self.name.clone();
        line.append(" is cooking food!");
        line
    }
}

/// A dish on the menu.
pub enum Dish {
    Pizza,
    Pasta,
    Salad,
}

/// How the menu describes a dish.
pub open spec fn description_of(dish: Dish) -> Seq<char> {
    match dish {
        Dish::Pizza => "A delicious pizza!"@,
        Dish::Pasta => "A tasty pasta!"@,
        Dish::Salad => "A fresh salad!"@,
    }
}

impl Dish {
    /// The menu's line for this dish.
    pub fn describe(&self) -> (line: &'static str)
        ensures
            line@ == description_of(*self),
    {
        match self {
            Dish::Pizza => "A delicious pizza!",
            Dish::Pasta => "A tasty pasta!",
            Dish::Salad => "A fresh salad!",
        }
    }
}

} // verus!
