//! Rectangles, users, guesses and coins: small data types whose methods have
//! exact arithmetic contracts.

use vstd::prelude::*;

verus! {

/// An axis-aligned rectangle.
#[derive(Debug)]
pub struct Rectangle {
    /// Horizontal extent.
    pub width: u32,
    /// Vertical extent.
    pub height: u32,
}

impl Rectangle {
    /// The rectangle's area.
    #[allow(non_snake_case)]
    pub fn calculateArea(&self) -> (a: u32)
        requires
            self.width * self.height <= u32::MAX,
        ensures
            a == self.width * self.height,
    {
        self.width * self.height
    }

    /// Whether `other` fits strictly inside `self` in both directions.
    pub fn can_hold(&self, other: &Rectangle) -> (b: bool)
        ensures
            b == (self.width > other.width && self.height > other.height),
    {
        self.width > other.width && self.height > other.height
    }

    /// A square with the given side.
    pub fn square(size: u32) -> (r: Rectangle)
        ensures
            r.width == size,
            r.height == size,
    {
        Rectangle { width: size, height: size }
    }
}

/// The rectangle's area, computed through a borrow.
pub fn area(rectangle: &Rectangle) -> (a: u32)
    requires
        rectangle.width * rectangle.height <= u32::MAX,
    ensures
        a == rectangle.width * rectangle.height,
{
    rectangle.width * rectangle.height
}

/// An account holder.
#[derive(Debug)]
pub struct User {
    /// Displayed name.
    pub username: String,
    /// Contact address.
    pub email: String,
    /// How often the user signed in.
    pub sign_in_count: u64,
    /// Whether the account is enabled.
    pub active: bool,
}

/// A new, active user with a single sign-in.
pub fn build_user(email: String, username: String) -> (u: User)
    ensures
        u.email == email,
        u.username == username,
        u.active,
        u.sign_in_count == 1,
{
    User { email, username, active: true, sign_in_count: 1 }
}

/// A guess in the guessing game, guaranteed to lie between 1 and 100.
#[derive(Debug)]
pub struct Guess {
    value: i32,
}

impl Guess {
    /// The guessed number.
    pub closed spec fn spec_value(&self) -> i32 {
        self.value
    }

    /// Wraps a guessed number. A value outside 1 to 100 is a caller error,
    /// excluded here, so that the invariant of `Guess` always holds.
    pub fn new(value: i32) -> (g: Guess)
        requires
            1 <= value <= 100,
        ensures
            g.spec_value() == value,
    {
        Guess { value }
    }

    /// Reads the guessed number back.
    pub fn value(&self) -> (v: i32)
        ensures
            v == self.spec_value(),
    {
        self.value
    }
}

/// A state whose quarters circulate.
#[derive(Debug)]
pub enum UsState {
    Alabama,
    Alaska,
    California,
    Texas,
}

/// A coin of the usual denominations.
#[derive(Debug)]
pub enum Coin {
    Penny,
    Nickel,
    Dime,
    Quarter(UsState),
}

impl Coin {
    /// The coin's worth in cents.
    pub open spec fn spec_value_in_cents(&self) -> u8 {
        match self {
            Coin::Penny => 1u8,
            Coin::Nickel => 5u8,
            Coin::Dime => 10u8,
            Coin::Quarter(_) => 25u8,
        }
    }

    /// The coin's worth in cents.
    pub fn value_in_cents(&self) -> (v: u8)
        ensures
            v == self.spec_value_in_cents(),
    {
        match self {
            Coin::Penny => 1,
            Coin::Nickel => 5,
            Coin::Dime => 10,
            Coin::Quarter(_) => 25,
        }
    }
}

} // verus!
