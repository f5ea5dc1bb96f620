//! Rectangles, and the users of a site: values built from named fields.

use vstd::prelude::*;
use vstd::string::StringExecFns;

verus! {

/// A rectangle, measured in pixels.
#[derive(Clone, Copy, Debug, PartialEq, Eq, Structural)]
pub struct Rectangle {
    pub width: u32,
    pub height: u32,
}

impl Rectangle {
    /// The area of the rectangle, where 32 bits hold it.
    pub fn area(&self) -> (a: u32)
        requires
            self.width * self.height <= u32::MAX,
        ensures
            a == self.width * self.height,
    {
        self.width * self.height
    }

    /// Whether `other` fits inside this rectangle with room to spare on
    /// every side.
    pub fn can_hold(&self, other: &Rectangle) -> (fits: bool)
        ensures
            fits == (self.width > other.width && self.height > other.height),
    {
        self.width > other.width && self.height > other.height
    }

    /// The square whose sides measure `size`.
    pub fn square(size: u32) -> (r: Rectangle)
        ensures
            r.width == size,
            r.height == size,
    {
        Rectangle { width: size, height: size }
    }
}

/// The area of `rectangle`, where 32 bits hold it.
pub fn area(rectangle: &Rectangle) -> (a: u32)
    requires
        rectangle.width * rectangle.height <= u32::MAX,
    ensures
        a == rectangle.width * rectangle.height,
{
    rectangle.width * rectangle.height
}

/// A rectangle holds no rectangle that holds it, and none of its own size.
pub proof fn lemma_can_hold_is_a_strict_order(a: Rectangle, b: Rectangle, c: Rectangle)
    ensures
        !(a.width > a.width && a.height > a.height),
        (a.width > b.width && a.height > b.height) ==> !(b.width > a.width && b.height
            > a.height),
        (a.width > b.width && a.height > b.height) && (b.width > c.width && b.height > c.height)
            ==> (a.width > c.width && a.height > c.height),
{
}

/// Someone with an account.
pub struct User {
    pub active: bool,
    pub username: String,
    pub email: String,
    pub sign_in_count: u64,
}

/// `user` with the address `some@example.com`, and all else as it was.
pub fn build_user_update_syntax(user: User) -> (updated: User)
    ensures
        updated.email@ == "some@example.com"@,
        updated.active == user.active,
        updated.username == user.username,
        updated.sign_in_count == user.sign_in_count,
{
    User { email: String::from_str("some@example.com"), ..user }
}

} // verus!
