//! Operators and traits of one's own: adding points and lengths, methods of
//! one name from several traits, and printing in a frame.

use crate::text::{
    byte_length, decimal, decimal_string, joined, repeated, signed_decimal, signed_decimal_string,
};
use std::ops::Add;
use vstd::prelude::*;
use vstd::std_specs::ops::AddSpecImpl;
use vstd::string::StringExecFns;

verus! {

/// A point in the plane.
#[derive(Debug, Copy, Clone, PartialEq, Eq, Structural)]
pub struct Point {
    pub x: i32,
    pub y: i32,
}

impl Add for Point {
    type Output = Point;

    /// Adds the points, coordinate by coordinate.
    fn add(self, other: Point) -> Point {
        Point { x: self.x + other.x, y: self.y + other.y }
    }
}

impl AddSpecImpl for Point {
    open spec fn obeys_add_spec() -> bool {
        true
    }

    /// Points can be added where the sums of their coordinates fit.
    open spec fn add_req(self, other: Point) -> bool {
        &&& i32::MIN <= self.x + other.x <= i32::MAX
        &&& i32::MIN <= self.y + other.y <= i32::MAX
    }

    open spec fn add_spec(self, other: Point) -> Point {
        Point { x: (self.x + other.x) as i32, y: (self.y + other.y) as i32 }
    }
}

/// Adds two points with `+`.
pub fn operator_overloading() -> (sum: Point)
    ensures
        sum == (Point { x: 3, y: 3 }),
{
    Point { x: 1, y: 0 } + Point { x: 2, y: 3 }
}

/// A length in millimeters.
#[derive(Debug, Copy, Clone, PartialEq, Eq, Structural)]
pub struct Millimeters(pub u32);

/// A length in meters.
#[derive(Debug, Copy, Clone, PartialEq, Eq, Structural)]
pub struct Meters(pub u32);

impl Add<Meters> for Millimeters {
    type Output = Millimeters;

    /// Adds a length in meters to one in millimeters.
    fn add(self, other: Meters) -> Millimeters {
        Millimeters(self.0 + (other.0 * 1000))
    }
}

impl AddSpecImpl<Meters> for Millimeters {
    open spec fn obeys_add_spec() -> bool {
        true
    }

    /// The lengths can be added where the sum, in millimeters, fits.
    open spec fn add_req(self, other: Meters) -> bool {
        self.0 + other.0 * 1000 <= u32::MAX
    }

    open spec fn add_spec(self, other: Meters) -> Millimeters {
        Millimeters((self.0 + other.0 * 1000) as u32)
    }
}

/// Someone who flies a plane.
pub trait Pilot {
    /// What is heard when the pilot flies.
    fn fly(&self) -> &'static str;
}

/// Someone who flies without one.
pub trait Wizard {
    /// What is heard when the wizard flies.
    fn fly(&self) -> &'static str;
}

/// A human, who may be a pilot and a wizard at once.
pub struct Human;

impl Pilot for Human {
    fn fly(&self) -> (said: &'static str)
        ensures
            said@ == "This is your captain speaking."@,
    {
        "This is your captain speaking."
    }
}

impl Wizard for Human {
    fn fly(&self) -> (said: &'static str)
        ensures
            said@ == "Up!"@,
    {
        "Up!"
    }
}

impl Human {
    /// What is heard when a human tries to fly.
    pub fn fly(&self) -> (said: &'static str)
        ensures
            said@ == "*waving arms furiously*"@,
    {
        "*waving arms furiously*"
    }
}

/// A human flies in each of the three ways: as a human, as a pilot, as a
/// wizard.
pub fn traits_with_same_method_name() -> (said: (&'static str, &'static str, &'static str))
    ensures
        said.0@ == "*waving arms furiously*"@,
        said.1@ == "This is your captain speaking."@,
        said.2@ == "Up!"@,
{
    let person = Human;
    (person.fly(), Pilot::fly(&person), Wizard::fly(&person))
}

/// `count` copies of `text`, one behind the other.
pub fn repeat(text: &str, count: usize) -> (out: String)
    ensures
        out@ == repeated(text@, count as nat),
{
    let mut out = String::new();
    let mut i: usize = 0;
    while i < count
        invariant
            i <= count,
            out@ == repeated(text@, i as nat),
        decreases count - i,
    {
        out.append(text);
        i = i + 1;
    }
    out
}

/// The frame around `text`: how many bytes it takes, then a line of stars,
/// an empty line between stars, the text between stars, an empty line
/// between stars, and a line of stars, each as wide as the text and two
/// spaces and two stars.
pub open spec fn outline_of(text: Seq<char>) -> Seq<Seq<char>> {
    let len = byte_length(text);
    seq![
        "len: "@ + decimal(len),
        repeated("*"@, len + 4),
        "*"@ + repeated(" "@, len + 2) + "*"@,
        "* "@ + text + " *"@,
        "*"@ + repeated(" "@, len + 2) + "*"@,
        repeated("*"@, len + 4),
    ]
}

/// The texts of a sequence of strings.
pub open spec fn string_texts(strings: Seq<String>) -> Seq<Seq<char>> {
    strings.map_values(|s: String| s@)
}

/// The frame around `text`, line by line.
pub fn outline(text: &str) -> (frame: Vec<String>)
    ensures
        string_texts(frame@) == outline_of(text@),
{
    let len = text.as_bytes().len();
    let stars = repeat("*", len).concat("****");
    let blank = String::from_str("*").concat(repeat(" ", len).as_str()).concat("  *");
    proof {
        reveal_strlit("****");
        reveal_strlit("  *");
        reveal_strlit("*");
        reveal_strlit(" ");
        reveal_with_fuel(repeated, 5);
        assert(stars@ =~= repeated("*"@, (len + 4) as nat));
        assert(blank@ =~= "*"@ + repeated(" "@, (len + 2) as nat) + "*"@);
    }
    let mut frame: Vec<String> = Vec::new();
    frame.push(String::from_str("len: ").concat(decimal_string(len).as_str()));
    frame.push(stars.clone());
    frame.push(blank.clone());
    frame.push(String::from_str("* ").concat(text).concat(" *"));
    frame.push(blank);
    frame.push(stars);
    proof {
        assert(string_texts(frame@) =~= outline_of(text@));
    }
    frame
}

/// A point that can be written out.
pub struct Point2 {
    pub x: i32,
    pub y: i32,
}

impl Point2 {
    /// The point as it is written: its coordinates in brackets.
    pub open spec fn text(&self) -> Seq<char> {
        "("@ + signed_decimal(self.x as int) + ", "@ + signed_decimal(self.y as int) + ")"@
    }

    /// Writes the point out.
    pub fn to_string(&self) -> (written: String)
        ensures
            written@ == self.text(),
    {
        String::from_str("(").concat(signed_decimal_string(self.x).as_str()).concat(", ").concat(
            signed_decimal_string(self.y).as_str(),
        ).concat(")")
    }

    /// The point, written out, in a frame.
    pub fn outline_print(&self) -> (frame: Vec<String>)
        ensures
            string_texts(frame@) == outline_of(self.text()),
    {
        let written = self.to_string();
        outline(written.as_str())
    }
}

/// The point (3, 4) in its frame.
pub fn super_trait() -> (frame: Vec<String>)
    ensures
        string_texts(frame@) == outline_of((Point2 { x: 3, y: 4 }).text()),
{
    let point = Point2 { x: 3, y: 4 };
    point.outline_print()
}

/// A list of strings that can be written out.
pub struct Wrapper(pub Vec<String>);

impl Wrapper {
    /// The list as it is written: the strings, with a comma and a space
    /// between each two, in square brackets.
    pub open spec fn text(&self) -> Seq<char> {
        "["@ + joined(string_texts(self.0@), ", "@) + "]"@
    }

    /// Writes the list out.
    pub fn to_string(&self) -> (written: String)
        ensures
            written@ == self.text(),
    {
        let mut inner = String::new();
        let mut i: usize = 0;
        while i < self.0.len()
            invariant
                i <= self.0.len(),
                inner@ == joined(string_texts(self.0@).take(i as int), ", "@),
            decreases self.0.len() - i,
        {
            proof {
                let next = string_texts(self.0@).take(i + 1);
                assert(next.drop_last() =~= string_texts(self.0@).take(i as int));
                assert(next.last() == self.0@[i as int]@);
            }
            if i > 0 {
                inner.append(", ");
            }
            inner.append(self.0[i].as_str());
            i = i + 1;
        }
        proof {
            assert(string_texts(self.0@).take(i as int) =~= string_texts(self.0@));
        }
        String::from_str("[").concat(inner.as_str()).concat("]")
    }
}

/// The list of "hello" and "world", written out.
pub fn newtype_pattern() -> (written: String)
    ensures
        written@ == "["@ + ("hello"@ + ", "@ + "world"@) + "]"@,
{
    let mut words: Vec<String> = Vec::new();
    words.push(String::from_str("hello"));
    words.push(String::from_str("world"));
    let w = Wrapper(words);
    proof {
        let texts = string_texts(w.0@);
        assert(texts.drop_last().len() == 1);
        assert(joined(texts.drop_last(), ", "@) == texts[0]);
    }
    w.to_string()
}

} // verus!
