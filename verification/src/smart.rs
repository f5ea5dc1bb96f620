//! Values behind pointers: lists whose links are boxes or shared, and a box
//! of one's own.

use std::ops::Deref;
use std::rc::Rc;
use vstd::prelude::*;
use vstd::string::StringExecFns;

verus! {

/// A list of numbers: one number and the rest of the list, or nothing.
pub enum List {
    Cons(i32, Box<List>),
    Nil,
}

impl List {
    /// The numbers of the list, from the front.
    pub open spec fn items(&self) -> Seq<i32>
        decreases self,
    {
        match self {
            List::Cons(first, rest) => seq![*first] + rest.items(),
            List::Nil => Seq::empty(),
        }
    }
}

impl View for List {
    type V = Seq<i32>;

    open spec fn view(&self) -> Seq<i32> {
        self.items()
    }
}

/// The list of 1, 2 and 3.
pub fn cons() -> (list: List)
    ensures
        list@ == seq![1i32, 2i32, 3i32],
{
    let list = List::Cons(
        1,
        Box::new(List::Cons(2, Box::new(List::Cons(3, Box::new(List::Nil))))),
    );
    proof {
        reveal_with_fuel(List::items, 4);
        assert(list@ =~= seq![1i32, 2i32, 3i32]);
    }
    list
}

/// A list of numbers whose rest may be the rest of other lists too.
pub enum SharedList {
    Cons(i32, Rc<SharedList>),
    Nil,
}

impl SharedList {
    /// The numbers of the list, from the front.
    pub open spec fn items(&self) -> Seq<i32>
        decreases self,
    {
        match self {
            SharedList::Cons(first, rest) => seq![*first] + rest.items(),
            SharedList::Nil => Seq::empty(),
        }
    }
}

impl View for SharedList {
    type V = Seq<i32>;

    open spec fn view(&self) -> Seq<i32> {
        self.items()
    }
}

/// Two lists, of 3 and of 4, that go on with one and the same list of 5 and
/// 10.
pub fn basic() -> (lists: (SharedList, SharedList))
    ensures
        lists.0@ == seq![3i32, 5i32, 10i32],
        lists.1@ == seq![4i32, 5i32, 10i32],
        lists.0 matches SharedList::Cons(_, a) && lists.1 matches SharedList::Cons(_, b) && a
            == b,
{
    let a = Rc::new(SharedList::Cons(5, Rc::new(SharedList::Cons(10, Rc::new(SharedList::Nil)))));
    let b = SharedList::Cons(3, Rc::clone(&a));
    let c = SharedList::Cons(4, Rc::clone(&a));
    proof {
        reveal_with_fuel(SharedList::items, 4);
        assert(b@ =~= seq![3i32, 5i32, 10i32]);
        assert(c@ =~= seq![4i32, 5i32, 10i32]);
    }
    (b, c)
}

/// A box that holds one value and gives it out by reference.
pub struct MyBox<T>(pub T);

impl<T> MyBox<T> {
    /// The box of `x`.
    pub fn new(x: T) -> (b: MyBox<T>)
        ensures
            b.0 == x,
    {
        MyBox(x)
    }
}

impl<T> Deref for MyBox<T> {
    type Target = T;

    /// The value in the box.
    fn deref(&self) -> (inner: &T)
        ensures
            *inner == self.0,
    {
        &self.0
    }
}

/// A greeting for `name`.
pub fn hello(name: &str) -> (greeting: String)
    ensures
        greeting@ == "Hello, "@ + name@ + "!"@,
{
    String::from_str("Hello, ").concat(name).concat("!")
}

/// Looks into boxes: a box of 5 holds 5, and a box of a name is as good as
/// the name where a greeting is made.
pub fn deref() -> (greeting: String)
    ensures
        greeting@ == "Hello, "@ + "Rust"@ + "!"@,
{
    let x: i32 = 5;
    let y = MyBox::new(x);

    assert(5 == x);
    let inner = y.deref();
    assert(5 == *inner);

    let m = MyBox::new(String::from_str("Rust"));
    hello(m.deref().as_str())
}

} // verus!
