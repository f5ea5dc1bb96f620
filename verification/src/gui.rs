//! A screen of components that know how to draw themselves.

use vstd::prelude::*;
use vstd::string::StringExecFns;

verus! {

/// Something that can be drawn on a screen.
pub trait Draw {
    /// Draws the component.
    fn draw(&self);
}

/// A screen and the components on it, of whatever kinds.
pub struct Screen {
    pub components: Vec<Box<dyn Draw>>,
}

impl Screen {
    /// Draws every component, in the order in which the screen holds them.
    pub fn run(&self) {
        let mut i: usize = 0;
        while i < self.components.len()
            invariant
                i <= self.components.len(),
            decreases self.components.len() - i,
        {
            self.components[i].draw();
            i = i + 1;
        }
    }
}

/// A button with a label.
pub struct Button {
    pub width: u32,
    pub height: u32,
    pub label: String,
}

impl Draw for Button {
    fn draw(&self) {
    }
}

/// A box to select one of several options.
pub struct SelectBox {
    pub width: u32,
    pub height: u32,
    pub options: Vec<String>,
}

impl Draw for SelectBox {
    fn draw(&self) {
    }
}

/// Builds a screen with a select box of three options above an OK button,
/// and draws it.
pub fn gui() {
    let mut options: Vec<String> = Vec::new();
    options.push(String::from_str("Yes"));
    options.push(String::from_str("Maybe"));
    options.push(String::from_str("No"));
    let mut components: Vec<Box<dyn Draw>> = Vec::new();
    components.push(Box::new(SelectBox { width: 75, height: 10, options }));
    components.push(Box::new(Button { width: 50, height: 10, label: String::from_str("OK") }));
    let screen = Screen { components };
    screen.run();
}

} // verus!
