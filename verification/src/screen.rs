//! Drawable components and a screen that renders each of its components in
//! turn. Library users implement `Draw` for their own components.

use vstd::prelude::*;
use vstd::string::StringExecFns;

verus! {

/// Something that can render itself as text. Library users implement this
/// for their own components, so nothing is promised of what `draw` returns.
pub trait Draw {
    /// Renders the component.
    fn draw(&self) -> String;
}

/// A push button with a label.
#[derive(Debug)]
pub struct Button {
    /// Horizontal extent.
    pub width: u32,
    /// Vertical extent.
    pub height: u32,
    /// The text on the button.
    pub label: String,
}

impl Draw for Button {
    fn draw(&self) -> (r: String) {
        let mut r = String::from_str("button: ");
        r.append(self.label.as_str());
        r
    }
}

/// A surface holding components of one drawable kind.
pub struct Screen<T: Draw> {
    /// The components, drawn in order.
    pub components: Vec<T>,
}

impl<T: Draw> Screen<T> {
    /// Renders every component, in order: one rendering per component, each a
    /// possible result of that component's own `draw`.
    pub fn run(&self) -> (r: Vec<String>)
        ensures
            r@.len() == self.components@.len(),
            forall|i: int|
                0 <= i < r@.len() ==> call_ensures(
                    T::draw,
                    (&self.components@[i],),
                    #[trigger] r@[i],
                ),
    {
        let mut r: Vec<String> = Vec::new();
        let mut i: usize = 0;
        while i < self.components.len()
            invariant
                i <= self.components@.len(),
                r@.len() == i,
                forall|k: int|
                    0 <= k < i ==> call_ensures(T::draw, (&self.components@[k],), #[trigger] r@[k]),
            decreases self.components@.len() - i,
        {
            let rendered = self.components[i].draw();
            r.push(rendered);
            i = i + 1;
        }
        r
    }
}

} // verus!
