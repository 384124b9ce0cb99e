use vstd::prelude::*;

verus! {

/// A component that can draw itself on a screen.
pub trait Draw {
    fn draw(&self);
}

/// A button: its size and the text on it.
pub struct Button {
    pub width: u32,
    pub height: u32,
    pub label: String,
}

/// A drop-down choice: its size and the options offered.
pub struct SelectBox {
    pub width: u32,
    pub height: u32,
    pub options: Vec<String>,
}

/// A screen made of components of any kinds, drawn in order.
pub struct Screen {
    pub components: Vec<Box<dyn Draw>>,
}

impl Screen {
    /// Draws every component, first to last.
    pub fn run(&self) {
        let mut i: usize = 0;
        while i < self.components.len()
            decreases self.components@.len() - i,
        {
            self.components[i].draw();
            i = i + 1;
        }
    }
}

} // verus!
