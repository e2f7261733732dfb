//! Window geometry state: size and position, with a dirty flag so that an
//! unchanged state is never rewritten.  Reading and writing the file it is
//! persisted in is outside work.

use vstd::prelude::*;

verus! {

pub struct Gui {
    /// Window width.
    pub width: u32,
    /// Window height.
    pub height: u32,
    /// Window x position; `i32::MAX` when the system should place it.
    pub pos_x: i32,
    /// Window y position; `i32::MAX` when the system should place it.
    pub pos_y: i32,
    /// Whether the state changed since it was last saved.
    pub changed: bool,
}

impl Gui {
    /// The window size as `(width, height)`.
    pub fn get_size(&self) -> (r: (u32, u32))
        ensures
            r.0 == self.width,
            r.1 == self.height,
    {
        (self.width, self.height)
    }

    pub fn set_size(&mut self, width: u32, height: u32)
        ensures
            final(self).width == width,
            final(self).height == height,
            final(self).pos_x == old(self).pos_x,
            final(self).pos_y == old(self).pos_y,
            final(self).changed,
    {
        self.changed = true;
        self.width = width;
        self.height = height;
    }

    /// The window position; `None` leaves placement to the system.
    pub fn get_pos(&self) -> (r: Option<(i32, i32)>)
        ensures
            self.pos_x == i32::MAX || self.pos_y == i32::MAX ==> r is None,
            self.pos_x != i32::MAX && self.pos_y != i32::MAX ==> r == Some(
                (self.pos_x, self.pos_y),
            ),
    {
        if self.pos_x == i32::MAX || self.pos_y == i32::MAX {
            None
        } else {
            Some((self.pos_x, self.pos_y))
        }
    }

    pub fn set_pos(&mut self, pos_x: i32, pos_y: i32)
        ensures
            final(self).pos_x == pos_x,
            final(self).pos_y == pos_y,
            final(self).width == old(self).width,
            final(self).height == old(self).height,
            final(self).changed,
    {
        self.changed = true;
        self.pos_x = pos_x;
        self.pos_y = pos_y;
    }
}

impl Default for Gui {
    fn default() -> (r: Gui)
        ensures
            r.width == 1280,
            r.height == 720,
            r.pos_x == i32::MAX,
            r.pos_y == i32::MAX,
            !r.changed,
    {
        Gui { width: 1280, height: 720, pos_x: i32::MAX, pos_y: i32::MAX, changed: false }
    }
}

} // verus!
