use vstd::prelude::*;

verus! {

/// Number of logical keys, with codes 0x0..=0xF.
pub const KEY_COUNT: usize = 16;

/// Pressed/released state for the 16 logical keys.  Press and release
/// are independent, idempotent operations; the host's input collaborator
/// maps physical events to logical codes before calling in.
pub struct Keyboard {
    pressed: Vec<bool>,
}

impl View for Keyboard {
    type V = Seq<bool>;

    closed spec fn view(&self) -> Seq<bool> {
        self.pressed@
    }
}

impl Keyboard {
    /// One pressed/released flag per logical key.
    pub open spec fn wf(self) -> bool {
        self@.len() == KEY_COUNT
    }

    /// A fresh keyboard with every key released.
    pub fn new() -> (r: Keyboard)
        ensures
            r.wf(),
            r@ =~= Seq::new(KEY_COUNT as nat, |k: int| false),
    {
        let mut pressed: Vec<bool> = Vec::new();
        let mut k: usize = 0;
        while k < KEY_COUNT
            invariant
                k <= KEY_COUNT,
                pressed@.len() == k,
                forall|n: int| 0 <= n < k ==> !pressed@[n],
            decreases KEY_COUNT - k,
        {
            pressed.push(false);
            k = k + 1;
        }
        Keyboard { pressed }
    }

    /// Marks a key pressed; pressing an already pressed key changes
    /// nothing.
    pub fn set_pressed(&mut self, key: u8)
        requires
            old(self).wf(),
            key < KEY_COUNT,
        ensures
            final(self)@ == old(self)@.update(key as int, true),
    {
        self.pressed.set(key as usize, true);
    }

    /// Marks a key released; releasing an already released key changes
    /// nothing.
    pub fn set_released(&mut self, key: u8)
        requires
            old(self).wf(),
            key < KEY_COUNT,
        ensures
            final(self)@ == old(self)@.update(key as int, false),
    {
        self.pressed.set(key as usize, false);
    }

    /// Whether the key with this code is pressed; a code outside the 16
    /// logical keys is never pressed.
    pub fn is_pressed(&self, key: u8) -> (r: bool)
        requires
            self.wf(),
        ensures
            r == (key < KEY_COUNT && self@[key as int]),
    {
        if key < KEY_COUNT as u8 {
            self.pressed[key as usize]
        } else {
            false
        }
    }

    /// Whether the key with this code is released: the exact negation of
    /// `is_pressed`.
    pub fn is_released(&self, key: u8) -> (r: bool)
        requires
            self.wf(),
        ensures
            r == !(key < KEY_COUNT && self@[key as int]),
    {
        !self.is_pressed(key)
    }
}

} // verus!
