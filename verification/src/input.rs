//! Input state tracking: which keys are held, which were pressed since
//! they were last queried (edge-triggered, auto-resetting), and where the
//! mouse is.  Raw platform events arrive through [`InputState::event`];
//! the translator reads the state back through the query methods.

use vstd::prelude::*;

verus! {

/// Number of keys the tracker distinguishes.
pub const KEY_COUNT: usize = 14;

/// The keys and buttons the simulation reacts to.
#[derive(Clone, Copy, Debug, PartialEq, Eq, Structural)]
pub enum Key {
    Up,
    Down,
    Left,
    Right,
    F5,
    L,
    B,
    K,
    V,
    Esc,
    MouseLeft,
    MouseRight,
    CtrlLeft,
    CtrlRight,
}

/// The slot a key occupies in the state tables.
pub open spec fn key_index_spec(k: Key) -> int {
    match k {
        Key::Up => 0,
        Key::Down => 1,
        Key::Left => 2,
        Key::Right => 3,
        Key::F5 => 4,
        Key::L => 5,
        Key::B => 6,
        Key::K => 7,
        Key::V => 8,
        Key::Esc => 9,
        Key::MouseLeft => 10,
        Key::MouseRight => 11,
        Key::CtrlLeft => 12,
        Key::CtrlRight => 13,
    }
}

/// Exec twin of [`key_index_spec`].
pub fn key_index(k: Key) -> (i: usize)
    ensures
        i == key_index_spec(k),
        i < KEY_COUNT,
{
    match k {
        Key::Up => 0,
        Key::Down => 1,
        Key::Left => 2,
        Key::Right => 3,
        Key::F5 => 4,
        Key::L => 5,
        Key::B => 6,
        Key::K => 7,
        Key::V => 8,
        Key::Esc => 9,
        Key::MouseLeft => 10,
        Key::MouseRight => 11,
        Key::CtrlLeft => 12,
        Key::CtrlRight => 13,
    }
}

/// A raw input event from the platform layer.
#[derive(Clone, Copy, Debug, PartialEq, Eq, Structural)]
pub enum Event {
    KeyDown(Key),
    KeyUp(Key),
    MouseMove(i64, i64),
}

/// Held and pressed-once key tables plus the mouse position, in pixels.
pub struct InputState {
    pub held: Vec<bool>,
    pub once: Vec<bool>,
    pub mouse_x: i64,
    pub mouse_y: i64,
}

impl InputState {
    /// Both tables cover every key.
    pub open spec fn wf(&self) -> bool {
        self.held@.len() == KEY_COUNT && self.once@.len() == KEY_COUNT
    }

    pub open spec fn spec_held(&self, k: Key) -> bool {
        self.held@[key_index_spec(k)]
    }

    pub open spec fn spec_once(&self, k: Key) -> bool {
        self.once@[key_index_spec(k)]
    }

    pub fn new() -> (s: InputState)
        ensures
            s.wf(),
            s.held@ =~= Seq::new(KEY_COUNT as nat, |i: int| false),
            s.once@ =~= Seq::new(KEY_COUNT as nat, |i: int| false),
            s.mouse_x == 0,
            s.mouse_y == 0,
    {
        let mut held: Vec<bool> = Vec::new();
        let mut once: Vec<bool> = Vec::new();
        let mut i: usize = 0;
        while i < KEY_COUNT
            invariant
                i <= KEY_COUNT,
                held@ =~= Seq::new(i as nat, |j: int| false),
                once@ =~= Seq::new(i as nat, |j: int| false),
            decreases KEY_COUNT - i,
        {
            held.push(false);
            once.push(false);
            i = i + 1;
        }
        InputState { held, once, mouse_x: 0, mouse_y: 0 }
    }

    /// Absorb one raw event.  A key going down is recorded both as held and
    /// as pressed-once (unless it was already held, in which case no new
    /// edge is recorded); a key going up only clears the held state.
    pub fn event(&mut self, e: &Event)
        requires
            old(self).wf(),
        ensures
            final(self).wf(),
            match *e {
                Event::KeyDown(k) => {
                    &&& final(self).held@ == old(self).held@.update(key_index_spec(k), true)
                    &&& final(self).once@ == (if old(self).spec_held(k) {
                        old(self).once@
                    } else {
                        old(self).once@.update(key_index_spec(k), true)
                    })
                    &&& final(self).mouse_x == old(self).mouse_x
                    &&& final(self).mouse_y == old(self).mouse_y
                },
                Event::KeyUp(k) => {
                    &&& final(self).held@ == old(self).held@.update(key_index_spec(k), false)
                    &&& final(self).once@ == old(self).once@
                    &&& final(self).mouse_x == old(self).mouse_x
                    &&& final(self).mouse_y == old(self).mouse_y
                },
                Event::MouseMove(x, y) => {
                    &&& final(self).held@ == old(self).held@
                    &&& final(self).once@ == old(self).once@
                    &&& final(self).mouse_x == x
                    &&& final(self).mouse_y == y
                },
            },
    {
        match e {
            Event::KeyDown(k) => {
                let i = key_index(*k);
                if !self.held[i] {
                    self.once.set(i, true);
                }
                self.held.set(i, true);
            }
            Event::KeyUp(k) => {
                let i = key_index(*k);
                self.held.set(i, false);
            }
            Event::MouseMove(x, y) => {
                self.mouse_x = *x;
                self.mouse_y = *y;
            }
        }
    }

    /// Is the key physically down right now?
    pub fn key_pressed(&self, k: Key) -> (r: bool)
        requires
            self.wf(),
        ensures
            r == self.spec_held(k),
    {
        self.held[key_index(k)]
    }

    /// Was the key pressed since this query last ran?  Reading the edge
    /// consumes it.
    pub fn key_once(&mut self, k: Key) -> (r: bool)
        requires
            old(self).wf(),
        ensures
            final(self).wf(),
            r == old(self).spec_once(k),
            final(self).once@ == old(self).once@.update(key_index_spec(k), false),
            final(self).held@ == old(self).held@,
            final(self).mouse_x == old(self).mouse_x,
            final(self).mouse_y == old(self).mouse_y,
    {
        let i = key_index(k);
        let r = self.once[i];
        self.once.set(i, false);
        r
    }

    /// Is either control key held?
    pub fn any_ctrl_pressed(&self) -> (r: bool)
        requires
            self.wf(),
        ensures
            r == (self.spec_held(Key::CtrlLeft) || self.spec_held(Key::CtrlRight)),
    {
        self.key_pressed(Key::CtrlLeft) || self.key_pressed(Key::CtrlRight)
    }

    /// Current mouse position in pixels, origin at the viewport's top left.
    pub fn mouse_position(&self) -> (p: (i64, i64))
        ensures
            p.0 == self.mouse_x,
            p.1 == self.mouse_y,
    {
        (self.mouse_x, self.mouse_y)
    }
}

} // verus!
