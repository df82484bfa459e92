use vstd::prelude::*;

use crate::axis::{encodes_negative, AXIS_DOWN, AXIS_UP};
use crate::input::{KeyboardState, MouseState};

verus! {

// One set of accessors per named button.
impl MouseState {
    /// Encoded value of the `left` axis.
    pub fn left(&self) -> (v: u32)
        requires
            self.wf(),
        ensures
            v == self@.buttons.values[0],
    {
        self.button_value(0)
    }

    /// Holds `left` down (1.0).
    pub fn down_left(&mut self)
        requires
            old(self).wf(),
        ensures
            final(self).wf(),
            final(self)@ == old(self)@.with_buttons(old(self)@.buttons.set(0, AXIS_DOWN)),
    {
        self.set_button(0, AXIS_DOWN);
    }

    /// Releases `left` (-1.0), which queues it for dismissal.
    pub fn up_left(&mut self)
        requires
            old(self).wf(),
            old(self)@.buttons.pending.len() < 10,
        ensures
            final(self).wf(),
            final(self)@ == old(self)@.with_buttons(old(self)@.buttons.set(0, AXIS_UP)),
    {
        self.set_button(0, AXIS_UP);
    }

    /// Sets the `left` axis; a negative value is queued for dismissal.
    pub fn set_left(&mut self, value: u32)
        requires
            old(self).wf(),
            encodes_negative(value) ==> old(self)@.buttons.pending.len() < 10,
        ensures
            final(self).wf(),
            final(self)@ == old(self)@.with_buttons(old(self)@.buttons.set(0, value)),
    {
        self.set_button(0, value);
    }

    /// Index of the `left` axis in its bank.
    pub fn raw_idx_left(&mut self) -> (i: usize)
        ensures
            i == 0,
            *final(self) == *old(self),
    {
        0
    }

    /// Encoded value of the `middle` axis.
    pub fn middle(&self) -> (v: u32)
        requires
            self.wf(),
        ensures
            v == self@.buttons.values[0],
    {
        self.button_value(0)
    }

    /// Holds `middle` down (1.0).
    pub fn down_middle(&mut self)
        requires
            old(self).wf(),
        ensures
            final(self).wf(),
            final(self)@ == old(self)@.with_buttons(old(self)@.buttons.set(0, AXIS_DOWN)),
    {
        self.set_button(0, AXIS_DOWN);
    }

    /// Releases `middle` (-1.0), which queues it for dismissal.
    pub fn up_middle(&mut self)
        requires
            old(self).wf(),
            old(self)@.buttons.pending.len() < 10,
        ensures
            final(self).wf(),
            final(self)@ == old(self)@.with_buttons(old(self)@.buttons.set(0, AXIS_UP)),
    {
        self.set_button(0, AXIS_UP);
    }

    /// Sets the `middle` axis; a negative value is queued for dismissal.
    pub fn set_middle(&mut self, value: u32)
        requires
            old(self).wf(),
            encodes_negative(value) ==> old(self)@.buttons.pending.len() < 10,
        ensures
            final(self).wf(),
            final(self)@ == old(self)@.with_buttons(old(self)@.buttons.set(0, value)),
    {
        self.set_button(0, value);
    }

    /// Index of the `middle` axis in its bank.
    pub fn raw_idx_middle(&mut self) -> (i: usize)
        ensures
            i == 0,
            *final(self) == *old(self),
    {
        0
    }

    /// Encoded value of the `right` axis.
    pub fn right(&self) -> (v: u32)
        requires
            self.wf(),
        ensures
            v == self@.buttons.values[0],
    {
        self.button_value(0)
    }

    /// Holds `right` down (1.0).
    pub fn down_right(&mut self)
        requires
            old(self).wf(),
        ensures
            final(self).wf(),
            final(self)@ == old(self)@.with_buttons(old(self)@.buttons.set(0, AXIS_DOWN)),
    {
        self.set_button(0, AXIS_DOWN);
    }

    /// Releases `right` (-1.0), which queues it for dismissal.
    pub fn up_right(&mut self)
        requires
            old(self).wf(),
            old(self)@.buttons.pending.len() < 10,
        ensures
            final(self).wf(),
            final(self)@ == old(self)@.with_buttons(old(self)@.buttons.set(0, AXIS_UP)),
    {
        self.set_button(0, AXIS_UP);
    }

    /// Sets the `right` axis; a negative value is queued for dismissal.
    pub fn set_right(&mut self, value: u32)
        requires
            old(self).wf(),
            encodes_negative(value) ==> old(self)@.buttons.pending.len() < 10,
        ensures
            final(self).wf(),
            final(self)@ == old(self)@.with_buttons(old(self)@.buttons.set(0, value)),
    {
        self.set_button(0, value);
    }

    /// Index of the `right` axis in its bank.
    pub fn raw_idx_right(&mut self) -> (i: usize)
        ensures
            i == 0,
            *final(self) == *old(self),
    {
        0
    }
}

// One set of accessors per named key.
impl KeyboardState {
    /// Encoded value of the `a` axis.
    pub fn a(&self) -> (v: u32)
        requires
            self.wf(),
        ensures
            v == self@.letters.values[0],
    {
        self.letter_value(0)
    }

    /// Holds `a` down (1.0).
    pub fn down_a(&mut self)
        requires
            old(self).wf(),
        ensures
            final(self).wf(),
            final(self)@ == old(self)@.with_letters(old(self)@.letters.set(0, AXIS_DOWN)),
    {
        self.set_letter(0, AXIS_DOWN);
    }

    /// Releases `a` (-1.0), which queues it for dismissal.
    pub fn up_a(&mut self)
        requires
            old(self).wf(),
            old(self)@.letters.pending.len() < 32,
        ensures
            final(self).wf(),
            final(self)@ == old(self)@.with_letters(old(self)@.letters.set(0, AXIS_UP)),
    {
        self.set_letter(0, AXIS_UP);
    }

    /// Sets the `a` axis; a negative value is queued for dismissal.
    pub fn set_a(&mut self, value: u32)
        requires
            old(self).wf(),
            encodes_negative(value) ==> old(self)@.letters.pending.len() < 32,
        ensures
            final(self).wf(),
            final(self)@ == old(self)@.with_letters(old(self)@.letters.set(0, value)),
    {
        self.set_letter(0, value);
    }

    /// Index of the `a` axis in its bank.
    pub fn raw_idx_a(&mut self) -> (i: usize)
        ensures
            i == 0,
            *final(self) == *old(self),
    {
        0
    }

    /// Encoded value of the `b` axis.
    pub fn b(&self) -> (v: u32)
        requires
            self.wf(),
        ensures
            v == self@.letters.values[1],
    {
        self.letter_value(1)
    }

    /// Holds `b` down (1.0).
    pub fn down_b(&mut self)
        requires
            old(self).wf(),
        ensures
            final(self).wf(),
            final(self)@ == old(self)@.with_letters(old(self)@.letters.set(1, AXIS_DOWN)),
    {
        self.set_letter(1, AXIS_DOWN);
    }

    /// Releases `b` (-1.0), which queues it for dismissal.
    pub fn up_b(&mut self)
        requires
            old(self).wf(),
            old(self)@.letters.pending.len() < 32,
        ensures
            final(self).wf(),
            final(self)@ == old(self)@.with_letters(old(self)@.letters.set(1, AXIS_UP)),
    {
        self.set_letter(1, AXIS_UP);
    }

    /// Sets the `b` axis; a negative value is queued for dismissal.
    pub fn set_b(&mut self, value: u32)
        requires
            old(self).wf(),
            encodes_negative(value) ==> old(self)@.letters.pending.len() < 32,
        ensures
            final(self).wf(),
            final(self)@ == old(self)@.with_letters(old(self)@.letters.set(1, value)),
    {
        self.set_letter(1, value);
    }

    /// Index of the `b` axis in its bank.
    pub fn raw_idx_b(&mut self) -> (i: usize)
        ensures
            i == 1,
            *final(self) == *old(self),
    {
        1
    }

    /// Encoded value of the `c` axis.
    pub fn c(&self) -> (v: u32)
        requires
            self.wf(),
        ensures
            v == self@.letters.values[2],
    {
        self.letter_value(2)
    }

    /// Holds `c` down (1.0).
    pub fn down_c(&mut self)
        requires
            old(self).wf(),
        ensures
            final(self).wf(),
            final(self)@ == old(self)@.with_letters(old(self)@.letters.set(2, AXIS_DOWN)),
    {
        self.set_letter(2, AXIS_DOWN);
    }

    /// Releases `c` (-1.0), which queues it for dismissal.
    pub fn up_c(&mut self)
        requires
            old(self).wf(),
            old(self)@.letters.pending.len() < 32,
        ensures
            final(self).wf(),
            final(self)@ == old(self)@.with_letters(old(self)@.letters.set(2, AXIS_UP)),
    {
        self.set_letter(2, AXIS_UP);
    }

    /// Sets the `c` axis; a negative value is queued for dismissal.
    pub fn set_c(&mut self, value: u32)
        requires
            old(self).wf(),
            encodes_negative(value) ==> old(self)@.letters.pending.len() < 32,
        ensures
            final(self).wf(),
            final(self)@ == old(self)@.with_letters(old(self)@.letters.set(2, value)),
    {
        self.set_letter(2, value);
    }

    /// Index of the `c` axis in its bank.
    pub fn raw_idx_c(&mut self) -> (i: usize)
        ensures
            i == 2,
            *final(self) == *old(self),
    {
        2
    }

    /// Encoded value of the `d` axis.
    pub fn d(&self) -> (v: u32)
        requires
            self.wf(),
        ensures
            v == self@.letters.values[3],
    {
        self.letter_value(3)
    }

    /// Holds `d` down (1.0).
    pub fn down_d(&mut self)
        requires
            old(self).wf(),
        ensures
            final(self).wf(),
            final(self)@ == old(self)@.with_letters(old(self)@.letters.set(3, AXIS_DOWN)),
    {
        self.set_letter(3, AXIS_DOWN);
    }

    /// Releases `d` (-1.0), which queues it for dismissal.
    pub fn up_d(&mut self)
        requires
            old(self).wf(),
            old(self)@.letters.pending.len() < 32,
        ensures
            final(self).wf(),
            final(self)@ == old(self)@.with_letters(old(self)@.letters.set(3, AXIS_UP)),
    {
        self.set_letter(3, AXIS_UP);
    }

    /// Sets the `d` axis; a negative value is queued for dismissal.
    pub fn set_d(&mut self, value: u32)
        requires
            old(self).wf(),
            encodes_negative(value) ==> old(self)@.letters.pending.len() < 32,
        ensures
            final(self).wf(),
            final(self)@ == old(self)@.with_letters(old(self)@.letters.set(3, value)),
    {
        self.set_letter(3, value);
    }

    /// Index of the `d` axis in its bank.
    pub fn raw_idx_d(&mut self) -> (i: usize)
        ensures
            i == 3,
            *final(self) == *old(self),
    {
        3
    }

    /// Encoded value of the `e` axis.
    pub fn e(&self) -> (v: u32)
        requires
            self.wf(),
        ensures
            v == self@.letters.values[4],
    {
        self.letter_value(4)
    }

    /// Holds `e` down (1.0).
    pub fn down_e(&mut self)
        requires
            old(self).wf(),
        ensures
            final(self).wf(),
            final(self)@ == old(self)@.with_letters(old(self)@.letters.set(4, AXIS_DOWN)),
    {
        self.set_letter(4, AXIS_DOWN);
    }

    /// Releases `e` (-1.0), which queues it for dismissal.
    pub fn up_e(&mut self)
        requires
            old(self).wf(),
            old(self)@.letters.pending.len() < 32,
        ensures
            final(self).wf(),
            final(self)@ == old(self)@.with_letters(old(self)@.letters.set(4, AXIS_UP)),
    {
        self.set_letter(4, AXIS_UP);
    }

    /// Sets the `e` axis; a negative value is queued for dismissal.
    pub fn set_e(&mut self, value: u32)
        requires
            old(self).wf(),
            encodes_negative(value) ==> old(self)@.letters.pending.len() < 32,
        ensures
            final(self).wf(),
            final(self)@ == old(self)@.with_letters(old(self)@.letters.set(4, value)),
    {
        self.set_letter(4, value);
    }

    /// Index of the `e` axis in its bank.
    pub fn raw_idx_e(&mut self) -> (i: usize)
        ensures
            i == 4,
            *final(self) == *old(self),
    {
        4
    }

    /// Encoded value of the `f` axis.
    pub fn f(&self) -> (v: u32)
        requires
            self.wf(),
        ensures
            v == self@.letters.values[5],
    {
        self.letter_value(5)
    }

    /// Holds `f` down (1.0).
    pub fn down_f(&mut self)
        requires
            old(self).wf(),
        ensures
            final(self).wf(),
            final(self)@ == old(self)@.with_letters(old(self)@.letters.set(5, AXIS_DOWN)),
    {
        self.set_letter(5, AXIS_DOWN);
    }

    /// Releases `f` (-1.0), which queues it for dismissal.
    pub fn up_f(&mut self)
        requires
            old(self).wf(),
            old(self)@.letters.pending.len() < 32,
        ensures
            final(self).wf(),
            final(self)@ == old(self)@.with_letters(old(self)@.letters.set(5, AXIS_UP)),
    {
        self.set_letter(5, AXIS_UP);
    }

    /// Sets the `f` axis; a negative value is queued for dismissal.
    pub fn set_f(&mut self, value: u32)
        requires
            old(self).wf(),
            encodes_negative(value) ==> old(self)@.letters.pending.len() < 32,
        ensures
            final(self).wf(),
            final(self)@ == old(self)@.with_letters(old(self)@.letters.set(5, value)),
    {
        self.set_letter(5, value);
    }

    /// Index of the `f` axis in its bank.
    pub fn raw_idx_f(&mut self) -> (i: usize)
        ensures
            i == 5,
            *final(self) == *old(self),
    {
        5
    }

    /// Encoded value of the `g` axis.
    pub fn g(&self) -> (v: u32)
        requires
            self.wf(),
        ensures
            v == self@.letters.values[6],
    {
        self.letter_value(6)
    }

    /// Holds `g` down (1.0).
    pub fn down_g(&mut self)
        requires
            old(self).wf(),
        ensures
            final(self).wf(),
            final(self)@ == old(self)@.with_letters(old(self)@.letters.set(6, AXIS_DOWN)),
    {
        self.set_letter(6, AXIS_DOWN);
    }

    /// Releases `g` (-1.0), which queues it for dismissal.
    pub fn up_g(&mut self)
        requires
            old(self).wf(),
            old(self)@.letters.pending.len() < 32,
        ensures
            final(self).wf(),
            final(self)@ == old(self)@.with_letters(old(self)@.letters.set(6, AXIS_UP)),
    {
        self.set_letter(6, AXIS_UP);
    }

    /// Sets the `g` axis; a negative value is queued for dismissal.
    pub fn set_g(&mut self, value: u32)
        requires
            old(self).wf(),
            encodes_negative(value) ==> old(self)@.letters.pending.len() < 32,
        ensures
            final(self).wf(),
            final(self)@ == old(self)@.with_letters(old(self)@.letters.set(6, value)),
    {
        self.set_letter(6, value);
    }

    /// Index of the `g` axis in its bank.
    pub fn raw_idx_g(&mut self) -> (i: usize)
        ensures
            i == 6,
            *final(self) == *old(self),
    {
        6
    }

    /// Encoded value of the `h` axis.
    pub fn h(&self) -> (v: u32)
        requires
            self.wf(),
        ensures
            v == self@.letters.values[7],
    {
        self.letter_value(7)
    }

    /// Holds `h` down (1.0).
    pub fn down_h(&mut self)
        requires
            old(self).wf(),
        ensures
            final(self).wf(),
            final(self)@ == old(self)@.with_letters(old(self)@.letters.set(7, AXIS_DOWN)),
    {
        self.set_letter(7, AXIS_DOWN);
    }

    /// Releases `h` (-1.0), which queues it for dismissal.
    pub fn up_h(&mut self)
        requires
            old(self).wf(),
            old(self)@.letters.pending.len() < 32,
        ensures
            final(self).wf(),
            final(self)@ == old(self)@.with_letters(old(self)@.letters.set(7, AXIS_UP)),
    {
        self.set_letter(7, AXIS_UP);
    }

    /// Sets the `h` axis; a negative value is queued for dismissal.
    pub fn set_h(&mut self, value: u32)
        requires
            old(self).wf(),
            encodes_negative(value) ==> old(self)@.letters.pending.len() < 32,
        ensures
            final(self).wf(),
            final(self)@ == old(self)@.with_letters(old(self)@.letters.set(7, value)),
    {
        self.set_letter(7, value);
    }

    /// Index of the `h` axis in its bank.
    pub fn raw_idx_h(&mut self) -> (i: usize)
        ensures
            i == 7,
            *final(self) == *old(self),
    {
        7
    }

    /// Encoded value of the `i` axis.
    pub fn i(&self) -> (v: u32)
        requires
            self.wf(),
        ensures
            v == self@.letters.values[8],
    {
        self.letter_value(8)
    }

    /// Holds `i` down (1.0).
    pub fn down_i(&mut self)
        requires
            old(self).wf(),
        ensures
            final(self).wf(),
            final(self)@ == old(self)@.with_letters(old(self)@.letters.set(8, AXIS_DOWN)),
    {
        self.set_letter(8, AXIS_DOWN);
    }

    /// Releases `i` (-1.0), which queues it for dismissal.
    pub fn up_i(&mut self)
        requires
            old(self).wf(),
            old(self)@.letters.pending.len() < 32,
        ensures
            final(self).wf(),
            final(self)@ == old(self)@.with_letters(old(self)@.letters.set(8, AXIS_UP)),
    {
        self.set_letter(8, AXIS_UP);
    }

    /// Sets the `i` axis; a negative value is queued for dismissal.
    pub fn set_i(&mut self, value: u32)
        requires
            old(self).wf(),
            encodes_negative(value) ==> old(self)@.letters.pending.len() < 32,
        ensures
            final(self).wf(),
            final(self)@ == old(self)@.with_letters(old(self)@.letters.set(8, value)),
    {
        self.set_letter(8, value);
    }

    /// Index of the `i` axis in its bank.
    pub fn raw_idx_i(&mut self) -> (i: usize)
        ensures
            i == 8,
            *final(self) == *old(self),
    {
        8
    }

    /// Encoded value of the `j` axis.
    pub fn j(&self) -> (v: u32)
        requires
            self.wf(),
        ensures
            v == self@.letters.values[9],
    {
        self.letter_value(9)
    }

    /// Holds `j` down (1.0).
    pub fn down_j(&mut self)
        requires
            old(self).wf(),
        ensures
            final(self).wf(),
            final(self)@ == old(self)@.with_letters(old(self)@.letters.set(9, AXIS_DOWN)),
    {
        self.set_letter(9, AXIS_DOWN);
    }

    /// Releases `j` (-1.0), which queues it for dismissal.
    pub fn up_j(&mut self)
        requires
            old(self).wf(),
            old(self)@.letters.pending.len() < 32,
        ensures
            final(self).wf(),
            final(self)@ == old(self)@.with_letters(old(self)@.letters.set(9, AXIS_UP)),
    {
        self.set_letter(9, AXIS_UP);
    }

    /// Sets the `j` axis; a negative value is queued for dismissal.
    pub fn set_j(&mut self, value: u32)
        requires
            old(self).wf(),
            encodes_negative(value) ==> old(self)@.letters.pending.len() < 32,
        ensures
            final(self).wf(),
            final(self)@ == old(self)@.with_letters(old(self)@.letters.set(9, value)),
    {
        self.set_letter(9, value);
    }

    /// Index of the `j` axis in its bank.
    pub fn raw_idx_j(&mut self) -> (i: usize)
        ensures
            i == 9,
            *final(self) == *old(self),
    {
        9
    }

    /// Encoded value of the `k` axis.
    pub fn k(&self) -> (v: u32)
        requires
            self.wf(),
        ensures
            v == self@.letters.values[10],
    {
        self.letter_value(10)
    }

    /// Holds `k` down (1.0).
    pub fn down_k(&mut self)
        requires
            old(self).wf(),
        ensures
            final(self).wf(),
            final(self)@ == old(self)@.with_letters(old(self)@.letters.set(10, AXIS_DOWN)),
    {
        self.set_letter(10, AXIS_DOWN);
    }

    /// Releases `k` (-1.0), which queues it for dismissal.
    pub fn up_k(&mut self)
        requires
            old(self).wf(),
            old(self)@.letters.pending.len() < 32,
        ensures
            final(self).wf(),
            final(self)@ == old(self)@.with_letters(old(self)@.letters.set(10, AXIS_UP)),
    {
        self.set_letter(10, AXIS_UP);
    }

    /// Sets the `k` axis; a negative value is queued for dismissal.
    pub fn set_k(&mut self, value: u32)
        requires
            old(self).wf(),
            encodes_negative(value) ==> old(self)@.letters.pending.len() < 32,
        ensures
            final(self).wf(),
            final(self)@ == old(self)@.with_letters(old(self)@.letters.set(10, value)),
    {
        self.set_letter(10, value);
    }

    /// Index of the `k` axis in its bank.
    pub fn raw_idx_k(&mut self) -> (i: usize)
        ensures
            i == 10,
            *final(self) == *old(self),
    {
        10
    }

    /// Encoded value of the `l` axis.
    pub fn l(&self) -> (v: u32)
        requires
            self.wf(),
        ensures
            v == self@.letters.values[11],
    {
        self.letter_value(11)
    }

    /// Holds `l` down (1.0).
    pub fn down_l(&mut self)
        requires
            old(self).wf(),
        ensures
            final(self).wf(),
            final(self)@ == old(self)@.with_letters(old(self)@.letters.set(11, AXIS_DOWN)),
    {
        self.set_letter(11, AXIS_DOWN);
    }

    /// Releases `l` (-1.0), which queues it for dismissal.
    pub fn up_l(&mut self)
        requires
            old(self).wf(),
            old(self)@.letters.pending.len() < 32,
        ensures
            final(self).wf(),
            final(self)@ == old(self)@.with_letters(old(self)@.letters.set(11, AXIS_UP)),
    {
        self.set_letter(11, AXIS_UP);
    }

    /// Sets the `l` axis; a negative value is queued for dismissal.
    pub fn set_l(&mut self, value: u32)
        requires
            old(self).wf(),
            encodes_negative(value) ==> old(self)@.letters.pending.len() < 32,
        ensures
            final(self).wf(),
            final(self)@ == old(self)@.with_letters(old(self)@.letters.set(11, value)),
    {
        self.set_letter(11, value);
    }

    /// Index of the `l` axis in its bank.
    pub fn raw_idx_l(&mut self) -> (i: usize)
        ensures
            i == 11,
            *final(self) == *old(self),
    {
        11
    }

    /// Encoded value of the `m` axis.
    pub fn m(&self) -> (v: u32)
        requires
            self.wf(),
        ensures
            v == self@.letters.values[12],
    {
        self.letter_value(12)
    }

    /// Holds `m` down (1.0).
    pub fn down_m(&mut self)
        requires
            old(self).wf(),
        ensures
            final(self).wf(),
            final(self)@ == old(self)@.with_letters(old(self)@.letters.set(12, AXIS_DOWN)),
    {
        self.set_letter(12, AXIS_DOWN);
    }

    /// Releases `m` (-1.0), which queues it for dismissal.
    pub fn up_m(&mut self)
        requires
            old(self).wf(),
            old(self)@.letters.pending.len() < 32,
        ensures
            final(self).wf(),
            final(self)@ == old(self)@.with_letters(old(self)@.letters.set(12, AXIS_UP)),
    {
        self.set_letter(12, AXIS_UP);
    }

    /// Sets the `m` axis; a negative value is queued for dismissal.
    pub fn set_m(&mut self, value: u32)
        requires
            old(self).wf(),
            encodes_negative(value) ==> old(self)@.letters.pending.len() < 32,
        ensures
            final(self).wf(),
            final(self)@ == old(self)@.with_letters(old(self)@.letters.set(12, value)),
    {
        self.set_letter(12, value);
    }

    /// Index of the `m` axis in its bank.
    pub fn raw_idx_m(&mut self) -> (i: usize)
        ensures
            i == 12,
            *final(self) == *old(self),
    {
        12
    }

    /// Encoded value of the `n` axis.
    pub fn n(&self) -> (v: u32)
        requires
            self.wf(),
        ensures
            v == self@.letters.values[13],
    {
        self.letter_value(13)
    }

    /// Holds `n` down (1.0).
    pub fn down_n(&mut self)
        requires
            old(self).wf(),
        ensures
            final(self).wf(),
            final(self)@ == old(self)@.with_letters(old(self)@.letters.set(13, AXIS_DOWN)),
    {
        self.set_letter(13, AXIS_DOWN);
    }

    /// Releases `n` (-1.0), which queues it for dismissal.
    pub fn up_n(&mut self)
        requires
            old(self).wf(),
            old(self)@.letters.pending.len() < 32,
        ensures
            final(self).wf(),
            final(self)@ == old(self)@.with_letters(old(self)@.letters.set(13, AXIS_UP)),
    {
        self.set_letter(13, AXIS_UP);
    }

    /// Sets the `n` axis; a negative value is queued for dismissal.
    pub fn set_n(&mut self, value: u32)
        requires
            old(self).wf(),
            encodes_negative(value) ==> old(self)@.letters.pending.len() < 32,
        ensures
            final(self).wf(),
            final(self)@ == old(self)@.with_letters(old(self)@.letters.set(13, value)),
    {
        self.set_letter(13, value);
    }

    /// Index of the `n` axis in its bank.
    pub fn raw_idx_n(&mut self) -> (i: usize)
        ensures
            i == 13,
            *final(self) == *old(self),
    {
        13
    }

    /// Encoded value of the `o` axis.
    pub fn o(&self) -> (v: u32)
        requires
            self.wf(),
        ensures
            v == self@.letters.values[14],
    {
        self.letter_value(14)
    }

    /// Holds `o` down (1.0).
    pub fn down_o(&mut self)
        requires
            old(self).wf(),
        ensures
            final(self).wf(),
            final(self)@ == old(self)@.with_letters(old(self)@.letters.set(14, AXIS_DOWN)),
    {
        self.set_letter(14, AXIS_DOWN);
    }

    /// Releases `o` (-1.0), which queues it for dismissal.
    pub fn up_o(&mut self)
        requires
            old(self).wf(),
            old(self)@.letters.pending.len() < 32,
        ensures
            final(self).wf(),
            final(self)@ == old(self)@.with_letters(old(self)@.letters.set(14, AXIS_UP)),
    {
        self.set_letter(14, AXIS_UP);
    }

    /// Sets the `o` axis; a negative value is queued for dismissal.
    pub fn set_o(&mut self, value: u32)
        requires
            old(self).wf(),
            encodes_negative(value) ==> old(self)@.letters.pending.len() < 32,
        ensures
            final(self).wf(),
            final(self)@ == old(self)@.with_letters(old(self)@.letters.set(14, value)),
    {
        self.set_letter(14, value);
    }

    /// Index of the `o` axis in its bank.
    pub fn raw_idx_o(&mut self) -> (i: usize)
        ensures
            i == 14,
            *final(self) == *old(self),
    {
        14
    }

    /// Encoded value of the `p` axis.
    pub fn p(&self) -> (v: u32)
        requires
            self.wf(),
        ensures
            v == self@.letters.values[15],
    {
        self.letter_value(15)
    }

    /// Holds `p` down (1.0).
    pub fn down_p(&mut self)
        requires
            old(self).wf(),
        ensures
            final(self).wf(),
            final(self)@ == old(self)@.with_letters(old(self)@.letters.set(15, AXIS_DOWN)),
    {
        self.set_letter(15, AXIS_DOWN);
    }

    /// Releases `p` (-1.0), which queues it for dismissal.
    pub fn up_p(&mut self)
        requires
            old(self).wf(),
            old(self)@.letters.pending.len() < 32,
        ensures
            final(self).wf(),
            final(self)@ == old(self)@.with_letters(old(self)@.letters.set(15, AXIS_UP)),
    {
        self.set_letter(15, AXIS_UP);
    }

    /// Sets the `p` axis; a negative value is queued for dismissal.
    pub fn set_p(&mut self, value: u32)
        requires
            old(self).wf(),
            encodes_negative(value) ==> old(self)@.letters.pending.len() < 32,
        ensures
            final(self).wf(),
            final(self)@ == old(self)@.with_letters(old(self)@.letters.set(15, value)),
    {
        self.set_letter(15, value);
    }

    /// Index of the `p` axis in its bank.
    pub fn raw_idx_p(&mut self) -> (i: usize)
        ensures
            i == 15,
            *final(self) == *old(self),
    {
        15
    }

    /// Encoded value of the `q` axis.
    pub fn q(&self) -> (v: u32)
        requires
            self.wf(),
        ensures
            v == self@.letters.values[16],
    {
        self.letter_value(16)
    }

    /// Holds `q` down (1.0).
    pub fn down_q(&mut self)
        requires
            old(self).wf(),
        ensures
            final(self).wf(),
            final(self)@ == old(self)@.with_letters(old(self)@.letters.set(16, AXIS_DOWN)),
    {
        self.set_letter(16, AXIS_DOWN);
    }

    /// Releases `q` (-1.0), which queues it for dismissal.
    pub fn up_q(&mut self)
        requires
            old(self).wf(),
            old(self)@.letters.pending.len() < 32,
        ensures
            final(self).wf(),
            final(self)@ == old(self)@.with_letters(old(self)@.letters.set(16, AXIS_UP)),
    {
        self.set_letter(16, AXIS_UP);
    }

    /// Sets the `q` axis; a negative value is queued for dismissal.
    pub fn set_q(&mut self, value: u32)
        requires
            old(self).wf(),
            encodes_negative(value) ==> old(self)@.letters.pending.len() < 32,
        ensures
            final(self).wf(),
            final(self)@ == old(self)@.with_letters(old(self)@.letters.set(16, value)),
    {
        self.set_letter(16, value);
    }

    /// Index of the `q` axis in its bank.
    pub fn raw_idx_q(&mut self) -> (i: usize)
        ensures
            i == 16,
            *final(self) == *old(self),
    {
        16
    }

    /// Encoded value of the `r` axis.
    pub fn r(&self) -> (v: u32)
        requires
            self.wf(),
        ensures
            v == self@.letters.values[17],
    {
        self.letter_value(17)
    }

    /// Holds `r` down (1.0).
    pub fn down_r(&mut self)
        requires
            old(self).wf(),
        ensures
            final(self).wf(),
            final(self)@ == old(self)@.with_letters(old(self)@.letters.set(17, AXIS_DOWN)),
    {
        self.set_letter(17, AXIS_DOWN);
    }

    /// Releases `r` (-1.0), which queues it for dismissal.
    pub fn up_r(&mut self)
        requires
            old(self).wf(),
            old(self)@.letters.pending.len() < 32,
        ensures
            final(self).wf(),
            final(self)@ == old(self)@.with_letters(old(self)@.letters.set(17, AXIS_UP)),
    {
        self.set_letter(17, AXIS_UP);
    }

    /// Sets the `r` axis; a negative value is queued for dismissal.
    pub fn set_r(&mut self, value: u32)
        requires
            old(self).wf(),
            encodes_negative(value) ==> old(self)@.letters.pending.len() < 32,
        ensures
            final(self).wf(),
            final(self)@ == old(self)@.with_letters(old(self)@.letters.set(17, value)),
    {
        self.set_letter(17, value);
    }

    /// Index of the `r` axis in its bank.
    pub fn raw_idx_r(&mut self) -> (i: usize)
        ensures
            i == 17,
            *final(self) == *old(self),
    {
        17
    }

    /// Encoded value of the `s` axis.
    pub fn s(&self) -> (v: u32)
        requires
            self.wf(),
        ensures
            v == self@.letters.values[18],
    {
        self.letter_value(18)
    }

    /// Holds `s` down (1.0).
    pub fn down_s(&mut self)
        requires
            old(self).wf(),
        ensures
            final(self).wf(),
            final(self)@ == old(self)@.with_letters(old(self)@.letters.set(18, AXIS_DOWN)),
    {
        self.set_letter(18, AXIS_DOWN);
    }

    /// Releases `s` (-1.0), which queues it for dismissal.
    pub fn up_s(&mut self)
        requires
            old(self).wf(),
            old(self)@.letters.pending.len() < 32,
        ensures
            final(self).wf(),
            final(self)@ == old(self)@.with_letters(old(self)@.letters.set(18, AXIS_UP)),
    {
        self.set_letter(18, AXIS_UP);
    }

    /// Sets the `s` axis; a negative value is queued for dismissal.
    pub fn set_s(&mut self, value: u32)
        requires
            old(self).wf(),
            encodes_negative(value) ==> old(self)@.letters.pending.len() < 32,
        ensures
            final(self).wf(),
            final(self)@ == old(self)@.with_letters(old(self)@.letters.set(18, value)),
    {
        self.set_letter(18, value);
    }

    /// Index of the `s` axis in its bank.
    pub fn raw_idx_s(&mut self) -> (i: usize)
        ensures
            i == 18,
            *final(self) == *old(self),
    {
        18
    }

    /// Encoded value of the `t` axis.
    pub fn t(&self) -> (v: u32)
        requires
            self.wf(),
        ensures
            v == self@.letters.values[19],
    {
        self.letter_value(19)
    }

    /// Holds `t` down (1.0).
    pub fn down_t(&mut self)
        requires
            old(self).wf(),
        ensures
            final(self).wf(),
            final(self)@ == old(self)@.with_letters(old(self)@.letters.set(19, AXIS_DOWN)),
    {
        self.set_letter(19, AXIS_DOWN);
    }

    /// Releases `t` (-1.0), which queues it for dismissal.
    pub fn up_t(&mut self)
        requires
            old(self).wf(),
            old(self)@.letters.pending.len() < 32,
        ensures
            final(self).wf(),
            final(self)@ == old(self)@.with_letters(old(self)@.letters.set(19, AXIS_UP)),
    {
        self.set_letter(19, AXIS_UP);
    }

    /// Sets the `t` axis; a negative value is queued for dismissal.
    pub fn set_t(&mut self, value: u32)
        requires
            old(self).wf(),
            encodes_negative(value) ==> old(self)@.letters.pending.len() < 32,
        ensures
            final(self).wf(),
            final(self)@ == old(self)@.with_letters(old(self)@.letters.set(19, value)),
    {
        self.set_letter(19, value);
    }

    /// Index of the `t` axis in its bank.
    pub fn raw_idx_t(&mut self) -> (i: usize)
        ensures
            i == 19,
            *final(self) == *old(self),
    {
        19
    }

    /// Encoded value of the `u` axis.
    pub fn u(&self) -> (v: u32)
        requires
            self.wf(),
        ensures
            v == self@.letters.values[20],
    {
        self.letter_value(20)
    }

    /// Holds `u` down (1.0).
    pub fn down_u(&mut self)
        requires
            old(self).wf(),
        ensures
            final(self).wf(),
            final(self)@ == old(self)@.with_letters(old(self)@.letters.set(20, AXIS_DOWN)),
    {
        self.set_letter(20, AXIS_DOWN);
    }

    /// Releases `u` (-1.0), which queues it for dismissal.
    pub fn up_u(&mut self)
        requires
            old(self).wf(),
            old(self)@.letters.pending.len() < 32,
        ensures
            final(self).wf(),
            final(self)@ == old(self)@.with_letters(old(self)@.letters.set(20, AXIS_UP)),
    {
        self.set_letter(20, AXIS_UP);
    }

    /// Sets the `u` axis; a negative value is queued for dismissal.
    pub fn set_u(&mut self, value: u32)
        requires
            old(self).wf(),
            encodes_negative(value) ==> old(self)@.letters.pending.len() < 32,
        ensures
            final(self).wf(),
            final(self)@ == old(self)@.with_letters(old(self)@.letters.set(20, value)),
    {
        self.set_letter(20, value);
    }

    /// Index of the `u` axis in its bank.
    pub fn raw_idx_u(&mut self) -> (i: usize)
        ensures
            i == 20,
            *final(self) == *old(self),
    {
        20
    }

    /// Encoded value of the `v` axis.
    pub fn v(&self) -> (v: u32)
        requires
            self.wf(),
        ensures
            v == self@.letters.values[21],
    {
        self.letter_value(21)
    }

    /// Holds `v` down (1.0).
    pub fn down_v(&mut self)
        requires
            old(self).wf(),
        ensures
            final(self).wf(),
            final(self)@ == old(self)@.with_letters(old(self)@.letters.set(21, AXIS_DOWN)),
    {
        self.set_letter(21, AXIS_DOWN);
    }

    /// Releases `v` (-1.0), which queues it for dismissal.
    pub fn up_v(&mut self)
        requires
            old(self).wf(),
            old(self)@.letters.pending.len() < 32,
        ensures
            final(self).wf(),
            final(self)@ == old(self)@.with_letters(old(self)@.letters.set(21, AXIS_UP)),
    {
        self.set_letter(21, AXIS_UP);
    }

    /// Sets the `v` axis; a negative value is queued for dismissal.
    pub fn set_v(&mut self, value: u32)
        requires
            old(self).wf(),
            encodes_negative(value) ==> old(self)@.letters.pending.len() < 32,
        ensures
            final(self).wf(),
            final(self)@ == old(self)@.with_letters(old(self)@.letters.set(21, value)),
    {
        self.set_letter(21, value);
    }

    /// Index of the `v` axis in its bank.
    pub fn raw_idx_v(&mut self) -> (i: usize)
        ensures
            i == 21,
            *final(self) == *old(self),
    {
        21
    }

    /// Encoded value of the `w` axis.
    pub fn w(&self) -> (v: u32)
        requires
            self.wf(),
        ensures
            v == self@.letters.values[22],
    {
        self.letter_value(22)
    }

    /// Holds `w` down (1.0).
    pub fn down_w(&mut self)
        requires
            old(self).wf(),
        ensures
            final(self).wf(),
            final(self)@ == old(self)@.with_letters(old(self)@.letters.set(22, AXIS_DOWN)),
    {
        self.set_letter(22, AXIS_DOWN);
    }

    /// Releases `w` (-1.0), which queues it for dismissal.
    pub fn up_w(&mut self)
        requires
            old(self).wf(),
            old(self)@.letters.pending.len() < 32,
        ensures
            final(self).wf(),
            final(self)@ == old(self)@.with_letters(old(self)@.letters.set(22, AXIS_UP)),
    {
        self.set_letter(22, AXIS_UP);
    }

    /// Sets the `w` axis; a negative value is queued for dismissal.
    pub fn set_w(&mut self, value: u32)
        requires
            old(self).wf(),
            encodes_negative(value) ==> old(self)@.letters.pending.len() < 32,
        ensures
            final(self).wf(),
            final(self)@ == old(self)@.with_letters(old(self)@.letters.set(22, value)),
    {
        self.set_letter(22, value);
    }

    /// Index of the `w` axis in its bank.
    pub fn raw_idx_w(&mut self) -> (i: usize)
        ensures
            i == 22,
            *final(self) == *old(self),
    {
        22
    }

    /// Encoded value of the `x` axis.
    pub fn x(&self) -> (v: u32)
        requires
            self.wf(),
        ensures
            v == self@.letters.values[23],
    {
        self.letter_value(23)
    }

    /// Holds `x` down (1.0).
    pub fn down_x(&mut self)
        requires
            old(self).wf(),
        ensures
            final(self).wf(),
            final(self)@ == old(self)@.with_letters(old(self)@.letters.set(23, AXIS_DOWN)),
    {
        self.set_letter(23, AXIS_DOWN);
    }

    /// Releases `x` (-1.0), which queues it for dismissal.
    pub fn up_x(&mut self)
        requires
            old(self).wf(),
            old(self)@.letters.pending.len() < 32,
        ensures
            final(self).wf(),
            final(self)@ == old(self)@.with_letters(old(self)@.letters.set(23, AXIS_UP)),
    {
        self.set_letter(23, AXIS_UP);
    }

    /// Sets the `x` axis; a negative value is queued for dismissal.
    pub fn set_x(&mut self, value: u32)
        requires
            old(self).wf(),
            encodes_negative(value) ==> old(self)@.letters.pending.len() < 32,
        ensures
            final(self).wf(),
            final(self)@ == old(self)@.with_letters(old(self)@.letters.set(23, value)),
    {
        self.set_letter(23, value);
    }

    /// Index of the `x` axis in its bank.
    pub fn raw_idx_x(&mut self) -> (i: usize)
        ensures
            i == 23,
            *final(self) == *old(self),
    {
        23
    }

    /// Encoded value of the `y` axis.
    pub fn y(&self) -> (v: u32)
        requires
            self.wf(),
        ensures
            v == self@.letters.values[24],
    {
        self.letter_value(24)
    }

    /// Holds `y` down (1.0).
    pub fn down_y(&mut self)
        requires
            old(self).wf(),
        ensures
            final(self).wf(),
            final(self)@ == old(self)@.with_letters(old(self)@.letters.set(24, AXIS_DOWN)),
    {
        self.set_letter(24, AXIS_DOWN);
    }

    /// Releases `y` (-1.0), which queues it for dismissal.
    pub fn up_y(&mut self)
        requires
            old(self).wf(),
            old(self)@.letters.pending.len() < 32,
        ensures
            final(self).wf(),
            final(self)@ == old(self)@.with_letters(old(self)@.letters.set(24, AXIS_UP)),
    {
        self.set_letter(24, AXIS_UP);
    }

    /// Sets the `y` axis; a negative value is queued for dismissal.
    pub fn set_y(&mut self, value: u32)
        requires
            old(self).wf(),
            encodes_negative(value) ==> old(self)@.letters.pending.len() < 32,
        ensures
            final(self).wf(),
            final(self)@ == old(self)@.with_letters(old(self)@.letters.set(24, value)),
    {
        self.set_letter(24, value);
    }

    /// Index of the `y` axis in its bank.
    pub fn raw_idx_y(&mut self) -> (i: usize)
        ensures
            i == 24,
            *final(self) == *old(self),
    {
        24
    }

    /// Encoded value of the `z` axis.
    pub fn z(&self) -> (v: u32)
        requires
            self.wf(),
        ensures
            v == self@.letters.values[25],
    {
        self.letter_value(25)
    }

    /// Holds `z` down (1.0).
    pub fn down_z(&mut self)
        requires
            old(self).wf(),
        ensures
            final(self).wf(),
            final(self)@ == old(self)@.with_letters(old(self)@.letters.set(25, AXIS_DOWN)),
    {
        self.set_letter(25, AXIS_DOWN);
    }

    /// Releases `z` (-1.0), which queues it for dismissal.
    pub fn up_z(&mut self)
        requires
            old(self).wf(),
            old(self)@.letters.pending.len() < 32,
        ensures
            final(self).wf(),
            final(self)@ == old(self)@.with_letters(old(self)@.letters.set(25, AXIS_UP)),
    {
        self.set_letter(25, AXIS_UP);
    }

    /// Sets the `z` axis; a negative value is queued for dismissal.
    pub fn set_z(&mut self, value: u32)
        requires
            old(self).wf(),
            encodes_negative(value) ==> old(self)@.letters.pending.len() < 32,
        ensures
            final(self).wf(),
            final(self)@ == old(self)@.with_letters(old(self)@.letters.set(25, value)),
    {
        self.set_letter(25, value);
    }

    /// Index of the `z` axis in its bank.
    pub fn raw_idx_z(&mut self) -> (i: usize)
        ensures
            i == 25,
            *final(self) == *old(self),
    {
        25
    }

    /// Encoded value of the `d0` axis.
    pub fn d0(&self) -> (v: u32)
        requires
            self.wf(),
        ensures
            v == self@.digits.values[0],
    {
        self.digit_value(0)
    }

    /// Holds `d0` down (1.0).
    pub fn down_d0(&mut self)
        requires
            old(self).wf(),
        ensures
            final(self).wf(),
            final(self)@ == old(self)@.with_digits(old(self)@.digits.set(0, AXIS_DOWN)),
    {
        self.set_digit(0, AXIS_DOWN);
    }

    /// Releases `d0` (-1.0), which queues it for dismissal.
    pub fn up_d0(&mut self)
        requires
            old(self).wf(),
            old(self)@.digits.pending.len() < 10,
        ensures
            final(self).wf(),
            final(self)@ == old(self)@.with_digits(old(self)@.digits.set(0, AXIS_UP)),
    {
        self.set_digit(0, AXIS_UP);
    }

    /// Sets the `d0` axis; a negative value is queued for dismissal.
    pub fn set_d0(&mut self, value: u32)
        requires
            old(self).wf(),
            encodes_negative(value) ==> old(self)@.digits.pending.len() < 10,
        ensures
            final(self).wf(),
            final(self)@ == old(self)@.with_digits(old(self)@.digits.set(0, value)),
    {
        self.set_digit(0, value);
    }

    /// Index of the `d0` axis in its bank.
    pub fn raw_idx_d0(&mut self) -> (i: usize)
        ensures
            i == 0,
            *final(self) == *old(self),
    {
        0
    }

    /// Encoded value of the `d1` axis.
    pub fn d1(&self) -> (v: u32)
        requires
            self.wf(),
        ensures
            v == self@.digits.values[1],
    {
        self.digit_value(1)
    }

    /// Holds `d1` down (1.0).
    pub fn down_d1(&mut self)
        requires
            old(self).wf(),
        ensures
            final(self).wf(),
            final(self)@ == old(self)@.with_digits(old(self)@.digits.set(1, AXIS_DOWN)),
    {
        self.set_digit(1, AXIS_DOWN);
    }

    /// Releases `d1` (-1.0), which queues it for dismissal.
    pub fn up_d1(&mut self)
        requires
            old(self).wf(),
            old(self)@.digits.pending.len() < 10,
        ensures
            final(self).wf(),
            final(self)@ == old(self)@.with_digits(old(self)@.digits.set(1, AXIS_UP)),
    {
        self.set_digit(1, AXIS_UP);
    }

    /// Sets the `d1` axis; a negative value is queued for dismissal.
    pub fn set_d1(&mut self, value: u32)
        requires
            old(self).wf(),
            encodes_negative(value) ==> old(self)@.digits.pending.len() < 10,
        ensures
            final(self).wf(),
            final(self)@ == old(self)@.with_digits(old(self)@.digits.set(1, value)),
    {
        self.set_digit(1, value);
    }

    /// Index of the `d1` axis in its bank.
    pub fn raw_idx_d1(&mut self) -> (i: usize)
        ensures
            i == 1,
            *final(self) == *old(self),
    {
        1
    }

    /// Encoded value of the `d2` axis.
    pub fn d2(&self) -> (v: u32)
        requires
            self.wf(),
        ensures
            v == self@.digits.values[2],
    {
        self.digit_value(2)
    }

    /// Holds `d2` down (1.0).
    pub fn down_d2(&mut self)
        requires
            old(self).wf(),
        ensures
            final(self).wf(),
            final(self)@ == old(self)@.with_digits(old(self)@.digits.set(2, AXIS_DOWN)),
    {
        self.set_digit(2, AXIS_DOWN);
    }

    /// Releases `d2` (-1.0), which queues it for dismissal.
    pub fn up_d2(&mut self)
        requires
            old(self).wf(),
            old(self)@.digits.pending.len() < 10,
        ensures
            final(self).wf(),
            final(self)@ == old(self)@.with_digits(old(self)@.digits.set(2, AXIS_UP)),
    {
        self.set_digit(2, AXIS_UP);
    }

    /// Sets the `d2` axis; a negative value is queued for dismissal.
    pub fn set_d2(&mut self, value: u32)
        requires
            old(self).wf(),
            encodes_negative(value) ==> old(self)@.digits.pending.len() < 10,
        ensures
            final(self).wf(),
            final(self)@ == old(self)@.with_digits(old(self)@.digits.set(2, value)),
    {
        self.set_digit(2, value);
    }

    /// Index of the `d2` axis in its bank.
    pub fn raw_idx_d2(&mut self) -> (i: usize)
        ensures
            i == 2,
            *final(self) == *old(self),
    {
        2
    }

    /// Encoded value of the `d3` axis.
    pub fn d3(&self) -> (v: u32)
        requires
            self.wf(),
        ensures
            v == self@.digits.values[3],
    {
        self.digit_value(3)
    }

    /// Holds `d3` down (1.0).
    pub fn down_d3(&mut self)
        requires
            old(self).wf(),
        ensures
            final(self).wf(),
            final(self)@ == old(self)@.with_digits(old(self)@.digits.set(3, AXIS_DOWN)),
    {
        self.set_digit(3, AXIS_DOWN);
    }

    /// Releases `d3` (-1.0), which queues it for dismissal.
    pub fn up_d3(&mut self)
        requires
            old(self).wf(),
            old(self)@.digits.pending.len() < 10,
        ensures
            final(self).wf(),
            final(self)@ == old(self)@.with_digits(old(self)@.digits.set(3, AXIS_UP)),
    {
        self.set_digit(3, AXIS_UP);
    }

    /// Sets the `d3` axis; a negative value is queued for dismissal.
    pub fn set_d3(&mut self, value: u32)
        requires
            old(self).wf(),
            encodes_negative(value) ==> old(self)@.digits.pending.len() < 10,
        ensures
            final(self).wf(),
            final(self)@ == old(self)@.with_digits(old(self)@.digits.set(3, value)),
    {
        self.set_digit(3, value);
    }

    /// Index of the `d3` axis in its bank.
    pub fn raw_idx_d3(&mut self) -> (i: usize)
        ensures
            i == 3,
            *final(self) == *old(self),
    {
        3
    }

    /// Encoded value of the `d4` axis.
    pub fn d4(&self) -> (v: u32)
        requires
            self.wf(),
        ensures
            v == self@.digits.values[4],
    {
        self.digit_value(4)
    }

    /// Holds `d4` down (1.0).
    pub fn down_d4(&mut self)
        requires
            old(self).wf(),
        ensures
            final(self).wf(),
            final(self)@ == old(self)@.with_digits(old(self)@.digits.set(4, AXIS_DOWN)),
    {
        self.set_digit(4, AXIS_DOWN);
    }

    /// Releases `d4` (-1.0), which queues it for dismissal.
    pub fn up_d4(&mut self)
        requires
            old(self).wf(),
            old(self)@.digits.pending.len() < 10,
        ensures
            final(self).wf(),
            final(self)@ == old(self)@.with_digits(old(self)@.digits.set(4, AXIS_UP)),
    {
        self.set_digit(4, AXIS_UP);
    }

    /// Sets the `d4` axis; a negative value is queued for dismissal.
    pub fn set_d4(&mut self, value: u32)
        requires
            old(self).wf(),
            encodes_negative(value) ==> old(self)@.digits.pending.len() < 10,
        ensures
            final(self).wf(),
            final(self)@ == old(self)@.with_digits(old(self)@.digits.set(4, value)),
    {
        self.set_digit(4, value);
    }

    /// Index of the `d4` axis in its bank.
    pub fn raw_idx_d4(&mut self) -> (i: usize)
        ensures
            i == 4,
            *final(self) == *old(self),
    {
        4
    }

    /// Encoded value of the `d5` axis.
    pub fn d5(&self) -> (v: u32)
        requires
            self.wf(),
        ensures
            v == self@.digits.values[5],
    {
        self.digit_value(5)
    }

    /// Holds `d5` down (1.0).
    pub fn down_d5(&mut self)
        requires
            old(self).wf(),
        ensures
            final(self).wf(),
            final(self)@ == old(self)@.with_digits(old(self)@.digits.set(5, AXIS_DOWN)),
    {
        self.set_digit(5, AXIS_DOWN);
    }

    /// Releases `d5` (-1.0), which queues it for dismissal.
    pub fn up_d5(&mut self)
        requires
            old(self).wf(),
            old(self)@.digits.pending.len() < 10,
        ensures
            final(self).wf(),
            final(self)@ == old(self)@.with_digits(old(self)@.digits.set(5, AXIS_UP)),
    {
        self.set_digit(5, AXIS_UP);
    }

    /// Sets the `d5` axis; a negative value is queued for dismissal.
    pub fn set_d5(&mut self, value: u32)
        requires
            old(self).wf(),
            encodes_negative(value) ==> old(self)@.digits.pending.len() < 10,
        ensures
            final(self).wf(),
            final(self)@ == old(self)@.with_digits(old(self)@.digits.set(5, value)),
    {
        self.set_digit(5, value);
    }

    /// Index of the `d5` axis in its bank.
    pub fn raw_idx_d5(&mut self) -> (i: usize)
        ensures
            i == 5,
            *final(self) == *old(self),
    {
        5
    }

    /// Encoded value of the `d6` axis.
    pub fn d6(&self) -> (v: u32)
        requires
            self.wf(),
        ensures
            v == self@.digits.values[6],
    {
        self.digit_value(6)
    }

    /// Holds `d6` down (1.0).
    pub fn down_d6(&mut self)
        requires
            old(self).wf(),
        ensures
            final(self).wf(),
            final(self)@ == old(self)@.with_digits(old(self)@.digits.set(6, AXIS_DOWN)),
    {
        self.set_digit(6, AXIS_DOWN);
    }

    /// Releases `d6` (-1.0), which queues it for dismissal.
    pub fn up_d6(&mut self)
        requires
            old(self).wf(),
            old(self)@.digits.pending.len() < 10,
        ensures
            final(self).wf(),
            final(self)@ == old(self)@.with_digits(old(self)@.digits.set(6, AXIS_UP)),
    {
        self.set_digit(6, AXIS_UP);
    }

    /// Sets the `d6` axis; a negative value is queued for dismissal.
    pub fn set_d6(&mut self, value: u32)
        requires
            old(self).wf(),
            encodes_negative(value) ==> old(self)@.digits.pending.len() < 10,
        ensures
            final(self).wf(),
            final(self)@ == old(self)@.with_digits(old(self)@.digits.set(6, value)),
    {
        self.set_digit(6, value);
    }

    /// Index of the `d6` axis in its bank.
    pub fn raw_idx_d6(&mut self) -> (i: usize)
        ensures
            i == 6,
            *final(self) == *old(self),
    {
        6
    }

    /// Encoded value of the `d7` axis.
    pub fn d7(&self) -> (v: u32)
        requires
            self.wf(),
        ensures
            v == self@.digits.values[7],
    {
        self.digit_value(7)
    }

    /// Holds `d7` down (1.0).
    pub fn down_d7(&mut self)
        requires
            old(self).wf(),
        ensures
            final(self).wf(),
            final(self)@ == old(self)@.with_digits(old(self)@.digits.set(7, AXIS_DOWN)),
    {
        self.set_digit(7, AXIS_DOWN);
    }

    /// Releases `d7` (-1.0), which queues it for dismissal.
    pub fn up_d7(&mut self)
        requires
            old(self).wf(),
            old(self)@.digits.pending.len() < 10,
        ensures
            final(self).wf(),
            final(self)@ == old(self)@.with_digits(old(self)@.digits.set(7, AXIS_UP)),
    {
        self.set_digit(7, AXIS_UP);
    }

    /// Sets the `d7` axis; a negative value is queued for dismissal.
    pub fn set_d7(&mut self, value: u32)
        requires
            old(self).wf(),
            encodes_negative(value) ==> old(self)@.digits.pending.len() < 10,
        ensures
            final(self).wf(),
            final(self)@ == old(self)@.with_digits(old(self)@.digits.set(7, value)),
    {
        self.set_digit(7, value);
    }

    /// Index of the `d7` axis in its bank.
    pub fn raw_idx_d7(&mut self) -> (i: usize)
        ensures
            i == 7,
            *final(self) == *old(self),
    {
        7
    }

    /// Encoded value of the `d8` axis.
    pub fn d8(&self) -> (v: u32)
        requires
            self.wf(),
        ensures
            v == self@.digits.values[8],
    {
        self.digit_value(8)
    }

    /// Holds `d8` down (1.0).
    pub fn down_d8(&mut self)
        requires
            old(self).wf(),
        ensures
            final(self).wf(),
            final(self)@ == old(self)@.with_digits(old(self)@.digits.set(8, AXIS_DOWN)),
    {
        self.set_digit(8, AXIS_DOWN);
    }

    /// Releases `d8` (-1.0), which queues it for dismissal.
    pub fn up_d8(&mut self)
        requires
            old(self).wf(),
            old(self)@.digits.pending.len() < 10,
        ensures
            final(self).wf(),
            final(self)@ == old(self)@.with_digits(old(self)@.digits.set(8, AXIS_UP)),
    {
        self.set_digit(8, AXIS_UP);
    }

    /// Sets the `d8` axis; a negative value is queued for dismissal.
    pub fn set_d8(&mut self, value: u32)
        requires
            old(self).wf(),
            encodes_negative(value) ==> old(self)@.digits.pending.len() < 10,
        ensures
            final(self).wf(),
            final(self)@ == old(self)@.with_digits(old(self)@.digits.set(8, value)),
    {
        self.set_digit(8, value);
    }

    /// Index of the `d8` axis in its bank.
    pub fn raw_idx_d8(&mut self) -> (i: usize)
        ensures
            i == 8,
            *final(self) == *old(self),
    {
        8
    }

    /// Encoded value of the `d9` axis.
    pub fn d9(&self) -> (v: u32)
        requires
            self.wf(),
        ensures
            v == self@.digits.values[9],
    {
        self.digit_value(9)
    }

    /// Holds `d9` down (1.0).
    pub fn down_d9(&mut self)
        requires
            old(self).wf(),
        ensures
            final(self).wf(),
            final(self)@ == old(self)@.with_digits(old(self)@.digits.set(9, AXIS_DOWN)),
    {
        self.set_digit(9, AXIS_DOWN);
    }

    /// Releases `d9` (-1.0), which queues it for dismissal.
    pub fn up_d9(&mut self)
        requires
            old(self).wf(),
            old(self)@.digits.pending.len() < 10,
        ensures
            final(self).wf(),
            final(self)@ == old(self)@.with_digits(old(self)@.digits.set(9, AXIS_UP)),
    {
        self.set_digit(9, AXIS_UP);
    }

    /// Sets the `d9` axis; a negative value is queued for dismissal.
    pub fn set_d9(&mut self, value: u32)
        requires
            old(self).wf(),
            encodes_negative(value) ==> old(self)@.digits.pending.len() < 10,
        ensures
            final(self).wf(),
            final(self)@ == old(self)@.with_digits(old(self)@.digits.set(9, value)),
    {
        self.set_digit(9, value);
    }

    /// Index of the `d9` axis in its bank.
    pub fn raw_idx_d9(&mut self) -> (i: usize)
        ensures
            i == 9,
            *final(self) == *old(self),
    {
        9
    }

    /// Encoded value of the `backquote` axis.
    pub fn backquote(&self) -> (v: u32)
        requires
            self.wf(),
        ensures
            v == self@.punctuation.values[0],
    {
        self.punctuation_value(0)
    }

    /// Holds `backquote` down (1.0).
    pub fn down_backquote(&mut self)
        requires
            old(self).wf(),
        ensures
            final(self).wf(),
            final(self)@ == old(self)@.with_punctuation(old(self)@.punctuation.set(0, AXIS_DOWN)),
    {
        self.set_punctuation(0, AXIS_DOWN);
    }

    /// Releases `backquote` (-1.0), which queues it for dismissal.
    pub fn up_backquote(&mut self)
        requires
            old(self).wf(),
            old(self)@.punctuation.pending.len() < 32,
        ensures
            final(self).wf(),
            final(self)@ == old(self)@.with_punctuation(old(self)@.punctuation.set(0, AXIS_UP)),
    {
        self.set_punctuation(0, AXIS_UP);
    }

    /// Sets the `backquote` axis; a negative value is queued for dismissal.
    pub fn set_backquote(&mut self, value: u32)
        requires
            old(self).wf(),
            encodes_negative(value) ==> old(self)@.punctuation.pending.len() < 32,
        ensures
            final(self).wf(),
            final(self)@ == old(self)@.with_punctuation(old(self)@.punctuation.set(0, value)),
    {
        self.set_punctuation(0, value);
    }

    /// Index of the `backquote` axis in its bank.
    pub fn raw_idx_backquote(&mut self) -> (i: usize)
        ensures
            i == 0,
            *final(self) == *old(self),
    {
        0
    }

    /// Encoded value of the `comma` axis.
    pub fn comma(&self) -> (v: u32)
        requires
            self.wf(),
        ensures
            v == self@.punctuation.values[1],
    {
        self.punctuation_value(1)
    }

    /// Holds `comma` down (1.0).
    pub fn down_comma(&mut self)
        requires
            old(self).wf(),
        ensures
            final(self).wf(),
            final(self)@ == old(self)@.with_punctuation(old(self)@.punctuation.set(1, AXIS_DOWN)),
    {
        self.set_punctuation(1, AXIS_DOWN);
    }

    /// Releases `comma` (-1.0), which queues it for dismissal.
    pub fn up_comma(&mut self)
        requires
            old(self).wf(),
            old(self)@.punctuation.pending.len() < 32,
        ensures
            final(self).wf(),
            final(self)@ == old(self)@.with_punctuation(old(self)@.punctuation.set(1, AXIS_UP)),
    {
        self.set_punctuation(1, AXIS_UP);
    }

    /// Sets the `comma` axis; a negative value is queued for dismissal.
    pub fn set_comma(&mut self, value: u32)
        requires
            old(self).wf(),
            encodes_negative(value) ==> old(self)@.punctuation.pending.len() < 32,
        ensures
            final(self).wf(),
            final(self)@ == old(self)@.with_punctuation(old(self)@.punctuation.set(1, value)),
    {
        self.set_punctuation(1, value);
    }

    /// Index of the `comma` axis in its bank.
    pub fn raw_idx_comma(&mut self) -> (i: usize)
        ensures
            i == 1,
            *final(self) == *old(self),
    {
        1
    }

    /// Encoded value of the `dot` axis.
    pub fn dot(&self) -> (v: u32)
        requires
            self.wf(),
        ensures
            v == self@.punctuation.values[2],
    {
        self.punctuation_value(2)
    }

    /// Holds `dot` down (1.0).
    pub fn down_dot(&mut self)
        requires
            old(self).wf(),
        ensures
            final(self).wf(),
            final(self)@ == old(self)@.with_punctuation(old(self)@.punctuation.set(2, AXIS_DOWN)),
    {
        self.set_punctuation(2, AXIS_DOWN);
    }

    /// Releases `dot` (-1.0), which queues it for dismissal.
    pub fn up_dot(&mut self)
        requires
            old(self).wf(),
            old(self)@.punctuation.pending.len() < 32,
        ensures
            final(self).wf(),
            final(self)@ == old(self)@.with_punctuation(old(self)@.punctuation.set(2, AXIS_UP)),
    {
        self.set_punctuation(2, AXIS_UP);
    }

    /// Sets the `dot` axis; a negative value is queued for dismissal.
    pub fn set_dot(&mut self, value: u32)
        requires
            old(self).wf(),
            encodes_negative(value) ==> old(self)@.punctuation.pending.len() < 32,
        ensures
            final(self).wf(),
            final(self)@ == old(self)@.with_punctuation(old(self)@.punctuation.set(2, value)),
    {
        self.set_punctuation(2, value);
    }

    /// Index of the `dot` axis in its bank.
    pub fn raw_idx_dot(&mut self) -> (i: usize)
        ensures
            i == 2,
            *final(self) == *old(self),
    {
        2
    }

    /// Encoded value of the `bracket_left` axis.
    pub fn bracket_left(&self) -> (v: u32)
        requires
            self.wf(),
        ensures
            v == self@.punctuation.values[3],
    {
        self.punctuation_value(3)
    }

    /// Holds `bracket_left` down (1.0).
    pub fn down_bracket_left(&mut self)
        requires
            old(self).wf(),
        ensures
            final(self).wf(),
            final(self)@ == old(self)@.with_punctuation(old(self)@.punctuation.set(3, AXIS_DOWN)),
    {
        self.set_punctuation(3, AXIS_DOWN);
    }

    /// Releases `bracket_left` (-1.0), which queues it for dismissal.
    pub fn up_bracket_left(&mut self)
        requires
            old(self).wf(),
            old(self)@.punctuation.pending.len() < 32,
        ensures
            final(self).wf(),
            final(self)@ == old(self)@.with_punctuation(old(self)@.punctuation.set(3, AXIS_UP)),
    {
        self.set_punctuation(3, AXIS_UP);
    }

    /// Sets the `bracket_left` axis; a negative value is queued for dismissal.
    pub fn set_bracket_left(&mut self, value: u32)
        requires
            old(self).wf(),
            encodes_negative(value) ==> old(self)@.punctuation.pending.len() < 32,
        ensures
            final(self).wf(),
            final(self)@ == old(self)@.with_punctuation(old(self)@.punctuation.set(3, value)),
    {
        self.set_punctuation(3, value);
    }

    /// Index of the `bracket_left` axis in its bank.
    pub fn raw_idx_bracket_left(&mut self) -> (i: usize)
        ensures
            i == 3,
            *final(self) == *old(self),
    {
        3
    }

    /// Encoded value of the `bracket_right` axis.
    pub fn bracket_right(&self) -> (v: u32)
        requires
            self.wf(),
        ensures
            v == self@.punctuation.values[4],
    {
        self.punctuation_value(4)
    }

    /// Holds `bracket_right` down (1.0).
    pub fn down_bracket_right(&mut self)
        requires
            old(self).wf(),
        ensures
            final(self).wf(),
            final(self)@ == old(self)@.with_punctuation(old(self)@.punctuation.set(4, AXIS_DOWN)),
    {
        self.set_punctuation(4, AXIS_DOWN);
    }

    /// Releases `bracket_right` (-1.0), which queues it for dismissal.
    pub fn up_bracket_right(&mut self)
        requires
            old(self).wf(),
            old(self)@.punctuation.pending.len() < 32,
        ensures
            final(self).wf(),
            final(self)@ == old(self)@.with_punctuation(old(self)@.punctuation.set(4, AXIS_UP)),
    {
        self.set_punctuation(4, AXIS_UP);
    }

    /// Sets the `bracket_right` axis; a negative value is queued for dismissal.
    pub fn set_bracket_right(&mut self, value: u32)
        requires
            old(self).wf(),
            encodes_negative(value) ==> old(self)@.punctuation.pending.len() < 32,
        ensures
            final(self).wf(),
            final(self)@ == old(self)@.with_punctuation(old(self)@.punctuation.set(4, value)),
    {
        self.set_punctuation(4, value);
    }

    /// Index of the `bracket_right` axis in its bank.
    pub fn raw_idx_bracket_right(&mut self) -> (i: usize)
        ensures
            i == 4,
            *final(self) == *old(self),
    {
        4
    }
}

} // verus!
