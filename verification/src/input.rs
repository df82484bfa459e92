use vstd::prelude::*;

use crate::axis::{encodes_negative, is_negative, AXIS_IDLE};

verus! {

/// What a bank of axes holds: the encoded value of each axis, and the axes
/// that were set to a negative value since the last dismissal, in the order
/// in which they were set.
pub struct AxisBankView {
    pub values: Seq<u32>,
    pub pending: Seq<usize>,
}

impl AxisBankView {
    /// The invariant of a bank with `n` axes and room for `m` pending
    /// releases: every pending index names an axis, and every axis that holds
    /// a negative value is pending.
    pub open spec fn inv(self, n: nat, m: nat) -> bool {
        &&& self.values.len() == n
        &&& self.pending.len() <= m
        &&& forall|i: int| 0 <= i < self.pending.len() ==> #[trigger] self.pending[i] < n
        &&& forall|j: int|
            0 <= j < n && encodes_negative(#[trigger] self.values[j]) ==> self.pending.contains(
                j as usize,
            )
    }

    /// The bank after axis `i` is set to `v`: a negative value is queued for
    /// dismissal.
    pub open spec fn set(self, i: int, v: u32) -> AxisBankView {
        AxisBankView {
            values: self.values.update(i, v),
            pending: if encodes_negative(v) {
                self.pending.push(i as usize)
            } else {
                self.pending
            },
        }
    }

    /// The bank after the pending axes are reset to 0.0 and the queue emptied.
    pub open spec fn dismissed(self) -> AxisBankView {
        AxisBankView {
            values: Seq::new(
                self.values.len(),
                |j: int|
                    if self.pending.contains(j as usize) {
                        AXIS_IDLE
                    } else {
                        self.values[j]
                    },
            ),
            pending: Seq::empty(),
        }
    }
}

/// `N` axes and a queue with room for `M` releases per frame.
#[derive(Clone, Copy)]
pub struct ButtonBank<const N: usize, const M: usize> {
    state: [u32; N],
    to_dismiss: [usize; M],
    to_dismiss_idx: usize,
}

impl<const N: usize, const M: usize> View for ButtonBank<N, M> {
    type V = AxisBankView;

    closed spec fn view(&self) -> AxisBankView {
        AxisBankView { values: self.state@, pending: self.to_dismiss@.take(self.to_dismiss_idx as int) }
    }
}

impl<const N: usize, const M: usize> ButtonBank<N, M> {
    /// Number of releases queued, as the queue's own counter holds it.
    pub closed spec fn queued(&self) -> nat {
        self.to_dismiss_idx as nat
    }

    /// Well-formedness: the counter lies within the queue and the view
    /// satisfies the bank invariant.
    pub open spec fn wf(&self) -> bool {
        &&& self.queued() <= M
        &&& self.queued() == self@.pending.len()
        &&& self@.inv(N as nat, M as nat)
    }

    /// A bank whose axes are all idle and whose queue is empty.
    pub fn new() -> (b: Self)
        ensures
            b.wf(),
            b@.values == Seq::new(N as nat, |j: int| AXIS_IDLE),
            b@.pending == Seq::<usize>::empty(),
    {
        let b = ButtonBank { state: [AXIS_IDLE; N], to_dismiss: [0usize; M], to_dismiss_idx: 0 };
        assert(b@.values =~= Seq::new(N as nat, |j: int| AXIS_IDLE));
        assert(b@.pending =~= Seq::<usize>::empty());
        b
    }

    /// The encoded value of axis `i`.
    pub fn get(&self, i: usize) -> (v: u32)
        requires
            self.wf(),
            i < N,
        ensures
            v == self@.values[i as int],
    {
        self.state[i]
    }

    /// Number of releases queued since the last dismissal.
    pub fn pending_count(&self) -> (c: usize)
        requires
            self.wf(),
        ensures
            c == self@.pending.len(),
    {
        self.to_dismiss_idx
    }

    /// Sets axis `i` to `value`; a negative value is queued for dismissal.
    pub fn set(&mut self, i: usize, value: u32)
        requires
            old(self).wf(),
            i < N,
            encodes_negative(value) ==> old(self)@.pending.len() < M,
        ensures
            final(self).wf(),
            final(self)@ == old(self)@.set(i as int, value),
            final(self)@.values.len() == N,
            final(self)@.values[i as int] == value,
            forall|j: int|
                0 <= j < N && j != i ==> #[trigger] final(self)@.values[j] == old(self)@.values[j],
            encodes_negative(value) ==> final(self)@.pending == old(self)@.pending.push(i),
            !encodes_negative(value) ==> final(self)@.pending == old(self)@.pending,
    {
        let ghost pre = self@;
        self.state[i] = value;
        if is_negative(value) {
            self.to_dismiss[self.to_dismiss_idx] = i;
            self.to_dismiss_idx = self.to_dismiss_idx + 1;
            assert(self@.pending =~= pre.pending.push(i));
        } else {
            assert(self@.pending =~= pre.pending);
        }
        assert(self@.values =~= pre.values.update(i as int, value));
        assert forall|j: int|
            0 <= j < N && encodes_negative(#[trigger] self@.values[j]) implies self@.pending.contains(
            j as usize,
        ) by {
            if j == i as int {
                assert(self@.pending[self@.pending.len() - 1] == i);
            } else {
                let k = choose|k: int| 0 <= k < pre.pending.len() && pre.pending[k] == j as usize;
                assert(self@.pending[k] == j as usize);
            }
        }
    }

    /// Resets every queued axis to 0.0 and empties the queue.
    pub fn dismiss(&mut self)
        requires
            old(self).wf(),
        ensures
            final(self).wf(),
            final(self)@ == old(self)@.dismissed(),
            forall|j: int| 0 <= j < N ==> !encodes_negative(#[trigger] final(self)@.values[j]),
    {
        let ghost pre = self@;
        let count = self.to_dismiss_idx;
        let mut i: usize = 0;
        while i < count
            invariant
                0 <= i <= count,
                count == pre.pending.len(),
                count <= M,
                self.to_dismiss_idx == count,
                self.to_dismiss@.take(count as int) == pre.pending,
                pre.inv(N as nat, M as nat),
                self.state@.len() == N,
                forall|j: int|
                    0 <= j < N ==> #[trigger] self.state@[j] == if pre.pending.take(
                        i as int,
                    ).contains(j as usize) {
                        AXIS_IDLE
                    } else {
                        pre.values[j]
                    },
            decreases count - i,
        {
            let idx = self.to_dismiss[i];
            assert(self.to_dismiss@[i as int] == pre.pending[i as int]);
            self.state[idx] = AXIS_IDLE;
            assert forall|j: int|
                0 <= j < N implies #[trigger] self.state@[j] == if pre.pending.take(
                i + 1,
            ).contains(j as usize) {
                AXIS_IDLE
            } else {
                pre.values[j]
            } by {
                let t = pre.pending.take(i as int);
                let t1 = pre.pending.take(i + 1);
                assert(t1 =~= t.push(idx));
                if t.contains(j as usize) {
                    let k = choose|k: int| 0 <= k < t.len() && t[k] == j as usize;
                    assert(t1[k] == j as usize);
                }
                if t1.contains(j as usize) && j != idx as int {
                    let k = choose|k: int| 0 <= k < t1.len() && t1[k] == j as usize;
                    assert(t[k] == j as usize);
                }
                if j == idx as int {
                    assert(t1[i as int] == j as usize);
                }
            }
            i = i + 1;
        }
        self.to_dismiss_idx = 0;
        assert(pre.pending.take(count as int) =~= pre.pending);
        assert(self@.values =~= pre.dismissed().values);
        assert(self@.pending =~= Seq::<usize>::empty());
    }
}

/// What the mouse state holds.
pub struct MouseView {
    pub buttons: AxisBankView,
    pub wheel: (u32, u32),
    pub canvas_position_px: (i32, i32),
}

impl MouseView {
    /// The same mouse state with other button axes.
    pub open spec fn with_buttons(self, buttons: AxisBankView) -> MouseView {
        MouseView { buttons, ..self }
    }
}

/// Mouse input of one frame: the button axes with their release queue, the
/// wheel and the pointer position on the canvas.
#[derive(Clone, Copy)]
pub struct MouseState {
    button: ButtonBank<8, 10>,
    /// (horizontal, vertical), encoded binary32 values; -1 == left/down, 1 == right/up.
    pub wheel: (u32, u32),
    /// Pointer position in pixels, origin at the top-left corner of the canvas.
    pub canvas_position_px: (i32, i32),
}

impl View for MouseState {
    type V = MouseView;

    closed spec fn view(&self) -> MouseView {
        MouseView {
            buttons: self.button@,
            wheel: self.wheel,
            canvas_position_px: self.canvas_position_px,
        }
    }
}

/// A bank in which every axis is idle and nothing is queued.
pub open spec fn idle_bank(n: nat) -> AxisBankView {
    AxisBankView { values: Seq::new(n, |j: int| AXIS_IDLE), pending: Seq::empty() }
}

impl MouseState {
    /// The button bank is well formed.
    pub closed spec fn wf(&self) -> bool {
        self.button.wf()
    }

    /// The mouse state satisfies the bank invariant for its 8 axes and 10
    /// queue slots.
    pub proof fn lemma_wf(&self)
        requires
            self.wf(),
        ensures
            self@.buttons.inv(8, 10),
    {
    }

    /// Sets button axis `raw_idx` to `value`; a negative value is queued for
    /// dismissal at the end of the frame.
    pub fn set_button(&mut self, raw_idx: usize, value: u32)
        requires
            old(self).wf(),
            raw_idx < 8,
            encodes_negative(value) ==> old(self)@.buttons.pending.len() < 10,
        ensures
            final(self).wf(),
            final(self)@.buttons.values[raw_idx as int] == value,
            final(self)@ == old(self)@.with_buttons(old(self)@.buttons.set(raw_idx as int, value)),
    {
        self.button.set(raw_idx, value);
    }

    /// Number of button releases queued in this frame.
    pub fn pending_releases(&self) -> (c: usize)
        requires
            self.wf(),
        ensures
            c == self@.buttons.pending.len(),
    {
        self.button.pending_count()
    }

    /// Resets the released buttons to 0.0 and empties the queue.
    pub fn dismiss(&mut self)
        requires
            old(self).wf(),
        ensures
            final(self).wf(),
            final(self)@ == old(self)@.with_buttons(old(self)@.buttons.dismissed()),
            forall|j: int| 0 <= j < 8 ==> !encodes_negative(#[trigger] final(self)@.buttons.values[j]),
    {
        self.button.dismiss();
    }

    /// The pointer position on the canvas.
    pub fn canvas_position_px(&self) -> (p: (i32, i32))
        ensures
            p == self@.canvas_position_px,
    {
        self.canvas_position_px
    }

    /// Moves the pointer.
    pub fn set_canvas_position_px(&mut self, p: (i32, i32))
        ensures
            final(self).wf() == old(self).wf(),
            final(self)@ == (MouseView { canvas_position_px: p, ..old(self)@ }),
    {
        self.canvas_position_px = p;
    }

    /// The encoded wheel axes.
    pub fn wheel(&self) -> (w: (u32, u32))
        ensures
            w == self@.wheel,
    {
        self.wheel
    }

    /// Sets the encoded wheel axes.
    pub fn set_wheel(&mut self, w: (u32, u32))
        ensures
            final(self).wf() == old(self).wf(),
            final(self)@ == (MouseView { wheel: w, ..old(self)@ }),
    {
        self.wheel = w;
    }

    pub(crate) fn button_value(&self, i: usize) -> (v: u32)
        requires
            self.wf(),
            i < 8,
        ensures
            v == self@.buttons.values[i as int],
    {
        self.button.get(i)
    }
}

impl Default for MouseState {
    fn default() -> (s: Self)
        ensures
            s.wf(),
            s@ == (MouseView { buttons: idle_bank(8), wheel: (0, 0), canvas_position_px: (0, 0) }),
    {
        let s = MouseState { button: ButtonBank::new(), wheel: (0, 0), canvas_position_px: (0, 0) };
        assert(s@.buttons =~= idle_bank(8));
        s
    }
}

/// What the keyboard state holds.
pub struct KeyboardView {
    pub shift: bool,
    pub alt: bool,
    pub ctrl: bool,
    pub letters: AxisBankView,
    pub digits: AxisBankView,
    pub punctuation: AxisBankView,
    pub fkeys: AxisBankView,
}

impl KeyboardView {
    pub open spec fn with_letters(self, b: AxisBankView) -> KeyboardView {
        KeyboardView { letters: b, ..self }
    }

    pub open spec fn with_digits(self, b: AxisBankView) -> KeyboardView {
        KeyboardView { digits: b, ..self }
    }

    pub open spec fn with_punctuation(self, b: AxisBankView) -> KeyboardView {
        KeyboardView { punctuation: b, ..self }
    }

    pub open spec fn with_fkeys(self, b: AxisBankView) -> KeyboardView {
        KeyboardView { fkeys: b, ..self }
    }
}

/// Keyboard input of one frame: modifier flags and four banks of key axes
/// (letters a-z, digits 0-9, punctuation, function keys), each with its own
/// release queue.
#[derive(Clone, Copy)]
pub struct KeyboardState {
    pub shift: bool,
    pub alt: bool,
    pub ctrl: bool,
    letter: ButtonBank<32, 32>,
    digit: ButtonBank<10, 10>,
    punctuation: ButtonBank<32, 32>,
    fkey: ButtonBank<12, 12>,
}

impl View for KeyboardState {
    type V = KeyboardView;

    closed spec fn view(&self) -> KeyboardView {
        KeyboardView {
            shift: self.shift,
            alt: self.alt,
            ctrl: self.ctrl,
            letters: self.letter@,
            digits: self.digit@,
            punctuation: self.punctuation@,
            fkeys: self.fkey@,
        }
    }
}

impl KeyboardState {
    /// All four banks are well formed.
    pub closed spec fn wf(&self) -> bool {
        &&& self.letter.wf()
        &&& self.digit.wf()
        &&& self.punctuation.wf()
        &&& self.fkey.wf()
    }

    /// A well-formed keyboard state satisfies the bank invariant in each bank.
    pub proof fn lemma_wf(&self)
        requires
            self.wf(),
        ensures
            self@.letters.inv(32, 32),
            self@.digits.inv(10, 10),
            self@.punctuation.inv(32, 32),
            self@.fkeys.inv(12, 12),
    {
    }

    /// Sets letter axis `raw_idx`; a negative value is queued for dismissal.
    pub fn set_letter(&mut self, raw_idx: usize, value: u32)
        requires
            old(self).wf(),
            raw_idx < 32,
            encodes_negative(value) ==> old(self)@.letters.pending.len() < 32,
        ensures
            final(self).wf(),
            final(self)@.letters.values[raw_idx as int] == value,
            final(self)@ == old(self)@.with_letters(old(self)@.letters.set(raw_idx as int, value)),
    {
        self.letter.set(raw_idx, value);
    }

    /// Sets digit axis `raw_idx`; a negative value is queued for dismissal.
    pub fn set_digit(&mut self, raw_idx: usize, value: u32)
        requires
            old(self).wf(),
            raw_idx < 10,
            encodes_negative(value) ==> old(self)@.digits.pending.len() < 10,
        ensures
            final(self).wf(),
            final(self)@.digits.values[raw_idx as int] == value,
            final(self)@ == old(self)@.with_digits(old(self)@.digits.set(raw_idx as int, value)),
    {
        self.digit.set(raw_idx, value);
    }

    /// Sets function-key axis `raw_idx`; a negative value is queued for
    /// dismissal.
    pub fn set_fkey(&mut self, raw_idx: usize, value: u32)
        requires
            old(self).wf(),
            raw_idx < 12,
            encodes_negative(value) ==> old(self)@.fkeys.pending.len() < 12,
        ensures
            final(self).wf(),
            final(self)@.fkeys.values[raw_idx as int] == value,
            final(self)@ == old(self)@.with_fkeys(old(self)@.fkeys.set(raw_idx as int, value)),
    {
        self.fkey.set(raw_idx, value);
    }

    /// Sets punctuation axis `raw_idx`; a negative value is queued for
    /// dismissal.
    pub fn set_punctuation(&mut self, raw_idx: usize, value: u32)
        requires
            old(self).wf(),
            raw_idx < 32,
            encodes_negative(value) ==> old(self)@.punctuation.pending.len() < 32,
        ensures
            final(self).wf(),
            final(self)@.punctuation.values[raw_idx as int] == value,
            final(self)@ == old(self)@.with_punctuation(
                old(self)@.punctuation.set(raw_idx as int, value),
            ),
    {
        self.punctuation.set(raw_idx, value);
    }

    /// Numbers of releases queued in this frame: letters, digits, punctuation,
    /// function keys.
    pub fn pending_releases(&self) -> (c: (usize, usize, usize, usize))
        requires
            self.wf(),
        ensures
            c.0 == self@.letters.pending.len(),
            c.1 == self@.digits.pending.len(),
            c.2 == self@.punctuation.pending.len(),
            c.3 == self@.fkeys.pending.len(),
    {
        (
            self.letter.pending_count(),
            self.digit.pending_count(),
            self.punctuation.pending_count(),
            self.fkey.pending_count(),
        )
    }

    /// The encoded value of digit axis `i`.
    pub fn digit_value(&self, i: usize) -> (v: u32)
        requires
            self.wf(),
            i < 10,
        ensures
            v == self@.digits.values[i as int],
    {
        self.digit.get(i)
    }

    /// Resets every released key to 0.0 and empties all four queues.
    pub fn dismiss(&mut self)
        requires
            old(self).wf(),
        ensures
            final(self).wf(),
            final(self)@ == (KeyboardView {
                letters: old(self)@.letters.dismissed(),
                digits: old(self)@.digits.dismissed(),
                punctuation: old(self)@.punctuation.dismissed(),
                fkeys: old(self)@.fkeys.dismissed(),
                ..old(self)@
            }),
            forall|j: int| 0 <= j < 32 ==> !encodes_negative(#[trigger] final(self)@.letters.values[j]),
            forall|j: int| 0 <= j < 10 ==> !encodes_negative(#[trigger] final(self)@.digits.values[j]),
            forall|j: int|
                0 <= j < 32 ==> !encodes_negative(#[trigger] final(self)@.punctuation.values[j]),
            forall|j: int| 0 <= j < 12 ==> !encodes_negative(#[trigger] final(self)@.fkeys.values[j]),
    {
        self.letter.dismiss();
        self.digit.dismiss();
        self.fkey.dismiss();
        self.punctuation.dismiss();
    }

    /// Whether Shift is held.
    pub fn shift(&self) -> (b: bool)
        ensures
            b == self@.shift,
    {
        self.shift
    }

    /// Whether Ctrl is held.
    pub fn ctrl(&self) -> (b: bool)
        ensures
            b == self@.ctrl,
    {
        self.ctrl
    }

    /// Whether Alt is held.
    pub fn alt(&self) -> (b: bool)
        ensures
            b == self@.alt,
    {
        self.alt
    }

    /// Records which modifier keys are held.
    pub fn set_modifiers(&mut self, shift: bool, alt: bool, ctrl: bool)
        ensures
            final(self).wf() == old(self).wf(),
            final(self)@ == (KeyboardView { shift, alt, ctrl, ..old(self)@ }),
    {
        self.shift = shift;
        self.alt = alt;
        self.ctrl = ctrl;
    }

    pub(crate) fn letter_value(&self, i: usize) -> (v: u32)
        requires
            self.wf(),
            i < 32,
        ensures
            v == self@.letters.values[i as int],
    {
        self.letter.get(i)
    }

    pub(crate) fn punctuation_value(&self, i: usize) -> (v: u32)
        requires
            self.wf(),
            i < 32,
        ensures
            v == self@.punctuation.values[i as int],
    {
        self.punctuation.get(i)
    }
}

impl Default for KeyboardState {
    fn default() -> (s: Self)
        ensures
            s.wf(),
            s@ == (KeyboardView {
                shift: false,
                alt: false,
                ctrl: false,
                letters: idle_bank(32),
                digits: idle_bank(10),
                punctuation: idle_bank(32),
                fkeys: idle_bank(12),
            }),
    {
        let s = KeyboardState {
            shift: false,
            alt: false,
            ctrl: false,
            letter: ButtonBank::new(),
            digit: ButtonBank::new(),
            punctuation: ButtonBank::new(),
            fkey: ButtonBank::new(),
        };
        assert(s@.letters =~= idle_bank(32));
        assert(s@.digits =~= idle_bank(10));
        assert(s@.punctuation =~= idle_bank(32));
        assert(s@.fkeys =~= idle_bank(12));
        s
    }
}

} // verus!
