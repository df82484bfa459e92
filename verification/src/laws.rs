use vstd::prelude::*;

use crate::axis::{encodes_negative, encodes_positive, AXIS_DOWN, AXIS_IDLE};
use crate::engine_state::{debug_mode_after, released_digits, step_key_fires};
use crate::input::AxisBankView;

verus! {

/// Setting an axis keeps the bank invariant, provided a negative value finds
/// room in the release queue.
pub proof fn law_set_keeps_invariant(b: AxisBankView, n: nat, m: nat, i: int, v: u32)
    requires
        b.inv(n, m),
        0 <= i < n,
        encodes_negative(v) ==> b.pending.len() < m,
    ensures
        b.set(i, v).inv(n, m),
{
    let a = b.set(i, v);
    assert forall|j: int| 0 <= j < n && encodes_negative(#[trigger] a.values[j]) implies a.pending.contains(
        j as usize,
    ) by {
        if j == i {
            assert(a.pending[a.pending.len() - 1] == i as usize);
        } else {
            let k = choose|k: int| 0 <= k < b.pending.len() && b.pending[k] == j as usize;
            assert(a.pending[k] == j as usize);
        }
    }
}

/// After the end-of-frame dismissal the invariant still holds, the queue is
/// empty and no axis holds a negative value.
pub proof fn law_dismissal_clears_releases(b: AxisBankView, n: nat, m: nat)
    requires
        b.inv(n, m),
    ensures
        b.dismissed().inv(n, m),
        b.dismissed().pending.len() == 0,
        forall|j: int| 0 <= j < n ==> !encodes_negative(#[trigger] b.dismissed().values[j]),
{
}

/// A release is seen for one frame: the released axis reads the value it was
/// set to until the dismissal, and 0.0 after it.
pub proof fn law_release_lasts_one_frame(b: AxisBankView, n: nat, m: nat, i: int, v: u32)
    requires
        b.inv(n, m),
        0 <= i < n,
        encodes_negative(v),
        b.pending.len() < m,
    ensures
        b.set(i, v).values[i] == v,
        b.set(i, v).dismissed().values[i] == AXIS_IDLE,
{
    let a = b.set(i, v);
    assert(a.pending[a.pending.len() - 1] == i as usize);
}

/// An axis that was not released since the last dismissal keeps its value
/// through the dismissal; in particular a button pressed and not released in
/// the frame stays held.
pub proof fn law_unreleased_axis_survives_dismissal(b: AxisBankView, j: int)
    requires
        0 <= j < b.values.len(),
        !b.pending.contains(j as usize),
    ensures
        b.dismissed().values[j] == b.values[j],
{
}

/// A key pressed in a frame in which it was not released before is still
/// held after the dismissal.
pub proof fn law_press_survives_dismissal(b: AxisBankView, n: nat, m: nat, i: int)
    requires
        b.inv(n, m),
        0 <= i < n,
        !b.pending.contains(i as usize),
    ensures
        b.set(i, AXIS_DOWN).dismissed().values[i] == AXIS_DOWN,
{
    assert(b.set(i, AXIS_DOWN).pending == b.pending);
}

/// Dismissing twice is dismissing once.
pub proof fn law_dismissal_idempotent(b: AxisBankView)
    ensures
        b.dismissed().dismissed() == b.dismissed(),
{
    assert(b.dismissed().dismissed().values =~= b.dismissed().values);
    assert(b.dismissed().dismissed().pending =~= b.dismissed().pending);
}

/// Of several debug modes selected in one frame, the last one is kept,
/// whatever the clear request says.
pub proof fn law_last_selected_debug_mode_wins(current: Option<u16>, clear: bool, modes: Seq<u16>)
    requires
        modes.len() > 0,
    ensures
        debug_mode_after(current, clear, modes) == Some(modes[modes.len() - 1]),
{
}

/// Setting an axis makes it hold exactly the value set, whatever that value
/// is, and leaves every other axis as it was; only a negative value is queued.
pub proof fn law_set_reads_back(b: AxisBankView, i: int, v: u32)
    requires
        0 <= i < b.values.len(),
    ensures
        b.set(i, v).values.len() == b.values.len(),
        b.set(i, v).values[i] == v,
        forall|j: int| 0 <= j < b.values.len() && j != i ==> #[trigger] b.set(i, v).values[j] == b.values[j],
        encodes_negative(v) ==> b.set(i, v).pending == b.pending.push(i as usize),
        !encodes_negative(v) ==> b.set(i, v).pending == b.pending,
{
}

/// The digits selected among the first `n` axes are exactly those whose axis
/// holds a negative value, each once, in increasing order.
pub proof fn law_released_digits_are_the_negative_axes(values: Seq<u32>, n: nat)
    requires
        n <= values.len(),
        n <= 0x1_0000,
    ensures
        forall|d: u16|
            released_digits(values, n).contains(d) <==> (d < n && encodes_negative(
                #[trigger] values[d as int],
            )),
        forall|a: int, b: int|
            0 <= a < b < released_digits(values, n).len() ==> released_digits(values, n)[a]
                < released_digits(values, n)[b],
        forall|a: int|
            0 <= a < released_digits(values, n).len() ==> #[trigger] released_digits(values, n)[a]
                < n,
    decreases n,
{
    if n > 0 {
        let m = (n - 1) as nat;
        law_released_digits_are_the_negative_axes(values, m);
        let prev = released_digits(values, m);
        let r = released_digits(values, n);
        if encodes_negative(values[m as int]) {
            assert(r == prev.push(m as u16));
            assert forall|d: u16| r.contains(d) <==> (d < n && encodes_negative(
                #[trigger] values[d as int],
            )) by {
                if r.contains(d) {
                    let k = choose|k: int| 0 <= k < r.len() && r[k] == d;
                    if k < prev.len() {
                        assert(prev[k] == d);
                        assert(prev.contains(d));
                    }
                }
                if d < n && encodes_negative(values[d as int]) {
                    if d == m {
                        assert(r[r.len() - 1] == d);
                    } else {
                        assert(prev.contains(d));
                        let k = choose|k: int| 0 <= k < prev.len() && prev[k] == d;
                        assert(r[k] == d);
                    }
                }
            }
        } else {
            assert forall|d: u16| r.contains(d) <==> (d < n && encodes_negative(
                #[trigger] values[d as int],
            )) by {
                if d < n && encodes_negative(values[d as int]) {
                    assert(d != m);
                    assert(prev.contains(d));
                }
            }
        }
    }
}

/// A key that steps playback fires whenever it is released, with or without
/// Shift; held down it fires exactly when Shift is held; idle (or NaN) it
/// never fires.
pub proof fn law_step_key_fires(v: u32, shift: bool)
    ensures
        encodes_negative(v) ==> step_key_fires(v, shift),
        encodes_positive(v) ==> (step_key_fires(v, shift) == shift),
        !encodes_negative(v) && !encodes_positive(v) ==> !step_key_fires(v, shift),
{
}

/// A clear request without any selected digit leaves debug mode, whatever the
/// current mode; with no request at all the mode stays.
pub proof fn law_debug_mode_clear_and_keep(current: Option<u16>, clear: bool, modes: Seq<u16>)
    requires
        modes.len() == 0,
    ensures
        clear ==> debug_mode_after(current, clear, modes) == None::<u16>,
        !clear ==> debug_mode_after(current, clear, modes) == current,
{
}

} // verus!
