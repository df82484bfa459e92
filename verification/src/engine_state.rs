use vstd::prelude::*;

use crate::axis::{encodes_negative, encodes_positive, is_negative, is_positive};
use crate::input::{idle_bank, KeyboardState, KeyboardView, MouseState, MouseView};

verus! {

/// Rendering quality chosen by the user.
#[derive(Clone, Copy, PartialEq, Eq, Structural, Debug)]
pub enum GraphicsLevel {
    Minimal,
    Low,
    Medium,
    High,
    Ultra,
}

impl Default for GraphicsLevel {
    fn default() -> (g: Self)
        ensures
            g == GraphicsLevel::Medium,
    {
        GraphicsLevel::Medium
    }
}

/// Settings that change rarely; a change is flagged until the end of the
/// frame so that dependent resources can be rebuilt.
#[derive(Clone, Copy)]
struct StableState {
    screen_size: (u32, u32),
    graphics_level: GraphicsLevel,
    debug_mode: Option<u16>,
}

/// What the engine state holds apart from clock values.
pub struct ExternalStateView {
    pub mouse: MouseView,
    pub keyboard: KeyboardView,
    pub frame_idx: usize,
    pub mouse_viewport_position_px: (i32, i32),
    pub screen_size: (u32, u32),
    pub graphics_level: GraphicsLevel,
    pub debug_mode: Option<u16>,
    pub is_stable_updated: bool,
}

/// The pointer position with the origin moved to the bottom-left corner of a
/// screen of height `height` (the height read as an `i32`, as the engine does).
pub open spec fn viewport_position(canvas: (i32, i32), height: u32) -> (i32, i32) {
    (canvas.0, ((height as i32) - canvas.1) as i32)
}

/// The flipped vertical coordinate fits in an `i32`.
pub open spec fn viewport_fits(canvas: (i32, i32), height: u32) -> bool {
    i32::MIN <= (height as i32) - canvas.1 <= i32::MAX
}

impl ExternalStateView {
    /// The view after the derived position is recomputed.
    pub open spec fn rederived(self) -> ExternalStateView {
        ExternalStateView {
            mouse_viewport_position_px: viewport_position(
                self.mouse.canvas_position_px,
                self.screen_size.1,
            ),
            ..self
        }
    }

    /// The derived position can be recomputed without overflow.
    pub open spec fn can_rederive(self) -> bool {
        viewport_fits(self.mouse.canvas_position_px, self.screen_size.1)
    }
}

/// The engine's view of the outside world in one frame: input devices, frame
/// counter, screen and quality settings.
pub struct ExternalState {
    mouse: MouseState,
    keyboard: KeyboardState,
    frame_idx: usize,
    mouse_viewport_position_px: (i32, i32),
    stable: StableState,
    is_stable_updated: bool,
}

/// A copy of the engine state, handed to code that keeps history.
#[derive(Clone, Copy)]
pub struct ExternalStateData {
    pub mouse: MouseState,
    pub keyboard: KeyboardState,
    pub frame_idx: usize,
    pub screen_size: (u32, u32),
    pub graphics_level: GraphicsLevel,
    pub debug_mode: Option<u16>,
}

impl View for ExternalState {
    type V = ExternalStateView;

    closed spec fn view(&self) -> ExternalStateView {
        ExternalStateView {
            mouse: self.mouse@,
            keyboard: self.keyboard@,
            frame_idx: self.frame_idx,
            mouse_viewport_position_px: self.mouse_viewport_position_px,
            screen_size: self.stable.screen_size,
            graphics_level: self.stable.graphics_level,
            debug_mode: self.stable.debug_mode,
            is_stable_updated: self.is_stable_updated,
        }
    }
}

impl ExternalState {
    /// The input banks are well formed.
    pub closed spec fn wf(&self) -> bool {
        self.mouse.wf() && self.keyboard.wf()
    }

    /// A well-formed engine state satisfies the bank invariant in every input
    /// bank.
    pub proof fn lemma_wf(&self)
        requires
            self.wf(),
        ensures
            self@.mouse.buttons.inv(8, 10),
            self@.keyboard.letters.inv(32, 32),
            self@.keyboard.digits.inv(10, 10),
            self@.keyboard.punctuation.inv(32, 32),
            self@.keyboard.fkeys.inv(12, 12),
    {
        self.mouse.lemma_wf();
        self.keyboard.lemma_wf();
    }

    /// Recomputes the pointer position in viewport coordinates (origin at the
    /// bottom-left corner).
    pub fn update_derived_state(&mut self)
        requires
            old(self).wf(),
            old(self)@.can_rederive(),
        ensures
            final(self).wf(),
            final(self)@ == old(self)@.rederived(),
    {
        let canvas = self.mouse.canvas_position_px();
        let height = self.stable.screen_size.1 as i32;
        self.mouse_viewport_position_px = (canvas.0, height - canvas.1);
    }

    /// Starts the frame count again from 0.
    pub fn reset(&mut self)
        requires
            old(self).wf(),
            old(self)@.can_rederive(),
        ensures
            final(self).wf(),
            final(self)@ == (ExternalStateView { frame_idx: 0, ..old(self)@ }).rederived(),
    {
        self.frame_idx = 0;
        self.update_derived_state();
    }

    /// Sets the frame counter, as when a recorded frame is replayed.
    pub fn override_time(&mut self, frame_idx: usize)
        requires
            old(self).wf(),
            old(self)@.can_rederive(),
        ensures
            final(self).wf(),
            final(self)@ == (ExternalStateView { frame_idx, ..old(self)@ }).rederived(),
    {
        self.frame_idx = frame_idx;
        self.update_derived_state();
    }

    /// Advances to the next frame.
    pub fn tick(&mut self)
        requires
            old(self).wf(),
            old(self)@.can_rederive(),
            old(self)@.frame_idx < usize::MAX,
        ensures
            final(self).wf(),
            final(self)@ == (ExternalStateView {
                frame_idx: (old(self)@.frame_idx + 1) as usize,
                ..old(self)@
            }).rederived(),
    {
        self.frame_idx = self.frame_idx + 1;
        self.update_derived_state();
    }

    pub fn screen_size(&self) -> (r: (u32, u32))
        ensures
            r == self@.screen_size,
    {
        self.stable.screen_size
    }

    pub fn graphics_level(&self) -> (r: GraphicsLevel)
        ensures
            r == self@.graphics_level,
    {
        self.stable.graphics_level
    }

    pub fn debug_mode(&self) -> (r: Option<u16>)
        ensures
            r == self@.debug_mode,
    {
        self.stable.debug_mode
    }

    pub fn is_stable_updated(&self) -> (r: bool)
        ensures
            r == self@.is_stable_updated,
    {
        self.is_stable_updated
    }

    pub fn frame_idx(&self) -> (r: usize)
        ensures
            r == self@.frame_idx,
    {
        self.frame_idx
    }

    pub fn mouse_viewport_position_px(&self) -> (r: (i32, i32))
        ensures
            r == self@.mouse_viewport_position_px,
    {
        self.mouse_viewport_position_px
    }

    pub fn mouse(&self) -> (r: &MouseState)
        requires
            self.wf(),
        ensures
            r.wf(),
            r@ == self@.mouse,
    {
        &self.mouse
    }

    pub fn keyboard(&self) -> (r: &KeyboardState)
        requires
            self.wf(),
        ensures
            r.wf(),
            r@ == self@.keyboard,
    {
        &self.keyboard
    }

    /// Mutable access to the mouse, for the event handlers.
    pub fn mouse_mut(&mut self) -> (r: &mut MouseState)
        requires
            old(self).wf(),
        ensures
            r.wf(),
            r@ == old(self)@.mouse,
            final(r).wf() ==> final(self).wf(),
            final(self)@ == (ExternalStateView { mouse: final(r)@, ..old(self)@ }),
    {
        &mut self.mouse
    }

    /// Mutable access to the keyboard, for the event handlers.
    pub fn keyboard_mut(&mut self) -> (r: &mut KeyboardState)
        requires
            old(self).wf(),
        ensures
            r.wf(),
            r@ == old(self)@.keyboard,
            final(r).wf() ==> final(self).wf(),
            final(self)@ == (ExternalStateView { keyboard: final(r)@, ..old(self)@ }),
    {
        &mut self.keyboard
    }

    pub fn set_screen_size(&mut self, size: (u32, u32))
        ensures
            final(self).wf() == old(self).wf(),
            final(self)@ == (ExternalStateView {
                screen_size: size,
                is_stable_updated: true,
                ..old(self)@
            }),
    {
        self.stable.screen_size = size;
        self.is_stable_updated = true;
    }

    pub fn set_graphics_level(&mut self, graphics_level: GraphicsLevel)
        ensures
            final(self).wf() == old(self).wf(),
            final(self)@ == (ExternalStateView {
                graphics_level,
                is_stable_updated: true,
                ..old(self)@
            }),
    {
        self.stable.graphics_level = graphics_level;
        self.is_stable_updated = true;
    }

    pub fn set_debug_mode(&mut self, debug_mode: Option<u16>)
        ensures
            final(self).wf() == old(self).wf(),
            final(self)@ == (ExternalStateView { debug_mode, is_stable_updated: true, ..old(self)@ }),
    {
        self.stable.debug_mode = debug_mode;
        self.is_stable_updated = true;
    }

    /// Ends the frame's events: clears the settings-changed flag, resets every
    /// released button and key to 0.0 and empties the release queues.
    pub fn dismiss_events(&mut self)
        requires
            old(self).wf(),
        ensures
            final(self).wf(),
            final(self)@ == (ExternalStateView {
                is_stable_updated: false,
                mouse: old(self)@.mouse.with_buttons(old(self)@.mouse.buttons.dismissed()),
                keyboard: KeyboardView {
                    letters: old(self)@.keyboard.letters.dismissed(),
                    digits: old(self)@.keyboard.digits.dismissed(),
                    punctuation: old(self)@.keyboard.punctuation.dismissed(),
                    fkeys: old(self)@.keyboard.fkeys.dismissed(),
                    ..old(self)@.keyboard
                },
                ..old(self)@
            }),
            forall|j: int| 0 <= j < 8 ==> !encodes_negative(#[trigger] final(self)@.mouse.buttons.values[j]),
            forall|j: int|
                0 <= j < 32 ==> !encodes_negative(#[trigger] final(self)@.keyboard.letters.values[j]),
            forall|j: int|
                0 <= j < 10 ==> !encodes_negative(#[trigger] final(self)@.keyboard.digits.values[j]),
            forall|j: int|
                0 <= j < 32 ==> !encodes_negative(
                    #[trigger] final(self)@.keyboard.punctuation.values[j],
                ),
            forall|j: int|
                0 <= j < 12 ==> !encodes_negative(#[trigger] final(self)@.keyboard.fkeys.values[j]),
    {
        self.is_stable_updated = false;
        self.mouse.dismiss();
        self.keyboard.dismiss();
    }


    /// Applies the debug-mode part of a keyboard command: leave debug mode if
    /// asked, then select each requested mode in turn.
    pub fn apply_debug_shortcuts(&mut self, clear: bool, modes: &Vec<u16>)
        ensures
            final(self).wf() == old(self).wf(),
            final(self)@ == (ExternalStateView {
                debug_mode: debug_mode_after(old(self)@.debug_mode, clear, modes@),
                is_stable_updated: old(self)@.is_stable_updated || clear || modes@.len() > 0,
                ..old(self)@
            }),
            modes@.len() > 0 ==> final(self)@.debug_mode == Some(modes@[modes@.len() - 1]),
            modes@.len() == 0 && clear ==> final(self)@.debug_mode == None::<u16>,
            modes@.len() == 0 && !clear ==> final(self)@.debug_mode == old(self)@.debug_mode,
    {
        if clear {
            self.set_debug_mode(None);
        }
        let ghost start = self@;
        let mut i: usize = 0;
        while i < modes.len()
            invariant
                i <= modes@.len(),
                self.wf() == old(self).wf(),
                self@ == (ExternalStateView {
                    debug_mode: if i == 0 {
                        start.debug_mode
                    } else {
                        Some(modes@[i - 1])
                    },
                    is_stable_updated: start.is_stable_updated || i > 0,
                    ..start
                }),
            decreases modes@.len() - i,
        {
            self.set_debug_mode(Some(modes[i]));
            i = i + 1;
        }
    }

    /// A copy of the state.
    pub fn data(&self) -> (d: ExternalStateData)
        requires
            self.wf(),
        ensures
            d.mouse.wf(),
            d.keyboard.wf(),
            d.mouse@ == self@.mouse,
            d.keyboard@ == self@.keyboard,
            d.frame_idx == self@.frame_idx,
            d.screen_size == self@.screen_size,
            d.graphics_level == self@.graphics_level,
            d.debug_mode == self@.debug_mode,
    {
        ExternalStateData {
            mouse: self.mouse,
            keyboard: self.keyboard,
            frame_idx: self.frame_idx,
            screen_size: self.stable.screen_size,
            graphics_level: self.stable.graphics_level,
            debug_mode: self.stable.debug_mode,
        }
    }
}

/// What the keyboard shortcuts of one frame ask the demo to do.
pub struct KeyboardCommand {
    /// Start playing back the recorded history, or stop it (M, debug mode only).
    pub toggle_playback: bool,
    /// Step the playback backwards (comma released, or held with Shift).
    pub play_back: bool,
    /// Step the playback forwards (dot released, or held with Shift).
    pub play_forward: bool,
    /// Leave debug mode (Ctrl and backquote released).
    pub clear_debug_mode: bool,
    /// Debug modes selected with Ctrl and a released digit, in increasing order.
    pub debug_modes: Vec<u16>,
}

/// The digits among the first `n` axes whose value is negative, in
/// increasing order.
pub open spec fn released_digits(values: Seq<u32>, n: nat) -> Seq<u16>
    decreases n,
{
    if n == 0 {
        Seq::empty()
    } else {
        let prev = released_digits(values, (n - 1) as nat);
        if encodes_negative(values[n - 1]) {
            prev.push((n - 1) as u16)
        } else {
            prev
        }
    }
}

/// A key that steps playback fires when released, or while held with Shift.
pub open spec fn step_key_fires(value: u32, shift: bool) -> bool {
    encodes_negative(value) || (encodes_positive(value) && shift)
}

/// The shortcuts that `keyboard` triggers; `debug_mode_active` tells whether
/// a debug mode is currently selected.
pub fn keyboard_command(keyboard: &KeyboardState, debug_mode_active: bool) -> (c: KeyboardCommand)
    requires
        keyboard.wf(),
    ensures
        c.toggle_playback == (debug_mode_active && encodes_negative(keyboard@.letters.values[12])),
        c.play_back == step_key_fires(keyboard@.punctuation.values[1], keyboard@.shift),
        c.play_forward == step_key_fires(keyboard@.punctuation.values[2], keyboard@.shift),
        c.clear_debug_mode == (encodes_negative(keyboard@.punctuation.values[0]) && keyboard@.ctrl),
        c.debug_modes@ == if keyboard@.ctrl {
            released_digits(keyboard@.digits.values, 10)
        } else {
            Seq::empty()
        },
        encodes_negative(keyboard@.punctuation.values[1]) ==> c.play_back,
        encodes_positive(keyboard@.punctuation.values[1]) ==> c.play_back == keyboard@.shift,
        !encodes_negative(keyboard@.punctuation.values[1]) && !encodes_positive(
            keyboard@.punctuation.values[1],
        ) ==> !c.play_back,
        encodes_negative(keyboard@.punctuation.values[2]) ==> c.play_forward,
        encodes_positive(keyboard@.punctuation.values[2]) ==> c.play_forward == keyboard@.shift,
        !encodes_negative(keyboard@.punctuation.values[2]) && !encodes_positive(
            keyboard@.punctuation.values[2],
        ) ==> !c.play_forward,
        forall|d: u16|
            c.debug_modes@.contains(d) <==> (keyboard@.ctrl && d < 10 && encodes_negative(
                #[trigger] keyboard@.digits.values[d as int],
            )),
        forall|a: int, b: int|
            0 <= a < b < c.debug_modes@.len() ==> c.debug_modes@[a] < c.debug_modes@[b],
{
    proof {
        keyboard.lemma_wf();
        crate::laws::law_released_digits_are_the_negative_axes(keyboard@.digits.values, 10);
        crate::laws::law_step_key_fires(keyboard@.punctuation.values[1], keyboard@.shift);
        crate::laws::law_step_key_fires(keyboard@.punctuation.values[2], keyboard@.shift);
    }
    let shift = keyboard.shift();
    let ctrl = keyboard.ctrl();
    let toggle_playback = debug_mode_active && is_negative(keyboard.m());
    let comma = keyboard.comma();
    let play_back = is_negative(comma) || (is_positive(comma) && shift);
    let dot = keyboard.dot();
    let play_forward = is_negative(dot) || (is_positive(dot) && shift);
    let clear_debug_mode = is_negative(keyboard.backquote()) && ctrl;
    let mut debug_modes: Vec<u16> = Vec::new();
    let mut i: usize = 0;
    while i < 10
        invariant
            i <= 10,
            keyboard.wf(),
            ctrl == keyboard@.ctrl,
            debug_modes@ == if ctrl {
                released_digits(keyboard@.digits.values, i as nat)
            } else {
                Seq::empty()
            },
        decreases 10 - i,
    {
        if is_negative(keyboard.digit_value(i)) && ctrl {
            debug_modes.push(i as u16);
        }
        i = i + 1;
    }
    KeyboardCommand { toggle_playback, play_back, play_forward, clear_debug_mode, debug_modes }
}

/// The debug mode after the shortcuts: the last selected digit wins, else a
/// clear request leaves debug mode, else it stays.
pub open spec fn debug_mode_after(current: Option<u16>, clear: bool, modes: Seq<u16>) -> Option<u16> {
    if modes.len() > 0 {
        Some(modes.last())
    } else if clear {
        None
    } else {
        current
    }
}

impl Default for ExternalState {
    fn default() -> (s: Self)
        ensures
            s.wf(),
            s@ == (ExternalStateView {
                mouse: MouseView { buttons: idle_bank(8), wheel: (0, 0), canvas_position_px: (0, 0) },
                keyboard: KeyboardView {
                    shift: false,
                    alt: false,
                    ctrl: false,
                    letters: idle_bank(32),
                    digits: idle_bank(10),
                    punctuation: idle_bank(32),
                    fkeys: idle_bank(12),
                },
                frame_idx: 0,
                mouse_viewport_position_px: (0, 0),
                screen_size: (1, 1),
                graphics_level: GraphicsLevel::Medium,
                debug_mode: None,
                is_stable_updated: true,
            }),
    {
        ExternalState {
            mouse: MouseState::default(),
            keyboard: KeyboardState::default(),
            frame_idx: 0,
            mouse_viewport_position_px: (0, 0),
            stable: StableState {
                screen_size: (1, 1),
                graphics_level: GraphicsLevel::default(),
                debug_mode: None,
            },
            is_stable_updated: true,
        }
    }
}

} // verus!
