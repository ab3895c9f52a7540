//! The per-frame state machine: display toggles, keyboard commands, timed
//! rotation, and the wrap-around advance through the flag list.
//!
//! Each frame the surrounding program reports the elapsed time and at most
//! one pressed key; the step function here decides the next state and
//! whether to quit or to reset the rotation timer. A jump command whose
//! target index is not a valid flag index is ignored, so the current flag
//! index always stays in range.

use vstd::prelude::*;

verus! {

/// The two live display toggles, initialized from the loaded configuration
/// and flipped by keyboard commands afterwards.
#[derive(Clone, Copy, PartialEq, Eq, Structural, Debug)]
pub struct RenderConfig {
    pub show_flag_name: bool,
    pub show_color_names: bool,
}

/// `config` with the flag-name toggle flipped.
pub open spec fn spec_toggle_flag_name(config: RenderConfig) -> RenderConfig {
    RenderConfig { show_flag_name: !config.show_flag_name, show_color_names: config.show_color_names }
}

/// `config` with the color-names toggle flipped.
pub open spec fn spec_toggle_color_names(config: RenderConfig) -> RenderConfig {
    RenderConfig { show_flag_name: config.show_flag_name, show_color_names: !config.show_color_names }
}

/// Flips whether the flag's name is drawn.
pub fn toggle_flag_name(config: &mut RenderConfig)
    ensures
        *final(config) == spec_toggle_flag_name(*old(config)),
{
    config.show_flag_name = !config.show_flag_name;
}

/// Flips whether each stripe's color name is drawn.
pub fn toggle_color_names(config: &mut RenderConfig)
    ensures
        *final(config) == spec_toggle_color_names(*old(config)),
{
    config.show_color_names = !config.show_color_names;
}

/// Law: toggling a display option twice returns the configuration to its
/// original state, for either toggle and every starting state.
pub proof fn lemma_toggle_twice_is_identity(config: RenderConfig)
    ensures
        spec_toggle_flag_name(spec_toggle_flag_name(config)) == config,
        spec_toggle_color_names(spec_toggle_color_names(config)) == config,
{
}

/// One keyboard command.
#[derive(Clone, Copy, PartialEq, Eq, Structural, Debug)]
pub enum InputAction {
    /// Leave the display loop.
    Quit,
    /// Advance to the next flag now, without waiting for the timer.
    Advance,
    /// Display the flag at a fixed position in the list.
    JumpTo { target: usize },
    /// Flip whether the flag's name is drawn.
    ToggleFlagName,
    /// Flip whether each stripe's color name is drawn.
    ToggleColorNames,
}

/// The fixed key bindings: `q` quits, `k` advances, `t`/`b`/`g`/`p` jump to
/// the first four list positions, `f` and `c` flip the display toggles.
/// Every other key does nothing.
pub open spec fn spec_action_for_key(key: char) -> Option<InputAction> {
    if key == 'q' {
        Some(InputAction::Quit)
    } else if key == 'k' {
        Some(InputAction::Advance)
    } else if key == 't' {
        Some(InputAction::JumpTo { target: 0 })
    } else if key == 'b' {
        Some(InputAction::JumpTo { target: 1 })
    } else if key == 'g' {
        Some(InputAction::JumpTo { target: 2 })
    } else if key == 'p' {
        Some(InputAction::JumpTo { target: 3 })
    } else if key == 'f' {
        Some(InputAction::ToggleFlagName)
    } else if key == 'c' {
        Some(InputAction::ToggleColorNames)
    } else {
        None
    }
}

/// Maps a pressed key to its command under the fixed bindings.
pub fn action_for_key(key: char) -> (action: Option<InputAction>)
    ensures
        action == spec_action_for_key(key),
{
    if key == 'q' {
        Some(InputAction::Quit)
    } else if key == 'k' {
        Some(InputAction::Advance)
    } else if key == 't' {
        Some(InputAction::JumpTo { target: 0 })
    } else if key == 'b' {
        Some(InputAction::JumpTo { target: 1 })
    } else if key == 'g' {
        Some(InputAction::JumpTo { target: 2 })
    } else if key == 'p' {
        Some(InputAction::JumpTo { target: 3 })
    } else if key == 'f' {
        Some(InputAction::ToggleFlagName)
    } else if key == 'c' {
        Some(InputAction::ToggleColorNames)
    } else {
        None
    }
}

/// The rotation state: which flag is shown, and whether an advance was
/// scheduled during the current frame (by the timer or the advance key) to
/// be applied when the frame ends.
#[derive(Clone, Copy, PartialEq, Eq, Structural, Debug)]
pub struct LoopState {
    pub flag_index: usize,
    pub advance_pending: bool,
}

/// The state is well formed when the current index denotes a flag in a list
/// of `flag_count` flags.
pub open spec fn state_wf(s: LoopState, flag_count: int) -> bool {
    s.flag_index < flag_count
}

/// The state at startup: the first flag shown, no advance scheduled.
pub fn initial_state() -> (s: LoopState)
    ensures
        s.flag_index == 0,
        !s.advance_pending,
{
    LoopState { flag_index: 0, advance_pending: false }
}

/// The index shown after one advance: the next flag, wrapping from the end
/// of the list back to the start.
pub open spec fn spec_next_index(index: int, flag_count: int) -> int {
    if index + 1 == flag_count {
        0
    } else {
        index + 1
    }
}

/// Law: an advance from any valid index yields a valid index, it wraps from
/// the last index to zero, and otherwise moves one step forward. Hence the
/// index stays in range under any single advance.
pub proof fn lemma_advance_in_range(index: int, flag_count: int)
    requires
        1 <= flag_count,
        0 <= index < flag_count,
    ensures
        0 <= spec_next_index(index, flag_count) < flag_count,
        index == flag_count - 1 ==> spec_next_index(index, flag_count) == 0,
        index < flag_count - 1 ==> spec_next_index(index, flag_count) == index + 1,
{
}

/// The index after `count` advances in a row.
pub open spec fn spec_advance_many(index: int, flag_count: int, count: nat) -> int
    decreases count,
{
    if count == 0 {
        index
    } else {
        spec_next_index(spec_advance_many(index, flag_count, (count - 1) as nat), flag_count)
    }
}

/// Law: after any sequence of advances from a valid index, the index is
/// still a valid position in the flag list.
pub proof fn lemma_advance_many_in_range(index: int, flag_count: int, count: nat)
    requires
        1 <= flag_count,
        0 <= index < flag_count,
    ensures
        0 <= spec_advance_many(index, flag_count, count) < flag_count,
    decreases count,
{
    if count > 0 {
        lemma_advance_many_in_range(index, flag_count, (count - 1) as nat);
    }
}

/// `s` after the timer check: once the elapsed time exceeds the configured
/// delay, an advance is scheduled for the end of the frame.
pub open spec fn spec_observe_timer(s: LoopState, elapsed_seconds: u64, delay_seconds: u64) -> LoopState {
    LoopState {
        flag_index: s.flag_index,
        advance_pending: s.advance_pending || elapsed_seconds > delay_seconds,
    }
}

/// Schedules an advance when the elapsed time since the last flag change
/// exceeds the rotation delay.
pub fn observe_timer(s: &mut LoopState, elapsed_seconds: u64, delay_seconds: u64)
    ensures
        *final(s) == spec_observe_timer(*old(s), elapsed_seconds, delay_seconds),
{
    if elapsed_seconds > delay_seconds {
        s.advance_pending = true;
    }
}

/// What a keyboard command does: the next rotation state, the next display
/// toggles, whether to quit, and whether the rotation timer restarts now.
/// A jump to a position outside the flag list is ignored.
pub open spec fn spec_apply_action(
    s: LoopState,
    config: RenderConfig,
    action: InputAction,
    flag_count: int,
) -> (LoopState, RenderConfig, bool, bool) {
    match action {
        InputAction::Quit => (s, config, true, false),
        InputAction::Advance => (
            LoopState { flag_index: s.flag_index, advance_pending: true },
            config,
            false,
            false,
        ),
        InputAction::JumpTo { target } => if target < flag_count {
            (LoopState { flag_index: target, advance_pending: false }, config, false, true)
        } else {
            (s, config, false, false)
        },
        InputAction::ToggleFlagName => (s, spec_toggle_flag_name(config), false, false),
        InputAction::ToggleColorNames => (s, spec_toggle_color_names(config), false, false),
    }
}

/// The outcome of a keyboard command or of a whole frame.
#[derive(Clone, Copy, PartialEq, Eq, Structural, Debug)]
pub struct FrameOutcome {
    /// The display loop should end.
    pub quit: bool,
    /// The rotation timer restarts at this frame.
    pub reset_timer: bool,
}

/// Applies one keyboard command. An advance is only scheduled here; it takes
/// effect, and restarts the timer, when the frame ends. A jump takes effect
/// and restarts the timer immediately, and it cancels a scheduled advance; a
/// jump outside the flag list is ignored. Quitting changes nothing else.
pub fn apply_action(
    s: &mut LoopState,
    config: &mut RenderConfig,
    action: InputAction,
    flag_count: usize,
) -> (out: FrameOutcome)
    requires
        1 <= flag_count,
        state_wf(*old(s), flag_count as int),
    ensures
        state_wf(*final(s), flag_count as int),
        ({
            let step = spec_apply_action(*old(s), *old(config), action, flag_count as int);
            *final(s) == step.0 && *final(config) == step.1 && out.quit == step.2
                && out.reset_timer == step.3
        }),
{
    match action {
        InputAction::Quit => FrameOutcome { quit: true, reset_timer: false },
        InputAction::Advance => {
            s.advance_pending = true;
            FrameOutcome { quit: false, reset_timer: false }
        },
        InputAction::JumpTo { target } => {
            if target < flag_count {
                s.flag_index = target;
                s.advance_pending = false;
                FrameOutcome { quit: false, reset_timer: true }
            } else {
                FrameOutcome { quit: false, reset_timer: false }
            }
        },
        InputAction::ToggleFlagName => {
            toggle_flag_name(config);
            FrameOutcome { quit: false, reset_timer: false }
        },
        InputAction::ToggleColorNames => {
            toggle_color_names(config);
            FrameOutcome { quit: false, reset_timer: false }
        },
    }
}

/// `s` at the end of a frame, and whether the timer restarts: a scheduled
/// advance moves the index to the next flag, wrapping at the end of the
/// list, and restarts the timer; the schedule itself is always consumed.
pub open spec fn spec_end_frame(s: LoopState, flag_count: int) -> (LoopState, bool) {
    if s.advance_pending {
        (
            LoopState {
                flag_index: spec_next_index(s.flag_index as int, flag_count) as usize,
                advance_pending: false,
            },
            true,
        )
    } else {
        (s, false)
    }
}

/// Ends a frame: applies a scheduled advance, wrapping from the last flag
/// to the first, and reports whether the rotation timer restarts.
pub fn end_frame(s: &mut LoopState, flag_count: usize) -> (reset_timer: bool)
    requires
        1 <= flag_count,
        state_wf(*old(s), flag_count as int),
    ensures
        state_wf(*final(s), flag_count as int),
        !final(s).advance_pending,
        ({
            let step = spec_end_frame(*old(s), flag_count as int);
            *final(s) == step.0 && reset_timer == step.1
        }),
{
    let reset = s.advance_pending;
    if s.advance_pending {
        if s.flag_index + 1 == flag_count {
            s.flag_index = 0;
        } else {
            s.flag_index = s.flag_index + 1;
        }
        s.advance_pending = false;
    }
    reset
}

/// One whole frame of decisions: the timer check, then at most one pressed
/// key under the fixed bindings, then — unless the key quit the loop — the
/// application of any scheduled advance at the frame's end.
pub open spec fn spec_frame_step(
    s: LoopState,
    config: RenderConfig,
    elapsed_seconds: u64,
    delay_seconds: u64,
    key: Option<char>,
    flag_count: int,
) -> (LoopState, RenderConfig, bool, bool) {
    let timed = spec_observe_timer(s, elapsed_seconds, delay_seconds);
    let action = match key {
        Some(k) => spec_action_for_key(k),
        None => None,
    };
    let keyed = match action {
        Some(a) => spec_apply_action(timed, config, a, flag_count),
        None => (timed, config, false, false),
    };
    if keyed.2 {
        (keyed.0, keyed.1, true, false)
    } else {
        let ended = spec_end_frame(keyed.0, flag_count);
        (ended.0, keyed.1, false, keyed.3 || ended.1)
    }
}

/// Runs the decisions of one frame: the timer check, the pressed key if
/// any, and the end-of-frame advance. Returns whether to quit and whether
/// the rotation timer restarts; the caller draws the current flag and
/// performs the timing.
pub fn frame_step(
    s: &mut LoopState,
    config: &mut RenderConfig,
    elapsed_seconds: u64,
    delay_seconds: u64,
    key: Option<char>,
    flag_count: usize,
) -> (out: FrameOutcome)
    requires
        1 <= flag_count,
        state_wf(*old(s), flag_count as int),
    ensures
        state_wf(*final(s), flag_count as int),
        ({
            let step = spec_frame_step(
                *old(s),
                *old(config),
                elapsed_seconds,
                delay_seconds,
                key,
                flag_count as int,
            );
            *final(s) == step.0 && *final(config) == step.1 && out.quit == step.2
                && out.reset_timer == step.3
        }),
{
    observe_timer(s, elapsed_seconds, delay_seconds);
    let action = match key {
        Some(k) => action_for_key(k),
        None => None,
    };
    let keyed = match action {
        Some(a) => apply_action(s, config, a, flag_count),
        None => FrameOutcome { quit: false, reset_timer: false },
    };
    if keyed.quit {
        FrameOutcome { quit: true, reset_timer: false }
    } else {
        let end_reset = end_frame(s, flag_count);
        FrameOutcome { quit: false, reset_timer: keyed.reset_timer || end_reset }
    }
}

} // verus!
