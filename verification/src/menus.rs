//! The small input-driven machines around a match: the hidden code
//! that toggles retaliate mode, level-select navigation, the pause
//! menu, and the results-screen sequencer.

use vstd::prelude::*;
use crate::config::LEVEL_COUNT;
use crate::timer::Countdown;

verus! {

/// A just-pressed key, as the code and menu machines see it.
#[derive(Clone, Copy, PartialEq, Eq, Structural, Debug)]
pub enum MenuKey {
    UpKey,
    DownKey,
    LeftKey,
    RightKey,
    ConfirmKey,
    CancelKey,
    StartKey,
    SelectKey,
}

/// How far the hidden code has been entered; the code is complete at
/// this count of correct presses.
pub const CODE_LENGTH: u32 = 12;

/// The next progress of the hidden-code entry: a press that continues
/// the sequence advances it, any other restarts it; `CODE_LENGTH`
/// means the code just completed.
pub open spec fn spec_code_step(state: int, key: MenuKey) -> int {
    match key {
        MenuKey::UpKey => if state == 0 || state == 1 || state == 6 || state == 8 {
            state + 1
        } else {
            0
        },
        MenuKey::DownKey => if state == 3 || state == 5 {
            state + 1
        } else {
            0
        },
        MenuKey::LeftKey => if state == 2 || state == 4 || state == 7 {
            state + 1
        } else {
            0
        },
        MenuKey::RightKey => if state == 9 {
            state + 1
        } else {
            0
        },
        MenuKey::SelectKey => if state == 10 {
            state + 1
        } else {
            0
        },
        MenuKey::StartKey => if state == 11 {
            12
        } else {
            0
        },
        _ => state,
    }
}

/// Advance the hidden-code entry by one key press.  When the final
/// press completes the code, the retaliate flag flips and the entry
/// restarts; the returned flag reports that completion.
pub fn code_step(state: u32, key: MenuKey, retaliate: bool) -> (r: (u32, bool, bool))
    requires
        state < CODE_LENGTH,
    ensures
        r.2 == (spec_code_step(state as int, key) == CODE_LENGTH),
        r.0 == (if spec_code_step(state as int, key) == CODE_LENGTH {
            0int
        } else {
            spec_code_step(state as int, key)
        }),
        r.0 < CODE_LENGTH,
        r.1 == (if r.2 {
            !retaliate
        } else {
            retaliate
        }),
{
    let next: u32 = match key {
        MenuKey::UpKey => if state == 0 || state == 1 || state == 6 || state == 8 {
            state + 1
        } else {
            0
        },
        MenuKey::DownKey => if state == 3 || state == 5 {
            state + 1
        } else {
            0
        },
        MenuKey::LeftKey => if state == 2 || state == 4 || state == 7 {
            state + 1
        } else {
            0
        },
        MenuKey::RightKey => if state == 9 {
            state + 1
        } else {
            0
        },
        MenuKey::SelectKey => if state == 10 {
            state + 1
        } else {
            0
        },
        MenuKey::StartKey => if state == 11 {
            12
        } else {
            0
        },
        _ => state,
    };
    if next == CODE_LENGTH {
        (0, !retaliate, true)
    } else {
        (next, retaliate, false)
    }
}

/// The level index selected after one navigation key: up and down move
/// by a row of three, left and right by one, all wrapping.
pub open spec fn spec_select_nav(level: int, key: MenuKey) -> int {
    match key {
        MenuKey::UpKey => (level + 3) % (LEVEL_COUNT as int),
        MenuKey::DownKey => (level + 3) % (LEVEL_COUNT as int),
        MenuKey::LeftKey => (level + 5) % (LEVEL_COUNT as int),
        MenuKey::RightKey => (level + 1) % (LEVEL_COUNT as int),
        _ => level,
    }
}

/// Move the level-select highlight by one key press.
pub fn select_nav(level: usize, key: MenuKey) -> (r: usize)
    requires
        level < LEVEL_COUNT,
    ensures
        r == spec_select_nav(level as int, key),
        r < LEVEL_COUNT,
{
    match key {
        MenuKey::UpKey => (level + 3) % LEVEL_COUNT,
        MenuKey::DownKey => (level + 3) % LEVEL_COUNT,
        MenuKey::LeftKey => (level + 5) % LEVEL_COUNT,
        MenuKey::RightKey => (level + 1) % LEVEL_COUNT,
        _ => level,
    }
}

/// Whether confirming a level turns endless mode on: exactly on the
/// endless level.
pub fn select_confirm_endless(level: usize) -> (r: bool)
    ensures
        r == (level == crate::config::ENDLESS_LEVEL),
{
    level == crate::config::ENDLESS_LEVEL
}

/// What the pause menu decides for one key press.
#[derive(Clone, Copy, PartialEq, Eq, Structural, Debug)]
pub enum PauseAction {
    /// The menu stays up.
    StayPaused,
    /// The match resumes.
    Resume,
    /// The match is abandoned for the main menu.
    QuitToMenu,
}

/// The pause-menu highlight after one key press: up and down toggle
/// between its two rows.
pub open spec fn spec_pause_highlight(h: int, key: MenuKey) -> int {
    match key {
        MenuKey::UpKey => (h + 1) % 2,
        MenuKey::DownKey => (h + 1) % 2,
        _ => h,
    }
}

/// Drive the pause menu by one key press: confirm acts on the
/// highlighted row (resume or quit), cancel and start resume.
pub fn pause_nav(highlight: u32, key: MenuKey) -> (r: (u32, PauseAction))
    requires
        highlight < 2,
    ensures
        r.0 == spec_pause_highlight(highlight as int, key),
        r.0 < 2,
        r.1 == (match key {
            MenuKey::ConfirmKey => if highlight == 1 {
                PauseAction::QuitToMenu
            } else {
                PauseAction::Resume
            },
            MenuKey::CancelKey => PauseAction::Resume,
            MenuKey::StartKey => PauseAction::Resume,
            _ => PauseAction::StayPaused,
        }),
{
    match key {
        MenuKey::UpKey => ((highlight + 1) % 2, PauseAction::StayPaused),
        MenuKey::DownKey => ((highlight + 1) % 2, PauseAction::StayPaused),
        MenuKey::ConfirmKey => (
            highlight,
            if highlight == 1 {
                PauseAction::QuitToMenu
            } else {
                PauseAction::Resume
            },
        ),
        MenuKey::CancelKey => (highlight, PauseAction::Resume),
        MenuKey::StartKey => (highlight, PauseAction::Resume),
        _ => (highlight, PauseAction::StayPaused),
    }
}

/// Time between two automatic advances of the results screen, in
/// milliseconds.
pub const RESULT_STEP_MS: u32 = 1000;

/// Index of the last results panel.
pub const LAST_PANEL: u32 = 2;

/// The results-screen sequencer: reveals its panels one by one, on a
/// halved automatic clock or at once on a manual press, and blinks the
/// final text.
#[derive(Clone, Copy, PartialEq, Eq, Structural, Debug)]
pub struct ResultScreen {
    /// How many panels have been revealed, up to `LAST_PANEL + 1`.
    pub revealed: u32,
    /// Halves the automatic clock: panels advance on every second
    /// elapse.
    pub divider: bool,
    /// The automatic clock.
    pub timer: Countdown,
}

/// What one step of the results screen asks the presentation to do.
#[derive(Clone, Copy, PartialEq, Eq, Structural, Debug)]
pub struct ResultStep {
    /// Reveal this panel, clearing the earlier ones first when it is
    /// the last.
    pub reveal_panel: Option<u32>,
    /// Leave the results screen for the main menu.
    pub to_menu: bool,
    /// Toggle the final text's visibility.
    pub blink: bool,
}

impl ResultScreen {
    /// Structural soundness of the sequencer.
    pub open spec fn wf(self) -> bool {
        &&& self.revealed <= LAST_PANEL + 1
        &&& self.timer.wf()
        &&& self.timer.duration_ms == RESULT_STEP_MS
        &&& self.timer.repeating
    }

    /// A fresh results screen: nothing revealed.
    pub fn new() -> (r: ResultScreen)
        ensures
            r.wf(),
            r.revealed == 0,
            !r.divider,
            r.timer.elapsed_ms == 0,
            !r.timer.just_elapsed,
    {
        ResultScreen { revealed: 0, divider: false, timer: Countdown::new(RESULT_STEP_MS, true) }
    }

    /// Whether one step of the results screen advances a panel: on a
    /// manual press, or on an automatic clock elapse on which the
    /// halving divider comes up, while panels remain.
    pub open spec fn spec_advances(self, manual: bool, dt: int) -> bool {
        let t = crate::mech::spec_ticked(self.timer, dt);
        let gate = manual || (t.just_elapsed && !self.divider);
        gate && self.revealed <= LAST_PANEL
    }

    /// Advance the results screen by one tick.  A manual press rewinds
    /// the automatic clock and advances at once; otherwise panels
    /// advance on every second elapse of the clock.  After the last
    /// panel, a manual press leaves for the menu, and the final text
    /// blinks on each elapse while `blink_enabled` holds.
    pub fn step(&mut self, manual: bool, blink_enabled: bool, dt_ms: u32) -> (r: ResultStep)
        requires
            old(self).wf(),
            1 <= dt_ms <= crate::timer::MAX_TICK_MS,
        ensures
            final(self).wf(),
            // A panel advances exactly on a manual press or on every
            // second automatic elapse, while panels remain.
            r.reveal_panel == (if old(self).spec_advances(manual, dt_ms as int) {
                Some(old(self).revealed)
            } else {
                None::<u32>
            }),
            final(self).revealed == old(self).revealed
                + (if old(self).spec_advances(manual, dt_ms as int) {
                1int
            } else {
                0int
            }),
            // A manual press past the last panel is the one exit.
            r.to_menu == (manual && old(self).revealed == LAST_PANEL + 1),
            // The automatic clock rewinds on a manual press, and the
            // divider flips on each elapse.
            final(self).timer == (if manual {
                Countdown { elapsed_ms: 0, just_elapsed: false, ..old(self).timer }
            } else {
                crate::mech::spec_ticked(old(self).timer, dt_ms as int)
            }),
            final(self).divider == (if manual {
                false
            } else if crate::mech::spec_ticked(old(self).timer, dt_ms as int).just_elapsed {
                !old(self).divider
            } else {
                old(self).divider
            }),
            r.blink == (final(self).revealed == LAST_PANEL + 1 && blink_enabled
                && final(self).timer.just_elapsed),
    {
        self.timer.tick(dt_ms);
        let mut auto = self.timer.just_finished();
        if auto {
            self.divider = !self.divider;
        }
        if manual {
            auto = false;
            self.timer.reset();
            self.divider = false;
        }
        let mut step = ResultStep { reveal_panel: None, to_menu: false, blink: false };
        if manual || (auto && self.divider) {
            if self.revealed <= LAST_PANEL {
                step.reveal_panel = Some(self.revealed);
                self.revealed = self.revealed + 1;
            } else if manual {
                step.to_menu = true;
            }
        }
        if self.revealed == LAST_PANEL + 1 && blink_enabled && self.timer.just_finished() {
            step.blink = true;
        }
        step
    }
}

} // verus!
