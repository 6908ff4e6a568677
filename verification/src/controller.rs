use vstd::prelude::*;

verus! {

/// Which of the two screens the controller has selected. Exactly one
/// screen is selected at any time.
#[derive(Clone, Copy, Debug, PartialEq, Eq, Structural, Hash)]
pub enum ActiveWindowEnum {
    Typing,
    Stats,
}

/// One polled terminal key, reduced to what the transition table reads:
/// a printable character, the escape key, the enter key, or anything
/// else (which is only forwarded to the active screen).
#[derive(Clone, Copy, Debug, PartialEq, Eq, Structural)]
pub enum AppKey {
    Char(char),
    Esc,
    Enter,
    Other,
}

/// The controller's state: the exit flag, the blocking-overlay flag, the
/// selected screen, and the focus flag of each screen. The two focus
/// flags mirror the selection; [`App::wf`] states that they stay in
/// step, so exactly one screen is ever active.
#[derive(Clone, Copy, Debug, PartialEq, Eq, Structural)]
pub struct App {
    pub is_exit: bool,
    pub is_loading: bool,
    pub active_window: ActiveWindowEnum,
    pub typing_active: bool,
    pub stats_active: bool,
}

/// The transition table, as a function from state and key to the next
/// state:
/// `'1'` selects the typing screen, `'2'` the stats screen, `'q'` and
/// escape set the exit flag, and every other key (enter included, a
/// reserved extension point) leaves the state unchanged and is only
/// forwarded to the active screen.
pub open spec fn next_state(s: App, key: AppKey) -> App {
    if key == AppKey::Char('1') {
        App {
            active_window: ActiveWindowEnum::Typing,
            typing_active: true,
            stats_active: false,
            ..s
        }
    } else if key == AppKey::Char('2') {
        App {
            active_window: ActiveWindowEnum::Stats,
            typing_active: false,
            stats_active: true,
            ..s
        }
    } else if key == AppKey::Char('q') || key == AppKey::Esc {
        App { is_exit: true, ..s }
    } else {
        s
    }
}

impl App {
    /// Each screen's own focus flag agrees with the controller's
    /// selection, so exactly one screen is active.
    pub open spec fn wf(self) -> bool {
        &&& self.typing_active == (self.active_window == ActiveWindowEnum::Typing)
        &&& self.stats_active == (self.active_window == ActiveWindowEnum::Stats)
    }

    /// The startup state: running (not exited), no blocking overlay, and
    /// the typing screen selected and active.
    pub fn new() -> (r: Self)
        ensures
            !r.is_exit,
            !r.is_loading,
            r.active_window == ActiveWindowEnum::Typing,
            r.wf(),
    {
        Self {
            is_exit: false,
            is_loading: false,
            active_window: ActiveWindowEnum::Typing,
            typing_active: true,
            stats_active: false,
        }
    }

    /// Applies the transition table to one polled key.
    pub fn handle_key_event(&mut self, key: AppKey)
        ensures
            *final(self) == next_state(*old(self), key),
    {
        match key {
            AppKey::Char(c) => {
                if c == '1' {
                    self.active_window = ActiveWindowEnum::Typing;
                    self.typing_active = true;
                    self.stats_active = false;
                } else if c == '2' {
                    self.active_window = ActiveWindowEnum::Stats;
                    self.typing_active = false;
                    self.stats_active = true;
                } else if c == 'q' {
                    self.is_exit = true;
                }
            },
            AppKey::Esc => {
                self.is_exit = true;
            },
            _ => {},
        }
    }

    /// Whether the given screen is the selected one; the renderer gives
    /// the selected screen's border the highlighted colour and every
    /// other border the dim one.
    pub fn is_window_selected(&self, current_window: ActiveWindowEnum) -> (r: bool)
        ensures
            r == (self.active_window == current_window),
    {
        self.active_window == current_window
    }

    /// Whether the loop should stop: set exactly by `'q'` or escape.
    pub fn should_exit(&self) -> (r: bool)
        ensures
            r == self.is_exit,
    {
        self.is_exit
    }
}

/// A well-formed controller state has exactly one active screen: at
/// least one of the two focus flags is set, and never both.
pub proof fn lemma_one_active_window(s: App)
    requires
        s.wf(),
    ensures
        s.typing_active || s.stats_active,
        !(s.typing_active && s.stats_active),
{
}

/// Switching screens (or any other transition) keeps the focus flags in
/// step with the selection, so afterwards there is still exactly one
/// active screen.
pub proof fn lemma_transition_keeps_one_active(s: App, key: AppKey)
    requires
        s.wf(),
    ensures
        next_state(s, key).wf(),
{
}

/// The loop state becomes exited on `'q'` or escape from any state, and
/// on no other input: after a transition the exit flag is set exactly
/// when it already was or the key was one of those two.
pub proof fn lemma_exit_transitions(s: App, key: AppKey)
    ensures
        next_state(s, key).is_exit <==> (s.is_exit || key == AppKey::Char('q') || key
            == AppKey::Esc),
{
}

} // verus!
