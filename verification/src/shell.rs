//! The startup state machine of the shell: strategy selection per
//! platform, the one setup step, and the running / failed outcome. The
//! unverified host performs the native work and reports each outcome back.

use vstd::prelude::*;
use crate::menu::{native_menu_bar, native_menu_bar_view, MenuBar};
use crate::text::str_eq;

verus! {

/// How the shell treats the menu bar on the current platform: build and
/// install the native top-level menu, or install nothing and leave the
/// host's default behavior in place.
pub enum MenuStrategy {
    NativeTopLevelMenu,
    NoOp,
}

/// The phase the shell is in: configuring until the setup step reports,
/// then running for the rest of the process's life, or failed for good.
pub enum AppState {
    Configuring,
    Running,
    Failed,
}

/// The one error class of the shell: a setup or build failure, fatal to
/// startup. The detail is whatever the host reported.
pub struct SetupError {
    pub detail: String,
}

/// The platform name that selects the native top-level menu strategy.
pub open spec fn native_menu_platform() -> Seq<char> {
    "macos"@
}

/// Which strategy a platform gets: the native top-level menu exactly on
/// the one designated platform, no menu anywhere else.
pub open spec fn strategy_for(platform: Seq<char>) -> MenuStrategy {
    if platform == native_menu_platform() {
        MenuStrategy::NativeTopLevelMenu
    } else {
        MenuStrategy::NoOp
    }
}

/// The startup transition: from configuring, a successful setup step runs
/// and a failed one fails, fatally; the two final phases never move again.
pub open spec fn setup_transition(state: AppState, ok: bool) -> AppState {
    match state {
        AppState::Configuring => if ok {
            AppState::Running
        } else {
            AppState::Failed
        },
        AppState::Running => AppState::Running,
        AppState::Failed => AppState::Failed,
    }
}

/// Select the menu strategy for the platform the host reports.
pub fn select_strategy(platform: &str) -> (s: MenuStrategy)
    ensures
        s == strategy_for(platform@),
{
    if str_eq(platform, "macos") {
        MenuStrategy::NativeTopLevelMenu
    } else {
        MenuStrategy::NoOp
    }
}

/// The shell's startup context: the chosen menu strategy and the phase
/// reached so far.
pub struct Shell {
    state: AppState,
    strategy: MenuStrategy,
}

impl Shell {
    /// The phase the shell is in.
    pub closed spec fn phase(self) -> AppState {
        self.state
    }

    /// The menu strategy the shell was created with.
    pub closed spec fn menu_strategy(self) -> MenuStrategy {
        self.strategy
    }

    /// Create the shell for the platform the host reports: configuring,
    /// with the strategy that platform gets.
    pub fn new(platform: &str) -> (s: Shell)
        ensures
            s.phase() is Configuring,
            s.menu_strategy() == strategy_for(platform@),
    {
        Shell { state: AppState::Configuring, strategy: select_strategy(platform) }
    }

    /// The menu-bar plan the host must realize: the full native plan under
    /// the native strategy, nothing at all otherwise.
    pub fn menu_plan(&self, app_name: &str) -> (r: Option<MenuBar>)
        ensures
            (r is Some) == (self.menu_strategy() is NativeTopLevelMenu),
            r matches Some(m) ==> m@ == native_menu_bar_view(app_name@),
    {
        match self.strategy {
            MenuStrategy::NativeTopLevelMenu => Some(native_menu_bar(app_name)),
            MenuStrategy::NoOp => None,
        }
    }

    /// Record the outcome of the setup step: running on success, failed on
    /// failure. The strategy never changes.
    pub fn complete_setup(&mut self, outcome: Result<(), SetupError>)
        requires
            old(self).phase() is Configuring,
        ensures
            final(self).phase() == setup_transition(old(self).phase(), outcome is Ok),
            final(self).menu_strategy() == old(self).menu_strategy(),
    {
        match outcome {
            Ok(()) => {
                self.state = AppState::Running;
            },
            Err(_) => {
                self.state = AppState::Failed;
            },
        }
    }

    /// Whether the shell reached the running phase.
    pub fn is_running(&self) -> (r: bool)
        ensures
            r == (self.phase() is Running),
    {
        match self.state {
            AppState::Running => true,
            AppState::Configuring => false,
            AppState::Failed => false,
        }
    }
}

} // verus!
