//! The laws of the shell, each proved over the spec-level model that the
//! executable functions' contracts are stated in.

use vstd::prelude::*;
use crate::dispatch::{spec_dispatch, EmissionView};
use crate::menu::{
    main_window_label, native_menu_bar_view, open_settings_event, settings_entry_view,
    settings_id, EntryView, MenuBarView,
};
use crate::shell::{native_menu_platform, setup_transition, strategy_for, AppState};

verus! {

/// The identifier a menu entry carries: one for a custom entry, none for a
/// predefined entry or a separator.
pub open spec fn entry_id(e: EntryView) -> Option<Seq<char>> {
    match e {
        EntryView::Custom { id, .. } => Some(id),
        EntryView::Predefined { .. } => None,
        EntryView::Separator => None,
    }
}

/// The set of custom identifiers a menu bar carries: every identifier of a
/// custom entry of any of its submenus.
pub open spec fn custom_ids(bar: MenuBarView) -> Set<Seq<char>> {
    Set::new(
        |id: Seq<char>|
            exists|i: int, j: int|
                0 <= i < bar.submenus.len() && 0 <= j < bar.submenus[i].entries.len() && entry_id(
                    #[trigger] bar.submenus[i].entries[j],
                ) == Some(id),
    )
}

/// The custom-identifier set of the planned menu bar is exactly the one
/// identifier the dispatcher recognizes, whatever the application's name.
pub proof fn lemma_menu_ids_exactly_open_settings(app_name: Seq<char>)
    ensures
        custom_ids(native_menu_bar_view(app_name)) =~= set![settings_id()],
{
    let bar = native_menu_bar_view(app_name);
    assert(custom_ids(bar).contains(settings_id())) by {
        assert(entry_id(bar.submenus[0].entries[0]) == Some(settings_id()));
    }
    assert forall|id: Seq<char>| custom_ids(bar).contains(id) implies id == settings_id() by {
        let (i, j) = choose|i: int, j: int|
            0 <= i < bar.submenus.len() && 0 <= j < bar.submenus[i].entries.len() && entry_id(
                #[trigger] bar.submenus[i].entries[j],
            ) == Some(id);
        assert(bar.submenus[i].entries[j] == settings_entry_view());
    }
}

/// An activation whose identifier is not in the planned menu bar's custom
/// set produces no emission, and every emission comes from an identifier in
/// that set: the dispatcher and the menu agree on `{open_settings}`.
pub proof fn lemma_unrecognized_id_no_emission(
    app_name: Seq<char>,
    id: Seq<char>,
    windows: Seq<Seq<char>>,
)
    ensures
        !custom_ids(native_menu_bar_view(app_name)).contains(id) ==> spec_dispatch(id, windows)
            is None,
        spec_dispatch(id, windows) is Some ==> custom_ids(native_menu_bar_view(app_name)).contains(
            id,
        ),
{
    lemma_menu_ids_exactly_open_settings(app_name);
}

/// Activating the recognized identifier while a window with the main label
/// exists emits exactly the settings event, with no payload, to that
/// window.
pub proof fn lemma_settings_activation_emits(windows: Seq<Seq<char>>)
    requires
        windows.contains(main_window_label()),
    ensures
        spec_dispatch(settings_id(), windows) == Some(
            EmissionView { window: main_window_label(), event: open_settings_event() },
        ),
{
}

/// Activating the recognized identifier with no main window is a silent
/// no-op: no emission, no error.
pub proof fn lemma_settings_activation_without_main_window(windows: Seq<Seq<char>>)
    requires
        !windows.contains(main_window_label()),
    ensures
        spec_dispatch(settings_id(), windows) is None,
{
}

/// On any platform other than the designated one no menu is planned, and a
/// successful setup step still reaches the running phase.
pub proof fn lemma_other_platform_still_runs(platform: Seq<char>)
    requires
        platform != native_menu_platform(),
    ensures
        strategy_for(platform) is NoOp,
        setup_transition(AppState::Configuring, true) is Running,
{
}

/// The phase after a whole sequence of setup outcomes, applied in order.
pub open spec fn setup_transitions(state: AppState, outcomes: Seq<bool>) -> AppState
    decreases outcomes.len(),
{
    if outcomes.len() == 0 {
        state
    } else {
        setup_transitions(setup_transition(state, outcomes[0]), outcomes.drop_first())
    }
}

/// A failed setup step is fatal: it moves the configuring shell to the
/// failed phase, and from there no sequence of later outcomes ever reaches
/// the running phase.
pub proof fn lemma_setup_failure_prevents_running(outcomes: Seq<bool>)
    ensures
        setup_transition(AppState::Configuring, false) is Failed,
        setup_transitions(AppState::Failed, outcomes) is Failed,
    decreases outcomes.len(),
{
    if outcomes.len() > 0 {
        lemma_setup_failure_prevents_running(outcomes.drop_first());
    }
}

} // verus!
