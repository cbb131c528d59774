//! The menu-event dispatcher: from an activated menu identifier and the
//! window registry to the one UI event the shell may emit.

use vstd::prelude::*;
use vstd::string::StringExecFns;
use crate::menu::{main_window_label, open_settings_event, settings_id};
use crate::text::str_eq;

verus! {

/// The closed classification of a menu identifier: exactly one identifier
/// is recognized by the shell; every other one is handled natively by the
/// host and means nothing here.
pub enum MenuEventKind {
    OpenSettings,
    Other,
}

/// An instruction to emit one UI event, with no payload, to one window.
pub struct Emission {
    pub window: String,
    pub event: String,
}

/// The ghost image of an `Emission`.
pub struct EmissionView {
    pub window: Seq<char>,
    pub event: Seq<char>,
}

impl View for Emission {
    type V = EmissionView;

    open spec fn view(&self) -> EmissionView {
        EmissionView { window: self.window@, event: self.event@ }
    }
}

/// What the dispatcher decides: an emission of the settings event to the
/// main window exactly when the recognized identifier was activated and a
/// window with the main label exists; otherwise nothing, silently.
pub open spec fn spec_dispatch(id: Seq<char>, windows: Seq<Seq<char>>) -> Option<EmissionView> {
    if id == settings_id() && windows.contains(main_window_label()) {
        Some(EmissionView { window: main_window_label(), event: open_settings_event() })
    } else {
        None
    }
}

/// Classify a menu identifier against the one recognized identifier.
pub fn classify(id: &str) -> (k: MenuEventKind)
    ensures
        k is OpenSettings <==> id@ == settings_id(),
{
    if str_eq(id, "open_settings") {
        MenuEventKind::OpenSettings
    } else {
        MenuEventKind::Other
    }
}

/// Decide whether the registry holds a window with the given label.
pub fn has_window(windows: &Vec<String>, label: &str) -> (r: bool)
    ensures
        r == windows@.map_values(|w: String| w@).contains(label@),
{
    let ghost names = windows@.map_values(|w: String| w@);
    let mut i: usize = 0;
    while i < windows.len()
        invariant
            i <= windows.len(),
            names == windows@.map_values(|w: String| w@),
            forall|k: int| 0 <= k < i ==> names[k] != label@,
        decreases windows.len() - i,
    {
        if str_eq(windows[i].as_str(), label) {
            proof {
                assert(names[i as int] == label@);
            }
            return true;
        }
        i += 1;
    }
    proof {
        assert(forall|k: int| 0 <= k < names.len() ==> names[k] != label@);
    }
    false
}

/// Dispatch one menu-activation event. Returns the one emission the shell
/// owes, or `None`: a best-effort channel, never an error. The registry is
/// the labels of the windows alive when the event arrived.
pub fn dispatch_menu_event(id: &str, windows: &Vec<String>) -> (r: Option<Emission>)
    ensures
        (r is Some) == (spec_dispatch(id@, windows@.map_values(|w: String| w@)) is Some),
        r matches Some(e) ==> Some(e@) == spec_dispatch(
            id@,
            windows@.map_values(|w: String| w@),
        ),
{
    match classify(id) {
        MenuEventKind::OpenSettings => {
            if has_window(windows, "main") {
                Some(Emission {
                    window: String::from_str("main"),
                    event: String::from_str("menu:open-settings"),
                })
            } else {
                None
            }
        },
        MenuEventKind::Other => None,
    }
}

} // verus!
