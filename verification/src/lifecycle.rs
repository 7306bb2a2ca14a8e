//! The hook that ties the supervisor to the life of the host: a start when
//! the host has come up, unless the environment switches it off, and a stop
//! when the host is about to close.

use crate::model::{done, ActionView, SidecarStateView};
use crate::resolver::Config;
use crate::supervisor::{kill_yallma3api, note_view, spawn_yallma3api, Action, SidecarState};
use crate::text::same_text;
use vstd::prelude::*;

verus! {

/// What the host tells the hook.
#[derive(Debug, PartialEq, Eq)]
pub enum HostSignal {
    /// The host has come up. `spawn_core` is the value of the variable named
    /// by `spawn_core_variable`, where the environment holds one.
    Started { spawn_core: Option<String> },
    /// The host's window is about to close.
    CloseRequested,
}

/// A `HostSignal` with its text as a sequence of characters.
pub enum HostSignalView {
    Started { spawn_core: Option<Seq<char>> },
    CloseRequested,
}

impl View for HostSignal {
    type V = HostSignalView;

    open spec fn view(&self) -> HostSignalView {
        match self {
            HostSignal::Started { spawn_core } => HostSignalView::Started {
                spawn_core: note_view(*spawn_core),
            },
            HostSignal::CloseRequested => HostSignalView::CloseRequested,
        }
    }
}

/// Whether the sidecar is started with the host: always, unless the variable
/// is set to exactly `false`.
pub open spec fn auto_start(spawn_core: Option<Seq<char>>) -> bool {
    spawn_core != Some("false"@)
}

/// The reply of a start that the environment switched off.
pub open spec fn skipped() -> Seq<char> {
    "VITE_SPAWN_CORE=false, skipping server spawn"@
}

/// What the hook makes of a signal: a start or nothing when the host has come
/// up, a stop when it is about to close.
pub open spec fn signalled(state: SidecarStateView, config: Config, signal: HostSignalView) -> (
    SidecarStateView,
    ActionView,
) {
    match signal {
        HostSignalView::Started { spawn_core } => if auto_start(spawn_core) {
            state.start(config)
        } else {
            (state, done(skipped()))
        },
        HostSignalView::CloseRequested => state.stop(),
    }
}

/// The name of the variable that switches the start with the host on or off.
pub fn spawn_core_variable() -> (name: &'static str)
    ensures
        name@ == "VITE_SPAWN_CORE"@,
{
    "VITE_SPAWN_CORE"
}

/// Reads the value of the variable.
pub fn auto_start_enabled(spawn_core: &Option<String>) -> (enabled: bool)
    ensures
        enabled == auto_start(note_view(*spawn_core)),
{
    match spawn_core {
        Some(value) => !same_text(value.as_str(), "false"),
        None => true,
    }
}

/// Runs the hook on a signal from the host. The action is carried out as
/// that of any request; what a start at startup fails with is for the host to
/// log and to go on from.
pub fn run(state: &mut SidecarState, config: Config, signal: HostSignal) -> (action: Action)
    ensures
        (final(state)@, action@) == signalled(old(state)@, config, signal@),
        old(state)@.consistent() ==> final(state)@.consistent(),
{
    match signal {
        HostSignal::Started { spawn_core } => {
            if auto_start_enabled(&spawn_core) {
                spawn_yallma3api(state, config)
            } else {
                Action::Done {
                    message: String::from_str("VITE_SPAWN_CORE=false, skipping server spawn"),
                    note: None,
                }
            }
        },
        HostSignal::CloseRequested => kill_yallma3api(state),
    }
}

} // verus!
