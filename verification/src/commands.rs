//! The three front-end window commands and their dispatcher.
//!
//! Each command is a thin delegation to the host registry in [`crate::host`]:
//! `minimize` and `close` are single host calls, and `toggle_maximize` is a
//! query-then-act pair. The dispatcher resolves a named command to its
//! operation and runs it against one window handle.

use crate::host::Host;
use crate::host::HostError;
use vstd::prelude::*;

verus! {

/// A named command the front end can invoke. Each variant resolves to a
/// fixed, pre-registered operation; none takes any input beyond the window
/// handle the host supplies.
#[derive(Clone, Copy, Debug, PartialEq, Eq, Structural)]
pub enum Command {
    Minimize,
    ToggleMaximize,
    Close,
}

/// The registry transition one command makes: a command against an open
/// window performs its operation, and a command against any other handle
/// changes nothing (it is rejected instead, see [`dispatch`]).
pub open spec fn step(windows: Map<u64, bool>, command: Command, handle: u64) -> Map<u64, bool> {
    if windows.contains_key(handle) {
        match command {
            Command::Minimize => windows,
            Command::ToggleMaximize => windows.insert(handle, !windows[handle]),
            Command::Close => windows.remove(handle),
        }
    } else {
        windows
    }
}

/// The transition `toggle_maximize` requests of the host for a window whose
/// maximized state it has just read.
#[derive(Clone, Copy, Debug, PartialEq, Eq, Structural)]
pub enum WindowAction {
    Maximize,
    Unmaximize,
}

/// The read-then-act decision inside `toggle_maximize`: a maximized window is
/// to be restored, any other window is to be maximized.
pub fn toggle_action(maximized: bool) -> (action: WindowAction)
    ensures
        action == (if maximized {
            WindowAction::Unmaximize
        } else {
            WindowAction::Maximize
        }),
{
    if maximized {
        WindowAction::Unmaximize
    } else {
        WindowAction::Maximize
    }
}

/// Front-end command `minimize`: ask the host to minimize the window.
/// Succeeds exactly on an open window and never changes the registry.
pub fn minimize(host: &mut Host, window: u64) -> (result: Result<(), HostError>)
    ensures
        final(host)@ == step(old(host)@, Command::Minimize, window),
        (result is Ok) <==> old(host)@.contains_key(window),
{
    host.minimize_window(window)
}

/// Front-end command `toggle_maximize`: query the window's maximized state,
/// then request the opposite state. Succeeds exactly on an open window, whose
/// maximized state it flips.
///
/// The query and the transition are two separate host calls with no atomic
/// check-and-set between them; only the host's single UI thread keeps another
/// state change from slipping in between. The registry model performs both on
/// one state, which states the intended, serialized outcome.
pub fn toggle_maximize(host: &mut Host, window: u64) -> (result: Result<(), HostError>)
    ensures
        final(host)@ == step(old(host)@, Command::ToggleMaximize, window),
        (result is Ok) <==> old(host)@.contains_key(window),
        result is Ok ==> final(host)@[window] == !old(host)@[window],
{
    let maximized = host.is_maximized(window)?;
    match toggle_action(maximized) {
        WindowAction::Maximize => host.maximize_window(window),
        WindowAction::Unmaximize => host.unmaximize_window(window),
    }
}

/// Front-end command `close`: ask the host to close the window. Succeeds
/// exactly on an open window, which leaves the open-window set; either way
/// the handle names no open window afterwards.
pub fn close(host: &mut Host, window: u64) -> (result: Result<(), HostError>)
    ensures
        final(host)@ == step(old(host)@, Command::Close, window),
        !final(host)@.contains_key(window),
        (result is Ok) <==> old(host)@.contains_key(window),
{
    host.close_window(window)
}

/// The command dispatcher: resolve a front-end command to its operation and
/// run it against `window`. Every command succeeds exactly on an open window;
/// against any other handle it surfaces `HostError` — never a silent no-op —
/// and leaves the registry unchanged.
pub fn dispatch(host: &mut Host, command: Command, window: u64) -> (result: Result<
    (),
    HostError,
>)
    ensures
        final(host)@ == step(old(host)@, command, window),
        (result is Ok) <==> old(host)@.contains_key(window),
        !old(host)@.contains_key(window) ==> final(host)@ == old(host)@,
{
    match command {
        Command::Minimize => minimize(host, window),
        Command::ToggleMaximize => toggle_maximize(host, window),
        Command::Close => close(host, window),
    }
}

/// `toggle_maximize` is its own inverse: two toggles in succession return the
/// registry to exactly the state it started in, whatever that state was.
pub proof fn lemma_toggle_maximize_involutive(windows: Map<u64, bool>, window: u64)
    ensures
        step(step(windows, Command::ToggleMaximize, window), Command::ToggleMaximize, window)
            == windows,
{
    if windows.contains_key(window) {
        assert(step(
            step(windows, Command::ToggleMaximize, window),
            Command::ToggleMaximize,
            window,
        ) =~= windows);
    }
}

/// A closed window stays closed: after `close`, the handle is no longer in
/// the open-window set, and every further command against it leaves the
/// registry unchanged — and so, by [`dispatch`]'s contract, fails with
/// `HostError`.
pub proof fn lemma_no_command_revives_closed_window(
    windows: Map<u64, bool>,
    window: u64,
    command: Command,
)
    ensures
        !step(windows, Command::Close, window).contains_key(window),
        step(step(windows, Command::Close, window), command, window) == step(
            windows,
            Command::Close,
            window,
        ),
{
}

} // verus!
