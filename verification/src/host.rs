//! The windowing host as this crate models it: a registry of the open
//! windows, each one either maximized or restored.
//!
//! The real host framework owns this state; the command layer in
//! [`crate::commands`] only observes it and requests transitions of it.
//! Modelling the registry explicitly makes the command layer verifiable and
//! testable without a real OS window.

use std::collections::HashMap;
use vstd::prelude::*;

verus! {

broadcast use vstd::std_specs::hash::group_hash_axioms;

/// A failure surfaced by the windowing host: the handle does not name a
/// currently-open window, or the platform call behind a command failed.
///
/// Errors are passed through to the front end unchanged; nothing in this
/// crate interprets, categorizes or recovers from them.
#[derive(Clone, Copy, Debug, PartialEq, Eq, Structural)]
pub struct HostError;

/// The host's window registry: each open window's handle, mapped to whether
/// that window is currently maximized (`true`) or restored (`false`).
///
/// A window's minimized/visible placement is host-owned detail that no
/// command ever reads back, so the registry does not track it.
pub struct Host {
    windows: HashMap<u64, bool>,
}

impl View for Host {
    type V = Map<u64, bool>;

    closed spec fn view(&self) -> Map<u64, bool> {
        self.windows@
    }
}

impl Host {
    /// A host with no open windows.
    pub fn new() -> (host: Host)
        ensures
            host@ == Map::<u64, bool>::empty(),
    {
        Host { windows: HashMap::new() }
    }

    /// The host opens a window under `handle`, in the given maximized state.
    /// Opening an already-open handle resets that window's state.
    pub fn open_window(&mut self, handle: u64, maximized: bool)
        ensures
            final(self)@ == old(self)@.insert(handle, maximized),
    {
        self.windows.insert(handle, maximized);
    }

    /// Whether `handle` names a currently-open window.
    pub fn is_open(&self, handle: u64) -> (open: bool)
        ensures
            open == self@.contains_key(handle),
    {
        self.windows.contains_key(&handle)
    }

    /// The host's state query: `Ok` with the window's maximized state for an
    /// open window, `HostError` for any other handle.
    pub fn is_maximized(&self, handle: u64) -> (result: Result<bool, HostError>)
        ensures
            (result is Ok) <==> self@.contains_key(handle),
            result matches Ok(maximized) ==> maximized == self@[handle],
    {
        match self.windows.get(&handle) {
            Some(maximized) => Ok(*maximized),
            None => Err(HostError),
        }
    }

    /// The host's minimize call: an open window is put in the minimized
    /// placement, which the registry does not track, so the registry is
    /// unchanged; any other handle is rejected.
    pub fn minimize_window(&mut self, handle: u64) -> (result: Result<(), HostError>)
        ensures
            final(self)@ == old(self)@,
            (result is Ok) <==> old(self)@.contains_key(handle),
    {
        if self.windows.contains_key(&handle) {
            Ok(())
        } else {
            Err(HostError)
        }
    }

    /// The host's maximize call: an open window becomes maximized; any other
    /// handle is rejected and the registry is unchanged.
    pub fn maximize_window(&mut self, handle: u64) -> (result: Result<(), HostError>)
        ensures
            (result is Ok) <==> old(self)@.contains_key(handle),
            result is Ok ==> final(self)@ == old(self)@.insert(handle, true),
            result is Err ==> final(self)@ == old(self)@,
    {
        if self.windows.contains_key(&handle) {
            self.windows.insert(handle, true);
            Ok(())
        } else {
            Err(HostError)
        }
    }

    /// The host's unmaximize call: an open window becomes restored; any other
    /// handle is rejected and the registry is unchanged.
    pub fn unmaximize_window(&mut self, handle: u64) -> (result: Result<(), HostError>)
        ensures
            (result is Ok) <==> old(self)@.contains_key(handle),
            result is Ok ==> final(self)@ == old(self)@.insert(handle, false),
            result is Err ==> final(self)@ == old(self)@,
    {
        if self.windows.contains_key(&handle) {
            self.windows.insert(handle, false);
            Ok(())
        } else {
            Err(HostError)
        }
    }

    /// The host's close call: an open window leaves the open-window set; any
    /// other handle is rejected and the registry is unchanged. Either way the
    /// handle names no open window afterwards.
    pub fn close_window(&mut self, handle: u64) -> (result: Result<(), HostError>)
        ensures
            (result is Ok) <==> old(self)@.contains_key(handle),
            result is Ok ==> final(self)@ == old(self)@.remove(handle),
            result is Err ==> final(self)@ == old(self)@,
            !final(self)@.contains_key(handle),
    {
        let removed = self.windows.remove(&handle);
        proof {
            if !old(self)@.contains_key(handle) {
                assert(old(self)@.remove(handle) =~= old(self)@);
            }
        }
        match removed {
            Some(_) => Ok(()),
            None => Err(HostError),
        }
    }
}

} // verus!
