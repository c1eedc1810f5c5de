//! The dispatch decisions: the single serialization point for all state
//! mutations. Commands are processed one at a time, in arrival order;
//! for each command the loop first issues the matching output-driver
//! call, then — only if the driver accepted — mirrors the mutation to
//! the recovery synchronizer, and finally produces exactly one reply.
//!
//! The waiting itself (the command queue, the reply channels, the
//! driver handle) is unverified plumbing around this module: it asks
//! [`Dispatcher::plan`] what to send to the driver, performs that call,
//! and hands the outcome to [`Dispatcher::settle`].

use vstd::prelude::*;
use crate::backup::{entry_erased, fade_recorded, universe_recorded, BackupHandler, Store};
use crate::communication::{Request, WebReply};
use crate::dmx::{in_range, spec_get, spec_set, Fade, Universe, DMX_MAX};

verus! {

/// The output-driver call a command asks for.
pub enum DriverCall {
    /// Apply one fade to the hardware.
    ApplyFade(Fade),
    /// Replace the entire channel set on the hardware.
    ReplaceState(Universe),
    /// No driver call.
    Nothing,
}

/// The dispatch state machine: Running until a Quit command is settled,
/// then Stopped for good.
pub struct Dispatcher {
    running: bool,
    backup: BackupHandler,
}

impl Dispatcher {
    /// Whether the dispatcher still accepts commands.
    pub closed spec fn spec_running(&self) -> bool {
        self.running
    }

    /// The recovery synchronizer the dispatcher owns.
    pub closed spec fn backup(&self) -> BackupHandler {
        self.backup
    }

    pub open spec fn wf(&self) -> bool {
        self.backup().wf()
    }

    /// Enter the Running state over the given synchronizer.
    pub fn new(backup: BackupHandler) -> (dispatcher: Dispatcher)
        requires
            backup.wf(),
        ensures
            dispatcher.wf(),
            dispatcher.spec_running(),
            dispatcher.backup() == backup,
    {
        Dispatcher { running: true, backup }
    }

    /// Report whether the dispatcher still accepts commands.
    pub fn is_running(&self) -> (running: bool)
        ensures
            running == self.spec_running(),
    {
        self.running
    }

    /// Look for an orphaned recovery snapshot. A returned universe must
    /// be pushed to the output driver as a full-state replacement before
    /// the first command is accepted.
    pub fn startup(&mut self) -> (recovered: Option<Universe>)
        requires
            old(self).wf(),
        ensures
            final(self).wf(),
            final(self).spec_running() == old(self).spec_running(),
            crate::backup::frame(&old(self).backup(), &final(self).backup()),
            final(self).backup().mem() == old(self).backup().mem(),
            old(self).backup().is_disabled() ==> recovered is None,
            match recovered {
                Some(u) => u.wf() && final(self).backup().shadow() == u@,
                None => final(self).backup().shadow() == old(self).backup().shadow(),
            },
            old(self).backup().is_memory() ==> match recovered {
                Some(u) => old(self).backup().mem().contains_key(old(self).backup().spec_key())
                    && u@ == crate::codec::spec_snapshot_universe(
                    old(self).backup().mem()[old(self).backup().spec_key()],
                ),
                None => !old(self).backup().mem().contains_key(old(self).backup().spec_key()),
            },
    {
        self.backup.reload_backup()
    }

    /// The driver call that `request` asks for: the fade itself, the
    /// full replacement universe, or nothing for a shutdown.
    pub fn plan(&self, request: &Request) -> (call: DriverCall)
        ensures
            match *request {
                Request::PlayFade { fade } => call == DriverCall::ApplyFade(fade),
                Request::Restore { universe } => match call {
                    DriverCall::ReplaceState(u) => u@ == universe@,
                    _ => false,
                },
                Request::Quit => call is Nothing,
            },
    {
        match request {
            Request::PlayFade { fade } => DriverCall::ApplyFade(*fade),
            Request::Restore { universe } => DriverCall::ReplaceState(universe.duplicate()),
            Request::Quit => DriverCall::Nothing,
        }
    }

    /// Settle one command after its driver call came back, producing the
    /// single reply owed for it. A fade the driver rejected is answered
    /// with the driver's reason and is never mirrored; a fade the driver
    /// accepted, and every full replacement, is mirrored to the recovery
    /// store after the driver call. A Quit stops the machine.
    pub fn settle(&mut self, request: Request, driver_error: Option<String>) -> (reply: WebReply)
        requires
            old(self).wf(),
            old(self).spec_running(),
            !(request is PlayFade) ==> driver_error is None,
            match request {
                Request::Restore { universe } => universe.wf(),
                _ => true,
            },
        ensures
            final(self).wf(),
            match request {
                Request::PlayFade { fade } => {
                    &&& final(self).spec_running()
                    &&& match driver_error {
                        Some(message) => {
                            &&& !reply.spec_is_success()
                            &&& reply.spec_message() == message@
                            &&& final(self).backup() == old(self).backup()
                        },
                        None => {
                            &&& reply.spec_is_success()
                            &&& fade_recorded(&old(self).backup(), &final(self).backup(), fade)
                        },
                    }
                },
                Request::Restore { universe } => {
                    &&& final(self).spec_running()
                    &&& reply.spec_is_success()
                    &&& universe_recorded(&old(self).backup(), &final(self).backup(), universe@)
                },
                Request::Quit => {
                    &&& !final(self).spec_running()
                    &&& reply.spec_is_success()
                    &&& final(self).backup() == old(self).backup()
                },
            },
    {
        match request {
            Request::PlayFade { fade } => match driver_error {
                Some(message) => WebReply::failure(message),
                None => {
                    self.backup.backup_fade(fade);
                    WebReply::success()
                },
            },
            Request::Restore { universe } => {
                self.backup.backup_universe(universe);
                WebReply::success()
            },
            Request::Quit => {
                self.running = false;
                WebReply::success()
            },
        }
    }

    /// Erase this instance's recovery entry, as a clean shutdown does.
    pub fn teardown(&mut self)
        requires
            old(self).wf(),
        ensures
            entry_erased(&old(self).backup(), &final(self).backup()),
            final(self).spec_running() == old(self).spec_running(),
    {
        self.backup.teardown();
    }

    /// Release the dispatcher: erase the recovery entry and hand the
    /// store back for a later instance.
    pub fn into_store(self) -> (store: Store)
        requires
            self.wf(),
        ensures
            store.wf(),
            store.is_disabled() == self.backup().is_disabled(),
            store.is_memory() == self.backup().is_memory(),
            store.is_external() == self.backup().is_external(),
            self.backup().is_memory() ==> store.mem() == self.backup().mem().remove(
                self.backup().spec_key(),
            ),
            !self.backup().is_memory() ==> store.mem() == self.backup().mem(),
    {
        let Dispatcher { backup, .. } = self;
        backup.into_store()
    }
}

/// Ordering: two fades on one channel, settled in arrival order, leave
/// the mirrored shadow at the value of the later fade — the driver and
/// the store never observe them the other way round.
pub proof fn lemma_fades_in_order(u: Seq<u8>, channel: u32, first: u8, second: u8)
    requires
        u.len() == DMX_MAX,
        in_range(channel),
    ensures
        spec_set(spec_set(u, channel, first), channel, second) == spec_set(u, channel, second),
        spec_get(spec_set(spec_set(u, channel, first), channel, second), channel) == second,
{
    crate::dmx::lemma_last_write_wins(u, channel, first, second);
    crate::dmx::lemma_set_then_get(u, channel, second);
}

} // verus!
