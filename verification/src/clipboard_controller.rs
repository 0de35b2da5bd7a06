//! What goes on the clipboard and for how long. The controller keeps the
//! countdown and a list of texts that the program is to put on the system's
//! clipboard; it does not touch the clipboard itself.

use vstd::prelude::*;
use crate::deferred_signal::MILLIS_PER_SECOND;

verus! {

/// The countdown of a copied value, and the texts that wait to be put on the
/// clipboard.
pub struct ClipboardController {
    requests: Vec<String>,
    countdown_from: u8,
    started_at: u64,
    running: bool,
}

impl ClipboardController {
    /// The texts that wait to be put on the clipboard, oldest first.
    pub closed spec fn requests(&self) -> Seq<Seq<char>> {
        self.requests@.map_values(|s: String| s@)
    }

    /// Whether a countdown is running.
    pub closed spec fn is_running(&self) -> bool {
        self.running
    }

    /// The seconds that the last copied value stays on the clipboard.
    pub closed spec fn duration(&self) -> u8 {
        self.countdown_from
    }

    /// The clock reading at which the last value was copied.
    pub closed spec fn started_at(&self) -> u64 {
        self.started_at
    }

    /// The whole seconds left of the countdown at the clock reading `now`.
    pub open spec fn remaining_at(&self, now: u64) -> u8 {
        if !self.is_running() {
            0
        } else if now < self.started_at() {
            self.duration()
        } else if (now - self.started_at()) / (MILLIS_PER_SECOND as int) >= self.duration() {
            0
        } else {
            (self.duration() - (now - self.started_at()) / (MILLIS_PER_SECOND as int)) as u8
        }
    }

    /// A controller with nothing copied.
    pub fn new() -> (controller: Self)
        ensures
            !controller.is_running(),
            controller.requests() == Seq::<Seq<char>>::empty(),
    {
        let controller = ClipboardController { requests: Vec::new(), countdown_from: 0, started_at: 0, running: false };
        assert(controller.requests() =~= Seq::<Seq<char>>::empty());
        controller
    }

    /// Copies a value: it is to go on the clipboard now, and the countdown of
    /// `time_available` seconds starts at the clock reading `now`.
    pub fn copy_value_to_clipboard(&mut self, content: &str, time_available: u8, now: u64)
        ensures
            final(self).requests() == old(self).requests().push(content@),
            final(self).is_running(),
            final(self).duration() == time_available,
            final(self).started_at() == now,
    {
        self.set_clipboard_context(content);
        self.countdown_from = time_available;
        self.started_at = now;
        self.running = true;
    }

    fn set_clipboard_context(&mut self, content: &str)
        ensures
            final(self).requests() == old(self).requests().push(content@),
            final(self).running == old(self).running,
            final(self).countdown_from == old(self).countdown_from,
            final(self).started_at == old(self).started_at,
    {
        let ghost before = self.requests();
        self.requests.push(content.to_owned());
        assert(self.requests() =~= before.push(content@));
    }

    /// The whole seconds left of the countdown.
    pub fn get_countdown_value(&self, now: u64) -> (left: u8)
        ensures
            left == self.remaining_at(now),
    {
        if !self.running {
            0
        } else if now < self.started_at {
            self.countdown_from
        } else {
            let elapsed = (now - self.started_at) / MILLIS_PER_SECOND;
            if elapsed >= self.countdown_from as u64 {
                0
            } else {
                self.countdown_from - elapsed as u8
            }
        }
    }

    /// The seconds that the last copied value stays on the clipboard.
    pub fn get_countdown_duration(&self) -> (duration: u8)
        ensures
            duration == self.duration(),
    {
        self.countdown_from
    }

    /// Ends the countdown where it has run out: the clipboard is to be
    /// emptied, and `true` comes back, once.
    pub fn finish_if_due(&mut self, now: u64) -> (finished: bool)
        ensures
            finished == (old(self).is_running() && old(self).remaining_at(now) == 0),
            finished ==> !final(self).is_running() && final(self).requests() == old(self).requests().push(
                Seq::<char>::empty(),
            ),
            !finished ==> *final(self) == *old(self),
    {
        if self.running && self.get_countdown_value(now) == 0 {
            self.set_clipboard_context("");
            proof {
                reveal_strlit("");
                assert(""@ =~= Seq::<char>::empty());
            }
            self.running = false;
            true
        } else {
            false
        }
    }

    /// Hands over the texts that wait to be put on the clipboard, oldest
    /// first; none wait afterwards.
    pub fn take_requests(&mut self) -> (texts: Vec<String>)
        ensures
            texts@.map_values(|s: String| s@) == old(self).requests(),
            final(self).requests() == Seq::<Seq<char>>::empty(),
            final(self).is_running() == old(self).is_running(),
            final(self).duration() == old(self).duration(),
            final(self).started_at() == old(self).started_at(),
    {
        let mut texts: Vec<String> = Vec::new();
        std::mem::swap(&mut texts, &mut self.requests);
        assert(self.requests() =~= Seq::<Seq<char>>::empty());
        texts
    }
}

} // verus!
