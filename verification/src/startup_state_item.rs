//! The first screen: a welcome for two seconds, then on to the passphrase,
//! or to setting one where no vault exists yet.

use vstd::prelude::*;
use crate::deferred_signal::{wait_for_seconds, DeferredSignal};
use crate::file_accesssor::{does_directory_and_files_exist, vault_exists, VaultFiles};
use crate::input_handler::KeyCode;
use crate::terminal_context::{byte_len, center, centered, text_at, text_len, DrawCommandView, TerminalContext};
use crate::texts::Texts;
use crate::transition::{Transition, TransitionView};

verus! {

/// The seconds for which the welcome is shown.
pub const WELCOME_SECONDS: u64 = 2;

pub struct StartupStateItem {
    next_state: Transition,
    next_state_ready: DeferredSignal,
}

impl StartupStateItem {
    /// The screen that follows.
    pub closed spec fn target(&self) -> TransitionView {
        self.next_state@
    }

    /// The timer that ends the welcome.
    pub closed spec fn signal(&self) -> DeferredSignal {
        self.next_state_ready
    }

    /// The transition that waits at the clock reading `now`: the target once
    /// the timer has run out, none before.
    pub open spec fn pending(&self, now: u64) -> Option<TransitionView> {
        if self.signal().ready_at(now) {
            Some(self.target())
        } else {
            None
        }
    }

    /// The welcome, started at the clock reading `now`. It leads to the
    /// passphrase where a vault exists, and to setting one where none does.
    pub fn new(now: u64, files: &VaultFiles) -> (screen: Self)
        ensures
            screen.target() == (if vault_exists(files@) {
                TransitionView::ToAuthentication
            } else {
                TransitionView::ToChangeAuthentication
            }),
            screen.signal().is_armed(),
            !screen.signal().is_fired(),
            screen.signal().armed_at() == now,
            screen.signal().wait() == DeferredSignal::millis_of(WELCOME_SECONDS),
            screen.pending(now) is None,
    {
        let next_state;
        if does_directory_and_files_exist(files) {
            next_state = Transition::ToAuthentication;
        } else {
            next_state = Transition::ToChangeAuthentication;
        }
        let mut state_item = StartupStateItem { next_state, next_state_ready: DeferredSignal::new() };
        wait_for_seconds(WELCOME_SECONDS, now, &mut state_item.next_state_ready);
        state_item
    }

    /// What the screen draws in a frame of this size: the welcome, in the
    /// middle.
    pub open spec fn drawing(texts: Texts, width: u16, height: u16) -> Seq<DrawCommandView> {
        seq![text_at(centered(width, byte_len(texts.misc.welcome@)), height / 2, texts.misc.welcome@)]
    }

    /// Draws the welcome in the middle of the frame.
    pub fn display(&self, context: &mut TerminalContext, texts: &Texts)
        requires
            old(context).well_formed(),
        ensures
            final(context).drew_all(old(context), Self::drawing(*texts, old(context).width(), old(context).height())),
    {
        let welcome_msg = &texts.misc.welcome;
        let pos_y = context.get_height() / 2;
        let pos_x = center(context.get_width(), text_len(welcome_msg.as_str()));
        context.print_at_position(pos_x, pos_y, welcome_msg.as_str());
        assert(context.frame() =~= old(context).frame() + Self::drawing(
            *texts,
            old(context).width(),
            old(context).height(),
        ));
    }

    /// Whether the screen is to be drawn anew without a key press.
    pub fn update_display(&self) -> (again: bool)
        ensures
            !again,
    {
        false
    }

    /// Key presses change nothing here.
    pub fn register_input(&mut self, key_code: KeyCode)
        ensures
            *final(self) == *old(self),
    {
    }

    /// The transition that waits at the clock reading `now`.
    pub fn next_state(&self, now: u64) -> (transition: Option<Transition>)
        ensures
            crate::transition::transition_view(transition) == self.pending(now),
    {
        if self.next_state_ready.is_ready(now) {
            Some(self.next_state.duplicate())
        } else {
            None
        }
    }
}

} // verus!
