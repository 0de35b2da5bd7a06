//! The engine: it owns the screen that is shown and the vault, honours a
//! screen's transition before any further key press reaches it, and hands
//! key presses to the screen otherwise.

use vstd::prelude::*;
use crate::add_account_state_item::AddEntryStateItem;
use crate::authentication_state_item::AuthenticationStateItem;
use crate::database_context::{is_read_failure, DatabaseManager, VaultError};
use crate::deferred_signal::Clock;
use crate::encryption_controller::{parsed_record, FormatError};
use crate::file_accesssor::{vault_exists, VaultFiles, VaultFilesView};
use crate::list_accounts_state::ListAccountsState;
use crate::main_menu_state_item::MainMenuStateItem;
use crate::set_authentication_state_item::SetAuthenticationStateItem;
use crate::show_account_state_item::ShowAccountStateItem;
use crate::startup_state_item::StartupStateItem;
use crate::state_item::StateItem;
use crate::terminal_context::{DrawCommandView, TerminalContext};
use crate::texts::Texts;
use crate::transition::{Transition, TransitionView};
use crate::wipe_database_state_item::{key_file_error, WipeDatabaseStateItem};

verus! {

/// What one turn of the engine did.
#[derive(Clone, Copy, Debug, PartialEq, Eq)]
pub enum StepOutcome {
    /// The engine has stopped; nothing was done.
    Stopped,
    /// The screen's transition was honoured. No key press was read.
    Moved,
    /// No transition waited, and the oldest key press was handed to the
    /// screen, with this result.
    TookKey(Result<(), VaultError>),
    /// No transition waited and no key press either.
    Idle,
}

/// The engine, its display and keys, and the files, at one moment.
pub struct EngineMoment {
    pub manager: StateManager,
    pub context: TerminalContext,
    pub files: VaultFilesView,
}

pub struct StateManager {
    state: Option<StateItem>,
    db_manager: DatabaseManager,
    active: bool,
    failure: Option<VaultError>,
    texts: Texts,
    clipboard_requests: Vec<String>,
}

/// The texts that a screen leaves for the clipboard when it is replaced.
pub open spec fn left_for_clipboard(screen: Option<StateItem>) -> Seq<Seq<char>> {
    match screen {
        Some(StateItem::ShowAccount(s)) => s.clipboard().requests(),
        _ => Seq::empty(),
    }
}

impl StateManager {
    /// The screen that is shown.
    pub closed spec fn screen(&self) -> Option<StateItem> {
        self.state
    }

    /// The vault.
    pub closed spec fn vault(&self) -> DatabaseManager {
        self.db_manager
    }

    /// Whether the engine runs. It stops when a transition asks for the exit,
    /// and when something fails that the user cannot mend.
    pub closed spec fn is_active(&self) -> bool {
        self.active
    }

    /// The failure that stopped the engine, if one did.
    pub closed spec fn failure(&self) -> Option<VaultError> {
        self.failure
    }

    /// The texts that the screens show.
    pub closed spec fn texts(&self) -> Texts {
        self.texts
    }

    /// The texts that screens which were replaced have left for the
    /// clipboard, oldest first.
    pub closed spec fn clipboard_outbox(&self) -> Seq<Seq<char>> {
        self.clipboard_requests@.map_values(|s: String| s@)
    }

    /// Whether there is a screen, and it and the vault are in order.
    pub open spec fn well_formed(&self) -> bool {
        &&& self.vault().well_formed()
        &&& self.screen() matches Some(s) && s.well_formed()
    }

    /// The transition that waits at the clock reading `now`.
    pub open spec fn pending(&self, now: u64) -> Option<TransitionView> {
        match self.screen() {
            Some(s) => s.pending(now),
            None => None,
        }
    }

    /// What one turn draws in a frame of this size at the clock reading `now`:
    /// the display is emptied and the screen is drawn.
    pub open spec fn turn_drawing(&self, width: u16, height: u16, now: u64) -> Seq<DrawCommandView> {
        match self.screen() {
            Some(s) => seq![DrawCommandView::Clear] + s.drawing(self.texts(), width, height, now),
            None => Seq::empty(),
        }
    }

    /// Whether `after` is `before` stopped by the failure `e`.
    pub open spec fn failed(before: Self, after: Self, e: VaultError) -> bool {
        &&& !after.is_active()
        &&& after.failure() == Some(e)
        &&& after.screen() == before.screen()
        &&& after.clipboard_outbox() == before.clipboard_outbox()
    }

    /// Whether `after` is `before` with the transition `t` honoured at the
    /// clock reading `now`: the screen that `t` names is installed, new, and
    /// what the old screen left for the clipboard is kept; or the engine has
    /// stopped, because `t` asks for the exit or the new screen could not be
    /// made. The vault is as it was. A new screen has no transition waiting.
    pub open spec fn installed(before: Self, after: Self, t: TransitionView, files: VaultFilesView, now: u64) -> bool {
        &&& after.vault() == before.vault()
        &&& after.texts() == before.texts()
        &&& after.is_active() ==> {
            &&& before.is_active()
            &&& after.failure() == before.failure()
            &&& after.pending(now) is None
            &&& after.clipboard_outbox() == before.clipboard_outbox() + left_for_clipboard(before.screen())
        }
        &&& match t {
            TransitionView::ToExit => {
                &&& !after.is_active()
                &&& after.screen() == before.screen()
                &&& after.failure() == before.failure()
                &&& after.clipboard_outbox() == before.clipboard_outbox()
            },
            TransitionView::ToAuthentication => match key_file_error(files) {
                Some(e) => Self::failed(before, after, e),
                None => {
                    &&& after.is_active()
                    &&& after.screen() matches Some(StateItem::Authentication(s))
                    &&& s.lock_state() is Locked
                    &&& s.input() == Seq::<char>::empty()
                    &&& parsed_record(files.password_file->0) == Ok::<_, FormatError>(
                        (s.record().salt(), s.record().key()),
                    )
                },
            },
            TransitionView::ToMainMenu => {
                &&& after.is_active()
                &&& after.screen() matches Some(StateItem::MainMenu(s))
                &&& s.selected() == 0
                &&& s.items() == before.texts().main_menu.items()
            },
            TransitionView::ToAddAccount => {
                &&& after.is_active()
                &&& after.screen() matches Some(StateItem::AddAccount(s))
                &&& s.state() is SetAccount
                &&& s.name() == Seq::<char>::empty()
                &&& s.email() == Seq::<char>::empty()
                &&& s.password() == Seq::<char>::empty()
            },
            TransitionView::ToListAccounts => if !before.vault().is_unlocked() {
                Self::failed(before, after, VaultError::Locked)
            } else if after.is_active() {
                &&& after.screen() matches Some(StateItem::ListAccounts(s))
                &&& s.state() is List
                &&& s.search() == Seq::<char>::empty()
                &&& s.entries() == before.vault().rows()
                &&& s.pages().selected() == 0
            } else {
                after.failure() matches Some(e) && is_read_failure(e, before.vault()) && Self::failed(before, after, e)
            },
            TransitionView::ToChangeAuthentication => {
                &&& after.is_active()
                &&& after.screen() matches Some(StateItem::SetAuthentication(s))
                &&& s.state() is EnterPassword
                &&& s.input() == Seq::<char>::empty()
                &&& s.record() is None
            },
            TransitionView::ToShowAccount(account) => {
                &&& after.is_active()
                &&& after.screen() matches Some(StateItem::ShowAccount(s))
                &&& s.state() is ShowAccount
                &&& s.account() == account
                &&& !s.clipboard().is_running()
                &&& s.clipboard().requests() == Seq::<Seq<char>>::empty()
            },
            TransitionView::ToWipeDatabase => {
                &&& after.is_active()
                &&& after.screen() matches Some(StateItem::WipeDatabase(s))
                &&& s.wipe_state() is ConfirmWipe
                &&& s.input() == Seq::<char>::empty()
            },
        }
    }

    /// What the passing of time makes of the engine at the clock reading
    /// `now`: the countdown of a copied password ends where it has run out,
    /// which shows the account again and has the clipboard emptied; nothing
    /// else changes.
    pub open spec fn ticked(before: Self, after: Self, now: u64) -> bool {
        &&& after.well_formed()
        &&& after.vault() == before.vault()
        &&& after.texts() == before.texts()
        &&& after.is_active() == before.is_active()
        &&& after.failure() == before.failure()
        &&& after.clipboard_outbox() == before.clipboard_outbox()
        &&& after.pending(now) == before.pending(now)
        &&& match (before.screen(), after.screen()) {
            (Some(StateItem::ShowAccount(b)), Some(StateItem::ShowAccount(a))) => {
                &&& a.account() == b.account()
                &&& if b.state() is CopyPassword && b.clipboard().is_running() && b.clipboard().remaining_at(now)
                    == 0 {
                    &&& a.state() is ShowAccount
                    &&& !a.clipboard().is_running()
                    &&& a.clipboard().requests() == b.clipboard().requests().push(Seq::<char>::empty())
                } else {
                    a == b
                }
            },
            (screen_before, screen_after) => screen_after == screen_before,
        }
    }

    /// What one turn makes of the engine, its display and keys, and the
    /// files, and how it ends. The screen is drawn. Where the screen's
    /// transition waits, it is honoured and no key press is read; otherwise
    /// the oldest key press that waits, if any, is handed to the screen.
    pub open spec fn turned(before: EngineMoment, after: EngineMoment, clock: Clock, outcome: StepOutcome) -> bool {
        &&& after.manager.well_formed()
        &&& after.context.well_formed()
        &&& after.context.frame_extends(&before.context)
        &&& after.manager.texts() == before.manager.texts()
        &&& match outcome {
            StepOutcome::Stopped => {
                &&& !before.manager.is_active()
                &&& after.manager == before.manager
                &&& after.context == before.context
                &&& after.files == before.files
            },
            StepOutcome::Moved => {
                &&& before.manager.is_active()
                &&& before.manager.pending(clock.millis) matches Some(t) && Self::installed(
                    before.manager,
                    after.manager,
                    t,
                    before.files,
                    clock.millis,
                )
                &&& after.context.pending_keys() == before.context.pending_keys()
                &&& after.files == before.files
                &&& after.context.frame() == before.context.frame() + before.manager.turn_drawing(
                    before.context.width(),
                    before.context.height(),
                    clock.millis,
                ) + (if after.manager.is_active() {
                    seq![DrawCommandView::Clear]
                } else {
                    Seq::empty()
                })
            },
            StepOutcome::TookKey(done) => {
                &&& before.manager.is_active()
                &&& before.manager.pending(clock.millis) is None
                &&& before.context.pending_keys().len() > 0
                &&& after.context.pending_keys() == before.context.pending_keys().skip(1)
                &&& StateItem::took_key(
                    before.manager.screen()->0,
                    after.manager.screen()->0,
                    before.context.pending_keys()[0],
                    clock,
                    before.manager.vault(),
                    after.manager.vault(),
                    before.files,
                    after.files,
                    done,
                )
                &&& after.manager.clipboard_outbox() == before.manager.clipboard_outbox()
                &&& match done {
                    Ok(_) => after.manager.is_active() && after.manager.failure() == before.manager.failure(),
                    Err(e) => !after.manager.is_active() && after.manager.failure() == Some(e),
                }
                &&& after.context.frame() == before.context.frame() + before.manager.turn_drawing(
                    before.context.width(),
                    before.context.height(),
                    clock.millis,
                )
            },
            StepOutcome::Idle => {
                &&& before.manager.is_active()
                &&& before.manager.pending(clock.millis) is None
                &&& before.context.pending_keys().len() == 0
                &&& after.manager == before.manager
                &&& after.context.pending_keys() == before.context.pending_keys()
                &&& after.files == before.files
                &&& after.context.frame() == before.context.frame() + before.manager.turn_drawing(
                    before.context.width(),
                    before.context.height(),
                    clock.millis,
                )
            },
        }
    }

    /// Whether a turn leads from `before` to `after` that honours a
    /// transition or hands over a key press.
    pub open spec fn advanced(before: EngineMoment, after: EngineMoment, clock: Clock) -> bool {
        Self::turned(before, after, clock, StepOutcome::Moved) || exists|done: Result<(), VaultError>|
            Self::turned(before, after, clock, StepOutcome::TookKey(done))
    }

    /// Whether a run leads from `first` to `last` through `moments`: time
    /// passes on the screen, which gives the first of the moments; each
    /// moment leads to the next by a turn that honours a transition or hands
    /// over a key press; and from the last of them a turn finds nothing to
    /// do, or the engine stopped, which gives `last`.
    pub open spec fn ran(first: EngineMoment, last: EngineMoment, moments: Seq<EngineMoment>, clock: Clock) -> bool {
        &&& moments.len() > 0
        &&& Self::ticked(first.manager, moments[0].manager, clock.millis)
        &&& moments[0].context == first.context
        &&& moments[0].files == first.files
        &&& forall|i: int| 0 <= i < moments.len() - 1 ==> Self::advanced(#[trigger] moments[i], moments[i + 1], clock)
        &&& Self::turned(moments.last(), last, clock, StepOutcome::Idle) || Self::turned(
            moments.last(),
            last,
            clock,
            StepOutcome::Stopped,
        )
    }

    /// The engine at its start: the welcome is shown, the vault is locked.
    pub fn new(texts: Texts, now: u64, files: &VaultFiles) -> (manager: Self)
        ensures
            manager.well_formed(),
            manager.is_active(),
            manager.failure() is None,
            manager.texts() == texts,
            !manager.vault().is_unlocked(),
            manager.clipboard_outbox() == Seq::<Seq<char>>::empty(),
            manager.screen() matches Some(StateItem::Startup(s)) && s.signal().armed_at() == now && s.target() == (
            if vault_exists(files@) {
                TransitionView::ToAuthentication
            } else {
                TransitionView::ToChangeAuthentication
            }),
            manager.pending(now) is None,
    {
        let manager = StateManager {
            state: Some(StateItem::Startup(StartupStateItem::new(now, files))),
            db_manager: DatabaseManager::new(),
            active: true,
            failure: None,
            texts,
            clipboard_requests: Vec::new(),
        };
        assert(manager.clipboard_outbox() =~= Seq::<Seq<char>>::empty());
        manager
    }

    /// Whether the engine runs.
    pub fn is_running(&self) -> (active: bool)
        ensures
            active == self.is_active(),
    {
        self.active
    }

    /// The failure that stopped the engine, if one did.
    pub fn get_failure(&self) -> (failure: Option<VaultError>)
        ensures
            failure == self.failure(),
    {
        self.failure
    }

    /// The vault.
    pub fn get_database_manager(&self) -> (vault: &DatabaseManager)
        ensures
            *vault == self.vault(),
    {
        &self.db_manager
    }

    /// The screen that is shown.
    pub fn get_state(&self) -> (screen: &Option<StateItem>)
        ensures
            *screen == self.screen(),
    {
        &self.state
    }

    /// Whether the screen is to be drawn anew without a key press.
    pub fn update_display(&self) -> (again: bool)
        ensures
            again == (self.screen() matches Some(StateItem::ShowAccount(s)) && s.state() is CopyPassword),
    {
        match &self.state {
            Some(state) => state.update_display(),
            None => false,
        }
    }

    fn fail(&mut self, e: VaultError)
        ensures
            Self::failed(*old(self), *final(self), e),
            final(self).vault() == old(self).vault(),
            final(self).texts() == old(self).texts(),
    {
        self.failure = Some(e);
        self.active = false;
    }

    /// Replaces the screen: the outgoing one shuts down, and what it left
    /// for the clipboard is kept; then the incoming one is installed.
    fn transition_to(&mut self, next_state: StateItem, context: &mut TerminalContext)
        ensures
            final(self).screen() == Some(next_state),
            final(self).vault() == old(self).vault(),
            final(self).texts() == old(self).texts(),
            final(self).is_active() == old(self).is_active(),
            final(self).failure() == old(self).failure(),
            final(self).clipboard_outbox() == old(self).clipboard_outbox() + left_for_clipboard(old(self).screen()),
            old(self).screen() is Some ==> final(context).drew(old(context), DrawCommandView::Clear),
            old(self).screen() is None ==> *final(context) == *old(context),
    {
        let ghost outbox = self.clipboard_outbox();
        let mut outgoing: Option<StateItem> = None;
        std::mem::swap(&mut outgoing, &mut self.state);
        if let Some(mut state) = outgoing {
            state.shutdown(context);
            match state {
                StateItem::ShowAccount(mut screen) => {
                    let mut left = screen.take_requests_on_leave();
                    let ghost kept = left@.map_values(|s: String| s@);
                    self.clipboard_requests.append(&mut left);
                    assert(self.clipboard_outbox() =~= outbox + kept);
                },
                _ => {
                    assert(self.clipboard_outbox() =~= outbox + Seq::<Seq<char>>::empty());
                },
            }
        } else {
            assert(self.clipboard_outbox() =~= outbox + Seq::<Seq<char>>::empty());
        }
        self.state = Some(next_state);
    }

    /// Honours a transition: makes the screen that it names and installs it,
    /// or stops the engine where it asks for the exit or the screen cannot
    /// be made.
    fn transition(&mut self, transition: Transition, clock: Clock, files: &VaultFiles, context: &mut TerminalContext)
        requires
            old(self).well_formed(),
            old(self).is_active(),
        ensures
            final(self).well_formed(),
            Self::installed(*old(self), *final(self), transition@, files@, clock.millis),
            final(self).is_active() ==> final(context).drew(old(context), DrawCommandView::Clear),
            !final(self).is_active() ==> *final(context) == *old(context),
    {
        match transition {
            Transition::ToAuthentication => {
                match AuthenticationStateItem::new(files, &self.texts.password) {
                    Ok(screen) => self.transition_to(StateItem::Authentication(screen), context),
                    Err(e) => self.fail(e),
                }
            },
            Transition::ToAddAccount => {
                let screen = AddEntryStateItem::new(&self.texts.password);
                self.transition_to(StateItem::AddAccount(screen), context)
            },
            Transition::ToListAccounts => {
                match ListAccountsState::new(&self.db_manager) {
                    Ok(screen) => self.transition_to(StateItem::ListAccounts(screen), context),
                    Err(e) => self.fail(e),
                }
            },
            Transition::ToChangeAuthentication => {
                self.transition_to(StateItem::SetAuthentication(SetAuthenticationStateItem::new()), context)
            },
            Transition::ToShowAccount(account) => {
                let screen = ShowAccountStateItem::new(account, &self.texts.password);
                self.transition_to(StateItem::ShowAccount(screen), context)
            },
            Transition::ToMainMenu => {
                let screen = MainMenuStateItem::new(&self.texts);
                self.transition_to(StateItem::MainMenu(screen), context)
            },
            Transition::ToWipeDatabase => {
                let screen = WipeDatabaseStateItem::new(&self.texts.password);
                self.transition_to(StateItem::WipeDatabase(screen), context)
            },
            Transition::ToExit => {
                self.active = false;
            },
        }
    }

    /// One turn of the engine. The screen is drawn. Then, where the screen's
    /// transition waits, it is honoured, and no key press is read in this
    /// turn: the outgoing screen shuts down, which empties the display, and
    /// the incoming one is installed. Otherwise the oldest key press that
    /// waits, if any, is handed to the screen. A failure that the screen
    /// reports stops the engine.
    pub fn step(&mut self, context: &mut TerminalContext, clock: Clock, files: &mut VaultFiles) -> (outcome:
        StepOutcome)
        requires
            old(self).well_formed(),
            old(context).well_formed(),
        ensures
            Self::turned(
                EngineMoment { manager: *old(self), context: *old(context), files: old(files)@ },
                EngineMoment { manager: *final(self), context: *final(context), files: final(files)@ },
                clock,
                outcome,
            ),
    {
        if !self.active {
            return StepOutcome::Stopped;
        }
        let pending = match &self.state {
            Some(state) => {
                context.clear_screen();
                state.display(context, &self.texts, clock.millis);
                state.next_state(clock.millis)
            },
            None => None,
        };
        let ghost drawn = old(self).turn_drawing(old(context).width(), old(context).height(), clock.millis);
        assert(context.frame() =~= old(context).frame() + drawn);
        if let Some(transition) = pending {
            self.transition(transition, clock, files, context);
            assert(context.frame() =~= old(context).frame() + drawn + (if self.is_active() {
                seq![DrawCommandView::Clear]
            } else {
                Seq::empty()
            }));
            return StepOutcome::Moved;
        }
        let key_code = match context.read_input() {
            Some(key_code) => key_code,
            None => return StepOutcome::Idle,
        };
        let done = match &mut self.state {
            Some(state) => state.register_input(key_code, clock, &mut self.db_manager, files, &self.texts.password),
            None => Ok(()),
        };
        match done {
            Ok(_) => {},
            Err(e) => {
                self.fail(e);
            },
        }
        StepOutcome::TookKey(done)
    }

    /// Lets time pass on the screen: a countdown that has run out ends.
    pub fn on_tick(&mut self, now: u64)
        requires
            old(self).well_formed(),
        ensures
            Self::ticked(*old(self), *final(self), now),
    {
        match &mut self.state {
            Some(StateItem::ShowAccount(screen)) => {
                screen.on_tick(now);
            },
            _ => {},
        }
    }

    /// Runs the engine at one moment: time passes on the screen, and then
    /// the engine takes turn after turn, each as `turned` says, until it has
    /// stopped, or no transition waits and no key press either; the last
    /// thing drawn is then the screen as it is. A transition is always honoured before the
    /// next key press is read, so no key press reaches a screen whose exit
    /// condition is met.
    pub fn run(&mut self, context: &mut TerminalContext, clock: Clock, files: &mut VaultFiles)
        requires
            old(self).well_formed(),
            old(context).well_formed(),
        ensures
            final(self).well_formed(),
            final(context).well_formed(),
            final(context).frame_extends(old(context)),
            final(self).texts() == old(self).texts(),
            final(self).is_active() ==> {
                &&& old(self).is_active()
                &&& final(context).pending_keys().len() == 0
                &&& final(self).pending(clock.millis) is None
                &&& final(context).ends_with(
                    final(self).turn_drawing(old(context).width(), old(context).height(), clock.millis),
                )
            },
            !old(self).is_active() ==> *final(self) == *old(self) && *final(context) == *old(context) && final(files)@
                == old(files)@,
            old(self).is_active() ==> exists|moments: Seq<EngineMoment>| #[trigger]
                Self::ran(
                    EngineMoment { manager: *old(self), context: *old(context), files: old(files)@ },
                    EngineMoment { manager: *final(self), context: *final(context), files: final(files)@ },
                    moments,
                    clock,
                ),
    {
        if !self.active {
            return ;
        }
        self.on_tick(clock.millis);
        let ghost first = EngineMoment { manager: *old(self), context: *old(context), files: old(files)@ };
        let ghost mut moments: Seq<EngineMoment> = seq![
            EngineMoment { manager: *self, context: *context, files: files@ },
        ];
        loop
            invariant_except_break
                moments.last() == (EngineMoment { manager: *self, context: *context, files: files@ }),
            invariant
                self.well_formed(),
                context.well_formed(),
                context.frame_extends(old(context)),
                self.texts() == old(self).texts(),
                old(self).is_active(),
                first == (EngineMoment { manager: *old(self), context: *old(context), files: old(files)@ }),
                moments.len() > 0,
                Self::ticked(first.manager, moments[0].manager, clock.millis),
                moments[0].context == first.context,
                moments[0].files == first.files,
                forall|i: int|
                    0 <= i < moments.len() - 1 ==> Self::advanced(#[trigger] moments[i], moments[i + 1], clock),
            ensures
                self.well_formed(),
                context.well_formed(),
                context.frame_extends(old(context)),
                self.texts() == old(self).texts(),
                self.is_active() ==> {
                    &&& context.pending_keys().len() == 0
                    &&& self.pending(clock.millis) is None
                    &&& context.ends_with(self.turn_drawing(old(context).width(), old(context).height(), clock.millis))
                },
                Self::ran(first, EngineMoment { manager: *self, context: *context, files: files@ }, moments, clock),
            decreases
                    if self.is_active() {
                        2 * context.pending_keys().len() + (if self.pending(clock.millis) is Some {
                            1nat
                        } else {
                            0nat
                        }) + 1
                    } else {
                        0
                    },
        {
            let ghost before = moments.last();
            let outcome = self.step(context, clock, files);
            let ghost after = EngineMoment { manager: *self, context: *context, files: files@ };
            match outcome {
                StepOutcome::Stopped => {
                    break ;
                },
                StepOutcome::Idle => {
                    proof {
                        let drawn = self.turn_drawing(old(context).width(), old(context).height(), clock.millis);
                        assert(context.frame().skip(context.frame().len() - drawn.len()) =~= drawn);
                    }
                    break ;
                },
                _ => {
                    proof {
                        assert(Self::advanced(before, after, clock)) by {
                            if outcome is TookKey {
                                assert(Self::turned(before, after, clock, StepOutcome::TookKey(outcome->TookKey_0)));
                            }
                        }
                        let longer = moments.push(after);
                        assert forall|i: int| 0 <= i < longer.len() - 1 implies Self::advanced(
                            #[trigger] longer[i],
                            longer[i + 1],
                            clock,
                        ) by {
                            if i < moments.len() - 1 {
                                assert(longer[i] == moments[i] && longer[i + 1] == moments[i + 1]);
                            }
                        }
                        moments = longer;
                    }
                },
            }
        }
    }

    /// Hands over the texts that wait to be put on the clipboard, oldest
    /// first: those that replaced screens have left, then those of the
    /// screen that is shown. None wait afterwards.
    pub fn take_clipboard_requests(&mut self) -> (texts: Vec<String>)
        requires
            old(self).well_formed(),
        ensures
            final(self).well_formed(),
            texts@.map_values(|s: String| s@) == old(self).clipboard_outbox() + left_for_clipboard(old(self).screen()),
            final(self).clipboard_outbox() == Seq::<Seq<char>>::empty(),
            left_for_clipboard(final(self).screen()) == Seq::<Seq<char>>::empty(),
            final(self).vault() == old(self).vault(),
            final(self).is_active() == old(self).is_active(),
            final(self).failure() == old(self).failure(),
            forall|now: u64| final(self).pending(now) == old(self).pending(now),
    {
        let ghost outbox = self.clipboard_outbox();
        let mut texts: Vec<String> = Vec::new();
        std::mem::swap(&mut texts, &mut self.clipboard_requests);
        assert(self.clipboard_outbox() =~= Seq::<Seq<char>>::empty());
        match &mut self.state {
            Some(StateItem::ShowAccount(screen)) => {
                let mut more = screen.take_clipboard_requests();
                let ghost kept = more@.map_values(|s: String| s@);
                texts.append(&mut more);
                assert(texts@.map_values(|s: String| s@) =~= outbox + kept);
            },
            _ => {
                assert(texts@.map_values(|s: String| s@) =~= outbox + Seq::<Seq<char>>::empty());
            },
        }
        texts
    }
}

} // verus!
