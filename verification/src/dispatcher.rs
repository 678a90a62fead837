//! The composition root: it holds the registry, the windows, the tray and the
//! injector, and turns each event of the operating system into what the shell
//! is to do next.

use vstd::prelude::*;
use crate::injector::{injection, InjectionError, KeyInjector, KeyStroke, Platform, SimulationAccess};
use crate::placement::{DisplayGeometry, Position, WindowSize};
use crate::shortcut::{
    classification, lemma_bound_trigger_at, lemma_bound_trigger_none, pairwise_distinct,
    Combination, Edge, KeyCode, KeyTransitionEvent, LogicalAction, Modifiers, RegistrationError,
    Reservation, ShortcutBinding, ShortcutRegistry, Trigger,
};
use crate::tray::{menu_action_of, outcome_of, table_after, TrayController, TrayMenuAction, TrayOutcome};
use crate::window::{CloseResponse, WindowLifecycleController, WindowState, WindowTable};

verus! {

/// Where a logical action goes.
#[derive(Clone, Copy, Debug, PartialEq, Eq, Hash, Structural)]
pub enum Effect {
    /// Publish the action on the session event bus.
    Emit(LogicalAction),
    /// Paste into the focused application.
    InjectPaste,
}

/// The name of the floating widget's window.
pub open spec fn widget_label() -> Seq<char> {
    "widget"@
}

/// Control, Shift and Space: held to talk.
pub open spec fn push_to_talk_binding() -> ShortcutBinding {
    ShortcutBinding {
        combination: Combination {
            modifiers: Modifiers { control: true, shift: true, alt: false, meta: false },
            key: KeyCode::Space,
        },
        trigger: Trigger::PushToTalk,
    }
}

/// Shift, Alt and V: pressed to paste.
pub open spec fn paste_binding() -> ShortcutBinding {
    ShortcutBinding {
        combination: Combination {
            modifiers: Modifiers { control: false, shift: true, alt: true, meta: false },
            key: KeyCode::KeyV,
        },
        trigger: Trigger::Paste,
    }
}

/// The bindings that the dispatcher asks for at startup, in the order in
/// which it asks.
pub open spec fn default_bindings() -> Seq<ShortcutBinding> {
    seq![push_to_talk_binding(), paste_binding()]
}

/// What the operating system's answer means for one default binding.
pub open spec fn reservation_outcome(reservation: Reservation) -> Result<(), RegistrationError> {
    match reservation {
        Reservation::Granted => Ok(()),
        Reservation::Denied => Err(RegistrationError::CombinationUnavailable),
    }
}

/// The default bindings that are live after startup: each one whose
/// combination the operating system granted.
pub open spec fn live_bindings(push_to_talk: Reservation, paste: Reservation) -> Seq<
    ShortcutBinding,
> {
    let first = if push_to_talk == Reservation::Granted {
        seq![push_to_talk_binding()]
    } else {
        Seq::empty()
    };
    if paste == Reservation::Granted {
        first.push(paste_binding())
    } else {
        first
    }
}

/// Where `action` goes: the two push-to-talk actions are published, and a
/// paste is injected.
pub open spec fn route(action: LogicalAction) -> Effect {
    match action {
        LogicalAction::PushToTalkStart => Effect::Emit(action),
        LogicalAction::PushToTalkStop => Effect::Emit(action),
        LogicalAction::TriggerPaste => Effect::InjectPaste,
    }
}

/// The mathematical content of the dispatcher.
pub struct DispatcherState {
    pub bindings: Seq<ShortcutBinding>,
    pub table: WindowTable,
    pub platform: Platform,
    /// Whether the one placement of the widget has been asked for.
    pub widget_placed: bool,
}

impl DispatcherState {
    /// After a quit no binding is left and no window is live.
    pub open spec fn wf(self) -> bool {
        &&& self.table.wf()
        &&& self.table.terminated ==> self.bindings.len() == 0
    }

    /// What a key transition comes to.
    pub open spec fn key_effect(self, event: KeyTransitionEvent) -> Option<Effect> {
        match classification(self.bindings, event) {
            Some(action) => Some(route(action)),
            None => None,
        }
    }

    /// The state after the tray has asked for `action`. A quit releases every
    /// binding.
    pub open spec fn after_tray(self, action: Option<TrayMenuAction>) -> DispatcherState {
        DispatcherState {
            bindings: if !self.table.terminated && action == Some(TrayMenuAction::Quit) {
                Seq::empty()
            } else {
                self.bindings
            },
            table: table_after(self.table, action),
            ..self
        }
    }

    /// Where the widget is to be put. The placement is computed once: a
    /// second request, and one after a quit, comes to nothing.
    pub open spec fn widget_request(
        self,
        display: Option<DisplayGeometry>,
        size: Option<WindowSize>,
    ) -> Option<Position> {
        if self.widget_placed || self.table.terminated {
            None
        } else {
            self.table.placement_of(widget_label(), display, size)
        }
    }

    /// The state after the placement of the widget has been asked for.
    pub open spec fn after_widget_request(self) -> DispatcherState {
        if self.table.terminated {
            self
        } else {
            DispatcherState { widget_placed: true, ..self }
        }
    }

    /// What a request to paste on demand comes to: nothing after a quit, and
    /// the injector's answer before.
    pub open spec fn paste_request(self, access: SimulationAccess) -> Option<
        Result<Seq<KeyStroke>, InjectionError>,
    > {
        if self.table.terminated {
            None
        } else {
            Some(injection(self.platform, access))
        }
    }
}

/// The single point through which the events of the operating system pass.
pub struct Dispatcher {
    registry: ShortcutRegistry,
    windows: WindowLifecycleController,
    tray: TrayController,
    injector: KeyInjector,
    widget_placed: bool,
}

impl View for Dispatcher {
    type V = DispatcherState;

    closed spec fn view(&self) -> DispatcherState {
        DispatcherState {
            bindings: self.registry@,
            table: self.windows@,
            platform: self.injector.platform,
            widget_placed: self.widget_placed,
        }
    }
}

impl Dispatcher {
    /// The parts are well formed, and a quit has released every binding.
    pub closed spec fn wf(&self) -> bool {
        &&& self.registry.wf()
        &&& self.windows.wf()
        &&& self.windows@.terminated ==> self.registry@.len() == 0
    }

    /// A well-formed dispatcher has a well-formed state.
    pub proof fn lemma_view_wf(&self)
        requires
            self.wf(),
        ensures
            self@.wf(),
    {
        self.windows.lemma_view_wf();
    }

    /// The bindings that the dispatcher asks for at startup, in the order in
    /// which it asks.
    pub fn default_bindings() -> (bindings: Vec<ShortcutBinding>)
        ensures
            bindings@ == default_bindings(),
    {
        let mut bindings: Vec<ShortcutBinding> = Vec::new();
        bindings.push(
            ShortcutBinding {
                combination: Combination {
                    modifiers: Modifiers { control: true, shift: true, alt: false, meta: false },
                    key: KeyCode::Space,
                },
                trigger: Trigger::PushToTalk,
            },
        );
        bindings.push(
            ShortcutBinding {
                combination: Combination {
                    modifiers: Modifiers { control: false, shift: true, alt: true, meta: false },
                    key: KeyCode::KeyV,
                },
                trigger: Trigger::Paste,
            },
        );
        bindings
    }

    /// Starts the dispatcher for `platform`, given the operating system's
    /// answers to the requests to reserve the two default combinations.
    ///
    /// A combination that was denied leaves its binding inert and is reported
    /// at its position; the dispatcher starts all the same.
    pub fn start(platform: Platform, push_to_talk: Reservation, paste: Reservation) -> (started: (
        Dispatcher,
        Vec<Result<(), RegistrationError>>,
    ))
        ensures
            started.0.wf(),
            started.0@ == (DispatcherState {
                bindings: live_bindings(push_to_talk, paste),
                table: WindowTable { windows: Map::empty(), terminated: false },
                platform: platform,
                widget_placed: false,
            }),
            started.1@ == seq![reservation_outcome(push_to_talk), reservation_outcome(paste)],
    {
        let defaults = Dispatcher::default_bindings();
        let mut registry = ShortcutRegistry::new();
        let first = registry.register_binding(defaults[0], push_to_talk);
        proof {
            lemma_bound_trigger_none(registry@, paste_binding().combination);
        }
        let second = registry.register_binding(defaults[1], paste);
        let mut outcomes: Vec<Result<(), RegistrationError>> = Vec::new();
        outcomes.push(first);
        outcomes.push(second);
        let dispatcher = Dispatcher {
            registry,
            windows: WindowLifecycleController::new(),
            tray: TrayController::new(),
            injector: KeyInjector::new(platform),
            widget_placed: false,
        };
        (dispatcher, outcomes)
    }

    /// Starts tracking the window named `label`; see
    /// [`WindowLifecycleController::attach`].
    pub fn attach_window(&mut self, label: &str) -> (added: bool)
        requires
            old(self).wf(),
        ensures
            final(self).wf(),
            final(self)@ == (DispatcherState {
                table: old(self)@.table.attach(label@),
                ..old(self)@
            }),
            added == (!old(self)@.table.terminated && !old(self)@.table.windows.contains_key(
                label@,
            )),
    {
        self.windows.attach(label)
    }

    /// The state of the window named `label`, if it is live.
    pub fn window_state(&self, label: &str) -> (state: Option<WindowState>)
        requires
            self.wf(),
        ensures
            state == self@.table.state_of(label@),
    {
        self.windows.state(label)
    }

    /// Whether the process has been told to quit.
    pub fn is_terminated(&self) -> (terminated: bool)
        ensures
            terminated == self@.table.terminated,
    {
        self.windows.is_terminated()
    }

    /// Handles a key transition: a push-to-talk action is to be published, a
    /// paste is to be injected, and any other transition is ignored.
    pub fn on_key_transition(&self, event: KeyTransitionEvent) -> (effect: Option<Effect>)
        requires
            self.wf(),
        ensures
            effect == self@.key_effect(event),
    {
        match self.registry.classify(event) {
            Some(LogicalAction::PushToTalkStart) => Some(
                Effect::Emit(LogicalAction::PushToTalkStart),
            ),
            Some(LogicalAction::PushToTalkStop) => Some(Effect::Emit(LogicalAction::PushToTalkStop)),
            Some(LogicalAction::TriggerPaste) => Some(Effect::InjectPaste),
            None => None,
        }
    }

    /// Handles the request of the window named `label` to be closed; see
    /// [`WindowLifecycleController::on_close_requested`].
    pub fn on_close_requested(&mut self, label: &str) -> (response: CloseResponse)
        requires
            old(self).wf(),
        ensures
            final(self).wf(),
            final(self)@ == (DispatcherState {
                table: old(self)@.table.close_requested(label@),
                ..old(self)@
            }),
            response == old(self)@.table.close_response(label@),
    {
        self.windows.on_close_requested(label)
    }

    /// Handles the selection of the tray menu item with identifier `item`.
    pub fn on_menu_select(&mut self, item: &str) -> (outcome: TrayOutcome)
        requires
            old(self).wf(),
        ensures
            final(self).wf(),
            final(self)@ == old(self)@.after_tray(menu_action_of(item@)),
            outcome == outcome_of(old(self)@.table, menu_action_of(item@)),
    {
        let outcome = self.tray.on_menu_select(item, &mut self.windows);
        self.release_bindings_on_exit(outcome);
        outcome
    }

    /// Handles a click on the tray icon.
    pub fn on_tray_click(&mut self) -> (outcome: TrayOutcome)
        requires
            old(self).wf(),
        ensures
            final(self).wf(),
            final(self)@ == old(self)@.after_tray(Some(TrayMenuAction::ShowMain)),
            outcome == outcome_of(old(self)@.table, Some(TrayMenuAction::ShowMain)),
    {
        self.tray.on_tray_click(&mut self.windows)
    }

    /// Computes, once, where to put the floating widget on the display that
    /// it is on; see
    /// [`WindowLifecycleController::position_widget_relative_to_display`].
    /// Returns `None`, and nothing is to be done, where the widget's window is
    /// not live, where the display or the window's size is not known, and on
    /// every call after the first.
    pub fn place_widget(&mut self, display: Option<DisplayGeometry>, size: Option<WindowSize>) -> (position:
        Option<Position>)
        requires
            old(self).wf(),
        ensures
            final(self).wf(),
            final(self)@ == old(self)@.after_widget_request(),
            position == old(self)@.widget_request(display, size),
    {
        if self.widget_placed || self.windows.is_terminated() {
            return None;
        }
        self.widget_placed = true;
        self.windows.position_widget_relative_to_display("widget", display, size)
    }

    /// Handles a request to paste on demand. Returns `None` after a quit;
    /// before, the key strokes to synthesize, or the reason why there are
    /// none.
    pub fn paste_transcript(&self, access: SimulationAccess) -> (result: Option<
        Result<Vec<KeyStroke>, InjectionError>,
    >)
        requires
            self.wf(),
        ensures
            match result {
                None => self@.paste_request(access).is_none(),
                Some(Ok(strokes)) => self@.paste_request(access) == Some(
                    Ok::<Seq<KeyStroke>, InjectionError>(strokes@),
                ),
                Some(Err(error)) => self@.paste_request(access) == Some(
                    Err::<Seq<KeyStroke>, InjectionError>(error),
                ),
            },
    {
        if self.windows.is_terminated() {
            None
        } else {
            Some(self.injector.inject_paste(access))
        }
    }

    /// Drops every binding where `outcome` ends the process.
    fn release_bindings_on_exit(&mut self, outcome: TrayOutcome)
        requires
            old(self).registry.wf(),
            old(self).windows.wf(),
            !(outcome is Exit) ==> old(self).wf(),
        ensures
            final(self).wf(),
            final(self).windows == old(self).windows,
            final(self).injector == old(self).injector,
            final(self).widget_placed == old(self).widget_placed,
            final(self).registry@ == if outcome is Exit {
                Seq::<ShortcutBinding>::empty()
            } else {
                old(self).registry@
            },
    {
        match outcome {
            TrayOutcome::Exit(_) => {
                self.registry = ShortcutRegistry::new();
            },
            _ => {},
        }
    }
}

/// Where the push-to-talk combination was granted, pressing it is published
/// as a start and releasing it as a stop; where the paste combination was
/// granted, pressing it injects a paste and releasing it does nothing.
pub proof fn law_default_bindings_dispatch(
    state: DispatcherState,
    push_to_talk: Reservation,
    paste: Reservation,
)
    requires
        state.bindings == live_bindings(push_to_talk, paste),
    ensures
        push_to_talk == Reservation::Granted ==> state.key_effect(
            KeyTransitionEvent {
                combination: push_to_talk_binding().combination,
                edge: Edge::Pressed,
            },
        ) == Some(Effect::Emit(LogicalAction::PushToTalkStart)),
        push_to_talk == Reservation::Granted ==> state.key_effect(
            KeyTransitionEvent {
                combination: push_to_talk_binding().combination,
                edge: Edge::Released,
            },
        ) == Some(Effect::Emit(LogicalAction::PushToTalkStop)),
        paste == Reservation::Granted ==> state.key_effect(
            KeyTransitionEvent { combination: paste_binding().combination, edge: Edge::Pressed },
        ) == Some(Effect::InjectPaste),
        forall|edge: Edge|
            push_to_talk == Reservation::Denied ==> (#[trigger] state.key_effect(
                KeyTransitionEvent { combination: push_to_talk_binding().combination, edge },
            )).is_none(),
        forall|edge: Edge|
            paste == Reservation::Denied ==> (#[trigger] state.key_effect(
                KeyTransitionEvent { combination: paste_binding().combination, edge },
            )).is_none(),
        state.key_effect(
            KeyTransitionEvent { combination: paste_binding().combination, edge: Edge::Released },
        ).is_none(),
{
    let live = state.bindings;
    lemma_bound_trigger_none(live, push_to_talk_binding().combination);
    lemma_bound_trigger_none(live, paste_binding().combination);
    if push_to_talk == Reservation::Granted {
        lemma_bound_trigger_at(live, 0);
    }
    if paste == Reservation::Granted {
        let last = live.len() - 1;
        lemma_bound_trigger_at(live, last);
    }
}

/// A quit through the tray ends everything: the exit code is 0, no binding
/// and no window is left, and the state is final.
pub proof fn law_quit_exits_with_success(state: DispatcherState)
    requires
        state.wf(),
        !state.table.terminated,
    ensures
        outcome_of(state.table, Some(TrayMenuAction::Quit)) == TrayOutcome::Exit(0),
        state.after_tray(Some(TrayMenuAction::Quit)).wf(),
        state.after_tray(Some(TrayMenuAction::Quit)).table.terminated,
{
}

/// After a quit no handler does anything: no key transition has an effect,
/// no tray interaction has an outcome, no close request is intercepted, no
/// window is tracked, placed or found, no paste is planned, and the state
/// stays as it is.
pub proof fn law_nothing_runs_after_quit(
    state: DispatcherState,
    event: KeyTransitionEvent,
    action: Option<TrayMenuAction>,
    label: Seq<char>,
    access: SimulationAccess,
)
    requires
        state.wf(),
        state.table.terminated,
    ensures
        state.key_effect(event).is_none(),
        state.after_tray(action) == state,
        outcome_of(state.table, action) == TrayOutcome::Ignored,
        state.table.attach(label) == state.table,
        state.table.close_requested(label) == state.table,
        state.table.close_response(label) == CloseResponse::Proceed,
        state.table.shown(label) == state.table,
        state.table.state_of(label).is_none(),
        forall|display: Option<DisplayGeometry>, size: Option<WindowSize>|
            (#[trigger] state.widget_request(display, size)).is_none(),
        state.after_widget_request() == state,
        state.paste_request(access).is_none(),
{
    lemma_bound_trigger_none(state.bindings, event.combination);
}

} // verus!
