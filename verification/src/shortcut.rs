//! Global shortcut bindings and the classification of raw key transitions.

use vstd::prelude::*;

verus! {

/// The modifier keys that take part in a combination.
#[derive(Clone, Copy, Debug, PartialEq, Eq, Hash, Structural)]
pub struct Modifiers {
    pub control: bool,
    pub shift: bool,
    pub alt: bool,
    pub meta: bool,
}

/// The base key of a combination.
#[derive(Clone, Copy, Debug, PartialEq, Eq, Hash, Structural)]
pub enum KeyCode {
    Space,
    Enter,
    Tab,
    Escape,
    Backspace,
    KeyA,
    KeyB,
    KeyC,
    KeyD,
    KeyE,
    KeyF,
    KeyG,
    KeyH,
    KeyI,
    KeyJ,
    KeyK,
    KeyL,
    KeyM,
    KeyN,
    KeyO,
    KeyP,
    KeyQ,
    KeyR,
    KeyS,
    KeyT,
    KeyU,
    KeyV,
    KeyW,
    KeyX,
    KeyY,
    KeyZ,
    Digit0,
    Digit1,
    Digit2,
    Digit3,
    Digit4,
    Digit5,
    Digit6,
    Digit7,
    Digit8,
    Digit9,
    F1,
    F2,
    F3,
    F4,
    F5,
    F6,
    F7,
    F8,
    F9,
    F10,
    F11,
    F12,
}

/// A set of modifier keys held together with one base key.
#[derive(Clone, Copy, Debug, PartialEq, Eq, Hash, Structural)]
pub struct Combination {
    pub modifiers: Modifiers,
    pub key: KeyCode,
}

/// Direction of a physical key transition.
#[derive(Clone, Copy, Debug, PartialEq, Eq, Hash, Structural)]
pub enum Edge {
    Pressed,
    Released,
}

/// A raw key transition as the operating system reports it.
#[derive(Clone, Copy, Debug, PartialEq, Eq, Hash, Structural)]
pub struct KeyTransitionEvent {
    pub combination: Combination,
    pub edge: Edge,
}

/// What a key transition means to the session.
#[derive(Clone, Copy, Debug, PartialEq, Eq, Hash, Structural)]
pub enum LogicalAction {
    PushToTalkStart,
    PushToTalkStop,
    TriggerPaste,
}

/// What a combination is bound to.
///
/// `PushToTalk` is edge-driven: one combination starts the session when it
/// goes down and stops it when it comes up. `Paste` is press-only: it fires
/// when the combination goes down and stays silent when it comes up.
#[derive(Clone, Copy, Debug, PartialEq, Eq, Hash, Structural)]
pub enum Trigger {
    PushToTalk,
    Paste,
}

/// One entry of the registry: a combination and what it is bound to.
#[derive(Clone, Copy, Debug, PartialEq, Eq, Hash, Structural)]
pub struct ShortcutBinding {
    pub combination: Combination,
    pub trigger: Trigger,
}

/// Why a binding could not be registered.
#[derive(Clone, Copy, Debug, PartialEq, Eq, Hash, Structural)]
pub enum RegistrationError {
    /// The combination is already held, by another process or by an earlier
    /// binding of this registry.
    CombinationUnavailable,
}

/// The operating system's answer to a request to reserve one combination.
#[derive(Clone, Copy, Debug, PartialEq, Eq, Hash, Structural)]
pub enum Reservation {
    Granted,
    Denied,
}

/// A binding together with the operating system's answer for its combination.
#[derive(Clone, Copy, Debug, PartialEq, Eq, Hash, Structural)]
pub struct ReservedBinding {
    pub binding: ShortcutBinding,
    pub reservation: Reservation,
}

impl Modifiers {
    /// No modifier held.
    pub fn none() -> (m: Modifiers)
        ensures
            m == (Modifiers { control: false, shift: false, alt: false, meta: false }),
    {
        Modifiers { control: false, shift: false, alt: false, meta: false }
    }
}

impl Trigger {
    /// The action that a transition in direction `edge` yields, if any.
    pub open spec fn action_on(self, edge: Edge) -> Option<LogicalAction> {
        match (self, edge) {
            (Trigger::PushToTalk, Edge::Pressed) => Some(LogicalAction::PushToTalkStart),
            (Trigger::PushToTalk, Edge::Released) => Some(LogicalAction::PushToTalkStop),
            (Trigger::Paste, Edge::Pressed) => Some(LogicalAction::TriggerPaste),
            (Trigger::Paste, Edge::Released) => None,
        }
    }

    /// Whether both edges of the combination yield an action.
    pub open spec fn is_edge_driven(self) -> bool {
        self == Trigger::PushToTalk
    }

    /// The action that a transition in direction `edge` yields, if any.
    pub fn resolve(self, edge: Edge) -> (action: Option<LogicalAction>)
        ensures
            action == self.action_on(edge),
    {
        match self {
            Trigger::PushToTalk => match edge {
                Edge::Pressed => Some(LogicalAction::PushToTalkStart),
                Edge::Released => Some(LogicalAction::PushToTalkStop),
            },
            Trigger::Paste => match edge {
                Edge::Pressed => Some(LogicalAction::TriggerPaste),
                Edge::Released => None,
            },
        }
    }
}

/// The trigger that the last binding of `bindings` with combination `c`
/// carries, or `None` where no binding has that combination.
pub open spec fn bound_trigger(bindings: Seq<ShortcutBinding>, c: Combination) -> Option<Trigger>
    decreases bindings.len(),
{
    if bindings.len() == 0 {
        None
    } else if bindings.last().combination == c {
        Some(bindings.last().trigger)
    } else {
        bound_trigger(bindings.drop_last(), c)
    }
}

/// No two bindings share a combination.
pub open spec fn pairwise_distinct(bindings: Seq<ShortcutBinding>) -> bool {
    forall|i: int, j: int|
        0 <= i < j < bindings.len() ==> bindings[i].combination != bindings[j].combination
}

/// The action that `event` yields under `bindings`.
pub open spec fn classification(bindings: Seq<ShortcutBinding>, event: KeyTransitionEvent) -> Option<
    LogicalAction,
> {
    match bound_trigger(bindings, event.combination) {
        Some(trigger) => trigger.action_on(event.edge),
        None => None,
    }
}

/// What registering `binding` with answer `reservation` leaves of `bindings`:
/// the binding is appended where the combination was granted and is still
/// free, and nothing changes otherwise.
pub open spec fn after_registration(
    bindings: Seq<ShortcutBinding>,
    binding: ShortcutBinding,
    reservation: Reservation,
) -> Seq<ShortcutBinding> {
    if accepted(bindings, binding, reservation) {
        bindings.push(binding)
    } else {
        bindings
    }
}

/// Whether registering `binding` with answer `reservation` succeeds.
pub open spec fn accepted(
    bindings: Seq<ShortcutBinding>,
    binding: ShortcutBinding,
    reservation: Reservation,
) -> bool {
    reservation == Reservation::Granted && bound_trigger(bindings, binding.combination).is_none()
}

/// A binding with combination `c` exists exactly where `bound_trigger` finds one.
pub proof fn lemma_bound_trigger_none(bindings: Seq<ShortcutBinding>, c: Combination)
    ensures
        bound_trigger(bindings, c).is_none() <==> forall|i: int|
            0 <= i < bindings.len() ==> bindings[i].combination != c,
    decreases bindings.len(),
{
    if bindings.len() > 0 {
        let front = bindings.drop_last();
        lemma_bound_trigger_none(front, c);
        if bindings.last().combination != c {
            if bound_trigger(bindings, c).is_none() {
                assert forall|i: int| 0 <= i < bindings.len() implies bindings[i].combination
                    != c by {
                    if i < front.len() {
                        assert(front[i] == bindings[i]);
                    }
                }
            }
        }
    }
}

/// Among pairwise distinct bindings, the one at `i` is the one that
/// `bound_trigger` finds for its combination.
pub proof fn lemma_bound_trigger_at(bindings: Seq<ShortcutBinding>, i: int)
    requires
        pairwise_distinct(bindings),
        0 <= i < bindings.len(),
    ensures
        bound_trigger(bindings, bindings[i].combination) == Some(bindings[i].trigger),
    decreases bindings.len(),
{
    if i < bindings.len() - 1 {
        let front = bindings.drop_last();
        assert(pairwise_distinct(front));
        lemma_bound_trigger_at(front, i);
    }
}

/// What registering `binding` with answer `reservation` reports.
pub open spec fn registration_outcome(
    bindings: Seq<ShortcutBinding>,
    binding: ShortcutBinding,
    reservation: Reservation,
) -> Result<(), RegistrationError> {
    if accepted(bindings, binding, reservation) {
        Ok(())
    } else {
        Err(RegistrationError::CombinationUnavailable)
    }
}

/// What registering all of `attempts`, in order, leaves of `bindings`.
pub open spec fn after_registrations(
    bindings: Seq<ShortcutBinding>,
    attempts: Seq<ReservedBinding>,
) -> Seq<ShortcutBinding>
    decreases attempts.len(),
{
    if attempts.len() == 0 {
        bindings
    } else {
        after_registration(
            after_registrations(bindings, attempts.drop_last()),
            attempts.last().binding,
            attempts.last().reservation,
        )
    }
}

/// The actions that `events` yield under `bindings`, in the order of the
/// events; a transition that yields no action leaves no trace.
pub open spec fn classified_stream(
    bindings: Seq<ShortcutBinding>,
    events: Seq<KeyTransitionEvent>,
) -> Seq<LogicalAction>
    decreases events.len(),
{
    if events.len() == 0 {
        Seq::empty()
    } else {
        let earlier = classified_stream(bindings, events.drop_last());
        match classification(bindings, events.last()) {
            Some(action) => earlier.push(action),
            None => earlier,
        }
    }
}

/// Registering keeps bindings pairwise distinct.
pub proof fn lemma_registration_keeps_distinct(
    bindings: Seq<ShortcutBinding>,
    binding: ShortcutBinding,
    reservation: Reservation,
)
    requires
        pairwise_distinct(bindings),
    ensures
        pairwise_distinct(after_registration(bindings, binding, reservation)),
{
    if accepted(bindings, binding, reservation) {
        lemma_bound_trigger_none(bindings, binding.combination);
    }
}

/// The set of global shortcut bindings, each combination bound at most once.
pub struct ShortcutRegistry {
    bindings: Vec<ShortcutBinding>,
}

impl View for ShortcutRegistry {
    type V = Seq<ShortcutBinding>;

    /// The bindings in the order in which they were registered.
    closed spec fn view(&self) -> Seq<ShortcutBinding> {
        self.bindings@
    }
}

impl ShortcutRegistry {
    /// Combinations are pairwise distinct.
    pub open spec fn wf(&self) -> bool {
        pairwise_distinct(self@)
    }

    /// A registry without bindings.
    pub fn new() -> (registry: ShortcutRegistry)
        ensures
            registry@ == Seq::<ShortcutBinding>::empty(),
            registry.wf(),
    {
        ShortcutRegistry { bindings: Vec::new() }
    }

    /// The number of bindings held.
    pub fn len(&self) -> (n: usize)
        ensures
            n == self@.len(),
    {
        self.bindings.len()
    }

    /// The trigger bound to `combination`, if any.
    pub fn lookup(&self, combination: Combination) -> (found: Option<Trigger>)
        requires
            self.wf(),
        ensures
            found == bound_trigger(self@, combination),
    {
        let mut i: usize = 0;
        while i < self.bindings.len()
            invariant
                self.wf(),
                i <= self.bindings.len(),
                forall|k: int| 0 <= k < i ==> self.bindings@[k].combination != combination,
            decreases self.bindings.len() - i,
        {
            if self.bindings[i].combination == combination {
                proof {
                    lemma_bound_trigger_at(self@, i as int);
                }
                return Some(self.bindings[i].trigger);
            }
            i += 1;
        }
        proof {
            lemma_bound_trigger_none(self@, combination);
        }
        None
    }

    /// Records one binding, given the operating system's answer to the request
    /// to reserve its combination.
    ///
    /// The binding is taken when the combination was granted and no earlier
    /// binding holds it. Otherwise the registry stays as it was and the
    /// binding is inert.
    pub fn register_binding(&mut self, binding: ShortcutBinding, reservation: Reservation) -> (outcome:
        Result<(), RegistrationError>)
        requires
            old(self).wf(),
        ensures
            final(self).wf(),
            final(self)@ == after_registration(old(self)@, binding, reservation),
            outcome == registration_outcome(old(self)@, binding, reservation),
    {
        let held = self.lookup(binding.combination);
        proof {
            lemma_registration_keeps_distinct(self@, binding, reservation);
        }
        match reservation {
            Reservation::Granted => {
                if held.is_none() {
                    self.bindings.push(binding);
                    Ok(())
                } else {
                    Err(RegistrationError::CombinationUnavailable)
                }
            },
            Reservation::Denied => Err(RegistrationError::CombinationUnavailable),
        }
    }

    /// Records each of `attempts` in order. A binding that fails is reported
    /// at its own position and does not keep the rest from being tried.
    pub fn register(&mut self, attempts: &Vec<ReservedBinding>) -> (outcomes: Vec<
        Result<(), RegistrationError>,
    >)
        requires
            old(self).wf(),
        ensures
            final(self).wf(),
            final(self)@ == after_registrations(old(self)@, attempts@),
            outcomes@.len() == attempts@.len(),
            forall|i: int|
                0 <= i < attempts@.len() ==> outcomes@[i] == registration_outcome(
                    after_registrations(old(self)@, attempts@.take(i)),
                    attempts@[i].binding,
                    attempts@[i].reservation,
                ),
    {
        let mut outcomes: Vec<Result<(), RegistrationError>> = Vec::new();
        let mut i: usize = 0;
        while i < attempts.len()
            invariant
                i <= attempts.len(),
                self.wf(),
                self@ == after_registrations(old(self)@, attempts@.take(i as int)),
                outcomes@.len() == i,
                forall|k: int|
                    0 <= k < i ==> outcomes@[k] == registration_outcome(
                        after_registrations(old(self)@, attempts@.take(k)),
                        attempts@[k].binding,
                        attempts@[k].reservation,
                    ),
            decreases attempts.len() - i,
        {
            let attempt = attempts[i];
            let outcome = self.register_binding(attempt.binding, attempt.reservation);
            outcomes.push(outcome);
            proof {
                let next = attempts@.take(i + 1);
                assert(next.drop_last() == attempts@.take(i as int));
            }
            i += 1;
        }
        proof {
            assert(attempts@.take(attempts@.len() as int) == attempts@);
        }
        outcomes
    }

    /// The action that `event` stands for. A transition whose combination is
    /// not bound, and the release of a press-only combination, yield `None`.
    pub fn classify(&self, event: KeyTransitionEvent) -> (action: Option<LogicalAction>)
        requires
            self.wf(),
        ensures
            action == classification(self@, event),
    {
        match self.lookup(event.combination) {
            Some(trigger) => trigger.resolve(event.edge),
            None => None,
        }
    }

    /// The actions that a stream of transitions yields, in the order of the
    /// stream.
    pub fn classify_stream(&self, events: &Vec<KeyTransitionEvent>) -> (actions: Vec<LogicalAction>)
        requires
            self.wf(),
        ensures
            actions@ == classified_stream(self@, events@),
    {
        let mut actions: Vec<LogicalAction> = Vec::new();
        let mut i: usize = 0;
        while i < events.len()
            invariant
                i <= events.len(),
                self.wf(),
                actions@ == classified_stream(self@, events@.take(i as int)),
            decreases events.len() - i,
        {
            proof {
                let next = events@.take(i + 1);
                assert(next.drop_last() == events@.take(i as int));
            }
            match self.classify(events[i]) {
                Some(action) => {
                    actions.push(action);
                },
                None => {},
            }
            i += 1;
        }
        proof {
            assert(events@.take(events@.len() as int) == events@);
        }
        actions
    }
}

/// Pressing and then releasing the combination of an edge-driven binding
/// yields one start followed by one stop, and nothing else.
pub proof fn law_press_then_release_starts_then_stops(registry: ShortcutRegistry, i: int)
    requires
        registry.wf(),
        0 <= i < registry@.len(),
        registry@[i].trigger.is_edge_driven(),
    ensures
        classification(
            registry@,
            KeyTransitionEvent { combination: registry@[i].combination, edge: Edge::Pressed },
        ) == Some(LogicalAction::PushToTalkStart),
        classification(
            registry@,
            KeyTransitionEvent { combination: registry@[i].combination, edge: Edge::Released },
        ) == Some(LogicalAction::PushToTalkStop),
        classified_stream(
            registry@,
            seq![
                KeyTransitionEvent { combination: registry@[i].combination, edge: Edge::Pressed },
                KeyTransitionEvent { combination: registry@[i].combination, edge: Edge::Released },
            ],
        ) == seq![LogicalAction::PushToTalkStart, LogicalAction::PushToTalkStop],
{
    let c = registry@[i].combination;
    let down = KeyTransitionEvent { combination: c, edge: Edge::Pressed };
    let up = KeyTransitionEvent { combination: c, edge: Edge::Released };
    lemma_bound_trigger_at(registry@, i);
    let both = seq![down, up];
    let first = both.drop_last();
    assert(classified_stream(registry@, first.drop_last()) == Seq::<LogicalAction>::empty());
    assert(classified_stream(registry@, first) == Seq::<LogicalAction>::empty().push(
        LogicalAction::PushToTalkStart,
    ));
    assert(classified_stream(registry@, both) == classified_stream(registry@, first).push(
        LogicalAction::PushToTalkStop,
    ));
    assert(classified_stream(registry@, both) == seq![
        LogicalAction::PushToTalkStart,
        LogicalAction::PushToTalkStop,
    ]);
}

/// Releasing the combination of a press-only binding yields no action,
/// whether or not a press came before.
pub proof fn law_release_of_press_only_is_silent(registry: ShortcutRegistry, i: int)
    requires
        registry.wf(),
        0 <= i < registry@.len(),
        registry@[i].trigger == Trigger::Paste,
    ensures
        classification(
            registry@,
            KeyTransitionEvent { combination: registry@[i].combination, edge: Edge::Released },
        ).is_none(),
        classified_stream(
            registry@,
            seq![KeyTransitionEvent { combination: registry@[i].combination, edge: Edge::Released }],
        ) == Seq::<LogicalAction>::empty(),
{
    let up = KeyTransitionEvent { combination: registry@[i].combination, edge: Edge::Released };
    lemma_bound_trigger_at(registry@, i);
    let alone = seq![up];
    assert(classified_stream(registry@, alone.drop_last()) == Seq::<LogicalAction>::empty());
}

/// A transition on a combination that no binding holds yields no action.
pub proof fn law_unbound_combination_is_ignored(registry: ShortcutRegistry, event: KeyTransitionEvent)
    requires
        forall|i: int| 0 <= i < registry@.len() ==> registry@[i].combination != event.combination,
    ensures
        classification(registry@, event).is_none(),
{
    lemma_bound_trigger_none(registry@, event.combination);
}

/// A binding whose combination is already held is refused, whatever the
/// operating system answered, and the earlier binding stays as it was.
pub proof fn law_duplicate_combination_is_refused(
    registry: ShortcutRegistry,
    i: int,
    binding: ShortcutBinding,
    reservation: Reservation,
)
    requires
        registry.wf(),
        0 <= i < registry@.len(),
        binding.combination == registry@[i].combination,
    ensures
        registration_outcome(registry@, binding, reservation) == Err::<(), RegistrationError>(
            RegistrationError::CombinationUnavailable,
        ),
        after_registration(registry@, binding, reservation) == registry@,
        bound_trigger(after_registration(registry@, binding, reservation), binding.combination)
            == Some(registry@[i].trigger),
{
    lemma_bound_trigger_at(registry@, i);
}

/// However many bindings are registered, and whatever the answers, no two
/// bindings of the registry share a combination.
pub proof fn law_combinations_stay_distinct(
    registry: ShortcutRegistry,
    attempts: Seq<ReservedBinding>,
)
    requires
        registry.wf(),
    ensures
        pairwise_distinct(after_registrations(registry@, attempts)),
    decreases attempts.len(),
{
    if attempts.len() > 0 {
        law_combinations_stay_distinct(registry, attempts.drop_last());
        lemma_registration_keeps_distinct(
            after_registrations(registry@, attempts.drop_last()),
            attempts.last().binding,
            attempts.last().reservation,
        );
    }
}

} // verus!
