use shortcut_dispatcher::shortcut::{
    Combination, Edge, KeyCode, KeyTransitionEvent, LogicalAction, Modifiers, RegistrationError,
    Reservation, ReservedBinding, ShortcutBinding, ShortcutRegistry, Trigger,
};

fn ctrl_shift_space() -> Combination {
    Combination {
        modifiers: Modifiers { control: true, shift: true, alt: false, meta: false },
        key: KeyCode::Space,
    }
}

fn shift_alt_v() -> Combination {
    Combination {
        modifiers: Modifiers { control: false, shift: true, alt: true, meta: false },
        key: KeyCode::KeyV,
    }
}

fn pressed(combination: Combination) -> KeyTransitionEvent {
    KeyTransitionEvent { combination, edge: Edge::Pressed }
}

fn released(combination: Combination) -> KeyTransitionEvent {
    KeyTransitionEvent { combination, edge: Edge::Released }
}

fn registry_with_both() -> ShortcutRegistry {
    let mut registry = ShortcutRegistry::new();
    let talk = ShortcutBinding { combination: ctrl_shift_space(), trigger: Trigger::PushToTalk };
    let paste = ShortcutBinding { combination: shift_alt_v(), trigger: Trigger::Paste };
    assert_eq!(registry.register_binding(talk, Reservation::Granted), Ok(()));
    assert_eq!(registry.register_binding(paste, Reservation::Granted), Ok(()));
    registry
}

#[test]
fn new_registry_is_empty() {
    let registry = ShortcutRegistry::new();
    assert_eq!(registry.len(), 0);
    assert_eq!(registry.lookup(ctrl_shift_space()), None);
    assert_eq!(registry.classify(pressed(ctrl_shift_space())), None);
}

#[test]
fn modifiers_none_holds_nothing() {
    assert_eq!(
        Modifiers::none(),
        Modifiers { control: false, shift: false, alt: false, meta: false }
    );
}

#[test]
fn trigger_resolves_each_edge() {
    assert_eq!(Trigger::PushToTalk.resolve(Edge::Pressed), Some(LogicalAction::PushToTalkStart));
    assert_eq!(Trigger::PushToTalk.resolve(Edge::Released), Some(LogicalAction::PushToTalkStop));
    assert_eq!(Trigger::Paste.resolve(Edge::Pressed), Some(LogicalAction::TriggerPaste));
    assert_eq!(Trigger::Paste.resolve(Edge::Released), None);
}

#[test]
fn press_then_release_yields_start_then_stop() {
    let registry = registry_with_both();
    assert_eq!(
        registry.classify(pressed(ctrl_shift_space())),
        Some(LogicalAction::PushToTalkStart)
    );
    assert_eq!(
        registry.classify(released(ctrl_shift_space())),
        Some(LogicalAction::PushToTalkStop)
    );
    let stream = vec![pressed(ctrl_shift_space()), released(ctrl_shift_space())];
    assert_eq!(
        registry.classify_stream(&stream),
        vec![LogicalAction::PushToTalkStart, LogicalAction::PushToTalkStop]
    );
}

#[test]
fn paste_fires_on_press_only() {
    let registry = registry_with_both();
    assert_eq!(registry.classify(pressed(shift_alt_v())), Some(LogicalAction::TriggerPaste));
    assert_eq!(registry.classify(released(shift_alt_v())), None);
    let stream = vec![pressed(shift_alt_v()), released(shift_alt_v())];
    assert_eq!(registry.classify_stream(&stream), vec![LogicalAction::TriggerPaste]);
}

#[test]
fn release_alone_of_paste_yields_nothing() {
    let registry = registry_with_both();
    assert_eq!(registry.classify(released(shift_alt_v())), None);
    assert_eq!(registry.classify_stream(&vec![released(shift_alt_v())]), vec![]);
}

#[test]
fn unregistered_combination_is_ignored() {
    let registry = registry_with_both();
    let ctrl_space = Combination {
        modifiers: Modifiers { control: true, shift: false, alt: false, meta: false },
        key: KeyCode::Space,
    };
    let ctrl_shift_v = Combination {
        modifiers: Modifiers { control: true, shift: true, alt: false, meta: false },
        key: KeyCode::KeyV,
    };
    assert_eq!(registry.classify(pressed(ctrl_space)), None);
    assert_eq!(registry.classify(released(ctrl_space)), None);
    assert_eq!(registry.classify(pressed(ctrl_shift_v)), None);
    assert_eq!(registry.lookup(ctrl_space), None);
}

#[test]
fn stream_keeps_order_and_skips_unmatched() {
    let registry = registry_with_both();
    let stray = Combination { modifiers: Modifiers::none(), key: KeyCode::F5 };
    let stream = vec![
        pressed(ctrl_shift_space()),
        pressed(stray),
        pressed(shift_alt_v()),
        released(shift_alt_v()),
        released(stray),
        released(ctrl_shift_space()),
    ];
    assert_eq!(
        registry.classify_stream(&stream),
        vec![
            LogicalAction::PushToTalkStart,
            LogicalAction::TriggerPaste,
            LogicalAction::PushToTalkStop
        ]
    );
    assert_eq!(registry.classify_stream(&vec![]), vec![]);
}

#[test]
fn duplicate_combination_is_refused() {
    let mut registry = ShortcutRegistry::new();
    let talk = ShortcutBinding { combination: ctrl_shift_space(), trigger: Trigger::PushToTalk };
    let rival = ShortcutBinding { combination: ctrl_shift_space(), trigger: Trigger::Paste };
    assert_eq!(registry.register_binding(talk, Reservation::Granted), Ok(()));
    assert_eq!(
        registry.register_binding(rival, Reservation::Granted),
        Err(RegistrationError::CombinationUnavailable)
    );
    assert_eq!(registry.len(), 1);
    assert_eq!(registry.lookup(ctrl_shift_space()), Some(Trigger::PushToTalk));
    assert_eq!(
        registry.classify(released(ctrl_shift_space())),
        Some(LogicalAction::PushToTalkStop)
    );
}

#[test]
fn denied_combination_is_unavailable() {
    let mut registry = ShortcutRegistry::new();
    let talk = ShortcutBinding { combination: ctrl_shift_space(), trigger: Trigger::PushToTalk };
    assert_eq!(
        registry.register_binding(talk, Reservation::Denied),
        Err(RegistrationError::CombinationUnavailable)
    );
    assert_eq!(registry.len(), 0);
    assert_eq!(registry.classify(pressed(ctrl_shift_space())), None);
}

#[test]
fn register_reports_each_binding_and_tries_the_rest() {
    let mut registry = ShortcutRegistry::new();
    let talk = ShortcutBinding { combination: ctrl_shift_space(), trigger: Trigger::PushToTalk };
    let rival = ShortcutBinding { combination: ctrl_shift_space(), trigger: Trigger::Paste };
    let paste = ShortcutBinding { combination: shift_alt_v(), trigger: Trigger::Paste };
    let attempts = vec![
        ReservedBinding { binding: talk, reservation: Reservation::Denied },
        ReservedBinding { binding: rival, reservation: Reservation::Granted },
        ReservedBinding { binding: talk, reservation: Reservation::Granted },
        ReservedBinding { binding: paste, reservation: Reservation::Granted },
    ];
    let outcomes = registry.register(&attempts);
    assert_eq!(
        outcomes,
        vec![
            Err(RegistrationError::CombinationUnavailable),
            Ok(()),
            Err(RegistrationError::CombinationUnavailable),
            Ok(()),
        ]
    );
    assert_eq!(registry.len(), 2);
    assert_eq!(registry.lookup(ctrl_shift_space()), Some(Trigger::Paste));
    assert_eq!(registry.lookup(shift_alt_v()), Some(Trigger::Paste));
}

#[test]
fn register_of_nothing_changes_nothing() {
    let mut registry = registry_with_both();
    let outcomes = registry.register(&vec![]);
    assert_eq!(outcomes, vec![]);
    assert_eq!(registry.len(), 2);
}

#[test]
fn modifiers_tell_combinations_apart() {
    let registry = registry_with_both();
    let with_meta = Combination {
        modifiers: Modifiers { control: true, shift: true, alt: false, meta: true },
        key: KeyCode::Space,
    };
    assert_eq!(registry.classify(pressed(with_meta)), None);
}
