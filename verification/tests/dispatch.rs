use cli_events::DispatchOutcome;
use cli_events::Event;
use cli_events::EventConfig;
use cli_events::EventEmitter;

/// The registration plan an emit call produced, or None where dispatch
/// declined to handle the kind.
fn plan(out: DispatchOutcome<u32>) -> Option<(Vec<(u32, i32)>, usize)> {
    match out {
        DispatchOutcome::Continue => None,
        DispatchOutcome::Terminate { listeners, exit_code } => Some((listeners, exit_code)),
    }
}

#[test]
fn dispatch_without_listener_returns_normally() {
    let em: EventEmitter<u32> = EventEmitter::new();
    let cfg = EventConfig::default().set_event(Event::UnknownCommand);
    assert!(matches!(em.emit(&cfg), DispatchOutcome::Continue));
}

#[test]
fn dispatch_orders_by_ascending_priority() {
    let mut em: EventEmitter<u32> = EventEmitter::new();
    em.on(Event::UnknownOption, 1, 10);
    em.on(Event::UnknownOption, 2, -10);
    em.on(Event::UnknownOption, 3, 0);
    let cfg = EventConfig::default().set_event(Event::UnknownOption);
    let (listeners, _) = plan(em.emit(&cfg)).expect("a registered kind must be handled");
    assert_eq!(listeners, vec![(2, -10), (3, 0), (1, 10)]);
}

#[test]
fn equal_priority_keeps_registration_order() {
    let mut em: EventEmitter<u32> = EventEmitter::new();
    em.on(Event::OutputVersion, 7, 1);
    em.on(Event::OutputVersion, 8, 1);
    em.on(Event::OutputVersion, 9, 0);
    let cfg = EventConfig::default().set_event(Event::OutputVersion);
    let (listeners, _) = plan(em.emit(&cfg)).expect("a registered kind must be handled");
    assert_eq!(listeners, vec![(9, 0), (7, 1), (8, 1)]);
}

#[test]
fn dispatch_terminates_with_zero_exit_code() {
    let mut em: EventEmitter<u32> = EventEmitter::new();
    em.on(Event::OutputHelp, 1, 0);
    let cfg = EventConfig::default().set_event(Event::OutputHelp).exit_code(0);
    let (listeners, code) = plan(em.emit(&cfg)).expect("a registered kind must be handled");
    assert_eq!(listeners.len(), 1);
    assert_eq!(code, 0);
}

#[test]
fn dispatch_terminates_with_nonzero_exit_code() {
    let mut em: EventEmitter<u32> = EventEmitter::new();
    em.on(Event::MissingRequiredArgument, 1, 0);
    em.on(Event::MissingRequiredArgument, 2, 3);
    em.on(Event::MissingRequiredArgument, 3, -3);
    let cfg = EventConfig::default().set_event(Event::MissingRequiredArgument).exit_code(1);
    let (listeners, code) = plan(em.emit(&cfg)).expect("a registered kind must be handled");
    assert_eq!(listeners.len(), 3);
    assert_eq!(code, 1);
}

#[test]
fn emptied_list_still_terminates() {
    // A kind stays present after its only registration is removed: the
    // dispatch decision is still to terminate, with no listeners to run.
    let mut em: EventEmitter<u32> = EventEmitter::new();
    em.on(Event::UnknownCommand, 1, 4);
    em.rm_lstnr_idx(Event::UnknownCommand, 4);
    let cfg = EventConfig::default().set_event(Event::UnknownCommand).exit_code(7);
    let (listeners, code) = plan(em.emit(&cfg)).expect("a present kind must be handled");
    assert!(listeners.is_empty());
    assert_eq!(code, 7);
}

#[test]
fn bulk_register_covers_exactly_six_kinds() {
    let mut em: EventEmitter<u32> = EventEmitter::new();
    em.on_all(5, 2);
    let covered = [
        Event::OutputHelp,
        Event::OutputVersion,
        Event::MissingRequiredArgument,
        Event::OptionMissingArgument,
        Event::UnknownCommand,
        Event::UnknownOption,
    ];
    for kind in covered {
        let cfg = EventConfig::default().set_event(kind);
        let (listeners, _) = plan(em.emit(&cfg)).expect("a bulk-covered kind must be handled");
        assert_eq!(listeners, vec![(5, 2)]);
    }
    for kind in [Event::OutputCommandHelp, Event::UnresolvedArgument] {
        let cfg = EventConfig::default().set_event(kind);
        assert!(matches!(em.emit(&cfg), DispatchOutcome::Continue));
    }
}

#[test]
fn bulk_register_errors_covers_exactly_four_kinds() {
    let mut em: EventEmitter<u32> = EventEmitter::new();
    em.on_all_errors(6, -1);
    let covered = [
        Event::MissingRequiredArgument,
        Event::OptionMissingArgument,
        Event::UnknownCommand,
        Event::UnknownOption,
    ];
    for kind in covered {
        let cfg = EventConfig::default().set_event(kind);
        let (listeners, _) = plan(em.emit(&cfg)).expect("an error kind must be handled");
        assert_eq!(listeners, vec![(6, -1)]);
    }
    for kind in [
        Event::OutputHelp,
        Event::OutputVersion,
        Event::OutputCommandHelp,
        Event::UnresolvedArgument,
    ] {
        let cfg = EventConfig::default().set_event(kind);
        assert!(matches!(em.emit(&cfg), DispatchOutcome::Continue));
    }
}

#[test]
fn insert_before_all_on_empty_registry_falls_back_to_six_kinds() {
    let mut em: EventEmitter<u32> = EventEmitter::new();
    em.insert_before_all(4);
    let covered = [
        Event::OutputHelp,
        Event::OutputVersion,
        Event::MissingRequiredArgument,
        Event::OptionMissingArgument,
        Event::UnknownCommand,
        Event::UnknownOption,
    ];
    for kind in covered {
        let cfg = EventConfig::default().set_event(kind);
        let (listeners, _) = plan(em.emit(&cfg)).expect("the fallback must cover the kind");
        assert_eq!(listeners, vec![(4, -5)]);
    }
    for kind in [Event::OutputCommandHelp, Event::UnresolvedArgument] {
        let cfg = EventConfig::default().set_event(kind);
        assert!(matches!(em.emit(&cfg), DispatchOutcome::Continue));
    }
}

#[test]
fn insert_before_all_on_nonempty_registry_covers_present_kinds_only() {
    let mut em: EventEmitter<u32> = EventEmitter::new();
    em.on(Event::UnresolvedArgument, 1, 0);
    em.insert_before_all(2);
    let cfg = EventConfig::default().set_event(Event::UnresolvedArgument);
    let (listeners, _) = plan(em.emit(&cfg)).expect("a present kind must be handled");
    assert_eq!(listeners, vec![(2, -5), (1, 0)]);
    for kind in [
        Event::OutputHelp,
        Event::OutputVersion,
        Event::MissingRequiredArgument,
        Event::OptionMissingArgument,
        Event::UnknownCommand,
        Event::UnknownOption,
        Event::OutputCommandHelp,
    ] {
        let cfg = EventConfig::default().set_event(kind);
        assert!(matches!(em.emit(&cfg), DispatchOutcome::Continue));
    }
}

#[test]
fn insert_after_all_on_empty_registry_falls_back_to_six_kinds() {
    let mut em: EventEmitter<u32> = EventEmitter::new();
    em.insert_after_all(4);
    let cfg = EventConfig::default().set_event(Event::OutputVersion);
    let (listeners, _) = plan(em.emit(&cfg)).expect("the fallback must cover the kind");
    assert_eq!(listeners, vec![(4, 5)]);
    let cfg = EventConfig::default().set_event(Event::UnresolvedArgument);
    assert!(matches!(em.emit(&cfg), DispatchOutcome::Continue));
}

#[test]
fn insert_after_all_on_nonempty_registry_appends_at_plus_five() {
    let mut em: EventEmitter<u32> = EventEmitter::new();
    em.on(Event::OutputCommandHelp, 1, 9);
    em.insert_after_all(2);
    let cfg = EventConfig::default().set_event(Event::OutputCommandHelp);
    let (listeners, _) = plan(em.emit(&cfg)).expect("a present kind must be handled");
    assert_eq!(listeners, vec![(2, 5), (1, 9)]);
}

#[test]
fn remove_takes_exactly_one_matching_entry() {
    let mut em: EventEmitter<u32> = EventEmitter::new();
    em.on(Event::UnknownCommand, 1, 3);
    em.on(Event::UnknownCommand, 2, 3);
    em.on(Event::UnknownCommand, 3, 0);
    em.rm_lstnr_idx(Event::UnknownCommand, 3);
    let cfg = EventConfig::default().set_event(Event::UnknownCommand);
    let (listeners, _) = plan(em.emit(&cfg)).expect("a present kind must be handled");
    // only the first entry at priority 3 is gone; the second stays
    assert_eq!(listeners, vec![(3, 0), (2, 3)]);
}

#[test]
fn remove_without_match_leaves_registry_unchanged() {
    let mut em: EventEmitter<u32> = EventEmitter::new();
    em.on(Event::UnknownOption, 1, 2);
    em.rm_lstnr_idx(Event::UnknownOption, 9);
    em.rm_lstnr_idx(Event::OutputHelp, 2);
    let cfg = EventConfig::default().set_event(Event::UnknownOption);
    let (listeners, _) = plan(em.emit(&cfg)).expect("a present kind must be handled");
    assert_eq!(listeners, vec![(1, 2)]);
    let cfg = EventConfig::default().set_event(Event::OutputHelp);
    assert!(matches!(em.emit(&cfg), DispatchOutcome::Continue));
}

#[test]
fn default_emitter_is_empty() {
    let em: EventEmitter<u32> = EventEmitter::default();
    let cfg = EventConfig::default();
    assert!(matches!(em.emit(&cfg), DispatchOutcome::Continue));
}

#[test]
fn end_to_end_unknown_command_dispatch() {
    // listener A is handle 10 at priority 5, listener B is handle 20 at
    // priority -5; each invocation receives its own payload copy, as the
    // embedding program would perform it
    let mut em: EventEmitter<u32> = EventEmitter::new();
    em.on(Event::UnknownCommand, 10, 5);
    em.on(Event::UnknownCommand, 20, -5);
    let cfg = EventConfig::default()
        .set_event(Event::UnknownCommand)
        .exit_code(2)
        .error_str(String::from("foo"));
    let (listeners, code) = plan(em.emit(&cfg)).expect("a registered kind must be handled");
    let mut called: Vec<u32> = Vec::new();
    let mut seen: Vec<String> = Vec::new();
    for (handle, _) in &listeners {
        let copy = cfg.clone();
        called.push(*handle);
        seen.push(copy.get_error_str().to_string());
    }
    assert_eq!(called, vec![20, 10]);
    assert_eq!(seen, vec!["foo".to_string(), "foo".to_string()]);
    assert_eq!(code, 2);
}
