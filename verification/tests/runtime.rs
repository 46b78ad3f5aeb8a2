use cheime_tip::runtime::{rollback_before_drop, run_before_drop, ApartmentState, FocusResources};
use std::cell::RefCell;
use std::rc::Rc;

type State = ApartmentState<(), (), (), (), ()>;

struct Resource(Rc<RefCell<Vec<&'static str>>>);

impl Drop for Resource {
    fn drop(&mut self) {
        self.0.borrow_mut().push("drop");
    }
}

#[test]
fn rejected_activation_rolls_back_thread_then_key_before_drop() {
    let events = Rc::new(RefCell::new(Vec::new()));
    rollback_before_drop(
        Resource(events.clone()),
        |_| events.borrow_mut().push("thread"),
        |_| events.borrow_mut().push("key"),
    );
    assert_eq!(&*events.borrow(), &["thread", "key", "drop"]);
}

#[test]
fn lifecycle_seam_runs_unadvise_before_resource_drop() {
    let events = Rc::new(RefCell::new(Vec::new()));
    let resource = Resource(events.clone());
    run_before_drop(resource, |_| events.borrow_mut().push("unadvise"));
    assert_eq!(&*events.borrow(), &["unadvise", "drop"]);
}

#[test]
fn focus_events_update_owned_focus_and_generation() {
    let mut state = State::new();
    assert_eq!(state.focus_generation(), 0);

    state.note_focus_presence(true);
    assert!(state.has_focus());
    assert_eq!(state.focus_generation(), 1);

    state.note_focus_presence(true);
    assert_eq!(state.focus_generation(), 2);

    state.note_focus_presence(false);
    assert!(!state.has_focus());
    assert_eq!(state.focus_generation(), 3);

    state.note_context_changed();
    assert_eq!(state.focus_generation(), 4);
}

#[test]
fn stale_focus_ticket_returns_new_resources_without_installing() {
    let mut state = State::new();
    let ticket = state.begin_focus_update();
    state.note_context_changed();
    let resources = FocusResources {
        document: None,
        document_identity: Some(7),
        context: None,
    };
    let rejected = match state.set_focus_if_current(ticket, resources) {
        Ok(_) => panic!("stale focus ticket must reject ownership"),
        Err(rejected) => rejected,
    };
    assert_eq!(rejected.document_identity, Some(7));
    assert!(!state.focused_document_matches(Some(7)));
}

#[test]
fn current_focus_ticket_installs_and_returns_previous_focus() {
    let mut state = State::new();
    state.set_focused_document_identity(Some(3));
    let ticket = state.begin_focus_update();
    let resources = FocusResources {
        document: None,
        document_identity: Some(9),
        context: None,
    };
    let previous = match state.set_focus_if_current(ticket, resources) {
        Ok(previous) => previous,
        Err(_) => panic!("current ticket must install"),
    };
    assert_eq!(previous.document_identity, Some(3));
    assert!(state.focused_document_matches(Some(9)));
    assert_eq!(state.focus_generation(), 1);
}

#[test]
fn rejected_owned_value_is_returned_without_drop_under_borrow() {
    let events = Rc::new(RefCell::new(Vec::new()));
    let mut state = State::new();
    let stale = state.begin_activation(7).expect("first activation");
    state.deactivate();
    let result = state.accept_owned(stale, Resource(events.clone()));
    assert!(events.borrow().is_empty(), "resource dropped early");
    match result {
        Ok(_) => panic!("stale token must return resource"),
        Err(resource) => drop(resource),
    }
    assert_eq!(&*events.borrow(), &["drop"]);
}

#[test]
fn document_identity_match_is_canonical_and_not_raw_interface_pointer_based() {
    let mut state = State::new();
    state.set_focused_document_identity(Some(0x1234));
    assert!(state.focused_document_matches(Some(0x1234)));
    assert!(!state.focused_document_matches(Some(0x5678)));
    assert!(!state.focused_document_matches(None));
}

#[test]
fn stale_activation_token_cannot_complete_after_deactivation() {
    let mut state = State::new();
    let token = state.begin_activation(7).expect("first activation");
    state.deactivate();
    assert!(!state.can_complete_activation(token));
}

#[test]
fn deactivation_invalidates_token_before_external_operations() {
    let mut state = State::new();
    let token = state.begin_activation(7).expect("first activation");
    let generation_before = state.activation_generation();
    state.deactivate();
    assert!(state.activation_generation() > generation_before);
    assert!(!state.can_complete_activation(token));
}

#[test]
fn activation_state_rejects_repeat_and_deactivation_is_idempotent() {
    let mut state = State::new();
    let token = state.begin_activation(7).expect("first activation");
    assert!(state.begin_activation(8).is_none());
    assert_eq!(state.client_id(), Some(7));
    assert!(!state.key_admission_enabled());
    assert!(state.can_complete_activation(token));
    assert_eq!(state.activation_generation(), 1);

    state.abort_activation(token);
    assert!(!state.is_activated());
    assert!(!state.key_admission_enabled());
    assert!(state.activation_generation() > 1);
    let generation = state.activation_generation();
    state.deactivate();
    assert_eq!(state.activation_generation(), generation);
}

#[test]
fn clear_if_document_identity_takes_only_a_matching_focus() {
    let mut state = State::new();
    state.set_focused_document_identity(Some(5));
    assert!(state.clear_if_document_identity(Some(6)).is_none());
    let taken = state.clear_if_document_identity(Some(5)).expect("matching identity");
    assert_eq!(taken.document_identity, Some(5));
    assert!(!state.focused_document_matches(Some(5)));
}

#[test]
fn ticketed_focus_edits_apply_only_while_the_ticket_is_current() {
    let mut state: ApartmentState<(), (), (), (), u8> = ApartmentState::new();
    state.set_focused_document_identity(Some(7));

    let stale = state.begin_focus_update();
    state.note_context_changed();
    assert_eq!(state.replace_context_if_current(stale, Some(7), Some(1)), Err(Some(1)));
    assert!(state.clear_if_document_identity_current(stale, Some(7)).is_none());
    assert!(state.focused_document_matches(Some(7)));

    let ticket = state.begin_focus_update();
    assert_eq!(state.replace_context_if_current(ticket, Some(8), Some(2)), Err(Some(2)));
    assert_eq!(state.replace_context_if_current(ticket, Some(7), Some(3)), Ok(None));

    let ticket = state.begin_focus_update();
    assert!(matches!(state.clear_if_document_identity_current(ticket, Some(8)), Some(None)));
    let cleared = state
        .clear_if_document_identity_current(ticket, Some(7))
        .expect("current ticket")
        .expect("matching identity");
    assert_eq!(cleared.context, Some(3));
    assert!(!state.focused_document_matches(Some(7)));
}

#[test]
fn new_tip_starts_with_inactive_runtime_state() {
    let state = State::new();
    assert!(!state.is_activated());
    assert!(!state.key_admission_enabled());
    assert_eq!(state.activation_generation(), 0);
    assert_eq!(state.focus_generation(), 0);
    assert!(!state.has_focus());
}
