use app_delegate::aux_state::{ActivationPolicy, AuxDelegateState};
use app_delegate::delegate::{
    get_aux_state_mut, release_aux_state, AppDelegate, AuxAccessError, LifecycleAction,
};
use app_delegate::registration::{
    delegate_callbacks, Callback, AUX_DELEGATE_STATE_NAME, DELEGATE_CLASS_NAME,
    DELEGATE_SUPERCLASS_NAME,
};
use app_delegate::url_event::{AppleEventDescriptor, K_AE_GET_URL, K_INTERNET_EVENT_CLASS};

fn initial() -> AuxDelegateState {
    AuxDelegateState { activation_policy: ActivationPolicy::Regular, create_default_menu: true }
}

#[test]
fn default_state_is_regular_with_menu() {
    let s = AuxDelegateState::default();
    assert_eq!(s.activation_policy, ActivationPolicy::Regular);
    assert!(s.create_default_menu);
}

#[test]
fn new_instance_holds_default_state() {
    let mut d = AppDelegate::new();
    assert_eq!(get_aux_state_mut(&mut d), Ok(initial()));
}

#[test]
fn reentrant_borrow_conflicts() {
    let mut d = AppDelegate::new();
    assert!(get_aux_state_mut(&mut d).is_ok());
    assert_eq!(get_aux_state_mut(&mut d), Err(AuxAccessError::BorrowConflict));
}

#[test]
fn released_state_can_be_borrowed_again_with_changes() {
    let mut d = AppDelegate::new();
    let mut s = get_aux_state_mut(&mut d).unwrap();
    s.activation_policy = ActivationPolicy::Accessory;
    s.create_default_menu = false;
    assert_eq!(release_aux_state(&mut d, s), Ok(()));
    let again = get_aux_state_mut(&mut d).unwrap();
    assert_eq!(again.activation_policy, ActivationPolicy::Accessory);
    assert!(!again.create_default_menu);
}

#[test]
fn release_without_borrow_is_refused() {
    let mut d = AppDelegate::new();
    assert_eq!(release_aux_state(&mut d, initial()), Err(AuxAccessError::NotBorrowed));
}

#[test]
fn destroyed_instance_is_detached() {
    let mut d = AppDelegate::new();
    assert_eq!(d.dealloc(), Ok(initial()));
    assert_eq!(get_aux_state_mut(&mut d), Err(AuxAccessError::Detached));
    assert_eq!(release_aux_state(&mut d, initial()), Err(AuxAccessError::Detached));
}

#[test]
fn second_destruction_reclaims_nothing() {
    let mut d = AppDelegate::new();
    assert!(d.dealloc().is_ok());
    assert_eq!(d.dealloc(), Err(AuxAccessError::Detached));
}

#[test]
fn destruction_while_borrowed_is_refused() {
    let mut d = AppDelegate::new();
    let s = get_aux_state_mut(&mut d).unwrap();
    assert_eq!(d.dealloc(), Err(AuxAccessError::BorrowConflict));
    assert_eq!(release_aux_state(&mut d, s), Ok(()));
    assert_eq!(d.dealloc(), Ok(initial()));
}

#[test]
fn launch_is_reported_while_borrowed() {
    let mut d = AppDelegate::new();
    let s = get_aux_state_mut(&mut d).unwrap();
    assert_eq!(d.did_finish_launching(), LifecycleAction::MarkLaunched);
    assert_eq!(get_aux_state_mut(&mut d), Err(AuxAccessError::BorrowConflict));
    assert_eq!(release_aux_state(&mut d, s), Ok(()));
}

#[test]
fn construct_destroy_pairs_balance() {
    let mut constructed: u32 = 0;
    let mut reclaimed: u32 = 0;
    for _ in 0..25 {
        let mut d = AppDelegate::new();
        constructed += 1;
        for _ in 0..3 {
            if d.dealloc().is_ok() {
                reclaimed += 1;
            }
        }
    }
    assert_eq!(constructed, 25);
    assert_eq!(reclaimed, constructed);
}

#[test]
fn full_lifecycle_in_order() {
    let mut launched = 0;
    let mut exiting = 0;
    let mut reclaimed = 0;
    let mut d = AppDelegate::new();
    assert_eq!(
        d.will_finish_launching(),
        LifecycleAction::RegisterUrlHandler {
            event_class: K_INTERNET_EVENT_CLASS,
            event_id: K_AE_GET_URL
        }
    );
    if d.did_finish_launching() == LifecycleAction::MarkLaunched {
        launched += 1;
        // The collaborator reads the deferred configuration under a borrow.
        let s = get_aux_state_mut(&mut d).unwrap();
        assert_eq!(s, initial());
        assert_eq!(release_aux_state(&mut d, s), Ok(()));
    }
    if d.application_will_terminate() == LifecycleAction::MarkExiting {
        exiting += 1;
    }
    if d.dealloc() == Ok(initial()) {
        reclaimed += 1;
    }
    assert_eq!((launched, exiting, reclaimed), (1, 1, 1));
}

#[test]
fn url_callback_queues_even_empty_urls() {
    let d = AppDelegate::new();
    let e = AppleEventDescriptor {
        event_class: K_INTERNET_EVENT_CLASS,
        event_id: K_AE_GET_URL,
        direct_object: Some(b"https://example.com/callback".to_vec()),
    };
    assert_eq!(
        d.handle_url_event_with_reply_event(Some(&e)),
        LifecycleAction::QueueUrlEvent("https://example.com/callback".to_string())
    );
    assert_eq!(
        d.handle_url_event_with_reply_event(None),
        LifecycleAction::QueueUrlEvent(String::new())
    );
}

#[test]
fn registration_table_binds_every_callback() {
    let table = delegate_callbacks();
    let selectors: Vec<&str> = table.iter().map(|c| c.selector()).collect();
    assert_eq!(
        selectors,
        vec![
            "new",
            "dealloc",
            "applicationDidFinishLaunching:",
            "applicationWillFinishLaunching:",
            "handleUrlEvent:withReplyEvent:",
            "applicationWillTerminate:",
        ]
    );
    let class_methods: Vec<Callback> = table.iter().copied().filter(|c| c.is_class_method()).collect();
    assert_eq!(class_methods, vec![Callback::New]);
    assert_eq!(DELEGATE_CLASS_NAME, "TaoAppDelegate");
    assert_eq!(DELEGATE_SUPERCLASS_NAME, "NSResponder");
    assert_eq!(AUX_DELEGATE_STATE_NAME, "auxState");
}
