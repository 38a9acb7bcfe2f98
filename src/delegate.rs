use vstd::prelude::*;
use crate::aux_state::AuxDelegateState;
use crate::url_event::{
    AppleEventDescriptor, K_INTERNET_EVENT_CLASS, K_AE_GET_URL, parse_url_event, url_of_event, url_payload,
    is_ascii_bytes, ascii_chars,
};
use vstd::utf8::{decode_utf8, valid_utf8};

verus! {

/// The attached-data slot of a delegate instance, which owns its auxiliary state.
#[derive(Clone, Copy, Debug, PartialEq, Eq, Structural)]
pub enum AuxSlot {
    /// Nothing attached: the instance's state has been reclaimed.
    Empty,
    /// State attached and free to borrow.
    Available(AuxDelegateState),
    /// State attached and exclusively borrowed.
    Borrowed(AuxDelegateState),
}

/// Why the auxiliary state could not be reached.
#[derive(Clone, Copy, Debug, PartialEq, Eq, Structural)]
pub enum AuxAccessError {
    /// The state is already exclusively borrowed (a re-entrant access).
    BorrowConflict,
    /// The state was handed back without being borrowed.
    NotBorrowed,
    /// No state is attached any more: the instance has been destroyed.
    Detached,
}

/// What the surrounding application state is asked to do in answer to a callback.
#[derive(Debug, PartialEq, Eq)]
pub enum LifecycleAction {
    /// Register the instance as the handler of the given event class and id.
    RegisterUrlHandler { event_class: u32, event_id: u32 },
    /// Launching has finished; the deferred configuration can be read, through
    /// `get_aux_state_mut`, and applied.
    MarkLaunched,
    /// Queue a URL event carrying the string.
    QueueUrlEvent(String),
    /// The process is about to exit.
    MarkExiting,
}

/// An exclusive borrow of the slot: what it yields, and the slot afterwards.
pub open spec fn borrow_step(s: AuxSlot) -> (AuxSlot, Result<AuxDelegateState, AuxAccessError>) {
    match s {
        AuxSlot::Empty => (AuxSlot::Empty, Err(AuxAccessError::Detached)),
        AuxSlot::Available(a) => (AuxSlot::Borrowed(a), Ok(a)),
        AuxSlot::Borrowed(a) => (AuxSlot::Borrowed(a), Err(AuxAccessError::BorrowConflict)),
    }
}

/// Handing a borrowed state back, possibly changed.
pub open spec fn release_step(s: AuxSlot, a: AuxDelegateState) -> (AuxSlot, Result<(), AuxAccessError>) {
    match s {
        AuxSlot::Empty => (AuxSlot::Empty, Err(AuxAccessError::Detached)),
        AuxSlot::Available(b) => (AuxSlot::Available(b), Err(AuxAccessError::NotBorrowed)),
        AuxSlot::Borrowed(_) => (AuxSlot::Available(a), Ok(())),
    }
}

/// Reclaiming the slot's state when the instance is destroyed.
pub open spec fn destroy_step(s: AuxSlot) -> (AuxSlot, Result<AuxDelegateState, AuxAccessError>) {
    match s {
        AuxSlot::Empty => (AuxSlot::Empty, Err(AuxAccessError::Detached)),
        AuxSlot::Available(a) => (AuxSlot::Empty, Ok(a)),
        AuxSlot::Borrowed(a) => (AuxSlot::Borrowed(a), Err(AuxAccessError::BorrowConflict)),
    }
}

/// One application delegate instance: the callbacks' side of it, with the
/// auxiliary state it owns.
pub struct AppDelegate {
    slot: AuxSlot,
}

impl View for AppDelegate {
    type V = AuxSlot;

    closed spec fn view(&self) -> AuxSlot {
        self.slot
    }
}

/// Borrows the instance's auxiliary state exclusively. A second borrow before
/// the state is handed back fails with `BorrowConflict`.
pub fn get_aux_state_mut(this: &mut AppDelegate) -> (r: Result<AuxDelegateState, AuxAccessError>)
    ensures
        (final(this)@, r) == borrow_step(old(this)@),
{
    match this.slot {
        AuxSlot::Empty => Err(AuxAccessError::Detached),
        AuxSlot::Available(a) => {
            this.slot = AuxSlot::Borrowed(a);
            Ok(a)
        },
        AuxSlot::Borrowed(_) => Err(AuxAccessError::BorrowConflict),
    }
}

/// Ends an exclusive borrow, storing `state` as the instance's auxiliary state.
pub fn release_aux_state(this: &mut AppDelegate, state: AuxDelegateState) -> (r: Result<(), AuxAccessError>)
    ensures
        (final(this)@, r) == release_step(old(this)@, state),
{
    match this.slot {
        AuxSlot::Empty => Err(AuxAccessError::Detached),
        AuxSlot::Available(_) => Err(AuxAccessError::NotBorrowed),
        AuxSlot::Borrowed(_) => {
            this.slot = AuxSlot::Available(state);
            Ok(())
        },
    }
}

impl AppDelegate {
    /// Construction: the only place auxiliary state is created, with its
    /// defaults, and attached to the new instance.
    pub fn new() -> (r: AppDelegate)
        ensures
            r@ == AuxSlot::Available(AuxDelegateState::initial()),
    {
        AppDelegate { slot: AuxSlot::Available(AuxDelegateState::default()) }
    }

    /// Destruction: reclaims the attached state and empties the slot, so that
    /// a second destruction finds nothing to release.
    pub fn dealloc(&mut self) -> (r: Result<AuxDelegateState, AuxAccessError>)
        ensures
            (final(self)@, r) == destroy_step(old(self)@),
    {
        match self.slot {
            AuxSlot::Empty => Err(AuxAccessError::Detached),
            AuxSlot::Available(a) => {
                self.slot = AuxSlot::Empty;
                Ok(a)
            },
            AuxSlot::Borrowed(_) => Err(AuxAccessError::BorrowConflict),
        }
    }

    /// Before launching completes: register for "open URL" events.
    pub fn will_finish_launching(&self) -> (r: LifecycleAction)
        ensures
            r == (LifecycleAction::RegisterUrlHandler {
                event_class: K_INTERNET_EVENT_CLASS,
                event_id: K_AE_GET_URL,
            }),
    {
        LifecycleAction::RegisterUrlHandler { event_class: K_INTERNET_EVENT_CLASS, event_id: K_AE_GET_URL }
    }

    /// Launching has completed: report it. The state is not borrowed here;
    /// whoever applies it borrows it.
    pub fn did_finish_launching(&self) -> (r: LifecycleAction)
        ensures
            r == LifecycleAction::MarkLaunched,
    {
        LifecycleAction::MarkLaunched
    }

    /// An "open URL" event arrived: queue the URL it carries, empty ones too.
    pub fn handle_url_event_with_reply_event(&self, event: Option<&AppleEventDescriptor>) -> (r: LifecycleAction)
        ensures
            r matches LifecycleAction::QueueUrlEvent(u) && u@ == url_of_event(
                match event {
                    Some(e) => Some(*e),
                    None => None,
                },
            ),
            r matches LifecycleAction::QueueUrlEvent(u) && (url_payload(event) is Some && valid_utf8(
                url_payload(event)->0,
            ) ==> u@ == decode_utf8(url_payload(event)->0)),
            r matches LifecycleAction::QueueUrlEvent(u) && (url_payload(event) is Some && is_ascii_bytes(
                url_payload(event)->0,
            ) ==> u@ == ascii_chars(url_payload(event)->0)),
    {
        LifecycleAction::QueueUrlEvent(parse_url_event(event))
    }

    /// The process is about to exit.
    pub fn application_will_terminate(&self) -> (r: LifecycleAction)
        ensures
            r == LifecycleAction::MarkExiting,
    {
        LifecycleAction::MarkExiting
    }
}

/// How many of `attempts` successive destructions of a slot reclaim its state.
pub open spec fn reclaims_in(s: AuxSlot, attempts: nat) -> nat
    decreases attempts,
{
    if attempts == 0 {
        0
    } else {
        (if destroy_step(s).1 is Ok { 1nat } else { 0nat }) + reclaims_in(destroy_step(s).0, (attempts - 1) as nat)
    }
}

/// Reclaims over many instances, each constructed once and then destroyed the
/// number of times given for it.
pub open spec fn total_reclaims(attempts: Seq<nat>) -> nat
    decreases attempts.len(),
{
    if attempts.len() == 0 {
        0
    } else {
        total_reclaims(attempts.drop_last()) + reclaims_in(
            AuxSlot::Available(AuxDelegateState::initial()),
            attempts.last(),
        )
    }
}

proof fn lemma_empty_reclaims_nothing(attempts: nat)
    ensures
        reclaims_in(AuxSlot::Empty, attempts) == 0,
    decreases attempts,
{
    if attempts > 0 {
        lemma_empty_reclaims_nothing((attempts - 1) as nat);
    }
}

/// Once constructed, an instance's state is reclaimed by exactly one of any
/// number (at least one) of destructions: never leaked, never freed twice.
pub proof fn lemma_reclaimed_exactly_once(a: AuxDelegateState, attempts: nat)
    requires
        attempts >= 1,
    ensures
        reclaims_in(AuxSlot::Available(a), attempts) == 1,
{
    lemma_empty_reclaims_nothing((attempts - 1) as nat);
}

/// Over any number of instances, each constructed and then destroyed, the
/// reclaims equal the constructions.
pub proof fn lemma_reclaims_match_constructions(attempts: Seq<nat>)
    requires
        forall|i: int| 0 <= i < attempts.len() ==> #[trigger] attempts[i] >= 1,
    ensures
        total_reclaims(attempts) == attempts.len(),
    decreases attempts.len(),
{
    if attempts.len() > 0 {
        assert(attempts[attempts.len() - 1] >= 1);
        lemma_reclaimed_exactly_once(AuxDelegateState::initial(), attempts.last());
        let rest = attempts.drop_last();
        assert forall|i: int| 0 <= i < rest.len() implies #[trigger] rest[i] >= 1 by {
            assert(rest[i] == attempts[i]);
        }
        lemma_reclaims_match_constructions(rest);
    }
}

/// While the state is borrowed, a second (re-entrant) borrow fails with a
/// borrow conflict and leaves the slot untouched.
pub proof fn lemma_reentrant_borrow_conflicts(s: AuxSlot)
    requires
        s is Available,
    ensures
        borrow_step(s).1 is Ok,
        borrow_step(borrow_step(s).0).1 == Err::<AuxDelegateState, AuxAccessError>(AuxAccessError::BorrowConflict),
        borrow_step(borrow_step(s).0).0 == borrow_step(s).0,
{
}

/// Construction, then launch, where the state is borrowed to apply it and
/// handed back, then destruction: the borrow finds the initial state without a
/// conflict, handing it back restores the slot, and the destruction reclaims
/// that state, once.
pub proof fn lemma_lifecycle_in_order()
    ensures
        borrow_step(AuxSlot::Available(AuxDelegateState::initial()))
            == (AuxSlot::Borrowed(AuxDelegateState::initial()), Ok::<AuxDelegateState, AuxAccessError>(AuxDelegateState::initial())),
        release_step(AuxSlot::Borrowed(AuxDelegateState::initial()), AuxDelegateState::initial())
            == (AuxSlot::Available(AuxDelegateState::initial()), Ok::<(), AuxAccessError>(())),
        destroy_step(AuxSlot::Available(AuxDelegateState::initial()))
            == (AuxSlot::Empty, Ok::<AuxDelegateState, AuxAccessError>(AuxDelegateState::initial())),
        reclaims_in(AuxSlot::Available(AuxDelegateState::initial()), 1) == 1,
{
    reveal_with_fuel(reclaims_in, 2);
}

} // verus!
