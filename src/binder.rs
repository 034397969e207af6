//! The global shortcut binder as a state machine. The host runs the outside
//! work (window lookup, hotkey registration, focus requests) and feeds each
//! outcome back as an event; the binder decides the next state and the action
//! to perform.
use vstd::prelude::*;
use crate::shortcut::{focus_combination, shortcut_for, KeyCombination, Platform};

verus! {

/// The well-known name under which the main window is registered.
pub const MAIN_WINDOW_LABEL: &'static str = "main";

/// A reference to a window of the running application, as handed out by the
/// host's window registry.
#[derive(Clone, Copy, Debug, PartialEq, Eq, Structural)]
pub struct WindowHandle {
    pub id: u64,
}

/// The one binding of the system: a key combination and the window it focuses.
#[derive(Clone, Copy, Debug, PartialEq, Eq, Structural)]
pub struct ShortcutBinding {
    pub combination: KeyCombination,
    pub window: WindowHandle,
}

/// Why the operating system's hotkey facility refused a registration.
#[derive(Clone, Copy, Debug, PartialEq, Eq, Structural)]
pub enum RegistrationError {
    /// Another process already owns the combination.
    AlreadyClaimed,
    /// The facility refused the registration for another reason.
    Rejected,
}

/// Where the binder stands.
#[derive(Clone, Copy, Debug, PartialEq, Eq, Structural)]
pub enum BinderState {
    /// No hotkey is bound (initial; also after a skipped or failed setup).
    Unregistered,
    /// The main window was found and registration has been asked for.
    AwaitingRegistration(ShortcutBinding),
    /// The hotkey is bound for the rest of the process.
    Registered(ShortcutBinding),
}

/// An outcome of outside work, handed to the binder.
#[derive(Clone, Copy, Debug)]
pub enum BinderEvent {
    /// The result of looking up the main window by name.
    WindowLookedUp(Option<WindowHandle>),
    /// The hotkey facility's answer to a registration.
    RegistrationFinished(Result<(), RegistrationError>),
    /// The bound combination was pressed somewhere in the system.
    Triggered,
    /// A focus request completed, successfully or not.
    FocusFinished { succeeded: bool },
}

/// What the host is to do next.
#[derive(Clone, Copy, Debug, PartialEq, Eq, Structural)]
pub enum BinderAction {
    /// Register the binding's combination with the hotkey facility.
    Register(ShortcutBinding),
    /// Ask for input focus on the window.
    RequestFocus(WindowHandle),
    /// Setup is complete; report success to the host framework.
    SetupSucceeded,
    /// Setup failed; report a fatal error to the host framework.
    SetupFailed(RegistrationError),
    /// Nothing to do.
    Ignore,
}

/// The binding made for `window` on `platform`.
pub open spec fn binding_of(platform: Platform, window: WindowHandle) -> ShortcutBinding {
    ShortcutBinding { combination: focus_combination(platform), window }
}

/// One transition of the binder: the next state and the action to perform.
/// A missing window skips registration and still counts as a successful
/// setup; only a refused registration fails setup; a failed focus request is
/// dropped.
pub open spec fn step(platform: Platform, state: BinderState, event: BinderEvent) -> (
    BinderState,
    BinderAction,
) {
    match (state, event) {
        (BinderState::Unregistered, BinderEvent::WindowLookedUp(None)) => (
            BinderState::Unregistered,
            BinderAction::SetupSucceeded,
        ),
        (BinderState::Unregistered, BinderEvent::WindowLookedUp(Some(w))) => (
            BinderState::AwaitingRegistration(binding_of(platform, w)),
            BinderAction::Register(binding_of(platform, w)),
        ),
        (BinderState::AwaitingRegistration(b), BinderEvent::RegistrationFinished(Ok(()))) => (
            BinderState::Registered(b),
            BinderAction::SetupSucceeded,
        ),
        (BinderState::AwaitingRegistration(_), BinderEvent::RegistrationFinished(Err(e))) => (
            BinderState::Unregistered,
            BinderAction::SetupFailed(e),
        ),
        (BinderState::Registered(b), BinderEvent::Triggered) => (
            BinderState::Registered(b),
            BinderAction::RequestFocus(b.window),
        ),
        _ => (state, BinderAction::Ignore),
    }
}

/// The final state and the actions of the binder fed `events` in order,
/// starting from `state`.
pub open spec fn run(platform: Platform, state: BinderState, events: Seq<BinderEvent>) -> (
    BinderState,
    Seq<BinderAction>,
)
    decreases events.len(),
{
    if events.len() == 0 {
        (state, Seq::empty())
    } else {
        let first = step(platform, state, events[0]);
        let rest = run(platform, first.0, events.drop_first());
        (rest.0, seq![first.1] + rest.1)
    }
}

/// The number of registration calls among `actions`.
pub open spec fn registrations(actions: Seq<BinderAction>) -> nat
    decreases actions.len(),
{
    if actions.len() == 0 {
        0
    } else {
        (if actions[0] is Register { 1nat } else { 0nat }) + registrations(actions.drop_first())
    }
}

/// The number of focus requests on `window` among `actions`.
pub open spec fn focus_requests(actions: Seq<BinderAction>, window: WindowHandle) -> nat
    decreases actions.len(),
{
    if actions.len() == 0 {
        0
    } else {
        (if actions[0] == BinderAction::RequestFocus(window) { 1nat } else { 0nat })
            + focus_requests(actions.drop_first(), window)
    }
}

/// The number of times the combination was pressed among `events`.
pub open spec fn triggers(events: Seq<BinderEvent>) -> nat
    decreases events.len(),
{
    if events.len() == 0 {
        0
    } else {
        (if events[0] is Triggered { 1nat } else { 0nat }) + triggers(events.drop_first())
    }
}

/// No event of `events` is a window lookup: the lookup happens once, at setup.
pub open spec fn no_lookups(events: Seq<BinderEvent>) -> bool {
    forall|i: int| 0 <= i < events.len() ==> !(#[trigger] events[i] is WindowLookedUp)
}

/// Events that reach a bound hotkey: presses and focus outcomes.
pub open spec fn presses_and_focus_outcomes(events: Seq<BinderEvent>) -> bool {
    forall|i: int|
        0 <= i < events.len() ==> (#[trigger] events[i] is Triggered || events[i] is FocusFinished)
}

/// Without a window lookup the binder never asks for a registration,
/// whatever state it starts in.
pub proof fn lemma_no_lookup_no_registration(
    platform: Platform,
    state: BinderState,
    events: Seq<BinderEvent>,
)
    requires
        no_lookups(events),
    ensures
        registrations(run(platform, state, events).1) == 0,
    decreases events.len(),
{
    if events.len() > 0 {
        let first = step(platform, state, events[0]);
        let tail = events.drop_first();
        assert(!(events[0] is WindowLookedUp));
        assert forall|i: int| 0 <= i < tail.len() implies !(#[trigger] tail[i] is WindowLookedUp) by {
            assert(tail[i] == events[i + 1]);
        }
        lemma_no_lookup_no_registration(platform, first.0, tail);
        let acts = run(platform, state, events).1;
        assert(acts.drop_first() =~= run(platform, first.0, tail).1);
    }
}

/// When the main window is absent at setup, setup reports success and no
/// registration call is ever made afterwards.
pub proof fn lemma_absent_window_skips_registration(platform: Platform, later: Seq<BinderEvent>)
    requires
        no_lookups(later),
    ensures
        ({
            let r = run(
                platform,
                BinderState::Unregistered,
                seq![BinderEvent::WindowLookedUp(None)] + later,
            );
            &&& r.1[0] == BinderAction::SetupSucceeded
            &&& registrations(r.1) == 0
            &&& r.0 == BinderState::Unregistered
        }),
{
    let events = seq![BinderEvent::WindowLookedUp(None)] + later;
    assert(events.drop_first() =~= later);
    lemma_no_lookup_no_registration(platform, BinderState::Unregistered, later);
    lemma_unregistered_stays_without_lookup(platform, later);
    let acts = run(platform, BinderState::Unregistered, events).1;
    assert(acts.drop_first() =~= run(platform, BinderState::Unregistered, later).1);
}

/// Without a window lookup an unregistered binder stays unregistered.
pub proof fn lemma_unregistered_stays_without_lookup(platform: Platform, events: Seq<BinderEvent>)
    requires
        no_lookups(events),
    ensures
        run(platform, BinderState::Unregistered, events).0 == BinderState::Unregistered,
    decreases events.len(),
{
    if events.len() > 0 {
        let tail = events.drop_first();
        assert(!(events[0] is WindowLookedUp));
        assert forall|i: int| 0 <= i < tail.len() implies !(#[trigger] tail[i] is WindowLookedUp) by {
            assert(tail[i] == events[i + 1]);
        }
        lemma_unregistered_stays_without_lookup(platform, tail);
    }
}

/// When the main window is present at setup, exactly one registration call
/// is made, first, with the platform's combination and that window.
pub proof fn lemma_present_window_registers_once(
    platform: Platform,
    window: WindowHandle,
    later: Seq<BinderEvent>,
)
    requires
        no_lookups(later),
    ensures
        ({
            let r = run(
                platform,
                BinderState::Unregistered,
                seq![BinderEvent::WindowLookedUp(Some(window))] + later,
            );
            &&& r.1[0] == BinderAction::Register(
                ShortcutBinding { combination: focus_combination(platform), window },
            )
            &&& registrations(r.1) == 1
        }),
{
    let events = seq![BinderEvent::WindowLookedUp(Some(window))] + later;
    assert(events.drop_first() =~= later);
    let b = binding_of(platform, window);
    lemma_no_lookup_no_registration(platform, BinderState::AwaitingRegistration(b), later);
    let acts = run(platform, BinderState::Unregistered, events).1;
    assert(acts.drop_first() =~= run(platform, BinderState::AwaitingRegistration(b), later).1);
}

/// Once the hotkey is bound, each press makes exactly one focus request on
/// the bound window, whatever became of earlier requests: the binder stays
/// bound and keeps no other state.
pub proof fn lemma_each_press_requests_focus(
    platform: Platform,
    binding: ShortcutBinding,
    events: Seq<BinderEvent>,
)
    requires
        presses_and_focus_outcomes(events),
    ensures
        ({
            let r = run(platform, BinderState::Registered(binding), events);
            &&& r.0 == BinderState::Registered(binding)
            &&& r.1.len() == events.len()
            &&& forall|i: int|
                0 <= i < events.len() ==> #[trigger] r.1[i] == (if events[i] is Triggered {
                    BinderAction::RequestFocus(binding.window)
                } else {
                    BinderAction::Ignore
                })
            &&& focus_requests(r.1, binding.window) == triggers(events)
        }),
    decreases events.len(),
{
    if events.len() > 0 {
        let tail = events.drop_first();
        assert(events[0] is Triggered || events[0] is FocusFinished);
        assert forall|i: int| 0 <= i < tail.len() implies (#[trigger] tail[i] is Triggered
            || tail[i] is FocusFinished) by {
            assert(tail[i] == events[i + 1]);
        }
        lemma_each_press_requests_focus(platform, binding, tail);
        let rest = run(platform, BinderState::Registered(binding), tail);
        let r = run(platform, BinderState::Registered(binding), events);
        assert(r.1.drop_first() =~= rest.1);
        assert forall|i: int| 0 <= i < events.len() implies #[trigger] r.1[i] == (
        if events[i] is Triggered {
            BinderAction::RequestFocus(binding.window)
        } else {
            BinderAction::Ignore
        }) by {
            if i > 0 {
                assert(r.1[i] == rest.1[i - 1]);
                assert(events[i] == tail[i - 1]);
            }
        }
    }
}

/// A binding held in `state` uses the combination of `platform`.
pub open spec fn state_wf(platform: Platform, state: BinderState) -> bool {
    match state {
        BinderState::Unregistered => true,
        BinderState::AwaitingRegistration(b) => b.combination == focus_combination(platform),
        BinderState::Registered(b) => b.combination == focus_combination(platform),
    }
}

/// The binder: the platform it was built for and where it stands.
#[derive(Clone, Copy, Debug)]
pub struct ShortcutBinder {
    pub platform: Platform,
    pub state: BinderState,
}

impl ShortcutBinder {
    /// The binding held, if any, uses this binder's platform combination.
    pub open spec fn wf(&self) -> bool {
        state_wf(self.platform, self.state)
    }

    /// A binder for `platform` with nothing registered.
    pub fn new(platform: Platform) -> (b: ShortcutBinder)
        ensures
            b.platform == platform,
            b.state == BinderState::Unregistered,
            b.wf(),
    {
        ShortcutBinder { platform, state: BinderState::Unregistered }
    }

    /// Takes one event, moves to the next state and returns the action to
    /// perform.
    pub fn handle_event(&mut self, event: BinderEvent) -> (action: BinderAction)
        ensures
            final(self).platform == old(self).platform,
            (final(self).state, action) == step(old(self).platform, old(self).state, event),
            old(self).wf() ==> final(self).wf(),
    {
        let (next, action) = match (self.state, event) {
            (BinderState::Unregistered, BinderEvent::WindowLookedUp(None)) => (
                BinderState::Unregistered,
                BinderAction::SetupSucceeded,
            ),
            (BinderState::Unregistered, BinderEvent::WindowLookedUp(Some(w))) => {
                let b = ShortcutBinding { combination: shortcut_for(self.platform), window: w };
                (BinderState::AwaitingRegistration(b), BinderAction::Register(b))
            },
            (BinderState::AwaitingRegistration(b), BinderEvent::RegistrationFinished(Ok(()))) => (
                BinderState::Registered(b),
                BinderAction::SetupSucceeded,
            ),
            (BinderState::AwaitingRegistration(_), BinderEvent::RegistrationFinished(Err(e))) => (
                BinderState::Unregistered,
                BinderAction::SetupFailed(e),
            ),
            (BinderState::Registered(b), BinderEvent::Triggered) => (
                BinderState::Registered(b),
                BinderAction::RequestFocus(b.window),
            ),
            _ => (self.state, BinderAction::Ignore),
        };
        self.state = next;
        action
    }
}

} // verus!
