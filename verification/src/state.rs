//! The recording state machine: idle, recording, transcribing, injecting,
//! idle again.
//!
//! A request that does not fit the state is refused and changes nothing. A
//! failure is announced and always leads back to idle.

use vstd::prelude::*;

verus! {

/// What the application is doing, as the user sees it.
#[derive(Debug, Clone, Copy, PartialEq, Eq, Structural)]
pub enum AppState {
    Idle,
    Recording,
    Transcribing,
    Injecting,
    Error,
}

impl Default for AppState {
    fn default() -> (r: Self)
        ensures
            r == AppState::Idle,
    {
        AppState::Idle
    }
}

/// A request to the state machine.
#[derive(Debug)]
pub enum StateEvent {
    StartRecording,
    StopRecording,
    TranscriptionDone,
    InjectionDone,
    /// Something went wrong; the message is for the user.
    Fail(String),
}

/// The mathematical counterpart of [`StateEvent`].
pub ghost enum EventModel {
    StartRecording,
    StopRecording,
    TranscriptionDone,
    InjectionDone,
    Fail(Seq<char>),
}

impl View for StateEvent {
    type V = EventModel;

    open spec fn view(&self) -> EventModel {
        match self {
            StateEvent::StartRecording => EventModel::StartRecording,
            StateEvent::StopRecording => EventModel::StopRecording,
            StateEvent::TranscriptionDone => EventModel::TranscriptionDone,
            StateEvent::InjectionDone => EventModel::InjectionDone,
            StateEvent::Fail(msg) => EventModel::Fail(msg@),
        }
    }
}

/// One change of state, as it is announced to the user interface.
#[derive(Debug, Clone, Copy, PartialEq, Eq, Structural)]
pub struct StatePayload {
    pub state: AppState,
    pub previous: AppState,
}

/// The mathematical counterpart of [`StateMachine`].
pub ghost struct MachineModel {
    pub state: AppState,
    pub last_error: Option<Seq<char>>,
    pub pending_transcribe: bool,
}

/// The states that a request leads through, in order; none where the request
/// does not fit the state.
pub open spec fn path(state: AppState, event: EventModel) -> Seq<AppState> {
    match (state, event) {
        (AppState::Idle, EventModel::StartRecording) => seq![AppState::Recording],
        (AppState::Recording, EventModel::StopRecording) => seq![AppState::Transcribing],
        (AppState::Transcribing, EventModel::TranscriptionDone) => seq![AppState::Injecting],
        (AppState::Injecting, EventModel::InjectionDone) => seq![AppState::Idle],
        (_, EventModel::Fail(_)) => seq![AppState::Error, AppState::Idle],
        _ => seq![],
    }
}

/// The announcements for a path: each state with the one before it.
pub open spec fn announced(from: AppState, path: Seq<AppState>) -> Seq<StatePayload> {
    Seq::new(
        path.len(),
        |i: int| StatePayload { state: path[i], previous: if i == 0 { from } else { path[i - 1] } },
    )
}

/// The machine after a request.
pub open spec fn after(m: MachineModel, event: EventModel) -> MachineModel {
    let p = path(m.state, event);
    MachineModel {
        state: if p.len() == 0 { m.state } else { p.last() },
        last_error: match event {
            EventModel::Fail(msg) => Some(msg),
            _ => m.last_error,
        },
        pending_transcribe: m.pending_transcribe || (m.state == AppState::Recording
            && event is StopRecording),
    }
}

/// What the user interface is told of a request.
pub open spec fn announcements(m: MachineModel, event: EventModel) -> Seq<StatePayload> {
    announced(m.state, path(m.state, event))
}

/// Whether a request fits the state.
pub open spec fn accepted(m: MachineModel, event: EventModel) -> bool {
    path(m.state, event).len() > 0
}

/// The answer to a request.
#[derive(Debug)]
pub struct Transition {
    /// The request fitted the state.
    pub accepted: bool,
    /// The changes to announce, in order.
    pub changes: Vec<StatePayload>,
}

/// The state of the application.
pub struct StateMachine {
    inner: AppState,
    last_error: Option<String>,
    pending_transcribe: bool,
}

impl View for StateMachine {
    type V = MachineModel;

    closed spec fn view(&self) -> MachineModel {
        MachineModel {
            state: self.inner,
            last_error: match self.last_error {
                Some(msg) => Some(msg@),
                None => None,
            },
            pending_transcribe: self.pending_transcribe,
        }
    }
}

impl StateMachine {
    /// The machine never rests in the error state.
    #[verifier::type_invariant]
    spec fn valid(self) -> bool {
        self.inner != AppState::Error
    }

    /// A machine at rest.
    pub fn new() -> (r: Self)
        ensures
            r@ == (MachineModel {
                state: AppState::Idle,
                last_error: None,
                pending_transcribe: false,
            }),
    {
        StateMachine { inner: AppState::default(), last_error: None, pending_transcribe: false }
    }

    /// The state.
    pub fn current(&self) -> (r: AppState)
        ensures
            r == self@.state,
            r != AppState::Error,
    {
        proof {
            use_type_invariant(self);
        }
        self.inner
    }

    /// The message of the last failure.
    pub fn last_error(&self) -> (r: Option<String>)
        ensures
            match r {
                Some(msg) => self@.last_error == Some(msg@),
                None => self@.last_error is None,
            },
    {
        match &self.last_error {
            Some(msg) => Some(msg.clone()),
            None => None,
        }
    }

    /// Whether a recording was stopped since the last call, so that there is
    /// something to transcribe.
    pub fn take_pending_transcribe(&mut self) -> (r: bool)
        ensures
            r == old(self)@.pending_transcribe,
            final(self)@ == (MachineModel { pending_transcribe: false, ..old(self)@ }),
    {
        proof {
            use_type_invariant(&*self);
        }
        let v = self.pending_transcribe;
        self.pending_transcribe = false;
        v
    }

    /// Puts a request to the machine.
    pub fn transition(&mut self, event: StateEvent) -> (r: Transition)
        ensures
            r.accepted == accepted(old(self)@, event@),
            r.changes@ == announcements(old(self)@, event@),
            final(self)@ == after(old(self)@, event@),
    {
        proof {
            use_type_invariant(&*self);
        }
        let prev = self.inner;
        let ghost wanted = announcements(self@, event@);
        let mut changes: Vec<StatePayload> = Vec::new();
        let next = match (prev, event) {
            (AppState::Idle, StateEvent::StartRecording) => Some(AppState::Recording),
            (AppState::Recording, StateEvent::StopRecording) => {
                self.pending_transcribe = true;
                Some(AppState::Transcribing)
            },
            (AppState::Transcribing, StateEvent::TranscriptionDone) => Some(AppState::Injecting),
            (AppState::Injecting, StateEvent::InjectionDone) => Some(AppState::Idle),
            (_, StateEvent::Fail(msg)) => {
                self.last_error = Some(msg);
                changes.push(StatePayload { state: AppState::Error, previous: prev });
                changes.push(StatePayload { state: AppState::Idle, previous: AppState::Error });
                self.inner = AppState::Idle;
                assert(changes@ =~= wanted);
                return Transition { accepted: true, changes };
            },
            _ => None,
        };
        match next {
            Some(state) => {
                self.inner = state;
                changes.push(StatePayload { state, previous: prev });
                assert(changes@ =~= wanted);
                Transition { accepted: true, changes }
            },
            None => {
                assert(changes@ =~= wanted);
                Transition { accepted: false, changes }
            },
        }
    }
}

/// A request that does not fit the state changes nothing and is not
/// announced.
pub proof fn law_refused_changes_nothing(m: MachineModel, event: EventModel)
    requires
        !accepted(m, event),
    ensures
        after(m, event) == m,
        announcements(m, event) == Seq::<StatePayload>::empty(),
{
    assert(announcements(m, event) =~= Seq::<StatePayload>::empty());
}

/// A failure fits every state. It is announced as an error and leads back to
/// idle, and its message is kept.
pub proof fn law_failure_leads_to_idle(m: MachineModel, message: Seq<char>)
    ensures
        accepted(m, EventModel::Fail(message)),
        after(m, EventModel::Fail(message)) == (MachineModel {
            state: AppState::Idle,
            last_error: Some(message),
            ..m
        }),
        announcements(m, EventModel::Fail(message)) == seq![
            StatePayload { state: AppState::Error, previous: m.state },
            StatePayload { state: AppState::Idle, previous: AppState::Error },
        ],
{
    assert(announcements(m, EventModel::Fail(message)) =~= seq![
        StatePayload { state: AppState::Error, previous: m.state },
        StatePayload { state: AppState::Idle, previous: AppState::Error },
    ]);
}

/// No request leaves the machine in the error state.
pub proof fn law_never_rests_in_error(m: MachineModel, event: EventModel)
    requires
        m.state != AppState::Error,
    ensures
        after(m, event).state != AppState::Error,
{
}

/// The announcements of an accepted request lead without a gap from the state
/// before it to the state after it.
pub proof fn law_announcements_are_gapless(m: MachineModel, event: EventModel)
    requires
        accepted(m, event),
    ensures
        announcements(m, event).len() > 0,
        announcements(m, event).first().previous == m.state,
        announcements(m, event).last().state == after(m, event).state,
        forall|i: int|
            0 < i < announcements(m, event).len() ==> (#[trigger] announcements(
                m,
                event,
            )[i]).previous == announcements(m, event)[i - 1].state,
{
}

/// Nothing but stopping a recording asks for a transcription.
pub proof fn law_only_stopping_asks_for_transcription(m: MachineModel, event: EventModel)
    requires
        !m.pending_transcribe,
        after(m, event).pending_transcribe,
    ensures
        m.state == AppState::Recording,
        event is StopRecording,
        after(m, event).state == AppState::Transcribing,
{
}

/// The round of a dictation: from idle over recording, transcribing and
/// injecting back to idle.
pub proof fn law_round_of_a_dictation(m: MachineModel)
    requires
        m.state == AppState::Idle,
    ensures
        ({
            let recording = after(m, EventModel::StartRecording);
            let transcribing = after(recording, EventModel::StopRecording);
            let injecting = after(transcribing, EventModel::TranscriptionDone);
            let done = after(injecting, EventModel::InjectionDone);
            &&& recording.state == AppState::Recording
            &&& transcribing.state == AppState::Transcribing
            &&& injecting.state == AppState::Injecting
            &&& done == (MachineModel { pending_transcribe: true, ..m })
        }),
{
}

/// Four requests move the machine, each from one state to one other; any
/// request in another state is refused. A failure is accepted in every state.
pub proof fn law_only_the_next_step_is_accepted(m: MachineModel)
    ensures
        accepted(m, EventModel::StartRecording) <==> m.state == AppState::Idle,
        accepted(m, EventModel::StopRecording) <==> m.state == AppState::Recording,
        accepted(m, EventModel::TranscriptionDone) <==> m.state == AppState::Transcribing,
        accepted(m, EventModel::InjectionDone) <==> m.state == AppState::Injecting,
{
}

/// An accepted step is announced once, with the state that it leads to and the
/// one that it came from. It leaves the last failure; only stopping a recording
/// asks for a transcription.
pub proof fn law_a_step_is_announced_once(m: MachineModel)
    ensures
        m.state == AppState::Idle ==> {
            let e = EventModel::StartRecording;
            &&& after(m, e) == (MachineModel { state: AppState::Recording, ..m })
            &&& announcements(m, e) == seq![
                StatePayload { state: AppState::Recording, previous: AppState::Idle },
            ]
        },
        m.state == AppState::Recording ==> {
            let e = EventModel::StopRecording;
            &&& after(m, e) == (MachineModel {
                state: AppState::Transcribing,
                last_error: m.last_error,
                pending_transcribe: true,
            })
            &&& announcements(m, e) == seq![
                StatePayload { state: AppState::Transcribing, previous: AppState::Recording },
            ]
        },
        m.state == AppState::Transcribing ==> {
            let e = EventModel::TranscriptionDone;
            &&& after(m, e) == (MachineModel { state: AppState::Injecting, ..m })
            &&& announcements(m, e) == seq![
                StatePayload { state: AppState::Injecting, previous: AppState::Transcribing },
            ]
        },
        m.state == AppState::Injecting ==> {
            let e = EventModel::InjectionDone;
            &&& after(m, e) == (MachineModel { state: AppState::Idle, ..m })
            &&& announcements(m, e) == seq![
                StatePayload { state: AppState::Idle, previous: AppState::Injecting },
            ]
        },
{
    assert(m.state == AppState::Idle ==> announcements(m, EventModel::StartRecording) =~= seq![
        StatePayload { state: AppState::Recording, previous: AppState::Idle },
    ]);
    assert(m.state == AppState::Recording ==> announcements(m, EventModel::StopRecording) =~= seq![
        StatePayload { state: AppState::Transcribing, previous: AppState::Recording },
    ]);
    assert(m.state == AppState::Transcribing ==> announcements(m, EventModel::TranscriptionDone)
        =~= seq![StatePayload { state: AppState::Injecting, previous: AppState::Transcribing }]);
    assert(m.state == AppState::Injecting ==> announcements(m, EventModel::InjectionDone)
        =~= seq![StatePayload { state: AppState::Idle, previous: AppState::Injecting }]);
}

} // verus!
