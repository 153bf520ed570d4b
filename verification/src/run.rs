//! Starting a server, as a protocol between this library and the program
//! that owns the sockets.
//!
//! A [`Run`] says at each moment what has to be done next ([`Run::action`]).
//! The program does it and reports what happened ([`Run::step`]). The
//! library decides the order: the address is resolved before anything is
//! bound, the listener is bound before anything is served, and the first
//! failure ends the run.
use crate::server::Server;
use vstd::prelude::*;

verus! {

/// Why a run ended without serving, or stopped serving.
#[derive(Debug)]
pub enum RunError {
    /// The configured host and port do not form a socket address. Holds the
    /// text that was tried.
    InvalidAddress(String),
    /// The listener could not be bound. Holds the system's message.
    Bind(String),
    /// Serving failed after it had begun. Holds the system's message.
    Serve(String),
}

/// A [`RunError`] as a mathematical value.
pub enum RunErrorView {
    InvalidAddress(Seq<char>),
    Bind(Seq<char>),
    Serve(Seq<char>),
}

impl View for RunError {
    type V = RunErrorView;

    open spec fn view(&self) -> RunErrorView {
        match self {
            RunError::InvalidAddress(text) => RunErrorView::InvalidAddress(text@),
            RunError::Bind(message) => RunErrorView::Bind(message@),
            RunError::Serve(message) => RunErrorView::Serve(message@),
        }
    }
}

/// What the program reports back after it has done what was asked.
#[derive(Debug)]
pub enum RunEvent {
    /// The address text is a socket address.
    AddressResolved,
    /// The address text is no socket address.
    AddressRejected,
    /// The listener is bound.
    Bound,
    /// The system refused to bind the listener.
    BindFailed(String),
    /// Serving returned without an error.
    ServeEnded,
    /// Serving returned an error.
    ServeFailed(String),
}

/// A [`RunEvent`] as a mathematical value.
pub enum EventView {
    AddressResolved,
    AddressRejected,
    Bound,
    BindFailed(Seq<char>),
    ServeEnded,
    ServeFailed(Seq<char>),
}

impl View for RunEvent {
    type V = EventView;

    open spec fn view(&self) -> EventView {
        match self {
            RunEvent::AddressResolved => EventView::AddressResolved,
            RunEvent::AddressRejected => EventView::AddressRejected,
            RunEvent::Bound => EventView::Bound,
            RunEvent::BindFailed(message) => EventView::BindFailed(message@),
            RunEvent::ServeEnded => EventView::ServeEnded,
            RunEvent::ServeFailed(message) => EventView::ServeFailed(message@),
        }
    }
}

/// What the program has to do next.
#[derive(Clone, Copy, Debug, PartialEq, Eq, Structural)]
pub enum RunAction {
    /// Read the server's address text as a socket address.
    Resolve,
    /// Build the pipeline and bind a listener to the resolved address.
    Bind,
    /// Record that the server starts, with its host and port, then accept
    /// and serve connections until serving returns.
    Serve,
    /// Nothing more: hand the outcome to the caller.
    Stop,
}

/// How far a run has come.
#[derive(Debug)]
pub enum RunPhase {
    /// The address has not been resolved yet.
    Resolving,
    /// The address is resolved, the listener is not bound yet.
    Binding,
    /// The listener is bound and connections are served.
    Serving,
    /// Serving returned without an error.
    Completed,
    /// The run ended with an error.
    Failed(RunError),
}

/// A [`RunPhase`] as a mathematical value.
pub enum PhaseView {
    Resolving,
    Binding,
    Serving,
    Completed,
    Failed(RunErrorView),
}

impl View for RunPhase {
    type V = PhaseView;

    open spec fn view(&self) -> PhaseView {
        match self {
            RunPhase::Resolving => PhaseView::Resolving,
            RunPhase::Binding => PhaseView::Binding,
            RunPhase::Serving => PhaseView::Serving,
            RunPhase::Completed => PhaseView::Completed,
            RunPhase::Failed(error) => PhaseView::Failed(error@),
        }
    }
}

/// The run is over: nothing that is reported can change it any more.
pub open spec fn is_stopped(phase: PhaseView) -> bool {
    phase is Completed || phase is Failed
}

/// The phase that follows `phase` when `event` is reported, for a server
/// whose address text is `address`.
///
/// Each phase waits for one of two answers, the success or the failure of
/// what it asked for. Any other event is not an answer to it and leaves the
/// phase as it is.
pub open spec fn next_phase(address: Seq<char>, phase: PhaseView, event: EventView) -> PhaseView {
    match (phase, event) {
        (PhaseView::Resolving, EventView::AddressResolved) => PhaseView::Binding,
        (PhaseView::Resolving, EventView::AddressRejected) => PhaseView::Failed(
            RunErrorView::InvalidAddress(address),
        ),
        (PhaseView::Binding, EventView::Bound) => PhaseView::Serving,
        (PhaseView::Binding, EventView::BindFailed(message)) => PhaseView::Failed(
            RunErrorView::Bind(message),
        ),
        (PhaseView::Serving, EventView::ServeEnded) => PhaseView::Completed,
        (PhaseView::Serving, EventView::ServeFailed(message)) => PhaseView::Failed(
            RunErrorView::Serve(message),
        ),
        _ => phase,
    }
}

/// What a run in `phase` asks the program to do.
pub open spec fn awaited_action(phase: PhaseView) -> RunAction {
    match phase {
        PhaseView::Resolving => RunAction::Resolve,
        PhaseView::Binding => RunAction::Bind,
        PhaseView::Serving => RunAction::Serve,
        PhaseView::Completed => RunAction::Stop,
        PhaseView::Failed(_) => RunAction::Stop,
    }
}

/// What a run in `phase` hands to its caller: nothing while it is under
/// way, then success or the error it ended with.
pub open spec fn outcome_of(phase: PhaseView) -> Option<Result<(), RunErrorView>> {
    match phase {
        PhaseView::Completed => Some(Ok(())),
        PhaseView::Failed(error) => Some(Err(error)),
        _ => None,
    }
}

/// The phase reached from `phase` when `events` are reported one after
/// another.
pub open spec fn phase_after(address: Seq<char>, phase: PhaseView, events: Seq<EventView>) -> PhaseView
    decreases events.len(),
{
    if events.len() == 0 {
        phase
    } else {
        phase_after(address, next_phase(address, phase, events[0]), events.skip(1))
    }
}

/// A server that is being started or is serving.
pub struct Run<S> {
    server: Server<S>,
    phase: RunPhase,
}

impl<S> Server<S> {
    /// Begins to run the server. The server is given up to the run, which
    /// first asks for its address to be resolved.
    pub fn run(self) -> (run: Run<S>)
        ensures
            run.spec_server() == self,
            run.spec_phase()@ == PhaseView::Resolving,
    {
        Run { server: self, phase: RunPhase::Resolving }
    }
}

impl<S> Run<S> {
    /// The server that is run.
    pub closed spec fn spec_server(&self) -> Server<S> {
        self.server
    }

    /// How far the run has come.
    pub closed spec fn spec_phase(&self) -> RunPhase {
        self.phase
    }

    /// The server that is run.
    pub fn server(&self) -> (server: &Server<S>)
        ensures
            *server == self.spec_server(),
    {
        &self.server
    }

    /// How far the run has come.
    pub fn phase(&self) -> (phase: &RunPhase)
        ensures
            *phase == self.spec_phase(),
    {
        &self.phase
    }

    /// What the program has to do next.
    pub fn action(&self) -> (action: RunAction)
        ensures
            action == awaited_action(self.spec_phase()@),
    {
        match &self.phase {
            RunPhase::Resolving => RunAction::Resolve,
            RunPhase::Binding => RunAction::Bind,
            RunPhase::Serving => RunAction::Serve,
            RunPhase::Completed => RunAction::Stop,
            RunPhase::Failed(_) => RunAction::Stop,
        }
    }

    /// Takes in what the program reports and moves the run on. The server
    /// stays the same; the phase becomes the one that [`next_phase`] gives.
    pub fn step(self, event: RunEvent) -> (next: Run<S>)
        ensures
            next.spec_server() == self.spec_server(),
            next.spec_phase()@ == next_phase(
                self.spec_server().spec_address(),
                self.spec_phase()@,
                event@,
            ),
    {
        let Run { server, phase } = self;
        let phase = match phase {
            RunPhase::Resolving => match event {
                RunEvent::AddressResolved => RunPhase::Binding,
                RunEvent::AddressRejected => RunPhase::Failed(
                    RunError::InvalidAddress(server.address()),
                ),
                _ => RunPhase::Resolving,
            },
            RunPhase::Binding => match event {
                RunEvent::Bound => RunPhase::Serving,
                RunEvent::BindFailed(message) => RunPhase::Failed(RunError::Bind(message)),
                _ => RunPhase::Binding,
            },
            RunPhase::Serving => match event {
                RunEvent::ServeEnded => RunPhase::Completed,
                RunEvent::ServeFailed(message) => RunPhase::Failed(RunError::Serve(message)),
                _ => RunPhase::Serving,
            },
            RunPhase::Completed => RunPhase::Completed,
            RunPhase::Failed(error) => RunPhase::Failed(error),
        };
        Run { server, phase }
    }

    /// Ends the run and hands out its outcome: `None` while the run is under
    /// way, else success or the error that ended it.
    pub fn outcome(self) -> (outcome: Option<Result<(), RunError>>)
        ensures
            outcome_view(outcome) == outcome_of(self.spec_phase()@),
    {
        match self.phase {
            RunPhase::Completed => Some(Ok(())),
            RunPhase::Failed(error) => Some(Err(error)),
            _ => None,
        }
    }
}

/// An outcome as a mathematical value.
pub open spec fn outcome_view(outcome: Option<Result<(), RunError>>) -> Option<
    Result<(), RunErrorView>,
> {
    match outcome {
        Some(Ok(())) => Some(Ok(())),
        Some(Err(error)) => Some(Err(error@)),
        None => None,
    }
}

/// A run that is over stays as it is, whatever is reported afterwards: its
/// outcome is reported once and never changes.
pub proof fn lemma_stopped_is_final(address: Seq<char>, phase: PhaseView, events: Seq<EventView>)
    requires
        is_stopped(phase),
    ensures
        phase_after(address, phase, events) == phase,
    decreases events.len(),
{
    if events.len() > 0 {
        lemma_stopped_is_final(address, phase, events.skip(1));
    }
}

/// Reporting events in two batches is the same as reporting them in one.
pub proof fn lemma_phase_after_concat(
    address: Seq<char>,
    phase: PhaseView,
    first: Seq<EventView>,
    second: Seq<EventView>,
)
    ensures
        phase_after(address, phase, first + second) == phase_after(
            address,
            phase_after(address, phase, first),
            second,
        ),
    decreases first.len(),
{
    if first.len() == 0 {
        assert(first + second =~= second);
    } else {
        assert((first + second).skip(1) =~= first.skip(1) + second);
        lemma_phase_after_concat(
            address,
            next_phase(address, phase, first[0]),
            first.skip(1),
            second,
        );
    }
}

/// An address that is rejected ends the run with the invalid-address error,
/// which names the text that was tried, and nothing reported later changes
/// that: such a run never asks for a listener to be bound.
pub proof fn lemma_rejected_address_fails(address: Seq<char>, events: Seq<EventView>)
    requires
        events.len() > 0,
        events[0] == EventView::AddressRejected,
    ensures
        phase_after(address, PhaseView::Resolving, events) == PhaseView::Failed(
            RunErrorView::InvalidAddress(address),
        ),
{
    lemma_stopped_is_final(
        address,
        PhaseView::Failed(RunErrorView::InvalidAddress(address)),
        events.skip(1),
    );
}

/// Nothing is bound before the address is resolved: as long as no report
/// says that the address resolved, a new run still waits for it or has
/// failed on it.
pub proof fn lemma_unresolved_never_binds(address: Seq<char>, events: Seq<EventView>)
    requires
        forall|i: int| 0 <= i < events.len() ==> events[i] != EventView::AddressResolved,
    ensures
        phase_after(address, PhaseView::Resolving, events) == PhaseView::Resolving || phase_after(
            address,
            PhaseView::Resolving,
            events,
        ) == PhaseView::Failed(RunErrorView::InvalidAddress(address)),
        awaited_action(phase_after(address, PhaseView::Resolving, events)) != RunAction::Bind,
        awaited_action(phase_after(address, PhaseView::Resolving, events)) != RunAction::Serve,
    decreases events.len(),
{
    if events.len() > 0 {
        let rest = events.skip(1);
        if events[0] == EventView::AddressRejected {
            lemma_rejected_address_fails(address, events);
        } else {
            assert(forall|i: int| 0 <= i < rest.len() ==> rest[i] == events[i + 1]);
            lemma_unresolved_never_binds(address, rest);
        }
    }
}

/// Nothing is served before the listener is bound: as long as no report
/// says that it is bound, a new run neither serves nor has served.
pub proof fn lemma_unbound_never_serves(address: Seq<char>, events: Seq<EventView>)
    requires
        forall|i: int| 0 <= i < events.len() ==> events[i] != EventView::Bound,
    ensures
        awaited_action(phase_after(address, PhaseView::Resolving, events)) != RunAction::Serve,
        phase_after(address, PhaseView::Resolving, events) != PhaseView::Completed,
        !(phase_after(address, PhaseView::Resolving, events) matches PhaseView::Failed(
            RunErrorView::Serve(_),
        )),
{
    lemma_unbound_from(address, PhaseView::Resolving, events);
}

/// A run that has not reached serving cannot reach it without a report
/// that the listener is bound.
proof fn lemma_unbound_from(address: Seq<char>, phase: PhaseView, events: Seq<EventView>)
    requires
        forall|i: int| 0 <= i < events.len() ==> events[i] != EventView::Bound,
        phase != PhaseView::Serving,
        phase != PhaseView::Completed,
        !(phase matches PhaseView::Failed(RunErrorView::Serve(_))),
    ensures
        phase_after(address, phase, events) != PhaseView::Serving,
        phase_after(address, phase, events) != PhaseView::Completed,
        !(phase_after(address, phase, events) matches PhaseView::Failed(RunErrorView::Serve(_))),
    decreases events.len(),
{
    if events.len() > 0 {
        let rest = events.skip(1);
        assert(forall|i: int| 0 <= i < rest.len() ==> rest[i] == events[i + 1]);
        lemma_unbound_from(address, next_phase(address, phase, events[0]), rest);
    }
}

/// A listener that cannot be bound ends the run with the bind error, which
/// carries the system's message; no connection is served.
pub proof fn lemma_bind_failure_stops(
    address: Seq<char>,
    message: Seq<char>,
    later: Seq<EventView>,
)
    ensures
        phase_after(
            address,
            PhaseView::Resolving,
            seq![EventView::AddressResolved, EventView::BindFailed(message)] + later,
        ) == PhaseView::Failed(RunErrorView::Bind(message)),
{
    let start = seq![EventView::AddressResolved, EventView::BindFailed(message)];
    let failed = PhaseView::Failed(RunErrorView::Bind(message));
    reveal_with_fuel(phase_after, 3);
    assert(phase_after(address, PhaseView::Resolving, start) == failed);
    lemma_phase_after_concat(address, PhaseView::Resolving, start, later);
    lemma_stopped_is_final(address, failed, later);
}

/// With an address that resolves and a listener that binds, the run comes
/// to serve; what serving returns is then the outcome of the run.
pub proof fn lemma_served_outcome(address: Seq<char>, last: EventView)
    requires
        last is ServeEnded || last is ServeFailed,
    ensures
        phase_after(
            address,
            PhaseView::Resolving,
            seq![EventView::AddressResolved, EventView::Bound],
        ) == PhaseView::Serving,
        outcome_of(
            phase_after(
                address,
                PhaseView::Resolving,
                seq![EventView::AddressResolved, EventView::Bound, last],
            ),
        ) == match last {
            EventView::ServeFailed(message) => Some(
                Err::<(), RunErrorView>(RunErrorView::Serve(message)),
            ),
            _ => Some(Ok::<(), RunErrorView>(())),
        },
{
    reveal_with_fuel(phase_after, 4);
}

} // verus!
