//! One run, as a state machine.
//!
//! A run selects the device, has it opened, and then sends the requested
//! commands one after the other: resolution first, then the wired polling
//! rate, then the wireless one. The machine decides; the caller acts. Each
//! [`Action`] it hands out is performed by the caller, who reports back how
//! it went with an [`Outcome`] and receives the next action. The first
//! failure ends the run.

use crate::command::{command_spec, supported, table_entry, CommandKind};
use crate::device::{find_first_match, is_first_match, no_match, DeviceDescriptor, Endpoint};
use crate::error::ProtocolError;
use crate::report::{build_report, lemma_table_entries_fit, report_layout, Report};
use vstd::prelude::*;

verus! {

/// What one run is asked to set. A value that is absent is left alone.
#[derive(Clone, Copy, Debug, PartialEq, Eq)]
pub struct Request {
    pub dpi: Option<u16>,
    pub wired_hz: Option<u16>,
    pub wireless_hz: Option<u16>,
}

/// The commands of a request, in the order in which they are sent.
pub open spec fn requested_commands(request: Request) -> Seq<CommandKind> {
    (match request.dpi {
        Some(value) => seq![CommandKind::SetDpi(value)],
        None => Seq::<CommandKind>::empty(),
    }) + (match request.wired_hz {
        Some(hz) => seq![CommandKind::SetWiredPollingRate(hz)],
        None => Seq::<CommandKind>::empty(),
    }) + (match request.wireless_hz {
        Some(hz) => seq![CommandKind::SetWirelessPollingRate(hz)],
        None => Seq::<CommandKind>::empty(),
    })
}

impl Request {
    /// The commands of the request, in the order in which they are sent.
    pub fn commands(&self) -> (commands: Vec<CommandKind>)
        ensures
            commands@ == requested_commands(*self),
    {
        let mut commands: Vec<CommandKind> = Vec::new();
        if let Some(value) = self.dpi {
            commands.push(CommandKind::SetDpi(value));
        }
        if let Some(hz) = self.wired_hz {
            commands.push(CommandKind::SetWiredPollingRate(hz));
        }
        if let Some(hz) = self.wireless_hz {
            commands.push(CommandKind::SetWirelessPollingRate(hz));
        }
        assert(commands@ =~= requested_commands(*self));
        commands
    }
}

/// How the action that the caller performed went.
#[derive(Clone, Copy, Debug, PartialEq, Eq, Structural)]
pub enum Outcome {
    Succeeded,
    Failed,
}

/// Where a run stands.
#[derive(Clone, Copy, Debug, PartialEq, Eq, Structural)]
pub enum Phase {
    /// The device is selected; the caller is opening it.
    Opening,
    /// The caller is writing the report of the command at `index`.
    Writing { index: usize },
    /// Every command was written.
    Finished,
    /// The run failed.
    Aborted { error: ProtocolError },
}

/// What the caller has to do next.
#[derive(Debug, PartialEq, Eq)]
pub enum Action {
    /// Open the endpoint at this place of the enumeration.
    Open { endpoint: usize },
    /// Write this report to the device as a feature report.
    Write { report: Report },
    /// Nothing: the run has succeeded.
    Finish,
    /// Nothing: the run has failed, for this reason.
    Abort { error: ProtocolError },
}

/// An `Action` as mathematical values.
pub enum ActionView {
    Open { endpoint: usize },
    Write { report: Seq<u8> },
    Finish,
    Abort { error: ProtocolError },
}

impl View for Action {
    type V = ActionView;

    open spec fn view(&self) -> ActionView {
        match *self {
            Action::Open { endpoint } => ActionView::Open { endpoint },
            Action::Write { report } => ActionView::Write { report: report@ },
            Action::Finish => ActionView::Finish,
            Action::Abort { error } => ActionView::Abort { error },
        }
    }
}

/// The state of a run as mathematical values.
pub struct RunState {
    pub commands: Seq<CommandKind>,
    pub phase: Phase,
}

impl RunState {
    /// A report is only ever being written for a command of the run, and the
    /// commands can be counted.
    pub open spec fn well_formed(self) -> bool {
        &&& self.commands.len() <= usize::MAX
        &&& self.phase matches Phase::Writing { index } ==> index < self.commands.len()
    }

    /// The state of a run that has failed.
    pub open spec fn aborted(self, error: ProtocolError) -> (RunState, ActionView) {
        (
            RunState { commands: self.commands, phase: Phase::Aborted { error } },
            ActionView::Abort { error },
        )
    }

    /// Turns to the command at `index`: past the last command the run is
    /// finished; a command that the table does not hold ends the run with
    /// `InvalidParameter`, and nothing is written for it; any other command
    /// has its report written.
    pub open spec fn advance(self, index: int) -> (RunState, ActionView) {
        if index >= self.commands.len() {
            (RunState { commands: self.commands, phase: Phase::Finished }, ActionView::Finish)
        } else {
            match table_entry(self.commands[index]) {
                None => self.aborted(ProtocolError::InvalidParameter),
                Some(entry) => (
                    RunState {
                        commands: self.commands,
                        phase: Phase::Writing { index: index as usize },
                    },
                    ActionView::Write { report: report_layout(entry) },
                ),
            }
        }
    }

    /// The transition of the machine: the state after the caller reported an
    /// outcome, and the action it is handed.
    pub open spec fn step(self, outcome: Outcome) -> (RunState, ActionView) {
        match self.phase {
            Phase::Opening => match outcome {
                Outcome::Succeeded => self.advance(0),
                Outcome::Failed => self.aborted(ProtocolError::DeviceOpenFailed),
            },
            Phase::Writing { index } => match outcome {
                Outcome::Succeeded => self.advance(index + 1),
                Outcome::Failed => self.aborted(ProtocolError::TransportError),
            },
            Phase::Finished => (self, ActionView::Finish),
            Phase::Aborted { error } => (self, ActionView::Abort { error }),
        }
    }
}

/// A run in progress.
#[derive(Debug)]
pub struct Run {
    commands: Vec<CommandKind>,
    phase: Phase,
}

impl View for Run {
    type V = RunState;

    closed spec fn view(&self) -> RunState {
        RunState { commands: self.commands@, phase: self.phase }
    }
}

impl Run {
    #[verifier::type_invariant]
    spec fn valid(&self) -> bool {
        self@.well_formed()
    }

    /// Starts a run: selects the device among the enumerated endpoints.
    ///
    /// Where the descriptor accepts an endpoint, the caller is asked to open
    /// the first such; where it accepts none, the run has failed with
    /// `DeviceNotFound`.
    pub fn begin(endpoints: &[Endpoint], descriptor: &DeviceDescriptor, request: &Request) -> (started:
        (Run, Action))
        ensures
            started.0@.well_formed(),
            started.0@.commands == requested_commands(*request),
            match started.1 {
                Action::Open { endpoint } => {
                    &&& is_first_match(endpoints@, *descriptor, endpoint as int)
                    &&& started.0@.phase == Phase::Opening
                },
                Action::Abort { error } => {
                    &&& error == ProtocolError::DeviceNotFound
                    &&& no_match(endpoints@, *descriptor)
                    &&& started.0@.phase == Phase::Aborted { error }
                },
                _ => false,
            },
    {
        let commands = request.commands();
        match find_first_match(endpoints, descriptor) {
            Some(endpoint) => (Run { commands, phase: Phase::Opening }, Action::Open { endpoint }),
            None => {
                let error = ProtocolError::DeviceNotFound;
                (Run { commands, phase: Phase::Aborted { error } }, Action::Abort { error })
            },
        }
    }

    /// Where the run stands.
    pub fn phase(&self) -> (phase: Phase)
        ensures
            phase == self@.phase,
    {
        self.phase
    }

    /// Whether the run has ended, in success or in failure.
    pub fn is_over(&self) -> (over: bool)
        ensures
            over == (self@.phase is Finished || self@.phase is Aborted),
    {
        match self.phase {
            Phase::Finished => true,
            Phase::Aborted { .. } => true,
            _ => false,
        }
    }

    /// Turns to the command at `index`.
    fn advance(&mut self, index: usize) -> (action: Action)
        ensures
            (final(self)@, action@) == old(self)@.advance(index as int),
    {
        if index >= self.commands.len() {
            self.phase = Phase::Finished;
            return Action::Finish;
        }
        let command = self.commands[index];
        match command_spec(command) {
            Err(error) => {
                self.phase = Phase::Aborted { error };
                Action::Abort { error }
            },
            Ok(spec) => {
                proof {
                    lemma_table_entries_fit(command);
                }
                match build_report(&spec) {
                    Ok(report) => {
                        self.phase = Phase::Writing { index };
                        Action::Write { report }
                    },
                    Err(error) => {
                        self.phase = Phase::Aborted { error };
                        Action::Abort { error }
                    },
                }
            },
        }
    }

    /// Takes the outcome of the action that was handed out last, and hands
    /// out the next one.
    ///
    /// A failure to open the device ends the run with `DeviceOpenFailed`, a
    /// failed write with `TransportError`. After a success the next command
    /// is looked up and its report is handed out; a command with an
    /// unsupported parameter ends the run with `InvalidParameter` before
    /// anything is written for it. A run that has ended stays as it is.
    pub fn step(&mut self, outcome: Outcome) -> (action: Action)
        ensures
            (final(self)@, action@) == old(self)@.step(outcome),
            final(self)@.well_formed(),
    {
        proof {
            use_type_invariant(&*self);
        }
        let count: usize = self.commands.len();
        match self.phase {
            Phase::Opening => match outcome {
                Outcome::Succeeded => self.advance(0),
                Outcome::Failed => self.abort(ProtocolError::DeviceOpenFailed),
            },
            Phase::Writing { index } => match outcome {
                Outcome::Succeeded => {
                    assert(index < count);
                    self.advance(index + 1)
                },
                Outcome::Failed => self.abort(ProtocolError::TransportError),
            },
            Phase::Finished => Action::Finish,
            Phase::Aborted { error } => Action::Abort { error },
        }
    }

    /// Ends the run in failure.
    fn abort(&mut self, error: ProtocolError) -> (action: Action)
        ensures
            (final(self)@, action@) == old(self)@.aborted(error),
    {
        proof {
            use_type_invariant(&*self);
        }
        self.phase = Phase::Aborted { error };
        Action::Abort { error }
    }
}

/// The actions that the machine hands out, one for each outcome that the
/// caller reports, from a given state on.
pub open spec fn actions_for(state: RunState, outcomes: Seq<Outcome>) -> Seq<ActionView>
    decreases outcomes.len(),
{
    if outcomes.len() == 0 {
        Seq::<ActionView>::empty()
    } else {
        let (next, action) = state.step(outcomes[0]);
        seq![action] + actions_for(next, outcomes.drop_first())
    }
}

/// The reports that a sequence of actions has the caller write, in order.
pub open spec fn written_reports(actions: Seq<ActionView>) -> Seq<Seq<u8>>
    decreases actions.len(),
{
    if actions.len() == 0 {
        Seq::<Seq<u8>>::empty()
    } else {
        (match actions[0] {
            ActionView::Write { report } => seq![report],
            _ => Seq::<Seq<u8>>::empty(),
        }) + written_reports(actions.drop_first())
    }
}

/// The reports of the commands from `from` on, up to the first command that
/// the table does not hold.
pub open spec fn leading_reports(commands: Seq<CommandKind>, from: int) -> Seq<Seq<u8>>
    decreases commands.len() - from,
{
    if from < 0 || from >= commands.len() || !supported(commands[from]) {
        Seq::<Seq<u8>>::empty()
    } else {
        seq![report_layout(table_entry(commands[from])->Some_0)] + leading_reports(
            commands,
            from + 1,
        )
    }
}

/// The command that a state turns to when the action at hand succeeds.
pub open spec fn next_command(state: RunState) -> int {
    match state.phase {
        Phase::Opening => 0,
        Phase::Writing { index } => index + 1,
        _ => state.commands.len() as int,
    }
}

/// Whatever the outcomes, a run writes reports in the order of its commands,
/// one for each, and none for an unsupported command or for any command
/// after it; and none at all once it has ended.
pub proof fn lemma_writes_stop_at_unsupported_command(state: RunState, outcomes: Seq<Outcome>)
    requires
        state.well_formed(),
    ensures
        written_reports(actions_for(state, outcomes)).is_prefix_of(
            leading_reports(state.commands, next_command(state)),
        ),
        state.phase is Finished || state.phase is Aborted ==> written_reports(
            actions_for(state, outcomes),
        ) == Seq::<Seq<u8>>::empty(),
    decreases outcomes.len(),
{
    let actions = actions_for(state, outcomes);
    let expected = leading_reports(state.commands, next_command(state));
    if outcomes.len() == 0 {
        assert(written_reports(actions) =~= expected.subrange(0, 0));
    } else {
        let (next, action) = state.step(outcomes[0]);
        let rest = actions_for(next, outcomes.drop_first());
        lemma_writes_stop_at_unsupported_command(next, outcomes.drop_first());
        assert(actions[0] == action);
        assert(actions.drop_first() =~= rest);
        if action is Write {
            let turned_to = next_command(state);
            assert(next.phase == Phase::Writing { index: turned_to as usize });
            assert(leading_reports(state.commands, turned_to) =~= seq![action->report]
                + leading_reports(state.commands, turned_to + 1));
            assert(written_reports(actions) =~= seq![action->report] + written_reports(rest));
            assert(written_reports(actions) =~= expected.subrange(
                0,
                written_reports(actions).len() as int,
            ));
        } else {
            assert(next.phase is Finished || next.phase is Aborted);
            assert(written_reports(actions) =~= written_reports(rest));
            assert(written_reports(actions) =~= expected.subrange(0, 0));
        }
    }
}

/// A run whose first command is unsupported writes nothing, whatever the
/// outcomes.
pub proof fn lemma_unsupported_first_command_writes_nothing(
    state: RunState,
    outcomes: Seq<Outcome>,
)
    requires
        state.well_formed(),
        state.phase == Phase::Opening,
        state.commands.len() > 0,
        !supported(state.commands[0]),
    ensures
        written_reports(actions_for(state, outcomes)) == Seq::<Seq<u8>>::empty(),
{
    lemma_writes_stop_at_unsupported_command(state, outcomes);
}

/// A run in which every command is supported and every action succeeds
/// writes the report of each command, in order, and then finishes.
pub proof fn lemma_successful_run_writes_every_report(state: RunState, outcomes: Seq<Outcome>)
    requires
        state.well_formed(),
        state.phase is Opening || state.phase is Writing,
        forall|j: int|
            next_command(state) <= j < state.commands.len() ==> supported(
                #[trigger] state.commands[j],
            ),
        forall|i: int| 0 <= i < outcomes.len() ==> #[trigger] outcomes[i] == Outcome::Succeeded,
        outcomes.len() == state.commands.len() - next_command(state) + 1,
    ensures
        written_reports(actions_for(state, outcomes)) == leading_reports(
            state.commands,
            next_command(state),
        ),
        leading_reports(state.commands, next_command(state)).len() == state.commands.len()
            - next_command(state),
        actions_for(state, outcomes).last() == ActionView::Finish,
    decreases outcomes.len(),
{
    let actions = actions_for(state, outcomes);
    let turned_to = next_command(state);
    let (next, action) = state.step(outcomes[0]);
    let rest = actions_for(next, outcomes.drop_first());
    assert(actions[0] == action);
    assert(actions.drop_first() =~= rest);
    if turned_to >= state.commands.len() {
        assert(rest =~= Seq::<ActionView>::empty());
        assert(written_reports(rest) =~= Seq::<Seq<u8>>::empty());
        assert(written_reports(actions) =~= Seq::<Seq<u8>>::empty());
    } else {
        assert(next.phase == Phase::Writing { index: turned_to as usize });
        lemma_successful_run_writes_every_report(next, outcomes.drop_first());
        assert(leading_reports(state.commands, turned_to) =~= seq![action->report]
            + leading_reports(state.commands, turned_to + 1));
        assert(written_reports(actions) =~= seq![action->report] + written_reports(rest));
        assert(actions.last() == rest.last());
    }
}

} // verus!
