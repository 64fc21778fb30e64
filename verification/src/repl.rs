//! The read-eval-print driver as a state machine. Each read event — a line,
//! an interrupt, the end of input, or a read fault — is dispatched into the
//! next state and the action the loop must perform; each query outcome
//! returns the loop to awaiting input. Failure isolation is the central
//! contract: no query outcome can terminate the session, and nothing the
//! loop does can shrink the table registry.
use vstd::prelude::*;

use crate::command::{classify, is_exit_text, Command, MetaCommand};
use crate::render::{
    display_error_line, end_of_input_ack, help_lines, help_text, interrupt_ack, query_error_line,
    read_fault_line, render_display_error, render_query_error, render_read_fault,
    render_unknown_command, table_listing, table_listing_lines, unknown_command_line,
};
use crate::session::Session;
use crate::startup::StartupError;
use crate::text::{ascii_case_eq, trimmed};

verus! {

/// Why the loop ended. Every one of these is a graceful termination; none is
/// a crash.
#[derive(Clone, Copy, Debug, PartialEq, Eq)]
pub enum Termination {
    UserExit,
    Interrupted,
    EndOfInput,
    ReadFault,
}

/// The driver's states: awaiting the next line, executing a submitted
/// query, or terminated. Dispatching a received line happens atomically
/// inside one step, so no state is devoted to it.
#[derive(Clone, Copy, Debug, PartialEq, Eq)]
pub enum ReplState {
    AwaitingInput,
    Executing,
    Terminated(Termination),
}

/// What the reader handed the loop: a line, or one of the three ways a read
/// can end the session. A read fault carries the reader's own message.
#[derive(Debug, PartialEq, Eq)]
pub enum ReplEvent {
    Line(String),
    Interrupted,
    EndOfInput,
    ReadFault(String),
}

/// What the loop must do after a read event: nothing, print the given lines,
/// or record the query into history and submit it to the engine.
#[derive(Debug, PartialEq, Eq)]
pub enum ReplAction {
    Quiet,
    Print(Vec<String>),
    SubmitQuery(String),
}

/// How a submitted query came back: a result the engine displayed, a result
/// whose display failed, or a rejection. The messages are the engine's own.
#[derive(Debug, PartialEq, Eq)]
pub enum QueryOutcome {
    Displayed,
    DisplayFailed(String),
    Rejected(String),
}

/// Query text: a non-blank line that is neither a prefixed meta-command nor
/// a bare exit keyword.
pub open spec fn is_query_text(t: Seq<char>) -> bool {
    t.len() > 0 && t[0] != '.' && !ascii_case_eq(t, "exit"@) && !ascii_case_eq(t, "quit"@)
}

/// The state one trimmed line drives the loop into: terminated by an exit
/// directive, executing for query text, and awaiting input again otherwise.
pub open spec fn state_after_line(t: Seq<char>) -> ReplState {
    if t.len() == 0 {
        ReplState::AwaitingInput
    } else if t[0] == '.' {
        if t == ".exit"@ || t == ".quit"@ {
            ReplState::Terminated(Termination::UserExit)
        } else {
            ReplState::AwaitingInput
        }
    } else if ascii_case_eq(t, "exit"@) || ascii_case_eq(t, "quit"@) {
        ReplState::Terminated(Termination::UserExit)
    } else {
        ReplState::Executing
    }
}

/// The state a read event drives the loop into.
pub open spec fn state_after_read(e: ReplEvent) -> ReplState {
    match e {
        ReplEvent::Line(l) => state_after_line(trimmed(l@)),
        ReplEvent::Interrupted => ReplState::Terminated(Termination::Interrupted),
        ReplEvent::EndOfInput => ReplState::Terminated(Termination::EndOfInput),
        ReplEvent::ReadFault(_) => ReplState::Terminated(Termination::ReadFault),
    }
}

/// The state any query outcome returns the loop to: awaiting input, always.
pub open spec fn state_after_outcome(o: QueryOutcome) -> ReplState {
    ReplState::AwaitingInput
}

/// The action owed for one trimmed line, against the given registry: silence
/// for blank lines and exit directives, the owed lines for meta-commands,
/// and the verbatim submission for query text.
pub open spec fn read_step(t: Seq<char>, registry: Seq<Seq<char>>, action: ReplAction) -> bool {
    if t.len() == 0 {
        action is Quiet
    } else if t[0] == '.' {
        if t == ".exit"@ || t == ".quit"@ {
            action is Quiet
        } else if t == ".help"@ {
            action matches ReplAction::Print(ls) && ls.deep_view() == help_text()
        } else if t == ".tables"@ {
            action matches ReplAction::Print(ls) && ls.deep_view() == table_listing(registry)
        } else {
            action matches ReplAction::Print(ls) && ls.deep_view() == seq![
                unknown_command_line(t),
            ]
        }
    } else if ascii_case_eq(t, "exit"@) || ascii_case_eq(t, "quit"@) {
        action is Quiet
    } else {
        action matches ReplAction::SubmitQuery(q) && q@ == t
    }
}

/// The lines owed for one query outcome: nothing for a displayed result, and
/// one marker line for a display failure or a rejection. A rejection is
/// rendered, never propagated.
pub open spec fn outcome_report(o: QueryOutcome) -> Seq<Seq<char>> {
    match o {
        QueryOutcome::Displayed => Seq::<Seq<char>>::empty(),
        QueryOutcome::DisplayFailed(m) => seq![display_error_line(m@)],
        QueryOutcome::Rejected(m) => seq![query_error_line(m@)],
    }
}

/// The driver: the loop's state beside the session whose registry the
/// meta-commands read. The loop around it reads lines, performs the actions
/// this driver returns, and stops once the state is terminated.
pub struct ReplDriver {
    state: ReplState,
    session: Session,
}

impl ReplDriver {
    /// The driver's current state.
    pub closed spec fn current_state(self) -> ReplState {
        self.state
    }

    /// The registry of the session the driver owns.
    pub closed spec fn registry(self) -> Seq<Seq<char>> {
        self.session.registry()
    }

    /// A fresh driver over the given session, awaiting its first line.
    pub fn new(session: Session) -> (d: ReplDriver)
        ensures
            d.current_state() is AwaitingInput,
            d.registry() == session.registry(),
    {
        ReplDriver { state: ReplState::AwaitingInput, session }
    }

    /// The current state, for the loop to decide whether to keep reading.
    pub fn current(&self) -> (r: ReplState)
        ensures
            r == self.current_state(),
    {
        self.state
    }

    /// The registered table names, in registration order.
    pub fn registered_tables(&self) -> (r: &Vec<String>)
        ensures
            r.deep_view() == self.registry(),
    {
        self.session.table_names()
    }

    /// Dispatches one read event: the state moves as the event dictates, the
    /// returned action is exactly what the loop owes for it, and the
    /// registry is untouched.
    pub fn on_read(&mut self, event: ReplEvent) -> (action: ReplAction)
        requires
            old(self).current_state() is AwaitingInput,
        ensures
            final(self).registry() == old(self).registry(),
            final(self).current_state() == state_after_read(event),
            match event {
                ReplEvent::Line(l) => read_step(trimmed(l@), old(self).registry(), action),
                ReplEvent::Interrupted => action matches ReplAction::Print(ls) && ls.deep_view()
                    == seq!["CTRL-C"@],
                ReplEvent::EndOfInput => action matches ReplAction::Print(ls) && ls.deep_view()
                    == seq!["CTRL-D"@],
                ReplEvent::ReadFault(m) => action matches ReplAction::Print(ls) && ls.deep_view()
                    == seq![read_fault_line(m@)],
            },
    {
        match event {
            ReplEvent::Line(l) => {
                let c = classify(l.as_str());
                match c {
                    Command::Blank => ReplAction::Quiet,
                    Command::ExitDirective => {
                        self.state = ReplState::Terminated(Termination::UserExit);
                        ReplAction::Quiet
                    },
                    Command::Meta(MetaCommand::Help) => ReplAction::Print(help_lines()),
                    Command::Meta(MetaCommand::Tables) => {
                        ReplAction::Print(table_listing_lines(self.session.table_names()))
                    },
                    Command::Meta(MetaCommand::Unknown(raw)) => {
                        let mut lines: Vec<String> = Vec::new();
                        lines.push(render_unknown_command(raw.as_str()));
                        proof {
                            assert(lines.deep_view() =~= seq![
                                unknown_command_line(trimmed(l@)),
                            ]);
                        }
                        ReplAction::Print(lines)
                    },
                    Command::QueryText(q) => {
                        self.state = ReplState::Executing;
                        ReplAction::SubmitQuery(q)
                    },
                }
            },
            ReplEvent::Interrupted => {
                self.state = ReplState::Terminated(Termination::Interrupted);
                let mut lines: Vec<String> = Vec::new();
                lines.push(interrupt_ack());
                proof {
                    assert(lines.deep_view() =~= seq!["CTRL-C"@]);
                }
                ReplAction::Print(lines)
            },
            ReplEvent::EndOfInput => {
                self.state = ReplState::Terminated(Termination::EndOfInput);
                let mut lines: Vec<String> = Vec::new();
                lines.push(end_of_input_ack());
                proof {
                    assert(lines.deep_view() =~= seq!["CTRL-D"@]);
                }
                ReplAction::Print(lines)
            },
            ReplEvent::ReadFault(m) => {
                self.state = ReplState::Terminated(Termination::ReadFault);
                let mut lines: Vec<String> = Vec::new();
                lines.push(render_read_fault(m.as_str()));
                proof {
                    assert(lines.deep_view() =~= seq![read_fault_line(m@)]);
                }
                ReplAction::Print(lines)
            },
        }
    }

    /// Takes one query outcome back: the owed report lines are returned, the
    /// loop returns to awaiting input whatever the outcome was, and the
    /// registry is untouched — a failed query is isolated to its own cycle.
    pub fn on_outcome(&mut self, outcome: QueryOutcome) -> (lines: Vec<String>)
        requires
            old(self).current_state() is Executing,
        ensures
            final(self).registry() == old(self).registry(),
            final(self).current_state() == state_after_outcome(outcome),
            final(self).current_state() is AwaitingInput,
            lines.deep_view() == outcome_report(outcome),
    {
        self.state = ReplState::AwaitingInput;
        match outcome {
            QueryOutcome::Displayed => {
                let lines: Vec<String> = Vec::new();
                proof {
                    assert(lines.deep_view() =~= Seq::<Seq<char>>::empty());
                }
                lines
            },
            QueryOutcome::DisplayFailed(m) => {
                let mut lines: Vec<String> = Vec::new();
                lines.push(render_display_error(m.as_str()));
                proof {
                    assert(lines.deep_view() =~= seq![display_error_line(m@)]);
                }
                lines
            },
            QueryOutcome::Rejected(m) => {
                let mut lines: Vec<String> = Vec::new();
                lines.push(render_query_error(m.as_str()));
                proof {
                    assert(lines.deep_view() =~= seq![query_error_line(m@)]);
                }
                lines
            },
        }
    }
}

/// How one whole run ended: the loop terminated, or startup failed before
/// the loop ever started.
#[derive(Debug, PartialEq, Eq)]
pub enum RunOutcome {
    LoopEnded(Termination),
    StartupFailed(StartupError),
}

/// The process outcome a run ends with: success for every loop termination,
/// failure only for a startup failure.
pub open spec fn exit_code_of(o: RunOutcome) -> int {
    match o {
        RunOutcome::LoopEnded(_) => 0,
        RunOutcome::StartupFailed(_) => 1,
    }
}

/// The exit code for a finished run: zero exactly when the loop was reached
/// and ended, however it ended.
pub fn process_exit_code(o: &RunOutcome) -> (r: u8)
    ensures
        r as int == exit_code_of(*o),
        r == 0 <==> *o matches RunOutcome::LoopEnded(_),
{
    match o {
        RunOutcome::LoopEnded(_) => 0,
        RunOutcome::StartupFailed(_) => 1,
    }
}

/// Submitting query text never ends the session: a query line drives the
/// loop into the executing state, and every outcome — a rejection included —
/// returns it to awaiting input, where the next line is dispatched by its
/// own text alone.
pub proof fn lemma_query_failure_isolated(t: Seq<char>, o: QueryOutcome)
    requires
        is_query_text(t),
    ensures
        state_after_line(t) is Executing,
        state_after_outcome(o) is AwaitingInput,
{
}

/// Every exit directive — prefixed or bare, in any ASCII letter case — ends
/// the loop as a user exit, and a loop ended in any way yields the success
/// exit code.
pub proof fn lemma_exit_directive_success(t: Seq<char>, term: Termination)
    requires
        is_exit_text(t),
    ensures
        state_after_line(t) == ReplState::Terminated(Termination::UserExit),
        exit_code_of(RunOutcome::LoopEnded(term)) == 0,
{
    reveal_strlit(".exit");
    reveal_strlit(".quit");
    reveal_strlit("exit");
    reveal_strlit("quit");
    if t == ".exit"@ || t == ".quit"@ {
        assert(t[0] == '.');
    } else {
        assert(ascii_case_eq(t, "exit"@) || ascii_case_eq(t, "quit"@));
        assert(t.len() == 4);
        if t[0] == '.' {
            assert(false);
        }
    }
}

} // verus!
