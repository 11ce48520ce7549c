use vstd::prelude::*;
use crate::status::{
    listing_state, state_of_listing, AnonymizationState, HelperInvocation, LaunchError,
};
use crate::text::char_prefix;

verus! {

/// How many characters of an error message are meant for display.
pub const MESSAGE_EXCERPT_CHARS: usize = 100;

/// Why a toggle did not complete.
#[derive(Debug)]
pub enum ToggleError {
    /// The helper artifact is not available.
    StagingError(String),
    /// The helper could not be run, e.g. the privilege prompt was cancelled.
    ExecutionError(String),
    /// The helper ran and reported failure; holds its error stream.
    HelperError(String),
}

/// The full text of a toggle error.
pub open spec fn error_text(e: ToggleError) -> Seq<char> {
    match e {
        ToggleError::StagingError(m) => "Helper unavailable: "@ + m@,
        ToggleError::ExecutionError(m) => "Failed to execute command: "@ + m@,
        ToggleError::HelperError(m) => "Command failed: "@ + m@,
    }
}

impl ToggleError {
    /// The full text of the error, for diagnostics.
    pub fn message(&self) -> (r: String)
        ensures
            r@ == error_text(*self),
    {
        let (lead, detail) = match self {
            ToggleError::StagingError(m) => ("Helper unavailable: ", m),
            ToggleError::ExecutionError(m) => ("Failed to execute command: ", m),
            ToggleError::HelperError(m) => ("Command failed: ", m),
        };
        let mut r = lead.to_string();
        r.append(detail.as_str());
        r
    }

    /// The bounded prefix of the message that is meant for display.
    pub fn short_message(&self) -> (r: String)
        ensures
            r@ == error_text(*self).take(
                if MESSAGE_EXCERPT_CHARS < error_text(*self).len() {
                    MESSAGE_EXCERPT_CHARS as int
                } else {
                    error_text(*self).len() as int
                },
            ),
    {
        let full = self.message();
        char_prefix(full.as_str(), MESSAGE_EXCERPT_CHARS)
    }
}

/// Where the toggle in flight stands.
#[derive(Clone, Copy, Debug, PartialEq, Eq, Structural)]
pub enum TogglePhase {
    /// No toggle is in flight.
    Idle,
    /// The helper has been asked to toggle and has not finished.
    Toggling,
    /// The helper finished; the live table is being listed.
    Reading,
}

/// The single in-flight gate for toggles against one target. Requests that
/// come while a toggle is in flight wait, and each runs only once the one
/// before it has completed.
#[derive(Clone, Copy, Debug)]
pub struct ToggleController {
    /// The transparent-proxy port whose redirect rule means `Active`.
    pub port: u16,
    pub phase: TogglePhase,
    /// Requests waiting for the toggle in flight to complete.
    pub waiting: u32,
}

/// What the caller reports to the controller.
#[derive(Debug)]
pub enum ToggleEvent {
    /// A toggle was asked for.
    Requested,
    /// The helper, run with the toggle directive, has finished.
    HelperFinished(Result<HelperInvocation, LaunchError>),
    /// The live NAT table has been listed.
    TableListed(Result<HelperInvocation, LaunchError>),
}

/// What the caller must do next.
#[derive(Clone, Copy, Debug, PartialEq, Eq, Structural)]
pub enum ToggleCommand {
    /// Run the helper with the toggle directive.
    RunToggle,
    /// List the live NAT table.
    ListTable,
    /// Nothing until the next event.
    Nothing,
}

/// The answer of the controller to one event.
#[derive(Debug)]
pub struct ToggleStep {
    /// The outcome of a toggle that completed with this event.
    pub outcome: Option<Result<AnonymizationState, ToggleError>>,
    pub command: ToggleCommand,
}

/// A toggle completes with `outcome`: the next waiting request, if any, starts.
pub open spec fn complete(c: ToggleController, outcome: Result<AnonymizationState, ToggleError>) -> (ToggleController, ToggleStep) {
    if c.waiting > 0 {
        (
            ToggleController { phase: TogglePhase::Toggling, waiting: (c.waiting - 1) as u32, ..c },
            ToggleStep { outcome: Some(outcome), command: ToggleCommand::RunToggle },
        )
    } else {
        (
            ToggleController { phase: TogglePhase::Idle, ..c },
            ToggleStep { outcome: Some(outcome), command: ToggleCommand::Nothing },
        )
    }
}

/// The event is of no use in this phase and changes nothing.
pub open spec fn ignore(c: ToggleController) -> (ToggleController, ToggleStep) {
    (c, ToggleStep { outcome: None, command: ToggleCommand::Nothing })
}

/// The controller's answer to event `e` in state `c`.
pub open spec fn toggle_next(c: ToggleController, e: ToggleEvent) -> (ToggleController, ToggleStep) {
    match e {
        ToggleEvent::Requested => if c.phase == TogglePhase::Idle {
            (
                ToggleController { phase: TogglePhase::Toggling, ..c },
                ToggleStep { outcome: None, command: ToggleCommand::RunToggle },
            )
        } else if c.waiting < u32::MAX {
            (
                ToggleController { waiting: (c.waiting + 1) as u32, ..c },
                ToggleStep { outcome: None, command: ToggleCommand::Nothing },
            )
        } else {
            ignore(c)
        },
        ToggleEvent::HelperFinished(run) => if c.phase == TogglePhase::Toggling {
            match run {
                Ok(inv) => if inv.exit_success {
                    (
                        ToggleController { phase: TogglePhase::Reading, ..c },
                        ToggleStep { outcome: None, command: ToggleCommand::ListTable },
                    )
                } else {
                    complete(c, Err(ToggleError::HelperError(inv.stderr)))
                },
                Err(LaunchError::Staging(m)) => complete(c, Err(ToggleError::StagingError(m))),
                Err(LaunchError::Execution(m)) => complete(c, Err(ToggleError::ExecutionError(m))),
            }
        } else {
            ignore(c)
        },
        ToggleEvent::TableListed(listing) => if c.phase == TogglePhase::Reading {
            complete(c, Ok(listing_state(c.port, listing)))
        } else {
            ignore(c)
        },
    }
}

impl ToggleController {
    /// A controller with no toggle in flight, for the redirect rule to `port`.
    pub fn new(port: u16) -> (r: ToggleController)
        ensures
            r.port == port,
            r.phase == TogglePhase::Idle,
            r.waiting == 0,
    {
        ToggleController { port, phase: TogglePhase::Idle, waiting: 0 }
    }

    fn complete(&mut self, outcome: Result<AnonymizationState, ToggleError>) -> (r: ToggleStep)
        ensures
            (*final(self), r) == complete(*old(self), outcome),
    {
        if self.waiting > 0 {
            self.phase = TogglePhase::Toggling;
            self.waiting = self.waiting - 1;
            ToggleStep { outcome: Some(outcome), command: ToggleCommand::RunToggle }
        } else {
            self.phase = TogglePhase::Idle;
            ToggleStep { outcome: Some(outcome), command: ToggleCommand::Nothing }
        }
    }

    /// Takes one event and says what to do next.
    pub fn step(&mut self, e: ToggleEvent) -> (r: ToggleStep)
        ensures
            (*final(self), r) == toggle_next(*old(self), e),
    {
        let nothing = ToggleStep { outcome: None, command: ToggleCommand::Nothing };
        match e {
            ToggleEvent::Requested => {
                if self.phase == TogglePhase::Idle {
                    self.phase = TogglePhase::Toggling;
                    ToggleStep { outcome: None, command: ToggleCommand::RunToggle }
                } else if self.waiting < u32::MAX {
                    self.waiting = self.waiting + 1;
                    nothing
                } else {
                    nothing
                }
            },
            ToggleEvent::HelperFinished(run) => {
                if self.phase == TogglePhase::Toggling {
                    match run {
                        Ok(inv) => {
                            if inv.exit_success {
                                self.phase = TogglePhase::Reading;
                                ToggleStep { outcome: None, command: ToggleCommand::ListTable }
                            } else {
                                self.complete(Err(ToggleError::HelperError(inv.stderr)))
                            }
                        },
                        Err(LaunchError::Staging(m)) => self.complete(
                            Err(ToggleError::StagingError(m)),
                        ),
                        Err(LaunchError::Execution(m)) => self.complete(
                            Err(ToggleError::ExecutionError(m)),
                        ),
                    }
                } else {
                    nothing
                }
            },
            ToggleEvent::TableListed(listing) => {
                if self.phase == TogglePhase::Reading {
                    let state = state_of_listing(self.port, &listing);
                    self.complete(Ok(state))
                } else {
                    nothing
                }
            },
        }
    }
}

/// Every state that a toggle reports as its outcome is the state that
/// inspecting the table listing taken after the helper finished reports: a
/// toggle never infers the new state from the old one.
pub proof fn toggle_outcome_is_inspected_state(c: ToggleController, e: ToggleEvent, s: AnonymizationState)
    requires
        toggle_next(c, e).1.outcome == Some(Ok::<AnonymizationState, ToggleError>(s)),
    ensures
        c.phase == TogglePhase::Reading,
        e matches ToggleEvent::TableListed(listing) && s == listing_state(c.port, listing),
{
}

/// A helper that runs and exits with failure gives `HelperError` with its
/// error stream; no state is reported, the table is not read, and the toggle
/// is not attempted again unless another request was waiting.
pub proof fn failed_helper_reports_error(c: ToggleController, inv: HelperInvocation)
    requires
        c.phase == TogglePhase::Toggling,
        !inv.exit_success,
    ensures
        ({
            let (n, st) = toggle_next(c, ToggleEvent::HelperFinished(Ok(inv)));
            &&& st.outcome == Some(Err::<AnonymizationState, ToggleError>(ToggleError::HelperError(inv.stderr)))
            &&& st.command != ToggleCommand::ListTable
            &&& (c.waiting == 0 ==> st.command == ToggleCommand::Nothing && n.phase == TogglePhase::Idle)
        }),
{
}

/// The helper is asked to toggle only when no toggle is in flight, or when
/// the one in flight completes with the same event; afterwards exactly one
/// toggle is in flight. Two toggles never overlap.
pub proof fn toggles_never_overlap(c: ToggleController, e: ToggleEvent)
    ensures
        toggle_next(c, e).1.command == ToggleCommand::RunToggle ==> {
            &&& (c.phase == TogglePhase::Idle || toggle_next(c, e).1.outcome is Some)
            &&& toggle_next(c, e).0.phase == TogglePhase::Toggling
        },
        c.phase != TogglePhase::Idle && toggle_next(c, e).1.outcome is None
            ==> toggle_next(c, e).1.command != ToggleCommand::RunToggle,
{
}

} // verus!
