use better_tor::status::{
    state_of_listing, AnonymizationState, Directive, HelperInvocation, LaunchError,
};
use better_tor::toggle::{
    ToggleCommand, ToggleController, ToggleError, ToggleEvent, TogglePhase, MESSAGE_EXCERPT_CHARS,
};

const PORT: u16 = 9040;

fn run(directive: Directive, ok: bool, stdout: &str, stderr: &str) -> Result<HelperInvocation, LaunchError> {
    Ok(HelperInvocation {
        directive,
        exit_success: ok,
        stdout: stdout.to_string(),
        stderr: stderr.to_string(),
    })
}

fn table(active: bool) -> Result<HelperInvocation, LaunchError> {
    let text = if active { "-A OUTPUT -p tcp -j REDIRECT --to-ports 9040\n" } else { "-P OUTPUT ACCEPT\n" };
    run(Directive::Probe, true, text, "")
}

#[test]
fn toggle_reports_the_state_read_afterwards() {
    let mut c = ToggleController::new(PORT);
    for active in [true, false, true, true] {
        let s = c.step(ToggleEvent::Requested);
        assert_eq!(s.command, ToggleCommand::RunToggle);
        assert!(s.outcome.is_none());
        let s = c.step(ToggleEvent::HelperFinished(run(Directive::Toggle, true, "", "")));
        assert_eq!(s.command, ToggleCommand::ListTable);
        let s = c.step(ToggleEvent::TableListed(table(active)));
        assert_eq!(s.command, ToggleCommand::Nothing);
        let got = s.outcome.unwrap().unwrap();
        assert_eq!(got, state_of_listing(PORT, &table(active)));
        assert_eq!(got.is_active(), active);
        assert_eq!(c.phase, TogglePhase::Idle);
    }
}

#[test]
fn unreadable_table_after_toggle_reports_inactive() {
    let mut c = ToggleController::new(PORT);
    c.step(ToggleEvent::Requested);
    c.step(ToggleEvent::HelperFinished(run(Directive::Toggle, true, "", "")));
    let s = c.step(ToggleEvent::TableListed(Err(LaunchError::Execution("denied".to_string()))));
    assert_eq!(s.outcome.unwrap().unwrap(), AnonymizationState::Inactive);
}

#[test]
fn helper_failure_gives_helper_error() {
    let mut c = ToggleController::new(PORT);
    c.step(ToggleEvent::Requested);
    let s = c.step(ToggleEvent::HelperFinished(run(Directive::Toggle, false, "", "iptables: failed")));
    assert_eq!(s.command, ToggleCommand::Nothing);
    match s.outcome {
        Some(Err(ToggleError::HelperError(m))) => assert_eq!(m, "iptables: failed"),
        other => panic!("unexpected outcome {:?}", other),
    }
    assert_eq!(c.phase, TogglePhase::Idle);
    // A table listing that arrives now is not taken as a toggle result.
    let s = c.step(ToggleEvent::TableListed(table(true)));
    assert!(s.outcome.is_none());
    assert_eq!(s.command, ToggleCommand::Nothing);
}

#[test]
fn launch_failures_map_to_their_errors() {
    let mut c = ToggleController::new(PORT);
    c.step(ToggleEvent::Requested);
    let s = c.step(ToggleEvent::HelperFinished(Err(LaunchError::Staging("read-only".to_string()))));
    assert!(matches!(s.outcome, Some(Err(ToggleError::StagingError(_)))));
    c.step(ToggleEvent::Requested);
    let s = c.step(ToggleEvent::HelperFinished(Err(LaunchError::Execution("cancelled".to_string()))));
    assert!(matches!(s.outcome, Some(Err(ToggleError::ExecutionError(_)))));
}

#[test]
fn overlapping_requests_are_serialized() {
    let mut c = ToggleController::new(PORT);
    let mut running: u32 = 0;
    let mut max_running: u32 = 0;
    let mut count = |cmd: ToggleCommand, done: bool, running: &mut u32, max: &mut u32| {
        if done {
            *running -= 1;
        }
        if cmd == ToggleCommand::RunToggle {
            *running += 1;
        }
        if *running > *max {
            *max = *running;
        }
    };
    let s = c.step(ToggleEvent::Requested);
    count(s.command, s.outcome.is_some(), &mut running, &mut max_running);
    let s = c.step(ToggleEvent::Requested);
    assert_eq!(s.command, ToggleCommand::Nothing);
    count(s.command, s.outcome.is_some(), &mut running, &mut max_running);
    assert_eq!(c.waiting, 1);
    let s = c.step(ToggleEvent::HelperFinished(run(Directive::Toggle, true, "", "")));
    count(s.command, s.outcome.is_some(), &mut running, &mut max_running);
    let s = c.step(ToggleEvent::Requested);
    assert_eq!(s.command, ToggleCommand::Nothing);
    count(s.command, s.outcome.is_some(), &mut running, &mut max_running);
    let s = c.step(ToggleEvent::TableListed(table(true)));
    assert_eq!(s.command, ToggleCommand::RunToggle);
    assert_eq!(s.outcome.as_ref().unwrap().as_ref().unwrap(), &AnonymizationState::Active);
    count(s.command, s.outcome.is_some(), &mut running, &mut max_running);
    let s = c.step(ToggleEvent::HelperFinished(run(Directive::Toggle, true, "", "")));
    count(s.command, s.outcome.is_some(), &mut running, &mut max_running);
    let s = c.step(ToggleEvent::TableListed(table(false)));
    assert_eq!(s.command, ToggleCommand::RunToggle);
    assert_eq!(s.outcome.as_ref().unwrap().as_ref().unwrap(), &AnonymizationState::Inactive);
    count(s.command, s.outcome.is_some(), &mut running, &mut max_running);
    let s = c.step(ToggleEvent::HelperFinished(run(Directive::Toggle, false, "", "boom")));
    count(s.command, s.outcome.is_some(), &mut running, &mut max_running);
    assert_eq!(s.command, ToggleCommand::Nothing);
    assert_eq!(c.phase, TogglePhase::Idle);
    assert_eq!(running, 0);
    assert_eq!(max_running, 1);
}

#[test]
fn events_out_of_phase_are_ignored() {
    let mut c = ToggleController::new(PORT);
    let s = c.step(ToggleEvent::HelperFinished(run(Directive::Toggle, true, "", "")));
    assert!(s.outcome.is_none());
    assert_eq!(s.command, ToggleCommand::Nothing);
    assert_eq!(c.phase, TogglePhase::Idle);
}

#[test]
fn error_messages_and_excerpt() {
    let e = ToggleError::HelperError("bad".to_string());
    assert_eq!(e.message(), "Command failed: bad");
    assert_eq!(e.short_message(), "Command failed: bad");
    let e = ToggleError::ExecutionError("x".to_string());
    assert_eq!(e.message(), "Failed to execute command: x");
    let e = ToggleError::StagingError("y".to_string());
    assert_eq!(e.message(), "Helper unavailable: y");
    let long = "é".repeat(300);
    let e = ToggleError::HelperError(long.clone());
    assert_eq!(e.message().chars().count(), 316);
    let short = e.short_message();
    assert_eq!(short.chars().count(), MESSAGE_EXCERPT_CHARS);
    assert!(short.starts_with("Command failed: éé"));
}
