use tunshare::error::TunshareError;
use tunshare::sequence::{
    start_begin, start_step, StartAction, StartEvent, StartStage, StopAction, StopSequence,
    StopStage,
};

fn firewall_error() -> TunshareError {
    TunshareError::FirewallError("pfctl: syntax error".to_string())
}

#[test]
fn start_enables_forwarding_then_loads_rules() {
    let (stage, action) = start_begin();
    assert_eq!(action, StartAction::EnableForwarding);
    let (stage, action) = start_step(stage, StartEvent::ForwardingEnabled(Ok(())));
    assert_eq!(stage, StartStage::LoadingRules);
    assert_eq!(action, StartAction::LoadRules);
    let (stage, action) = start_step(stage, StartEvent::RulesLoaded(Ok(())));
    assert_eq!(stage, StartStage::Finished);
    assert_eq!(action, StartAction::Report(Ok(())));
}

#[test]
fn start_rolls_forwarding_back_before_it_reports_a_rule_failure() {
    let (stage, _) = start_begin();
    let (stage, _) = start_step(stage, StartEvent::ForwardingEnabled(Ok(())));
    let (stage, action) = start_step(stage, StartEvent::RulesLoaded(Err(firewall_error())));
    assert_eq!(action, StartAction::RestoreForwarding);
    assert_eq!(stage, StartStage::RollingBack(firewall_error()));
    let (stage, action) = start_step(stage, StartEvent::ForwardingRestored);
    assert_eq!(action, StartAction::Report(Err(firewall_error())));
    assert_eq!(stage, StartStage::Finished);
}

#[test]
fn start_reports_a_forwarding_failure_at_once() {
    let (stage, _) = start_begin();
    let (stage, action) =
        start_step(stage, StartEvent::ForwardingEnabled(Err(TunshareError::PermissionDenied)));
    assert_eq!(action, StartAction::Report(Err(TunshareError::PermissionDenied)));
    assert_eq!(stage, StartStage::Finished);
}

fn start_timeout() -> TunshareError {
    TunshareError::FirewallError("starting sharing timed out".to_string())
}

#[test]
fn start_deadline_rolls_forwarding_back_before_it_reports() {
    // The rule load runs past its deadline after forwarding was enabled.
    let (stage, _) = start_begin();
    let (stage, _) = start_step(stage, StartEvent::ForwardingEnabled(Ok(())));
    let (stage, action) = start_step(stage, StartEvent::DeadlineExceeded);
    assert_eq!(action, StartAction::RestoreForwarding);
    assert_eq!(stage, StartStage::RollingBack(start_timeout()));
    let (stage, action) = start_step(stage, StartEvent::ForwardingRestored);
    assert_eq!(action, StartAction::Report(Err(start_timeout())));
    assert_eq!(stage, StartStage::Finished);

    // Enabling forwarding runs past its deadline.
    assert_eq!(
        start_step(StartStage::EnablingForwarding, StartEvent::DeadlineExceeded),
        (StartStage::RollingBack(start_timeout()), StartAction::RestoreForwarding)
    );
}

#[test]
fn start_deadline_during_the_rollback_reports_what_caused_it() {
    assert_eq!(
        start_step(StartStage::RollingBack(firewall_error()), StartEvent::DeadlineExceeded),
        (StartStage::Finished, StartAction::Report(Err(firewall_error())))
    );
    assert_eq!(
        start_step(StartStage::RollingBack(start_timeout()), StartEvent::DeadlineExceeded),
        (StartStage::Finished, StartAction::Report(Err(start_timeout())))
    );
    assert_eq!(
        start_step(StartStage::Finished, StartEvent::DeadlineExceeded),
        (StartStage::Finished, StartAction::Ignore)
    );
}

#[test]
fn start_ignores_events_of_another_stage() {
    assert_eq!(
        start_step(StartStage::EnablingForwarding, StartEvent::RulesLoaded(Ok(()))),
        (StartStage::EnablingForwarding, StartAction::Ignore)
    );
    assert_eq!(
        start_step(StartStage::LoadingRules, StartEvent::ForwardingRestored),
        (StartStage::LoadingRules, StartAction::Ignore)
    );
    assert_eq!(
        start_step(StartStage::RollingBack(firewall_error()), StartEvent::RulesLoaded(Ok(()))),
        (StartStage::RollingBack(firewall_error()), StartAction::Ignore)
    );
    assert_eq!(
        start_step(StartStage::Finished, StartEvent::ForwardingEnabled(Ok(()))),
        (StartStage::Finished, StartAction::Ignore)
    );
}

#[test]
fn stop_runs_all_four_stages_in_order() {
    let (mut stop, action) = StopSequence::begin(true, true);
    assert_eq!(action, StopAction::StopNatPmp);
    assert_eq!(stop.step(Ok(())), StopAction::StopDhcp);
    assert_eq!(stop.step(Ok(())), StopAction::CleanupFirewall);
    assert_eq!(stop.step(Ok(())), StopAction::RestoreForwarding);
    assert_eq!(stop.step(Ok(())), StopAction::Report(Ok(())));
    assert_eq!(stop.stage, StopStage::Finished);
    assert_eq!(stop.step(Ok(())), StopAction::Ignore);
}

#[test]
fn stop_skips_services_that_do_not_run() {
    let (mut stop, action) = StopSequence::begin(false, false);
    assert_eq!(action, StopAction::CleanupFirewall);
    assert_eq!(stop.step(Ok(())), StopAction::RestoreForwarding);
    assert_eq!(stop.step(Ok(())), StopAction::Report(Ok(())));

    let (mut stop, action) = StopSequence::begin(false, true);
    assert_eq!(action, StopAction::StopDhcp);
    assert_eq!(stop.step(Ok(())), StopAction::CleanupFirewall);

    let (mut stop, action) = StopSequence::begin(true, false);
    assert_eq!(action, StopAction::StopNatPmp);
    assert_eq!(stop.step(Ok(())), StopAction::CleanupFirewall);
}

#[test]
fn stop_collects_every_error_and_joins_them() {
    let (mut stop, _) = StopSequence::begin(true, true);
    let failed = |what: &str| {
        Err(TunshareError::CommandFailed { command: what.to_string(), message: "boom".to_string() })
    };
    assert_eq!(stop.step(failed("pfctl -a natpmp")), StopAction::StopDhcp);
    assert_eq!(stop.step(failed("dnsmasq")), StopAction::CleanupFirewall);
    assert_eq!(stop.step(Err(firewall_error())), StopAction::RestoreForwarding);
    assert_eq!(
        stop.step(Err(TunshareError::PermissionDenied)),
        StopAction::Report(Err(TunshareError::FirewallError(
            "NAT-PMP cleanup: Command failed: pfctl -a natpmp - boom; \
             DHCP cleanup: Command failed: dnsmasq - boom; \
             Firewall cleanup: Firewall error: pfctl: syntax error; \
             IP forwarding: Permission denied. Run with sudo."
                .to_string()
        )))
    );
}

#[test]
fn stop_with_one_error_reports_it_alone() {
    let (mut stop, _) = StopSequence::begin(false, false);
    assert_eq!(stop.step(Ok(())), StopAction::RestoreForwarding);
    assert_eq!(
        stop.step(Err(TunshareError::ParseError("x".to_string()))),
        StopAction::Report(Err(TunshareError::FirewallError(
            "IP forwarding: Failed to parse output: x".to_string()
        )))
    );
}

#[test]
fn stop_deadline_is_a_firewall_error() {
    let (mut stop, _) = StopSequence::begin(true, true);
    stop.step(Ok(()));
    assert_eq!(
        stop.deadline_exceeded(),
        StopAction::Report(Err(TunshareError::FirewallError(
            "stopping sharing timed out".to_string()
        )))
    );
    assert_eq!(stop.stage, StopStage::Finished);
    assert_eq!(stop.deadline_exceeded(), StopAction::Ignore);
}

#[test]
fn error_messages() {
    assert_eq!(
        TunshareError::CommandFailed { command: "ls".to_string(), message: "no".to_string() }
            .message(),
        "Command failed: ls - no"
    );
    assert_eq!(
        TunshareError::NoVpnInterfaces.message(),
        "No VPN interfaces found. Is your VPN connected?"
    );
    assert_eq!(TunshareError::NoLanInterfaces.message(), "No LAN interfaces found");
    assert_eq!(TunshareError::PermissionDenied.message(), "Permission denied. Run with sudo.");
    assert_eq!(
        TunshareError::ParseError("junk".to_string()).message(),
        "Failed to parse output: junk"
    );
    assert_eq!(TunshareError::FirewallError("bad".to_string()).message(), "Firewall error: bad");
    assert_eq!(TunshareError::Io("gone".to_string()).message(), "IO error: gone");
    assert_eq!(
        TunshareError::timed_out("start_dhcp"),
        TunshareError::CommandFailed {
            command: "start_dhcp".to_string(),
            message: "operation timed out".to_string()
        }
    );
    let e = TunshareError::Io("gone".to_string());
    assert_eq!(e.clone(), e);
}
