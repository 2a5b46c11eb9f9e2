//! The order of the steps that start and stop sharing.
//!
//! Each sequence is a state machine. Its holder carries out the action it
//! names, on the operating system, and reports back what came of it; the
//! machine says what comes next. The machine touches nothing itself.

use crate::error::TunshareError;
use crate::text::{join, join_strings, texts};
use vstd::prelude::*;

verus! {

/// Where the start sequence stands.
#[derive(Debug, PartialEq, Eq)]
pub enum StartStage {
    /// IP forwarding is being enabled.
    EnablingForwarding,
    /// The firewall rules are being loaded.
    LoadingRules,
    /// The start failed with this error after forwarding was touched:
    /// the rules failed to load, or a stage ran past its deadline.
    /// Forwarding is being set back to its saved original value.
    RollingBack(TunshareError),
    /// The result has been reported.
    Finished,
}

/// What the holder of the start sequence reports back.
#[derive(Debug, PartialEq, Eq)]
pub enum StartEvent {
    /// Enabling IP forwarding ended like this.
    ForwardingEnabled(Result<(), TunshareError>),
    /// Loading the firewall rules ended like this.
    RulesLoaded(Result<(), TunshareError>),
    /// Forwarding was set back, or the attempt failed: the rollback is
    /// over either way.
    ForwardingRestored,
    /// The stage that is being carried out has run past its deadline.
    DeadlineExceeded,
}

/// What the holder of the start sequence does next.
#[derive(Debug, PartialEq, Eq)]
pub enum StartAction {
    /// Save the original state of IP forwarding and switch it on.
    EnableForwarding,
    /// Load the firewall rules.
    LoadRules,
    /// Set IP forwarding back to its saved original value.
    RestoreForwarding,
    /// Hand this result back, with the handles.
    Report(Result<(), TunshareError>),
    /// Nothing: the event does not belong to the stage.
    Ignore,
}

/// Whether `error` is a firewall error with the text `detail`.
pub open spec fn is_firewall_error(error: TunshareError, detail: Seq<char>) -> bool {
    error matches TunshareError::FirewallError(text) && text@ == detail
}

/// Whether the start sequence, at `stage`, answers `event` by going to
/// `next` and asking for `action`.
///
/// Forwarding is enabled first and the rules are loaded second. If
/// enabling fails, its error is reported and nothing was changed. If the
/// rules fail to load, forwarding is set back before the firewall's error
/// is reported.
///
/// Every stage has its own deadline, and a stage that runs past it has
/// failed. Where that is the enabling or the loading, forwarding is set
/// back before a firewall error that tells of the deadline is reported:
/// the stage was cut short and may have switched forwarding on. Where it
/// is the rollback itself, the rollback is over, and the error that
/// caused it is reported.
pub open spec fn start_step_is(
    stage: StartStage,
    event: StartEvent,
    next: StartStage,
    action: StartAction,
) -> bool {
    match (stage, event) {
        (StartStage::Finished, _) => next == StartStage::Finished && action == StartAction::Ignore,
        (StartStage::EnablingForwarding, StartEvent::DeadlineExceeded)
        | (StartStage::LoadingRules, StartEvent::DeadlineExceeded) => {
            &&& next matches StartStage::RollingBack(error)
            &&& is_firewall_error(error, "starting sharing timed out"@)
            &&& action == StartAction::RestoreForwarding
        },
        (StartStage::RollingBack(error), StartEvent::DeadlineExceeded) => {
            next == StartStage::Finished && action == StartAction::Report(Err(error))
        },
        (StartStage::EnablingForwarding, StartEvent::ForwardingEnabled(Ok(_))) => {
            next == StartStage::LoadingRules && action == StartAction::LoadRules
        },
        (StartStage::EnablingForwarding, StartEvent::ForwardingEnabled(Err(error))) => {
            next == StartStage::Finished && action == StartAction::Report(Err(error))
        },
        (StartStage::LoadingRules, StartEvent::RulesLoaded(Ok(_))) => {
            next == StartStage::Finished && action == StartAction::Report(Ok(()))
        },
        (StartStage::LoadingRules, StartEvent::RulesLoaded(Err(error))) => {
            next == StartStage::RollingBack(error) && action == StartAction::RestoreForwarding
        },
        (StartStage::RollingBack(error), StartEvent::ForwardingRestored) => {
            next == StartStage::Finished && action == StartAction::Report(Err(error))
        },
        _ => next == stage && action == StartAction::Ignore,
    }
}

/// The stage and the action with which the start sequence begins.
pub fn start_begin() -> (begin: (StartStage, StartAction))
    ensures
        begin.0 == StartStage::EnablingForwarding,
        begin.1 == StartAction::EnableForwarding,
{
    (StartStage::EnablingForwarding, StartAction::EnableForwarding)
}

/// The error of a stage of the start that ran past its deadline.
fn start_timeout() -> (error: TunshareError)
    ensures
        is_firewall_error(error, "starting sharing timed out"@),
{
    TunshareError::FirewallError(String::from_str("starting sharing timed out"))
}

/// Answers `event` at `stage`: the next stage, and what to do.
pub fn start_step(stage: StartStage, event: StartEvent) -> (step: (StartStage, StartAction))
    ensures
        start_step_is(stage, event, step.0, step.1),
{
    match stage {
        StartStage::Finished => (StartStage::Finished, StartAction::Ignore),
        StartStage::EnablingForwarding => match event {
            StartEvent::DeadlineExceeded => (
                StartStage::RollingBack(start_timeout()),
                StartAction::RestoreForwarding,
            ),
            StartEvent::ForwardingEnabled(Ok(_)) => (
                StartStage::LoadingRules,
                StartAction::LoadRules,
            ),
            StartEvent::ForwardingEnabled(Err(error)) => (
                StartStage::Finished,
                StartAction::Report(Err(error)),
            ),
            _ => (StartStage::EnablingForwarding, StartAction::Ignore),
        },
        StartStage::LoadingRules => match event {
            StartEvent::DeadlineExceeded => (
                StartStage::RollingBack(start_timeout()),
                StartAction::RestoreForwarding,
            ),
            StartEvent::RulesLoaded(Ok(_)) => (StartStage::Finished, StartAction::Report(Ok(()))),
            StartEvent::RulesLoaded(Err(error)) => (
                StartStage::RollingBack(error),
                StartAction::RestoreForwarding,
            ),
            _ => (StartStage::LoadingRules, StartAction::Ignore),
        },
        StartStage::RollingBack(error) => match event {
            StartEvent::DeadlineExceeded => (StartStage::Finished, StartAction::Report(Err(error))),
            StartEvent::ForwardingRestored => (
                StartStage::Finished,
                StartAction::Report(Err(error)),
            ),
            _ => (StartStage::RollingBack(error), StartAction::Ignore),
        },
    }
}

/// If the firewall rules fail to load after IP forwarding was enabled, the
/// start sequence has forwarding set back before it reports, and what it
/// reports is the firewall's error.
pub proof fn lemma_rollback_before_report(
    error: TunshareError,
    stage1: StartStage,
    action1: StartAction,
    stage2: StartStage,
    action2: StartAction,
    stage3: StartStage,
    action3: StartAction,
)
    requires
        start_step_is(
            StartStage::EnablingForwarding,
            StartEvent::ForwardingEnabled(Ok(())),
            stage1,
            action1,
        ),
        start_step_is(stage1, StartEvent::RulesLoaded(Err(error)), stage2, action2),
        start_step_is(stage2, StartEvent::ForwardingRestored, stage3, action3),
    ensures
        action1 == StartAction::LoadRules,
        action2 == StartAction::RestoreForwarding,
        !(action2 is Report),
        action3 == StartAction::Report(Err(error)),
        stage3 == StartStage::Finished,
{
}

/// If a stage of the start runs past its deadline after IP forwarding
/// was enabled, the start sequence has forwarding set back before it
/// reports, and what it reports is a firewall error that tells of the
/// deadline. That is so whether the rollback ends or runs past its own
/// deadline. A deadline that passes while forwarding is being enabled is
/// answered in the same way.
pub proof fn lemma_deadline_rolls_back(
    overrun: StartStage,
    stage1: StartStage,
    action1: StartAction,
    rollback_ended: bool,
    stage2: StartStage,
    action2: StartAction,
)
    requires
        overrun == StartStage::LoadingRules || overrun == StartStage::EnablingForwarding,
        start_step_is(overrun, StartEvent::DeadlineExceeded, stage1, action1),
        start_step_is(
            stage1,
            if rollback_ended {
                StartEvent::ForwardingRestored
            } else {
                StartEvent::DeadlineExceeded
            },
            stage2,
            action2,
        ),
    ensures
        action1 == StartAction::RestoreForwarding,
        !(action1 is Report),
        stage1 is RollingBack,
        stage2 == StartStage::Finished,
        action2 matches StartAction::Report(Err(error)) && is_firewall_error(
            error,
            "starting sharing timed out"@,
        ),
{
}

/// The start sequence reports success only after the rules were loaded.
/// It reports exactly when it ends. A failure is reported without a
/// rollback only where enabling forwarding itself failed, so that nothing
/// was changed; every other failure is reported from the rollback.
pub proof fn lemma_start_reports(
    stage: StartStage,
    event: StartEvent,
    next: StartStage,
    action: StartAction,
)
    requires
        start_step_is(stage, event, next, action),
    ensures
        action matches StartAction::Report(Ok(_)) ==> stage == StartStage::LoadingRules
            && event matches StartEvent::RulesLoaded(Ok(_)),
        action is Report <==> next == StartStage::Finished && stage != StartStage::Finished,
        action == StartAction::RestoreForwarding ==> (stage == StartStage::LoadingRules || stage
            == StartStage::EnablingForwarding) && next is RollingBack,
        action matches StartAction::Report(Err(_)) ==> stage is RollingBack || (stage
            == StartStage::EnablingForwarding && event matches StartEvent::ForwardingEnabled(
            Err(_),
        )),
{
}

/// Where the stop sequence stands: the stage that is being carried out.
#[derive(Debug, Clone, Copy, PartialEq, Eq, Structural)]
pub enum StopStage {
    /// The NAT-PMP anchor is being flushed.
    NatPmp,
    /// The DHCP server is being stopped.
    Dhcp,
    /// The firewall rules are being removed.
    Firewall,
    /// IP forwarding is being set back.
    IpForwarding,
    /// The result has been reported.
    Finished,
}

/// What the holder of the stop sequence does next.
#[derive(Debug, PartialEq, Eq)]
pub enum StopAction {
    /// Flush the NAT-PMP anchor.
    StopNatPmp,
    /// Stop the DHCP server.
    StopDhcp,
    /// Remove the sharing rules from the packet filter.
    CleanupFirewall,
    /// Set IP forwarding back to its saved original value.
    RestoreForwarding,
    /// Hand this result back, with the handles.
    Report(Result<(), TunshareError>),
    /// Nothing: the sequence is over.
    Ignore,
}

/// The stop sequence: NAT-PMP, DHCP, firewall, IP forwarding, in that
/// order, the first two only where the service is running. A stage that
/// fails does not keep the later ones from running; its error is kept.
#[derive(Debug, PartialEq, Eq)]
pub struct StopSequence {
    pub natpmp_active: bool,
    pub dhcp_active: bool,
    pub stage: StopStage,
    /// The errors of the stages that failed, in order.
    pub errors: Vec<String>,
}

/// The first stage of a stop.
pub open spec fn first_stop_stage(natpmp_active: bool, dhcp_active: bool) -> StopStage {
    if natpmp_active {
        StopStage::NatPmp
    } else if dhcp_active {
        StopStage::Dhcp
    } else {
        StopStage::Firewall
    }
}

/// The stage that follows `stage`.
pub open spec fn next_stop_stage(stage: StopStage, dhcp_active: bool) -> StopStage {
    match stage {
        StopStage::NatPmp => if dhcp_active {
            StopStage::Dhcp
        } else {
            StopStage::Firewall
        },
        StopStage::Dhcp => StopStage::Firewall,
        StopStage::Firewall => StopStage::IpForwarding,
        StopStage::IpForwarding => StopStage::Finished,
        StopStage::Finished => StopStage::Finished,
    }
}

/// What an error of `stage` is introduced by.
pub open spec fn stop_stage_label(stage: StopStage) -> Seq<char> {
    match stage {
        StopStage::NatPmp => "NAT-PMP cleanup: "@,
        StopStage::Dhcp => "DHCP cleanup: "@,
        StopStage::Firewall => "Firewall cleanup: "@,
        StopStage::IpForwarding => "IP forwarding: "@,
        StopStage::Finished => Seq::<char>::empty(),
    }
}

/// The kept errors after `stage` ended with `outcome`.
pub open spec fn stop_errors_after(
    errors: Seq<Seq<char>>,
    stage: StopStage,
    outcome: Result<(), TunshareError>,
) -> Seq<Seq<char>> {
    match outcome {
        Ok(_) => errors,
        Err(error) => errors.push(stop_stage_label(stage) + error.spec_message()),
    }
}

/// Whether `report` is what a stop with the kept `errors` reports:
/// success where no stage failed, else one firewall error that joins the
/// errors with `"; "`.
pub open spec fn stop_report_is(report: Result<(), TunshareError>, errors: Seq<Seq<char>>) -> bool {
    if errors.len() == 0 {
        report is Ok
    } else {
        report matches Err(error) && is_firewall_error(error, join(errors, "; "@))
    }
}

/// Whether `action` is what carries out `stage`, or, for the finished
/// sequence, reports what the kept `errors` add up to.
pub open spec fn stop_action_is(action: StopAction, stage: StopStage, errors: Seq<Seq<char>>) -> bool {
    match stage {
        StopStage::NatPmp => action == StopAction::StopNatPmp,
        StopStage::Dhcp => action == StopAction::StopDhcp,
        StopStage::Firewall => action == StopAction::CleanupFirewall,
        StopStage::IpForwarding => action == StopAction::RestoreForwarding,
        StopStage::Finished => action matches StopAction::Report(report) && stop_report_is(
            report,
            errors,
        ),
    }
}

fn stop_stage_label_str(stage: StopStage) -> (label: &'static str)
    ensures
        label@ == stop_stage_label(stage),
{
    match stage {
        StopStage::NatPmp => "NAT-PMP cleanup: ",
        StopStage::Dhcp => "DHCP cleanup: ",
        StopStage::Firewall => "Firewall cleanup: ",
        StopStage::IpForwarding => "IP forwarding: ",
        StopStage::Finished => {
            proof {
                reveal_strlit("");
            }
            assert(""@ =~= Seq::<char>::empty());
            ""
        },
    }
}

impl StopSequence {
    /// The kept errors, as texts.
    pub open spec fn error_texts(&self) -> Seq<Seq<char>> {
        texts(self.errors@)
    }

    /// Begins a stop: the sequence at its first stage, and the action that
    /// carries that stage out.
    pub fn begin(natpmp_active: bool, dhcp_active: bool) -> (begin: (StopSequence, StopAction))
        ensures
            begin.0.natpmp_active == natpmp_active,
            begin.0.dhcp_active == dhcp_active,
            begin.0.stage == first_stop_stage(natpmp_active, dhcp_active),
            begin.0.errors@.len() == 0,
            stop_action_is(begin.1, begin.0.stage, begin.0.error_texts()),
    {
        let stage = if natpmp_active {
            StopStage::NatPmp
        } else if dhcp_active {
            StopStage::Dhcp
        } else {
            StopStage::Firewall
        };
        let sequence = StopSequence { natpmp_active, dhcp_active, stage, errors: Vec::new() };
        let action = sequence.action();
        (sequence, action)
    }

    /// The action of the current stage.
    fn action(&self) -> (action: StopAction)
        requires
            self.stage != StopStage::Finished,
        ensures
            stop_action_is(action, self.stage, self.error_texts()),
    {
        match self.stage {
            StopStage::NatPmp => StopAction::StopNatPmp,
            StopStage::Dhcp => StopAction::StopDhcp,
            StopStage::Firewall => StopAction::CleanupFirewall,
            _ => StopAction::RestoreForwarding,
        }
    }

    /// The report of the finished sequence.
    fn report(&self) -> (action: StopAction)
        ensures
            stop_action_is(action, StopStage::Finished, self.error_texts()),
    {
        if self.errors.len() == 0 {
            StopAction::Report(Ok(()))
        } else {
            StopAction::Report(
                Err(TunshareError::FirewallError(join_strings(&self.errors, "; "))),
            )
        }
    }

    /// Takes the outcome of the current stage and says what comes next.
    /// The next stage is the same whether the current one failed or not.
    pub fn step(&mut self, outcome: Result<(), TunshareError>) -> (action: StopAction)
        ensures
            final(self).natpmp_active == old(self).natpmp_active,
            final(self).dhcp_active == old(self).dhcp_active,
            final(self).stage == next_stop_stage(old(self).stage, old(self).dhcp_active),
            old(self).stage == StopStage::Finished ==> *final(self) == *old(self) && action
                == StopAction::Ignore,
            old(self).stage != StopStage::Finished ==> final(self).error_texts()
                == stop_errors_after(old(self).error_texts(), old(self).stage, outcome)
                && stop_action_is(action, final(self).stage, final(self).error_texts()),
    {
        if self.stage == StopStage::Finished {
            return StopAction::Ignore;
        }
        match outcome {
            Ok(_) => {},
            Err(error) => {
                let mut text = String::from_str(stop_stage_label_str(self.stage));
                let message = error.message();
                text.append(message.as_str());
                self.errors.push(text);
                assert(self.error_texts() =~= stop_errors_after(
                    old(self).error_texts(),
                    old(self).stage,
                    outcome,
                ));
            },
        }
        self.stage =
        match self.stage {
            StopStage::NatPmp => if self.dhcp_active {
                StopStage::Dhcp
            } else {
                StopStage::Firewall
            },
            StopStage::Dhcp => StopStage::Firewall,
            StopStage::Firewall => StopStage::IpForwarding,
            _ => StopStage::Finished,
        };
        if self.stage == StopStage::Finished {
            self.report()
        } else {
            self.action()
        }
    }

    /// Ends the sequence because its deadline has passed: what is reported
    /// is a firewall error that says so.
    pub fn deadline_exceeded(&mut self) -> (action: StopAction)
        ensures
            final(self).stage == StopStage::Finished,
            final(self).natpmp_active == old(self).natpmp_active,
            final(self).dhcp_active == old(self).dhcp_active,
            final(self).errors == old(self).errors,
            old(self).stage == StopStage::Finished ==> action == StopAction::Ignore,
            old(self).stage != StopStage::Finished ==> (action matches StopAction::Report(
                Err(error),
            ) && is_firewall_error(error, "stopping sharing timed out"@)),
    {
        if self.stage == StopStage::Finished {
            return StopAction::Ignore;
        }
        self.stage = StopStage::Finished;
        StopAction::Report(
            Err(TunshareError::FirewallError(String::from_str("stopping sharing timed out"))),
        )
    }
}

/// No stage's error is lost or passed over: after a stage the kept errors
/// are those from before, in their order, with the stage's own error
/// behind them if it failed.
pub proof fn lemma_stop_keeps_errors(
    errors: Seq<Seq<char>>,
    stage: StopStage,
    outcome: Result<(), TunshareError>,
)
    ensures
        stop_errors_after(errors, stage, outcome).len() == errors.len() + (if outcome is Err {
            1int
        } else {
            0int
        }),
        stop_errors_after(errors, stage, outcome).take(errors.len() as int) == errors,
        outcome matches Err(error) ==> stop_errors_after(errors, stage, outcome).last()
            == stop_stage_label(stage) + error.spec_message(),
        stop_report_is(Ok(()), stop_errors_after(errors, stage, outcome)) <==> errors.len() == 0
            && outcome is Ok,
{
    assert(stop_errors_after(errors, stage, outcome).take(errors.len() as int) =~= errors);
}

/// The stages that a stop runs through, from `stage` on.
pub open spec fn stop_stages_from(stage: StopStage, dhcp_active: bool) -> Seq<StopStage> {
    match stage {
        StopStage::NatPmp => seq![StopStage::NatPmp] + (if dhcp_active {
            seq![StopStage::Dhcp]
        } else {
            Seq::<StopStage>::empty()
        }) + seq![StopStage::Firewall, StopStage::IpForwarding],
        StopStage::Dhcp => seq![StopStage::Dhcp, StopStage::Firewall, StopStage::IpForwarding],
        StopStage::Firewall => seq![StopStage::Firewall, StopStage::IpForwarding],
        StopStage::IpForwarding => seq![StopStage::IpForwarding],
        StopStage::Finished => Seq::<StopStage>::empty(),
    }
}

/// A stop runs its stages in the order NAT-PMP, DHCP, firewall, IP
/// forwarding, whatever each stage comes to: the firewall is always
/// cleaned up and forwarding is always set back, and NAT-PMP and DHCP are
/// stopped exactly where they run.
pub proof fn lemma_stop_runs_every_stage(natpmp_active: bool, dhcp_active: bool)
    ensures
        stop_stages_from(first_stop_stage(natpmp_active, dhcp_active), dhcp_active) == (
        if natpmp_active {
            seq![StopStage::NatPmp]
        } else {
            Seq::<StopStage>::empty()
        }) + (if dhcp_active {
            seq![StopStage::Dhcp]
        } else {
            Seq::<StopStage>::empty()
        }) + seq![StopStage::Firewall, StopStage::IpForwarding],
        forall|stage: StopStage|
            stage != StopStage::Finished ==> #[trigger] stop_stages_from(stage, dhcp_active)
                == seq![stage] + stop_stages_from(next_stop_stage(stage, dhcp_active), dhcp_active),
{
    assert forall|stage: StopStage| stage != StopStage::Finished implies #[trigger] stop_stages_from(
        stage,
        dhcp_active,
    ) == seq![stage] + stop_stages_from(next_stop_stage(stage, dhcp_active), dhcp_active) by {
        assert(stop_stages_from(stage, dhcp_active) =~= seq![stage] + stop_stages_from(
            next_stop_stage(stage, dhcp_active),
            dhcp_active,
        ));
    }
    assert(stop_stages_from(first_stop_stage(natpmp_active, dhcp_active), dhcp_active) =~= (
    if natpmp_active {
        seq![StopStage::NatPmp]
    } else {
        Seq::<StopStage>::empty()
    }) + (if dhcp_active {
        seq![StopStage::Dhcp]
    } else {
        Seq::<StopStage>::empty()
    }) + seq![StopStage::Firewall, StopStage::IpForwarding]);
}

} // verus!
