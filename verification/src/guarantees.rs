//! What holds of every run of the engine.

use vstd::prelude::*;
use crate::classify::{
    body_wanted, is_redirection, reply_classification, transport_error_text, BodyView,
    HttpReplyView, OutcomeView,
};
use crate::config::{strategy_at, ConfigView, Options, StrategyKind};
use crate::detection::{canceled_text, DetectionResultView, RunStepView, RunView};
use crate::engine::{
    client_failure_text, strategies_left, ActionView, EngineView, EventView, PhaseView,
};
use crate::error::ErrorView;
use crate::orchestrator::{not_ready_verdict, portal_verdict, ExecutionStatus, OrchestratorView};
use crate::strategies::{gateway_ip_of, gateway_issue_text, gateway_targets, standard_targets};
use crate::wifi::{listing_argv, power_argv, wifi_device_of, RECONNECT_SECONDS, SETTLE_SECONDS};

verus! {

/// What every state of a run satisfies: a target is probed only within a
/// strategy's walk, the gateway is resolved only in the gateway strategy's
/// turn, and the wireless interface is reset only before the second pass.
pub open spec fn consistent(s: EngineView) -> bool {
    &&& s.pass.consulted <= 2
    &&& s.phase matches PhaseView::Probing(target) ==> s.run.has_target() && s.pass.current()
        is Some && s.run.targets[s.run.next as int] == target
    &&& s.phase matches PhaseView::ReadingBody(target, _) ==> s.run.has_target()
        && s.pass.current() is Some && s.run.targets[s.run.next as int] == target
    &&& s.phase is ResolvingGateway ==> s.pass.current() == Some(StrategyKind::Gateway)
    &&& in_recovery(s) ==> !s.retried
}

/// Whether the wireless interface is being reset.
pub open spec fn in_recovery(s: EngineView) -> bool {
    s.phase is FindingWifi || s.phase is PoweringOff || s.phase is Settling || s.phase
        is PoweringOn || s.phase is Reconnecting
}

/// Whether two states belong to one run in the same pass.
pub open spec fn same_pass(a: EngineView, b: EngineView) -> bool {
    a.config == b.config && a.options == b.options && a.retried == b.retried
}

/// How many targets a strategy walks over.
pub open spec fn target_count(config: ConfigView, kind: StrategyKind) -> nat {
    match kind {
        StrategyKind::StandardUrl => config.detection_endpoints.len(),
        StrategyKind::Gateway => config.gateway_endpoints.len(),
    }
}

/// The most events that one strategy takes: two for each target, the reply
/// and its body, and for the gateway strategy one more, the output of the
/// gateway command.
pub open spec fn strategy_cost(config: ConfigView, kind: StrategyKind) -> nat {
    match kind {
        StrategyKind::StandardUrl => 2 * target_count(config, kind),
        StrategyKind::Gateway => 1 + 2 * target_count(config, kind),
    }
}

/// The most events that the strategies from place `place` on take.
pub open spec fn strategies_cost(
    config: ConfigView,
    gateway_first: bool,
    place: nat,
) -> nat {
    if place == 0 {
        strategy_cost(config, strategy_at(gateway_first, 0)->0) + strategy_cost(
            config,
            strategy_at(gateway_first, 1)->0,
        )
    } else if place == 1 {
        strategy_cost(config, strategy_at(gateway_first, 1)->0)
    } else {
        0
    }
}

/// The most events that one pass takes: the client, both strategies, and the
/// opening of a portal.
pub open spec fn pass_cost(config: ConfigView) -> nat {
    2 + strategy_cost(config, StrategyKind::StandardUrl) + strategy_cost(
        config,
        StrategyKind::Gateway,
    )
}

/// The events set aside for what may follow the pass in progress: the five
/// of a reset cycle and those of a second pass, as long as a reset is still
/// possible.
pub open spec fn reserve(s: EngineView) -> nat {
    if !s.retried && s.config.supports_wifi_reset {
        5 + pass_cost(s.config)
    } else {
        0
    }
}

/// The targets that the walk in progress has left.
pub open spec fn targets_left(run: RunView) -> nat {
    if run.next < run.targets.len() {
        (run.targets.len() - run.next) as nat
    } else {
        0
    }
}

/// A bound on the events that a run can still take in before it is over.
pub open spec fn steps_left(s: EngineView) -> nat {
    let later = strategies_cost(s.config, s.pass.gateway_first, s.pass.consulted + 1);
    match s.phase {
        PhaseView::Finished(_) => 0,
        PhaseView::Failed(_) => 0,
        PhaseView::OpeningPortal(_) => 1,
        PhaseView::BuildingClient => 2 + strategies_cost(
            s.config,
            s.pass.gateway_first,
            s.pass.consulted,
        ) + reserve(s),
        PhaseView::ResolvingGateway => 1 + strategies_cost(
            s.config,
            s.pass.gateway_first,
            s.pass.consulted,
        ) + reserve(s),
        PhaseView::Probing(_) => 1 + 2 * targets_left(s.run) + later + reserve(s),
        PhaseView::ReadingBody(_, _) => 2 * targets_left(s.run) + later + reserve(s),
        PhaseView::FindingWifi => 5 + pass_cost(s.config),
        PhaseView::PoweringOff(_) => 4 + pass_cost(s.config),
        PhaseView::Settling(_) => 3 + pass_cost(s.config),
        PhaseView::PoweringOn(_) => 2 + pass_cost(s.config),
        PhaseView::Reconnecting => 1 + pass_cost(s.config),
    }
}

/// Consistent, and the walk in progress is over the targets of the strategy
/// whose turn it is.
pub open spec fn on_course(s: EngineView) -> bool {
    &&& consistent(s)
    &&& (s.phase is Probing || s.phase is ReadingBody) ==> s.run.targets.len() == target_count(
        s.config,
        s.pass.current()->0,
    )
}

proof fn lemma_concluded_bound(s: EngineView)
    requires
        s.pass.consulted <= 2,
    ensures
        steps_left(s.concluded()) <= reserve(s),
        on_course(s.concluded()),
        same_pass(s, s.concluded()),
{
}

proof fn lemma_take_result_bound(s: EngineView, result: DetectionResultView, canceled: bool)
    requires
        s.pass.consulted <= 2,
    ensures
        steps_left(s.take_result(result, canceled)) <= 1 + strategies_cost(
            s.config,
            s.pass.gateway_first,
            s.pass.consulted + 1,
        ) + reserve(s),
        on_course(s.take_result(result, canceled)),
        same_pass(s, s.take_result(result, canceled)),
    decreases strategies_left(s.pass), 0nat,
{
    if s.pass.current() is None {
        lemma_concluded_bound(s);
    } else {
        match result {
            DetectionResultView::PortalFound(_) => {},
            _ => {
                lemma_settle_bound(EngineView { pass: s.pass.absorb(result), ..s }, canceled);
            },
        }
    }
}

proof fn lemma_advance_bound(s: EngineView, canceled: bool)
    requires
        s.pass.consulted <= 2,
        s.run.has_target() ==> s.pass.current() is Some && s.run.targets.len() == target_count(
            s.config,
            s.pass.current()->0,
        ),
    ensures
        steps_left(s.advance(canceled)) <= 1 + 2 * targets_left(s.run) + strategies_cost(
            s.config,
            s.pass.gateway_first,
            s.pass.consulted + 1,
        ) + reserve(s),
        on_course(s.advance(canceled)),
        same_pass(s, s.advance(canceled)),
    decreases strategies_left(s.pass), 1nat,
{
    match s.run.step(canceled) {
        RunStepView::Probe(_) => {},
        RunStepView::Done(result) => {
            lemma_take_result_bound(s, result, canceled);
        },
    }
}

proof fn lemma_settle_bound(s: EngineView, canceled: bool)
    requires
        s.pass.consulted <= 2,
    ensures
        steps_left(s.settle(canceled)) <= 1 + strategies_cost(
            s.config,
            s.pass.gateway_first,
            s.pass.consulted,
        ) + reserve(s),
        on_course(s.settle(canceled)),
        same_pass(s, s.settle(canceled)),
    decreases strategies_left(s.pass), 2nat,
{
    match s.pass.current() {
        None => {
            lemma_concluded_bound(s);
        },
        Some(StrategyKind::StandardUrl) => {
            let walking = EngineView { run: RunView::start(standard_targets(s.config)), ..s };
            lemma_advance_bound(walking, canceled);
        },
        Some(StrategyKind::Gateway) => {
            if canceled {
                lemma_take_result_bound(
                    s,
                    DetectionResultView::NetworkIssues(seq![canceled_text()]),
                    canceled,
                );
            }
        },
    }
}

proof fn lemma_take_outcome_bound(s: EngineView, outcome: OutcomeView, canceled: bool)
    requires
        s.pass.consulted <= 2,
        s.run.has_target(),
        s.pass.current() is Some,
        s.run.targets.len() == target_count(s.config, s.pass.current()->0),
    ensures
        steps_left(s.take_outcome(outcome, canceled)) + 1 <= 2 * targets_left(s.run)
            + strategies_cost(s.config, s.pass.gateway_first, s.pass.consulted + 1) + reserve(s),
        on_course(s.take_outcome(outcome, canceled)),
        same_pass(s, s.take_outcome(outcome, canceled)),
{
    match s.run.portal(outcome) {
        Some(url) => {
            lemma_take_result_bound(s, DetectionResultView::PortalFound(url), canceled);
        },
        None => {
            lemma_advance_bound(EngineView { run: s.run.record(outcome), ..s }, canceled);
        },
    }
}

/// An event that does not answer the pending action changes nothing, and a
/// run that is over stays as it is.
pub proof fn stray_events_change_nothing(s: EngineView, event: EventView, canceled: bool)
    requires
        !s.answered_by(event),
    ensures
        s.handle(event, canceled) == s,
        s.is_over() ==> s.pending() == ActionView::Finish,
{
}

/// A strategy that finds a portal ends the consulting of strategies: the
/// engine turns to the portal at once, whichever strategy found it, whatever
/// the other strategy reported before, and without asking the other one any
/// more. Where portals are opened, the run is completed with that address
/// once the portal is open; where they are not, it is completed at once.
pub proof fn portal_ends_the_run(s: EngineView, url: Seq<char>, canceled: bool)
    requires
        s.pass.current() is Some,
    ensures
        ({
            let found = s.take_result(DetectionResultView::PortalFound(url), canceled);
            &&& s.options.no_open ==> found.phase == PhaseView::Finished(portal_verdict(url))
            &&& !s.options.no_open ==> found.pending() == ActionView::OpenPortal(url)
            &&& !s.options.no_open ==> found.handle(EventView::PortalOpened, canceled).phase
                == PhaseView::Finished(portal_verdict(url))
            &&& portal_verdict(url).status == ExecutionStatus::Completed
            &&& portal_verdict(url).portal_url == Some(url)
        }),
{
}

/// A redirection with a `Location`, come in answer to a probe, is a portal
/// that ends the run in the same way: no further target is probed and no
/// further strategy consulted.
pub proof fn redirect_reply_ends_the_run(
    s: EngineView,
    reply: HttpReplyView,
    url: Seq<char>,
    canceled: bool,
)
    requires
        consistent(s),
        s.phase is Probing,
        is_redirection(reply.status),
        reply.location == Some(url),
    ensures
        ({
            let found = s.handle(EventView::Reply(reply), canceled);
            &&& s.options.no_open ==> found.phase == PhaseView::Finished(portal_verdict(url))
            &&& !s.options.no_open ==> found.pending() == ActionView::OpenPortal(url)
            &&& !s.options.no_open ==> found.handle(EventView::PortalOpened, canceled).phase
                == PhaseView::Finished(portal_verdict(url))
        }),
{
}

/// A portal that cannot be opened ends the run with the opener's error.
pub proof fn open_failure_is_an_error(
    s: EngineView,
    error: ErrorView,
    canceled: bool,
)
    requires
        s.phase is OpeningPortal,
    ensures
        s.handle(EventView::PortalOpenFailed(error), canceled).phase == PhaseView::Failed(error),
{
}

/// A client that cannot be built ends the run with a setup error, in the
/// first pass and in the second.
pub proof fn client_failure_is_an_error(s: EngineView, reason: Seq<char>, canceled: bool)
    requires
        s.phase is BuildingClient,
    ensures
        s.handle(EventView::ClientFailed(reason), canceled).phase == PhaseView::Failed(
            ErrorView::Setup(client_failure_text(reason)),
        ),
{
}

/// Where both strategies of the first pass fail on the network and the
/// platform can reset the wireless interface, the engine keeps the
/// diagnostics of both and asks for the hardware ports.
pub proof fn two_failures_start_recovery(
    s: EngineView,
    first: Seq<Seq<char>>,
    second: Seq<Seq<char>>,
    canceled: bool,
)
    requires
        !s.retried,
        s.config.supports_wifi_reset,
        s.pass == OrchestratorView::start(s.options.gateway).absorb(
            DetectionResultView::NetworkIssues(first),
        ),
    ensures
        ({
            let failed = s.take_result(DetectionResultView::NetworkIssues(second), canceled);
            &&& failed.phase == PhaseView::FindingWifi
            &&& failed.first_errors == first + second
            &&& failed.pending() == ActionView::RunCommand(listing_argv())
        }),
{
    let absorbed = EngineView {
        pass: s.pass.absorb(DetectionResultView::NetworkIssues(second)),
        ..s
    };
    assert(absorbed.pass.consulted == 2);
    assert(absorbed.pass.current() is None);
    assert(absorbed.settle(canceled) == absorbed.concluded());
    assert(Seq::<Seq<char>>::empty() + first =~= first);
}

/// Once the wireless device is found, one reset cycle runs: the device is
/// switched off, left to settle, switched on, left to reconnect; then the
/// second pass begins with a client of its own and a pass that has consulted
/// no strategy.
pub proof fn reset_cycle_leads_to_second_pass(
    s: EngineView,
    listing: Seq<char>,
    device: Seq<char>,
    off_output: Seq<char>,
    on_output: Seq<char>,
    canceled: bool,
)
    requires
        s.phase is FindingWifi,
        wifi_device_of(listing) == Some(device),
    ensures
        ({
            let found = s.handle(EventView::CommandOutput(listing), canceled);
            let off = found.handle(EventView::CommandOutput(off_output), canceled);
            let settled = off.handle(EventView::Elapsed, canceled);
            let on = settled.handle(EventView::CommandOutput(on_output), canceled);
            let again = on.handle(EventView::Elapsed, canceled);
            &&& found.pending() == ActionView::RunCommand(power_argv(device, false))
            &&& off.pending() == ActionView::Wait(SETTLE_SECONDS)
            &&& settled.pending() == ActionView::RunCommand(power_argv(device, true))
            &&& on.pending() == ActionView::Wait(RECONNECT_SECONDS)
            &&& again == s.second_pass()
            &&& again.retried
            &&& again.phase is BuildingClient
            &&& again.pass == OrchestratorView::start(s.options.gateway)
        }),
{
}

/// The second pass is the last: whatever it concludes is the end of the run,
/// with the second pass's own verdict and diagnostics, and the wireless
/// interface is not reset again.
pub proof fn second_pass_is_final(s: EngineView)
    requires
        s.retried,
    ensures
        s.concluded() == s.finished(s.pass.conclusion()),
        s.concluded().is_over(),
        !in_recovery(s.concluded()),
{
}

/// Where both strategies of the second pass fail on the network, the run
/// ends as not ready with the diagnostics of the second pass, not those of
/// the first.
pub proof fn second_pass_failure_reports_its_own_errors(
    s: EngineView,
    first: Seq<Seq<char>>,
    second: Seq<Seq<char>>,
    canceled: bool,
)
    requires
        s.retried,
        s.pass == OrchestratorView::start(s.options.gateway).absorb(
            DetectionResultView::NetworkIssues(first),
        ),
    ensures
        s.take_result(DetectionResultView::NetworkIssues(second), canceled).phase
            == PhaseView::Finished(not_ready_verdict(first + second)),
{
    let absorbed = EngineView {
        pass: s.pass.absorb(DetectionResultView::NetworkIssues(second)),
        ..s
    };
    assert(absorbed.pass.current() is None);
    assert(absorbed.settle(canceled) == absorbed.concluded());
    assert(Seq::<Seq<char>>::empty() + first =~= first);
}

/// Where recovery cannot go on, because no wireless device is found or a
/// command fails, the run ends as not ready with the diagnostics of the
/// first pass.
pub proof fn abandoned_recovery_reports_first_errors(
    s: EngineView,
    event: EventView,
    canceled: bool,
)
    requires
        s.phase is FindingWifi || s.phase is PoweringOff || s.phase is PoweringOn,
        event is CommandFailed || (s.phase is FindingWifi && (event matches EventView::CommandOutput(
            listing,
        ) && wifi_device_of(listing) is None)),
    ensures
        s.handle(event, canceled).phase == PhaseView::Finished(not_ready_verdict(s.first_errors)),
{
}

/// Where the platform cannot reset the wireless interface, a first pass
/// that finds the network not ready ends the run with its own diagnostics.
pub proof fn no_reset_support_ends_the_run(s: EngineView)
    requires
        !s.config.supports_wifi_reset,
    ensures
        s.concluded() == s.finished(s.pass.conclusion()),
{
}

/// Every event that answers the pending action brings the run closer to its
/// end: the bound on the events still to come goes down. So a run is over
/// after no more events than the bound at its start allows.
pub proof fn every_answer_brings_the_end_closer(s: EngineView, event: EventView, canceled: bool)
    requires
        on_course(s),
        s.answered_by(event),
    ensures
        on_course(s.handle(event, canceled)),
        steps_left(s.handle(event, canceled)) < steps_left(s),
        s.handle(event, canceled).config == s.config,
        s.handle(event, canceled).options == s.options,
{
    match (s.phase, event) {
        (PhaseView::BuildingClient, EventView::ClientReady) => {
            lemma_settle_bound(s, canceled);
        },
        (PhaseView::ResolvingGateway, EventView::CommandOutput(output)) => {
            match gateway_ip_of(s.config, output) {
                Some(address) => {
                    lemma_advance_bound(
                        EngineView {
                            run: RunView::start(gateway_targets(s.config, address)),
                            ..s
                        },
                        canceled,
                    );
                },
                None => {
                    lemma_take_result_bound(
                        s,
                        DetectionResultView::NetworkIssues(
                            seq![gateway_issue_text()],
                        ),
                        canceled,
                    );
                },
            }
        },
        (PhaseView::ResolvingGateway, EventView::CommandFailed(_)) => {
            lemma_take_result_bound(
                s,
                DetectionResultView::NetworkIssues(seq![gateway_issue_text()]),
                canceled,
            );
        },
        (PhaseView::Probing(target), EventView::Reply(reply)) => {
            if !body_wanted(target, reply.status) {
                lemma_take_outcome_bound(
                    s,
                    reply_classification(target, reply, BodyView::Unread),
                    canceled,
                );
            }
        },
        (PhaseView::Probing(target), EventView::TransportFailed(error)) => {
            lemma_take_outcome_bound(
                s,
                OutcomeView::Issue(
                    transport_error_text(target.name, error, s.options.timeout),
                ),
                canceled,
            );
        },
        (PhaseView::ReadingBody(target, reply), EventView::BodyText(text)) => {
            lemma_take_outcome_bound(
                s,
                reply_classification(target, reply, BodyView::Text(text)),
                canceled,
            );
        },
        (PhaseView::ReadingBody(target, reply), EventView::BodyUnreadable) => {
            lemma_take_outcome_bound(
                s,
                reply_classification(target, reply, BodyView::Unreadable),
                canceled,
            );
        },
        _ => {},
    }
}

/// Every event leaves a run on course, and changes neither its configuration
/// nor its options.
pub proof fn events_keep_the_course(s: EngineView, event: EventView, canceled: bool)
    requires
        on_course(s),
    ensures
        on_course(s.handle(event, canceled)),
        s.handle(event, canceled).config == s.config,
        s.handle(event, canceled).options == s.options,
{
    if s.answered_by(event) {
        every_answer_brings_the_end_closer(s, event, canceled);
    }
}

/// A run starts on course, with room for two passes and one reset cycle at
/// most.
pub proof fn a_run_is_bounded(config: ConfigView, options: Options)
    ensures
        on_course(EngineView::start(config, options)),
        steps_left(EngineView::start(config, options)) <= 2 * pass_cost(config) + 5,
{
}

/// A run with no event left to take in is over.
pub proof fn no_steps_left_means_over(s: EngineView)
    requires
        on_course(s),
        steps_left(s) == 0,
    ensures
        s.is_over(),
{
}

} // verus!
