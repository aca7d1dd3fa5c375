//! The engine: a state machine that asks its host for one action at a time and
//! takes in the event that answers it, until the run is finished.
//!
//! A run builds an HTTP client, lets the orchestrator consult the strategies
//! in priority order, and, where the network is not ready and the platform
//! allows it, switches the wireless interface off and on and runs one more
//! pass.

use vstd::prelude::*;
use vstd::string::*;
use crate::classify::{
    body_wanted, classify_response, error_reason, reply_classification, should_parse_body,
    transport_error_text, Body, BodyView, DetectionTarget, HttpReply, HttpReplyView, Outcome,
    OutcomeView, TargetView, TransportError, TransportErrorView,
};
use crate::config::{ConfigView, Options, PlatformConfig, StrategyKind};
use crate::detection::{
    canceled_issues, canceled_text, clone_strings, DetectionResult, DetectionResultView,
    DetectionRun, RunStep, RunStepView, RunView,
};
use crate::error::{ErrorView, ReauthfiError};
use crate::orchestrator::{
    portal_found, portal_verdict, ExecutionStatus, Orchestrator, OrchestratorView, Verdict,
    VerdictView,
};
use crate::strategies::{
    gateway_ip_of, gateway_issue_text, gateway_issues, gateway_targets, get_gateway_ip,
    standard_targets, GatewayDetection, StandardUrlDetection,
};
use crate::wifi::{
    listing_argv, power_argv, wifi_device_of, WifiController, RECONNECT_SECONDS, SETTLE_SECONDS,
};

verus! {

/// The longest that connecting may take, in seconds, whatever a request is
/// given.
pub const CONNECT_TIMEOUT_CAP: u64 = 2;

/// What the engine asks its host to do.
#[derive(Debug)]
pub enum Action {
    /// Build a fresh HTTP client that follows no redirect, with these
    /// timeouts in seconds. Answered by `ClientReady` or `ClientFailed`.
    BuildClient { request_timeout: u64, connect_timeout: u64 },
    /// Run this command. Answered by `CommandOutput` or `CommandFailed`.
    RunCommand(Vec<String>),
    /// Send a GET request to `url` and wait at most `timeout` seconds for the
    /// head of the reply. Answered by `Reply` or `TransportFailed`.
    Probe { url: String, timeout: u64 },
    /// Read the body of the reply that came last. Answered by `BodyText` or
    /// `BodyUnreadable`.
    ReadBody,
    /// Open this address for the user. Answered by `PortalOpened` or
    /// `PortalOpenFailed`.
    OpenPortal(String),
    /// Let this many seconds pass. Answered by `Elapsed`.
    Wait(u64),
    /// Nothing more: the run is over.
    Finish,
}

/// The mathematical value of an [`Action`].
pub enum ActionView {
    BuildClient { request_timeout: u64, connect_timeout: u64 },
    RunCommand(Seq<Seq<char>>),
    Probe { url: Seq<char>, timeout: u64 },
    ReadBody,
    OpenPortal(Seq<char>),
    Wait(u64),
    Finish,
}

impl View for Action {
    type V = ActionView;

    open spec fn view(&self) -> ActionView {
        match self {
            Action::BuildClient { request_timeout, connect_timeout } => ActionView::BuildClient {
                request_timeout: *request_timeout,
                connect_timeout: *connect_timeout,
            },
            Action::RunCommand(argv) => ActionView::RunCommand(argv.deep_view()),
            Action::Probe { url, timeout } => ActionView::Probe { url: url@, timeout: *timeout },
            Action::ReadBody => ActionView::ReadBody,
            Action::OpenPortal(url) => ActionView::OpenPortal(url@),
            Action::Wait(seconds) => ActionView::Wait(*seconds),
            Action::Finish => ActionView::Finish,
        }
    }
}

/// What the host reports back.
#[derive(Debug)]
pub enum Event {
    /// The HTTP client stands.
    ClientReady,
    /// The HTTP client could not be built; the text says why.
    ClientFailed(String),
    /// The command ended with success; this is what it printed.
    CommandOutput(String),
    /// The command could not be run or ended without success.
    CommandFailed(String),
    /// The head of a reply came.
    Reply(HttpReply),
    /// The request brought no reply.
    TransportFailed(TransportError),
    /// The body of the reply.
    BodyText(String),
    /// The body of the reply could not be read.
    BodyUnreadable,
    /// The portal's address was handed to the user's browser.
    PortalOpened,
    /// The portal's address could not be opened.
    PortalOpenFailed(ReauthfiError),
    /// The time asked for has passed.
    Elapsed,
}

/// The mathematical value of an [`Event`].
pub enum EventView {
    ClientReady,
    ClientFailed(Seq<char>),
    CommandOutput(Seq<char>),
    CommandFailed(Seq<char>),
    Reply(HttpReplyView),
    TransportFailed(TransportErrorView),
    BodyText(Seq<char>),
    BodyUnreadable,
    PortalOpened,
    PortalOpenFailed(ErrorView),
    Elapsed,
}

impl View for Event {
    type V = EventView;

    open spec fn view(&self) -> EventView {
        match self {
            Event::ClientReady => EventView::ClientReady,
            Event::ClientFailed(text) => EventView::ClientFailed(text@),
            Event::CommandOutput(text) => EventView::CommandOutput(text@),
            Event::CommandFailed(text) => EventView::CommandFailed(text@),
            Event::Reply(reply) => EventView::Reply(reply@),
            Event::TransportFailed(error) => EventView::TransportFailed(error@),
            Event::BodyText(text) => EventView::BodyText(text@),
            Event::BodyUnreadable => EventView::BodyUnreadable,
            Event::PortalOpened => EventView::PortalOpened,
            Event::PortalOpenFailed(error) => EventView::PortalOpenFailed(error@),
            Event::Elapsed => EventView::Elapsed,
        }
    }
}

/// Where a run stands.
#[derive(Debug)]
pub enum Phase {
    /// The HTTP client of this pass is being built.
    BuildingClient,
    /// The gateway command runs.
    ResolvingGateway,
    /// A request to this target is under way.
    Probing(DetectionTarget),
    /// The body of this target's reply is being read.
    ReadingBody(DetectionTarget, HttpReply),
    /// The portal at this address is being opened.
    OpeningPortal(String),
    /// The hardware ports are being listed.
    FindingWifi,
    /// This wireless device is being switched off.
    PoweringOff(String),
    /// The device is off and left to settle.
    Settling(String),
    /// The device is being switched on again.
    PoweringOn(String),
    /// The device is on and left to join its network.
    Reconnecting,
    /// The run is over, with this verdict.
    Finished(Verdict),
    /// The run is over, with this error.
    Failed(ReauthfiError),
}

/// The mathematical value of a [`Phase`].
pub enum PhaseView {
    BuildingClient,
    ResolvingGateway,
    Probing(TargetView),
    ReadingBody(TargetView, HttpReplyView),
    OpeningPortal(Seq<char>),
    FindingWifi,
    PoweringOff(Seq<char>),
    Settling(Seq<char>),
    PoweringOn(Seq<char>),
    Reconnecting,
    Finished(VerdictView),
    Failed(ErrorView),
}

impl View for Phase {
    type V = PhaseView;

    open spec fn view(&self) -> PhaseView {
        match self {
            Phase::BuildingClient => PhaseView::BuildingClient,
            Phase::ResolvingGateway => PhaseView::ResolvingGateway,
            Phase::Probing(target) => PhaseView::Probing(target@),
            Phase::ReadingBody(target, reply) => PhaseView::ReadingBody(target@, reply@),
            Phase::OpeningPortal(url) => PhaseView::OpeningPortal(url@),
            Phase::FindingWifi => PhaseView::FindingWifi,
            Phase::PoweringOff(device) => PhaseView::PoweringOff(device@),
            Phase::Settling(device) => PhaseView::Settling(device@),
            Phase::PoweringOn(device) => PhaseView::PoweringOn(device@),
            Phase::Reconnecting => PhaseView::Reconnecting,
            Phase::Finished(verdict) => PhaseView::Finished(verdict@),
            Phase::Failed(error) => PhaseView::Failed(error@),
        }
    }
}

/// One run of the engine.
#[derive(Debug)]
pub struct Engine {
    pub config: PlatformConfig,
    pub options: Options,
    pub phase: Phase,
    /// Whether the wireless interface was reset and this is the second pass.
    pub retried: bool,
    /// The diagnostics of the first pass, kept while the interface is reset.
    pub first_errors: Vec<String>,
    /// The pass in progress.
    pub pass: Orchestrator,
    /// The current strategy's walk over its targets.
    pub run: DetectionRun,
}

/// The mathematical value of an [`Engine`].
pub struct EngineView {
    pub config: ConfigView,
    pub options: Options,
    pub phase: PhaseView,
    pub retried: bool,
    pub first_errors: Seq<Seq<char>>,
    pub pass: OrchestratorView,
    pub run: RunView,
}

impl View for Engine {
    type V = EngineView;

    open spec fn view(&self) -> EngineView {
        EngineView {
            config: self.config@,
            options: self.options,
            phase: self.phase@,
            retried: self.retried,
            first_errors: self.first_errors.deep_view(),
            pass: self.pass@,
            run: self.run@,
        }
    }
}

/// The time that connecting may take under a request timeout: the request
/// timeout itself, but no more than [`CONNECT_TIMEOUT_CAP`].
pub open spec fn connect_timeout_for(request_timeout: u64) -> u64 {
    if request_timeout < CONNECT_TIMEOUT_CAP {
        request_timeout
    } else {
        CONNECT_TIMEOUT_CAP
    }
}

/// The detail of a client that could not be built.
pub open spec fn client_failure_text(reason: Seq<char>) -> Seq<char> {
    "failed to build http client: "@ + reason
}

/// How many strategies a pass has left to consult.
pub open spec fn strategies_left(pass: OrchestratorView) -> nat {
    if pass.consulted < 2 {
        (2 - pass.consulted) as nat
    } else {
        0
    }
}

impl EngineView {
    /// A run at its start.
    pub open spec fn start(config: ConfigView, options: Options) -> EngineView {
        EngineView {
            config,
            options,
            phase: PhaseView::BuildingClient,
            retried: false,
            first_errors: Seq::empty(),
            pass: OrchestratorView::start(options.gateway),
            run: RunView::start(Seq::empty()),
        }
    }

    /// Whether the run is over.
    pub open spec fn is_over(self) -> bool {
        self.phase is Finished || self.phase is Failed
    }

    /// The action that the engine waits for.
    pub open spec fn pending(self) -> ActionView {
        match self.phase {
            PhaseView::BuildingClient => ActionView::BuildClient {
                request_timeout: self.options.timeout,
                connect_timeout: connect_timeout_for(self.options.timeout),
            },
            PhaseView::ResolvingGateway => ActionView::RunCommand(self.config.gateway_command),
            PhaseView::Probing(target) => ActionView::Probe {
                url: target.url,
                timeout: self.options.timeout,
            },
            PhaseView::ReadingBody(_, _) => ActionView::ReadBody,
            PhaseView::OpeningPortal(url) => ActionView::OpenPortal(url),
            PhaseView::FindingWifi => ActionView::RunCommand(listing_argv()),
            PhaseView::PoweringOff(device) => ActionView::RunCommand(power_argv(device, false)),
            PhaseView::Settling(_) => ActionView::Wait(SETTLE_SECONDS),
            PhaseView::PoweringOn(device) => ActionView::RunCommand(power_argv(device, true)),
            PhaseView::Reconnecting => ActionView::Wait(RECONNECT_SECONDS),
            PhaseView::Finished(_) => ActionView::Finish,
            PhaseView::Failed(_) => ActionView::Finish,
        }
    }

    /// The run, over with `verdict`.
    pub open spec fn finished(self, verdict: VerdictView) -> EngineView {
        EngineView { phase: PhaseView::Finished(verdict), ..self }
    }

    /// The run once a portal is found at `url`: over at once where portals
    /// are left unopened, else about to open it.
    pub open spec fn found_portal(self, url: Seq<char>) -> EngineView {
        if self.options.no_open {
            self.finished(portal_verdict(url))
        } else {
            EngineView { phase: PhaseView::OpeningPortal(url), ..self }
        }
    }

    /// The run once the pass has no strategy left. A completed pass ends the
    /// run. A pass that found the network not ready ends it too, unless it is
    /// the first pass and the platform can reset the wireless interface: then
    /// its diagnostics are kept and the interface is looked for.
    pub open spec fn concluded(self) -> EngineView {
        let verdict = self.pass.conclusion();
        if verdict.status == ExecutionStatus::NetworkNotReady && !self.retried
            && self.config.supports_wifi_reset {
            EngineView { phase: PhaseView::FindingWifi, first_errors: verdict.errors, ..self }
        } else {
            self.finished(verdict)
        }
    }

    /// The run once the current strategy has reported `result`: a portal is
    /// handled, anything else goes into the pass and the next strategy takes
    /// its turn.
    pub open spec fn take_result(self, result: DetectionResultView, canceled: bool) -> EngineView
        decreases strategies_left(self.pass), 0nat,
    {
        if self.pass.current() is None {
            self.concluded()
        } else {
            match result {
                DetectionResultView::PortalFound(url) => self.found_portal(url),
                _ => EngineView { pass: self.pass.absorb(result), ..self }.settle(canceled),
            }
        }
    }

    /// The run as the walk over the targets goes on: the next target is
    /// probed, or the strategy reports.
    pub open spec fn advance(self, canceled: bool) -> EngineView
        decreases strategies_left(self.pass), 1nat,
    {
        match self.run.step(canceled) {
            RunStepView::Probe(target) => EngineView { phase: PhaseView::Probing(target), ..self },
            RunStepView::Done(result) => self.take_result(result, canceled),
        }
    }

    /// The run as the strategy whose turn it is begins. The direct strategy
    /// walks over its targets. The gateway strategy first has the gateway
    /// resolved, unless the run is canceled. With no strategy left the pass
    /// is concluded.
    pub open spec fn settle(self, canceled: bool) -> EngineView
        decreases strategies_left(self.pass), 2nat,
    {
        match self.pass.current() {
            None => self.concluded(),
            Some(StrategyKind::StandardUrl) => EngineView {
                run: RunView::start(standard_targets(self.config)),
                ..self
            }.advance(canceled),
            Some(StrategyKind::Gateway) => if canceled {
                self.take_result(
                    DetectionResultView::NetworkIssues(seq![canceled_text()]),
                    canceled,
                )
            } else {
                EngineView { phase: PhaseView::ResolvingGateway, ..self }
            },
        }
    }

    /// The run once the probe of the current target gave `outcome`.
    pub open spec fn take_outcome(self, outcome: OutcomeView, canceled: bool) -> EngineView {
        match self.run.portal(outcome) {
            Some(url) => self.take_result(DetectionResultView::PortalFound(url), canceled),
            None => EngineView { run: self.run.record(outcome), ..self }.advance(canceled),
        }
    }

    /// The run once the gateway command has printed `output`: the gateway's
    /// paths are walked, or the strategy reports that the gateway is unknown.
    pub open spec fn gateway_resolved(self, output: Seq<char>, canceled: bool) -> EngineView {
        match gateway_ip_of(self.config, output) {
            Some(address) => EngineView {
                run: RunView::start(gateway_targets(self.config, address)),
                ..self
            }.advance(canceled),
            None => self.gateway_unknown(canceled),
        }
    }

    /// The run once the gateway could not be resolved.
    pub open spec fn gateway_unknown(self, canceled: bool) -> EngineView {
        self.take_result(DetectionResultView::NetworkIssues(seq![gateway_issue_text()]), canceled)
    }

    /// The run once recovery is given up: over, network not ready, with the
    /// diagnostics of the first pass.
    pub open spec fn recovery_abandoned(self) -> EngineView {
        self.finished(
            VerdictView {
                status: ExecutionStatus::NetworkNotReady,
                portal_url: None,
                errors: self.first_errors,
            },
        )
    }

    /// The run as the second pass begins, with a client of its own.
    pub open spec fn second_pass(self) -> EngineView {
        EngineView {
            phase: PhaseView::BuildingClient,
            retried: true,
            pass: OrchestratorView::start(self.options.gateway),
            ..self
        }
    }

    /// Whether `event` answers the action that the engine waits for.
    pub open spec fn answered_by(self, event: EventView) -> bool {
        match self.phase {
            PhaseView::BuildingClient => event is ClientReady || event is ClientFailed,
            PhaseView::ResolvingGateway => event is CommandOutput || event is CommandFailed,
            PhaseView::Probing(_) => event is Reply || event is TransportFailed,
            PhaseView::ReadingBody(_, _) => event is BodyText || event is BodyUnreadable,
            PhaseView::OpeningPortal(_) => event is PortalOpened || event is PortalOpenFailed,
            PhaseView::FindingWifi => event is CommandOutput || event is CommandFailed,
            PhaseView::PoweringOff(_) => event is CommandOutput || event is CommandFailed,
            PhaseView::Settling(_) => event is Elapsed,
            PhaseView::PoweringOn(_) => event is CommandOutput || event is CommandFailed,
            PhaseView::Reconnecting => event is Elapsed,
            PhaseView::Finished(_) => false,
            PhaseView::Failed(_) => false,
        }
    }

    /// The run after `event`; `canceled` is the cancel flag as polled when
    /// the event is handed in. An event that does not answer the pending
    /// action changes nothing.
    pub open spec fn handle(self, event: EventView, canceled: bool) -> EngineView {
        match (self.phase, event) {
            (PhaseView::BuildingClient, EventView::ClientReady) => self.settle(canceled),
            (PhaseView::BuildingClient, EventView::ClientFailed(reason)) => EngineView {
                phase: PhaseView::Failed(ErrorView::Setup(client_failure_text(reason))),
                ..self
            },
            (PhaseView::ResolvingGateway, EventView::CommandOutput(output)) => self.gateway_resolved(
                output,
                canceled,
            ),
            (PhaseView::ResolvingGateway, EventView::CommandFailed(_)) => self.gateway_unknown(
                canceled,
            ),
            (PhaseView::Probing(target), EventView::Reply(reply)) => if body_wanted(
                target,
                reply.status,
            ) {
                EngineView { phase: PhaseView::ReadingBody(target, reply), ..self }
            } else {
                self.take_outcome(
                    reply_classification(target, reply, BodyView::Unread),
                    canceled,
                )
            },
            (PhaseView::Probing(target), EventView::TransportFailed(error)) => self.take_outcome(
                OutcomeView::Issue(transport_error_text(target.name, error, self.options.timeout)),
                canceled,
            ),
            (PhaseView::ReadingBody(target, reply), EventView::BodyText(text)) => self.take_outcome(
                reply_classification(target, reply, BodyView::Text(text)),
                canceled,
            ),
            (PhaseView::ReadingBody(target, reply), EventView::BodyUnreadable) => self.take_outcome(
                reply_classification(target, reply, BodyView::Unreadable),
                canceled,
            ),
            (PhaseView::OpeningPortal(url), EventView::PortalOpened) => self.finished(
                portal_verdict(url),
            ),
            (PhaseView::OpeningPortal(_), EventView::PortalOpenFailed(error)) => EngineView {
                phase: PhaseView::Failed(error),
                ..self
            },
            (PhaseView::FindingWifi, EventView::CommandOutput(listing)) => match wifi_device_of(
                listing,
            ) {
                Some(device) => EngineView { phase: PhaseView::PoweringOff(device), ..self },
                None => self.recovery_abandoned(),
            },
            (PhaseView::FindingWifi, EventView::CommandFailed(_)) => self.recovery_abandoned(),
            (PhaseView::PoweringOff(device), EventView::CommandOutput(_)) => EngineView {
                phase: PhaseView::Settling(device),
                ..self
            },
            (PhaseView::PoweringOff(_), EventView::CommandFailed(_)) => self.recovery_abandoned(),
            (PhaseView::Settling(device), EventView::Elapsed) => EngineView {
                phase: PhaseView::PoweringOn(device),
                ..self
            },
            (PhaseView::PoweringOn(_), EventView::CommandOutput(_)) => EngineView {
                phase: PhaseView::Reconnecting,
                ..self
            },
            (PhaseView::PoweringOn(_), EventView::CommandFailed(_)) => self.recovery_abandoned(),
            (PhaseView::Reconnecting, EventView::Elapsed) => self.second_pass(),
            _ => self,
        }
    }
}

/// Copies a list of string slices into owned strings.
pub fn owned_strings(list: &Vec<&'static str>) -> (copy: Vec<String>)
    ensures
        copy.deep_view() == list.deep_view(),
{
    let mut copy: Vec<String> = Vec::new();
    let mut i: usize = 0;
    while i < list.len()
        invariant
            i <= list.len(),
            copy.deep_view() == list.deep_view().take(i as int),
        decreases list.len() - i,
    {
        let ghost before = copy.deep_view();
        let item = String::from_str(list[i]);
        copy.push(item);
        assert(copy.deep_view() =~= before.push(item@));
        assert(list.deep_view()[i as int] == list[i as int]@);
        assert(before.push(item@) =~= list.deep_view().take(i as int + 1));
        i = i + 1;
    }
    assert(list.deep_view().take(i as int) =~= list.deep_view());
    copy
}

/// The time that connecting may take under a request timeout, in seconds.
pub fn connect_timeout(request_timeout: u64) -> (seconds: u64)
    ensures
        seconds == connect_timeout_for(request_timeout),
        seconds <= request_timeout,
        seconds <= CONNECT_TIMEOUT_CAP,
{
    if request_timeout < CONNECT_TIMEOUT_CAP {
        request_timeout
    } else {
        CONNECT_TIMEOUT_CAP
    }
}

impl Engine {
    /// A run at its start, about to build its HTTP client.
    pub fn new(config: PlatformConfig, options: Options) -> (engine: Engine)
        ensures
            engine@ == EngineView::start(config@, options),
    {
        let pass = Orchestrator::new(options.gateway);
        let run = DetectionRun::new(Vec::new());
        let engine = Engine {
            config,
            options,
            phase: Phase::BuildingClient,
            retried: false,
            first_errors: Vec::new(),
            pass,
            run,
        };
        assert(engine.first_errors.deep_view() =~= Seq::empty());
        assert(engine.run@.targets =~= Seq::empty());
        engine
    }

    /// Tells whether the run is over.
    pub fn is_over(&self) -> (over: bool)
        ensures
            over == self@.is_over(),
    {
        match &self.phase {
            Phase::Finished(_) => true,
            Phase::Failed(_) => true,
            _ => false,
        }
    }

    /// The action that the engine waits for. It stays the same until an
    /// event that answers it is handed in.
    pub fn pending(&self) -> (action: Action)
        ensures
            action@ == self@.pending(),
    {
        match &self.phase {
            Phase::BuildingClient => Action::BuildClient {
                request_timeout: self.options.timeout,
                connect_timeout: connect_timeout(self.options.timeout),
            },
            Phase::ResolvingGateway => Action::RunCommand(
                owned_strings(&self.config.gateway_command),
            ),
            Phase::Probing(target) => Action::Probe {
                url: target.url.clone(),
                timeout: self.options.timeout,
            },
            Phase::ReadingBody(_, _) => Action::ReadBody,
            Phase::OpeningPortal(url) => Action::OpenPortal(url.clone()),
            Phase::FindingWifi => Action::RunCommand(WifiController::listing_command()),
            Phase::PoweringOff(device) => Action::RunCommand(
                WifiController::power_command(device.as_str(), false),
            ),
            Phase::Settling(_) => Action::Wait(SETTLE_SECONDS),
            Phase::PoweringOn(device) => Action::RunCommand(
                WifiController::power_command(device.as_str(), true),
            ),
            Phase::Reconnecting => Action::Wait(RECONNECT_SECONDS),
            Phase::Finished(_) => Action::Finish,
            Phase::Failed(_) => Action::Finish,
        }
    }

    /// What the run ended with; `None` while it is not over.
    pub fn into_result(self) -> (result: Option<Result<Verdict, ReauthfiError>>)
        ensures
            match self@.phase {
                PhaseView::Finished(verdict) => result matches Some(Ok(given)) && given@
                    == verdict,
                PhaseView::Failed(error) => result matches Some(Err(given)) && given@ == error,
                _ => result is None,
            },
    {
        match self.phase {
            Phase::Finished(verdict) => Some(Ok(verdict)),
            Phase::Failed(error) => Some(Err(error)),
            _ => None,
        }
    }

    /// Ends the run with `verdict`.
    fn finished(self, verdict: Verdict) -> (next: Engine)
        ensures
            next@ == self@.finished(verdict@),
    {
        let mut next = self;
        next.phase = Phase::Finished(verdict);
        next
    }

    /// Turns to the portal found at `url`.
    fn found_portal(self, url: String) -> (next: Engine)
        ensures
            next@ == self@.found_portal(url@),
    {
        if self.options.no_open {
            self.finished(portal_found(url))
        } else {
            let mut next = self;
            next.phase = Phase::OpeningPortal(url);
            next
        }
    }

    /// Concludes the pass once no strategy is left.
    fn concluded(self) -> (next: Engine)
        ensures
            next@ == self@.concluded(),
    {
        let verdict = self.pass.conclusion();
        let not_ready = match verdict.status {
            ExecutionStatus::NetworkNotReady => true,
            ExecutionStatus::Completed => false,
        };
        if not_ready && !self.retried && self.config.supports_wifi_reset {
            let mut next = self;
            next.phase = Phase::FindingWifi;
            next.first_errors = verdict.errors;
            next
        } else {
            self.finished(verdict)
        }
    }

    /// Takes in what the current strategy reports.
    fn take_result(self, result: DetectionResult, canceled: bool) -> (next: Engine)
        ensures
            next@ == self@.take_result(result@, canceled),
        decreases strategies_left(self@.pass), 0nat,
    {
        if self.pass.current().is_none() {
            return self.concluded();
        }
        match result {
            DetectionResult::PortalFound(url) => self.found_portal(url),
            other => {
                let mut next = self;
                let _ = next.pass.absorb(other);
                next.settle(canceled)
            },
        }
    }

    /// Goes on with the walk over the targets.
    fn advance(self, canceled: bool) -> (next: Engine)
        ensures
            next@ == self@.advance(canceled),
        decreases strategies_left(self@.pass), 1nat,
    {
        match self.run.step(canceled) {
            RunStep::Probe(target) => {
                let mut next = self;
                next.phase = Phase::Probing(target);
                next
            },
            RunStep::Done(result) => self.take_result(result, canceled),
        }
    }

    /// Begins the strategy whose turn it is.
    fn settle(self, canceled: bool) -> (next: Engine)
        ensures
            next@ == self@.settle(canceled),
        decreases strategies_left(self@.pass), 2nat,
    {
        match self.pass.current() {
            None => self.concluded(),
            Some(StrategyKind::StandardUrl) => {
                let targets = StandardUrlDetection::targets(&self.config);
                let mut next = self;
                next.run = DetectionRun::new(targets);
                next.advance(canceled)
            },
            Some(StrategyKind::Gateway) => {
                if canceled {
                    self.take_result(canceled_issues(), canceled)
                } else {
                    let mut next = self;
                    next.phase = Phase::ResolvingGateway;
                    next
                }
            },
        }
    }

    /// Takes in what the probe of the current target gave.
    fn take_outcome(self, outcome: Outcome, canceled: bool) -> (next: Engine)
        ensures
            next@ == self@.take_outcome(outcome@, canceled),
    {
        let mut next = self;
        match next.run.record(outcome) {
            Some(url) => next.take_result(DetectionResult::PortalFound(url), canceled),
            None => next.advance(canceled),
        }
    }

    /// Lets the gateway strategy report that the gateway is unknown.
    fn gateway_unknown(self, canceled: bool) -> (next: Engine)
        ensures
            next@ == self@.gateway_unknown(canceled),
    {
        self.take_result(gateway_issues(), canceled)
    }

    /// Reads the gateway out of `output` and walks over its paths.
    fn gateway_resolved(self, output: &str, canceled: bool) -> (next: Engine)
        ensures
            next@ == self@.gateway_resolved(output@, canceled),
    {
        match get_gateway_ip(&self.config, output) {
            Ok(address) => {
                let targets = GatewayDetection::targets(&self.config, address.as_str());
                let mut next = self;
                next.run = DetectionRun::new(targets);
                next.advance(canceled)
            },
            Err(_) => self.gateway_unknown(canceled),
        }
    }

    /// Gives recovery up and ends the run with the first pass's diagnostics.
    fn recovery_abandoned(self) -> (next: Engine)
        ensures
            next@ == self@.recovery_abandoned(),
    {
        let mut next = self;
        let mut errors: Vec<String> = Vec::new();
        core::mem::swap(&mut next.first_errors, &mut errors);
        let copy = clone_strings(&errors);
        next.first_errors = errors;
        next.finished(
            Verdict { status: ExecutionStatus::NetworkNotReady, portal_url: None, errors: copy },
        )
    }

    /// Begins the second pass.
    fn second_pass(self) -> (next: Engine)
        ensures
            next@ == self@.second_pass(),
    {
        let mut next = self;
        next.phase = Phase::BuildingClient;
        next.retried = true;
        next.pass = Orchestrator::new(next.options.gateway);
        next
    }

    /// Takes in `event`; `canceled` is the cancel flag as polled now. An
    /// event that does not answer the pending action changes nothing.
    pub fn handle(self, event: Event, canceled: bool) -> (next: Engine)
        ensures
            next@ == self@.handle(event@, canceled),
    {
        let mut engine = self;
        // The phase is taken out to be matched by value, and put back before
        // any step that is stated of the run as it was.
        let mut phase = Phase::BuildingClient;
        core::mem::swap(&mut engine.phase, &mut phase);
        match (phase, event) {
            (Phase::BuildingClient, Event::ClientReady) => engine.settle(canceled),
            (Phase::BuildingClient, Event::ClientFailed(reason)) => {
                let mut text = String::from_str("failed to build http client: ");
                text.append(reason.as_str());
                engine.phase = Phase::Failed(ReauthfiError::Setup(text));
                engine
            },
            (Phase::ResolvingGateway, Event::CommandOutput(output)) => {
                engine.phase = Phase::ResolvingGateway;
                engine.gateway_resolved(output.as_str(), canceled)
            },
            (Phase::ResolvingGateway, Event::CommandFailed(_)) => {
                engine.phase = Phase::ResolvingGateway;
                engine.gateway_unknown(canceled)
            },
            (Phase::Probing(target), Event::Reply(reply)) => {
                if should_parse_body(&target, reply.status) {
                    engine.phase = Phase::ReadingBody(target, reply);
                    engine
                } else {
                    let outcome = classify_response(&target, &reply, Body::Unread);
                    engine.phase = Phase::Probing(target);
                    engine.take_outcome(outcome, canceled)
                }
            },
            (Phase::Probing(target), Event::TransportFailed(error)) => {
                let text = error_reason(target.name.as_str(), &error, engine.options.timeout);
                engine.phase = Phase::Probing(target);
                engine.take_outcome(Outcome::Issue(text), canceled)
            },
            (Phase::ReadingBody(target, reply), Event::BodyText(text)) => {
                let outcome = classify_response(&target, &reply, Body::Text(text));
                engine.phase = Phase::ReadingBody(target, reply);
                engine.take_outcome(outcome, canceled)
            },
            (Phase::ReadingBody(target, reply), Event::BodyUnreadable) => {
                let outcome = classify_response(&target, &reply, Body::Unreadable);
                engine.phase = Phase::ReadingBody(target, reply);
                engine.take_outcome(outcome, canceled)
            },
            (Phase::OpeningPortal(url), Event::PortalOpened) => {
                let copy = url.clone();
                engine.phase = Phase::OpeningPortal(url);
                engine.finished(portal_found(copy))
            },
            (Phase::OpeningPortal(_), Event::PortalOpenFailed(error)) => {
                engine.phase = Phase::Failed(error);
                engine
            },
            (Phase::FindingWifi, Event::CommandOutput(listing)) => {
                match WifiController::wifi_device(listing.as_str()) {
                    Ok(device) => {
                        engine.phase = Phase::PoweringOff(device);
                        engine
                    },
                    Err(_) => {
                        engine.phase = Phase::FindingWifi;
                        engine.recovery_abandoned()
                    },
                }
            },
            (Phase::FindingWifi, Event::CommandFailed(_)) => {
                engine.phase = Phase::FindingWifi;
                engine.recovery_abandoned()
            },
            (Phase::PoweringOff(device), Event::CommandOutput(_)) => {
                engine.phase = Phase::Settling(device);
                engine
            },
            (Phase::PoweringOff(device), Event::CommandFailed(_)) => {
                engine.phase = Phase::PoweringOff(device);
                engine.recovery_abandoned()
            },
            (Phase::Settling(device), Event::Elapsed) => {
                engine.phase = Phase::PoweringOn(device);
                engine
            },
            (Phase::PoweringOn(_), Event::CommandOutput(_)) => {
                engine.phase = Phase::Reconnecting;
                engine
            },
            (Phase::PoweringOn(device), Event::CommandFailed(_)) => {
                engine.phase = Phase::PoweringOn(device);
                engine.recovery_abandoned()
            },
            (Phase::Reconnecting, Event::Elapsed) => {
                engine.phase = Phase::Reconnecting;
                engine.second_pass()
            },
            (phase, _) => {
                engine.phase = phase;
                engine
            },
        }
    }
}

} // verus!
