//! The host loop: the engine's actions are performed by the collaborators,
//! and what they bring back is handed to the engine, until the run is over.

use vstd::prelude::*;
use vstd::string::*;
use crate::cancel::CancelFlag;
use crate::classify::{HttpReply, TransportError};
use crate::config::{detection_config, macos_config, Options, PlatformConfig};
use crate::engine::{Action, ActionView, Engine, EngineView, Event, EventView, PhaseView};
use crate::error::{ErrorView, ReauthfiError};
use crate::guarantees::{
    a_run_is_bounded, every_answer_brings_the_end_closer, on_course, pass_cost, steps_left,
};
use crate::host::{PortalOpenerService, SystemCommandRunner};
use crate::orchestrator::{ExecutionStatus, Verdict};

verus! {

/// Sends HTTP requests. Redirects are not followed: the engine reads them
/// itself.
pub trait NetworkClient {
    /// Replaces the client by a fresh one with these timeouts, in seconds.
    /// The error is the reason in words.
    fn build(&mut self, request_timeout: u64, connect_timeout: u64) -> Result<(), String>;

    /// Sends a GET request and waits at most `timeout` seconds for the head
    /// of the reply.
    fn get(&mut self, url: &str, timeout: u64) -> Result<HttpReply, TransportError>;

    /// Reads the body of the reply that `get` brought last; `None` where it
    /// cannot be read.
    fn read_body(&mut self) -> Option<String>;
}

/// Runs shell commands. A command that cannot be started, or that ends
/// without success, is an error.
pub trait CommandRunner {
    fn run(&mut self, argv: &Vec<String>) -> Result<String, ReauthfiError>;
}

/// Opens a portal page for the user.
pub trait PortalOpener {
    fn open(&mut self, url: &str) -> Result<(), ReauthfiError>;
}

/// Lets time pass.
pub trait Clock {
    fn wait(&mut self, seconds: u64);
}

/// Tells the user how the run goes on. Nothing that is told has any bearing
/// on the run.
pub trait Narrator {
    /// Called before an action is performed.
    fn before(&mut self, action: &Action);

    /// Called after an event is taken in, with the run as it stands then.
    fn after(&mut self, engine: &Engine);
}

/// The run after the events of `trace` are handed in, in order; each comes
/// with the cancel flag as polled then.
pub open spec fn replay(start: EngineView, trace: Seq<(EventView, bool)>) -> EngineView
    decreases trace.len(),
{
    if trace.len() == 0 {
        start
    } else {
        replay(start, trace.drop_last()).handle(trace.last().0, trace.last().1)
    }
}

/// Whether each event of `trace` answers the action that the run waits for
/// when the event comes.
pub open spec fn answers_in_turn(start: EngineView, trace: Seq<(EventView, bool)>) -> bool {
    forall|k: int|
        0 <= k < trace.len() ==> (#[trigger] replay(start, trace.take(k))).answered_by(trace[k].0)
}

/// Whether `result` is what the run `end` ended with.
pub open spec fn ended_with(end: EngineView, result: Result<Verdict, ReauthfiError>) -> bool {
    match end.phase {
        PhaseView::Finished(verdict) => result matches Ok(given) && given@ == verdict,
        PhaseView::Failed(error) => result matches Err(given) && given@ == error,
        _ => false,
    }
}

/// Performs `action` through the collaborators and makes an event of what
/// they bring back. `None` for the action that ends the run.
pub fn perform<H: NetworkClient + CommandRunner + PortalOpener + Clock>(
    host: &mut H,
    action: Action,
) -> (event: Option<Event>)
    ensures
        event is None <==> action@ is Finish,
        event matches Some(given) ==> match action@ {
            ActionView::BuildClient { .. } => given@ is ClientReady || given@ is ClientFailed,
            ActionView::RunCommand(_) => given@ is CommandOutput || given@ is CommandFailed,
            ActionView::Probe { .. } => given@ is Reply || given@ is TransportFailed,
            ActionView::ReadBody => given@ is BodyText || given@ is BodyUnreadable,
            ActionView::OpenPortal(_) => given@ is PortalOpened || given@ is PortalOpenFailed,
            ActionView::Wait(_) => given@ is Elapsed,
            ActionView::Finish => false,
        },
{
    match action {
        Action::BuildClient { request_timeout, connect_timeout } => {
            match host.build(request_timeout, connect_timeout) {
                Ok(_) => Some(Event::ClientReady),
                Err(reason) => Some(Event::ClientFailed(reason)),
            }
        },
        Action::RunCommand(argv) => Some(SystemCommandRunner::event(host.run(&argv))),
        Action::Probe { url, timeout } => {
            match host.get(url.as_str(), timeout) {
                Ok(reply) => Some(Event::Reply(reply)),
                Err(error) => Some(Event::TransportFailed(error)),
            }
        },
        Action::ReadBody => {
            match host.read_body() {
                Some(text) => Some(Event::BodyText(text)),
                None => Some(Event::BodyUnreadable),
            }
        },
        Action::OpenPortal(url) => Some(PortalOpenerService::event(host.open(url.as_str()))),
        Action::Wait(seconds) => {
            host.wait(seconds);
            Some(Event::Elapsed)
        },
        Action::Finish => None,
    }
}

/// Runs the engine to its end: each pending action is performed through
/// `host`, and the event it brings is handed in together with the cancel
/// flag as polled then.
///
/// What the collaborators bring back is theirs to decide. Whatever it is,
/// the run ends, after no more events than a run is bounded by; each event
/// answers the action that was pending, and the result is what the engine
/// makes of the events that came.
pub fn run_with<H: NetworkClient + CommandRunner + PortalOpener + Clock + Narrator>(
    config: PlatformConfig,
    options: Options,
    cancel: &CancelFlag,
    host: &mut H,
) -> (result: Result<Verdict, ReauthfiError>)
    ensures
        exists|trace: Seq<(EventView, bool)>|
            {
                &&& trace.len() <= 2 * pass_cost(config@) + 5
                &&& answers_in_turn(EngineView::start(config@, options), trace)
                &&& #[trigger] ended_with(
                    replay(EngineView::start(config@, options), trace),
                    result,
                )
            },
{
    let ghost start = EngineView::start(config@, options);
    let ghost bound = steps_left(start);
    let ghost mut trace: Seq<(EventView, bool)> = Seq::empty();
    let mut engine = Engine::new(config, options);
    proof {
        a_run_is_bounded(start.config, start.options);
    }
    loop
        invariant
            on_course(engine@),
            engine@ == replay(start, trace),
            answers_in_turn(start, trace),
            trace.len() + steps_left(engine@) <= bound,
            bound <= 2 * pass_cost(start.config) + 5,
            start == EngineView::start(config@, options),
        decreases steps_left(engine@),
    {
        let action = engine.pending();
        host.before(&action);
        match perform(host, action) {
            None => {
                let result = engine.into_result();
                match result {
                    Some(given) => {
                        assert(ended_with(replay(start, trace), given));
                        return given;
                    },
                    None => {
                        assert(false);
                        return Err(ReauthfiError::NotFound);
                    },
                }
            },
            Some(event) => {
                let canceled = cancel.is_set();
                proof {
                    every_answer_brings_the_end_closer(engine@, event@, canceled);
                    let longer = trace.push((event@, canceled));
                    assert(longer.drop_last() =~= trace);
                    assert forall|k: int| 0 <= k < longer.len() implies (#[trigger] replay(
                        start,
                        longer.take(k),
                    )).answered_by(longer[k].0) by {
                        if k < trace.len() {
                            assert(longer.take(k) =~= trace.take(k));
                        } else {
                            assert(longer.take(k) =~= trace);
                        }
                    }
                    trace = longer;
                }
                engine = engine.handle(event, canceled);
                host.after(&engine);
            },
        }
    }
}

/// Detects a captive portal on the operating system called `os_name` and
/// has it opened: the platform's configuration is looked up, and the engine
/// is run to its end through `host`.
///
/// An unknown operating system is an error before anything is done. On a
/// known one the status is that of the verdict that [`run_with`] reaches.
pub fn run<H: NetworkClient + CommandRunner + PortalOpener + Clock + Narrator>(
    options: &Options,
    os_name: &str,
    cancel: &CancelFlag,
    host: &mut H,
) -> (result: Result<ExecutionStatus, ReauthfiError>)
    ensures
        os_name@ != "macos"@ ==> (result matches Err(error) && error@
            == ErrorView::UnsupportedPlatform),
        os_name@ == "macos"@ ==> exists|trace: Seq<(EventView, bool)>|
            {
                let end = #[trigger] replay(
                    EngineView::start(macos_config(), *options),
                    trace,
                );
                &&& trace.len() <= 2 * pass_cost(macos_config()) + 5
                &&& match end.phase {
                    PhaseView::Finished(verdict) => result == Ok::<
                        ExecutionStatus,
                        ReauthfiError,
                    >(verdict.status),
                    PhaseView::Failed(error) => result matches Err(given) && given@ == error,
                    _ => false,
                }
            },
{
    let config = match detection_config(os_name) {
        Ok(config) => config,
        Err(error) => {
            return Err(error);
        },
    };
    let chosen = Options {
        verbose: options.verbose,
        no_open: options.no_open,
        gateway: options.gateway,
        timeout: options.timeout,
    };
    let ghost start = EngineView::start(config@, chosen);
    match run_with(config, chosen, cancel, host) {
        Ok(verdict) => {
            proof {
                let trace = choose|trace: Seq<(EventView, bool)>|
                    {
                        &&& trace.len() <= 2 * pass_cost(start.config) + 5
                        &&& #[trigger] ended_with(
                            replay(start, trace),
                            Ok::<Verdict, ReauthfiError>(verdict),
                        )
                    };
                assert(replay(start, trace).phase is Finished);
            }
            Ok(verdict.status)
        },
        Err(error) => {
            proof {
                let trace = choose|trace: Seq<(EventView, bool)>|
                    {
                        &&& trace.len() <= 2 * pass_cost(start.config) + 5
                        &&& #[trigger] ended_with(
                            replay(start, trace),
                            Err::<Verdict, ReauthfiError>(error),
                        )
                    };
                assert(replay(start, trace).phase is Failed);
            }
            Err(error)
        },
    }
}

} // verus!
