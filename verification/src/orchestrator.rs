//! The orchestrator: the strategies' results, taken in priority order, become
//! the verdict of one pass.

use vstd::prelude::*;
use vstd::string::*;
use crate::config::{strategy_at, strategy_in_order, StrategyKind};
use crate::detection::{clone_strings, DetectionResult, DetectionResultView};

verus! {

/// The engine's final word on the network.
#[derive(Debug, Clone, Copy, PartialEq, Eq, Structural)]
pub enum ExecutionStatus {
    /// A portal was found and handled, or no portal stands in the way.
    Completed,
    /// Every strategy failed on the network itself.
    NetworkNotReady,
}

/// What a pass, or a whole run, ends with.
#[derive(Debug)]
pub struct Verdict {
    pub status: ExecutionStatus,
    /// The portal's entry address, where one was found.
    pub portal_url: Option<String>,
    /// The diagnostics, where the network is not ready.
    pub errors: Vec<String>,
}

/// The mathematical value of a [`Verdict`].
pub struct VerdictView {
    pub status: ExecutionStatus,
    pub portal_url: Option<Seq<char>>,
    pub errors: Seq<Seq<char>>,
}

impl View for Verdict {
    type V = VerdictView;

    open spec fn view(&self) -> VerdictView {
        VerdictView {
            status: self.status,
            portal_url: self.portal_url.deep_view(),
            errors: self.errors.deep_view(),
        }
    }
}

impl DeepView for Verdict {
    type V = VerdictView;

    open spec fn deep_view(&self) -> VerdictView {
        self@
    }
}

/// Completed, with the portal at `url`.
pub open spec fn portal_verdict(url: Seq<char>) -> VerdictView {
    VerdictView {
        status: ExecutionStatus::Completed,
        portal_url: Some(url),
        errors: Seq::empty(),
    }
}

/// Completed, with no portal in the way.
pub open spec fn clear_verdict() -> VerdictView {
    VerdictView { status: ExecutionStatus::Completed, portal_url: None, errors: Seq::empty() }
}

/// Network not ready, with these diagnostics.
pub open spec fn not_ready_verdict(errors: Seq<Seq<char>>) -> VerdictView {
    VerdictView { status: ExecutionStatus::NetworkNotReady, portal_url: None, errors }
}

/// The verdict once every strategy has reported without a portal: one
/// strategy that saw no portal settles it, whatever another one failed on;
/// without one, failures make the network not ready; with neither, nothing
/// stands in the way.
pub open spec fn pass_conclusion(
    any_success: bool,
    saw_error: bool,
    errors: Seq<Seq<char>>,
) -> VerdictView {
    if any_success {
        clear_verdict()
    } else if saw_error {
        not_ready_verdict(errors)
    } else {
        clear_verdict()
    }
}

/// The verdict of a pass that stands before the strategy at place `next`,
/// where `results[i]` is what the strategy at place `i` reports.
pub open spec fn verdict_from(
    results: Seq<DetectionResultView>,
    next: int,
    any_success: bool,
    saw_error: bool,
    errors: Seq<Seq<char>>,
) -> VerdictView
    decreases results.len() - next,
{
    if next < 0 || next >= results.len() {
        pass_conclusion(any_success, saw_error, errors)
    } else {
        match results[next] {
            DetectionResultView::PortalFound(url) => portal_verdict(url),
            DetectionResultView::NoPortalDetected => verdict_from(
                results,
                next + 1,
                true,
                saw_error,
                errors,
            ),
            DetectionResultView::NetworkIssues(list) => verdict_from(
                results,
                next + 1,
                any_success,
                true,
                errors + list,
            ),
        }
    }
}

/// The verdict of one pass, where `results[i]` is what the strategy at place
/// `i` of the priority order reports, or would report. The first portal ends
/// the pass.
pub open spec fn pass_verdict(results: Seq<DetectionResultView>) -> VerdictView {
    verdict_from(results, 0, false, false, Seq::empty())
}

/// A pass in progress.
#[derive(Debug)]
pub struct Orchestrator {
    /// Whether the gateway strategy comes first.
    pub gateway_first: bool,
    /// How many strategies have reported.
    pub consulted: u8,
    /// Whether a strategy saw no portal.
    pub any_success: bool,
    /// Whether a strategy failed on the network.
    pub saw_error: bool,
    /// The diagnostics of the strategies that failed, in order.
    pub all_errors: Vec<String>,
}

/// The mathematical value of an [`Orchestrator`].
pub struct OrchestratorView {
    pub gateway_first: bool,
    pub consulted: nat,
    pub any_success: bool,
    pub saw_error: bool,
    pub all_errors: Seq<Seq<char>>,
}

impl View for Orchestrator {
    type V = OrchestratorView;

    open spec fn view(&self) -> OrchestratorView {
        OrchestratorView {
            gateway_first: self.gateway_first,
            consulted: self.consulted as nat,
            any_success: self.any_success,
            saw_error: self.saw_error,
            all_errors: self.all_errors.deep_view(),
        }
    }
}

impl OrchestratorView {
    /// A pass at its start.
    pub open spec fn start(gateway_first: bool) -> OrchestratorView {
        OrchestratorView {
            gateway_first,
            consulted: 0,
            any_success: false,
            saw_error: false,
            all_errors: Seq::empty(),
        }
    }

    /// The strategy whose turn it is, if one is left.
    pub open spec fn current(self) -> Option<StrategyKind> {
        strategy_at(self.gateway_first, self.consulted)
    }

    /// The pass after the current strategy's result is taken in. A portal
    /// leaves the pass where it is; with no strategy left the result is
    /// dropped.
    pub open spec fn absorb(self, result: DetectionResultView) -> OrchestratorView {
        if self.current() is None {
            self
        } else {
            match result {
                DetectionResultView::PortalFound(_) => self,
                DetectionResultView::NoPortalDetected => OrchestratorView {
                    consulted: self.consulted + 1,
                    any_success: true,
                    ..self
                },
                DetectionResultView::NetworkIssues(list) => OrchestratorView {
                    consulted: self.consulted + 1,
                    saw_error: true,
                    all_errors: self.all_errors + list,
                    ..self
                },
            }
        }
    }

    /// The verdict of the pass as it stands, should no strategy find a
    /// portal any more.
    pub open spec fn conclusion(self) -> VerdictView {
        pass_conclusion(self.any_success, self.saw_error, self.all_errors)
    }
}

/// The verdict of a portal at `url`.
pub fn portal_found(url: String) -> (verdict: Verdict)
    ensures
        verdict@ == portal_verdict(url@),
{
    let verdict = Verdict {
        status: ExecutionStatus::Completed,
        portal_url: Some(url),
        errors: Vec::new(),
    };
    assert(verdict.errors.deep_view() =~= Seq::empty());
    verdict
}

/// The verdict of a pass without a portal.
pub fn conclude(any_success: bool, saw_error: bool, errors: Vec<String>) -> (verdict: Verdict)
    ensures
        verdict@ == pass_conclusion(any_success, saw_error, errors.deep_view()),
{
    if !any_success && saw_error {
        Verdict { status: ExecutionStatus::NetworkNotReady, portal_url: None, errors }
    } else {
        let verdict = Verdict {
            status: ExecutionStatus::Completed,
            portal_url: None,
            errors: Vec::new(),
        };
        assert(verdict.errors.deep_view() =~= Seq::empty());
        verdict
    }
}

/// Appends `more` to `list`.
pub fn extend_strings(list: &mut Vec<String>, more: Vec<String>)
    ensures
        final(list).deep_view() == old(list).deep_view() + more.deep_view(),
{
    let mut more = more;
    list.append(&mut more);
}

impl Orchestrator {
    /// A pass at its start.
    pub fn new(gateway_first: bool) -> (pass: Orchestrator)
        ensures
            pass@ == OrchestratorView::start(gateway_first),
    {
        let pass = Orchestrator {
            gateway_first,
            consulted: 0,
            any_success: false,
            saw_error: false,
            all_errors: Vec::new(),
        };
        assert(pass.all_errors.deep_view() =~= Seq::empty());
        pass
    }

    /// The strategy whose turn it is, if one is left.
    pub fn current(&self) -> (kind: Option<StrategyKind>)
        ensures
            kind == self@.current(),
    {
        strategy_in_order(self.gateway_first, self.consulted as usize)
    }

    /// Takes in the result of the current strategy. Returns the portal
    /// address where the result ends the pass.
    pub fn absorb(&mut self, result: DetectionResult) -> (portal: Option<String>)
        ensures
            final(self)@ == old(self)@.absorb(result@),
            portal.deep_view() == (if old(self)@.current() is Some {
                match result@ {
                    DetectionResultView::PortalFound(url) => Some(url),
                    _ => None,
                }
            } else {
                None
            }),
    {
        if self.current().is_none() {
            return None;
        }
        match result {
            DetectionResult::PortalFound(url) => Some(url),
            DetectionResult::NoPortalDetected => {
                self.any_success = true;
                self.consulted = self.consulted + 1;
                None
            },
            DetectionResult::NetworkIssues(list) => {
                self.saw_error = true;
                extend_strings(&mut self.all_errors, list);
                self.consulted = self.consulted + 1;
                None
            },
        }
    }

    /// The verdict of the pass as it stands.
    pub fn conclusion(&self) -> (verdict: Verdict)
        ensures
            verdict@ == self@.conclusion(),
    {
        conclude(self.any_success, self.saw_error, clone_strings(&self.all_errors))
    }
}

/// The verdict of one pass, replayed from the strategies' results in
/// priority order. The first portal ends the pass; later results play no
/// part.
#[verifier::loop_isolation(false)]
pub fn detect_portal(results: Vec<DetectionResult>) -> (verdict: Verdict)
    ensures
        verdict@ == pass_verdict(results.deep_view()),
{
    let ghost all = results.deep_view();
    let mut any_success = false;
    let mut saw_error = false;
    let mut errors: Vec<String> = Vec::new();
    assert(errors.deep_view() =~= Seq::empty());
    for result in it: results
        invariant
            all.len() == it.seq().len(),
            forall|k: int| 0 <= k < all.len() ==> all[k] == it.seq()[k]@,
            pass_verdict(all) == verdict_from(
                all,
                it.index() as int,
                any_success,
                saw_error,
                errors.deep_view(),
            ),
    {
        assert(result@ == all[it.index() as int]);
        match result {
            DetectionResult::PortalFound(url) => {
                return portal_found(url);
            },
            DetectionResult::NoPortalDetected => {
                any_success = true;
            },
            DetectionResult::NetworkIssues(list) => {
                saw_error = true;
                extend_strings(&mut errors, list);
            },
        }
    }
    conclude(any_success, saw_error, errors)
}

proof fn lemma_first_portal(
    results: Seq<DetectionResultView>,
    next: int,
    any_success: bool,
    saw_error: bool,
    errors: Seq<Seq<char>>,
    at: int,
    url: Seq<char>,
)
    requires
        0 <= next <= at < results.len(),
        results[at] == DetectionResultView::PortalFound(url),
        forall|k: int| next <= k < at ==> !(results[k] is PortalFound),
    ensures
        verdict_from(results, next, any_success, saw_error, errors) == portal_verdict(url),
    decreases at - next,
{
    if next < at {
        match results[next] {
            DetectionResultView::PortalFound(_) => {},
            DetectionResultView::NoPortalDetected => {
                lemma_first_portal(results, next + 1, true, saw_error, errors, at, url);
            },
            DetectionResultView::NetworkIssues(list) => {
                lemma_first_portal(results, next + 1, any_success, true, errors + list, at, url);
            },
        }
    }
}

proof fn lemma_clean_from(
    results: Seq<DetectionResultView>,
    next: int,
    any_success: bool,
    saw_error: bool,
    errors: Seq<Seq<char>>,
)
    requires
        0 <= next,
        forall|k: int| next <= k < results.len() ==> !(results[k] is PortalFound),
        any_success || exists|k: int| next <= k < results.len() && results[k] is NoPortalDetected,
    ensures
        verdict_from(results, next, any_success, saw_error, errors) == clear_verdict(),
    decreases results.len() - next,
{
    if next < results.len() {
        match results[next] {
            DetectionResultView::PortalFound(_) => {},
            DetectionResultView::NoPortalDetected => {
                lemma_clean_from(results, next + 1, true, saw_error, errors);
            },
            DetectionResultView::NetworkIssues(list) => {
                lemma_clean_from(results, next + 1, any_success, true, errors + list);
            },
        }
    }
}

/// The first strategy that finds a portal ends the pass: the verdict is
/// completed with that address, whatever the strategies before it failed on
/// and whatever the strategies after it would report.
pub proof fn first_portal_ends_the_pass(
    results: Seq<DetectionResultView>,
    at: int,
    url: Seq<char>,
)
    requires
        0 <= at < results.len(),
        results[at] == DetectionResultView::PortalFound(url),
        forall|k: int| 0 <= k < at ==> !(results[k] is PortalFound),
    ensures
        pass_verdict(results) == portal_verdict(url),
        pass_verdict(results).status == ExecutionStatus::Completed,
        pass_verdict(results) == pass_verdict(results.take(at + 1)),
{
    lemma_first_portal(results, 0, false, false, Seq::empty(), at, url);
    let cut = results.take(at + 1);
    assert(cut[at] == results[at]);
    assert forall|k: int| 0 <= k < at implies !(cut[k] is PortalFound) by {
        assert(cut[k] == results[k]);
    }
    lemma_first_portal(cut, 0, false, false, Seq::empty(), at, url);
}

/// Where no strategy finds a portal and one of them sees none, the verdict
/// is completed, whatever another strategy failed on.
pub proof fn clean_result_outweighs_issues(results: Seq<DetectionResultView>, clean: int)
    requires
        forall|k: int| 0 <= k < results.len() ==> !(results[k] is PortalFound),
        0 <= clean < results.len(),
        results[clean] is NoPortalDetected,
    ensures
        pass_verdict(results) == clear_verdict(),
{
    lemma_clean_from(results, 0, false, false, Seq::empty());
}

/// Where both strategies fail on the network, the network is not ready, and
/// the verdict carries the diagnostics of both, in order.
pub proof fn two_failures_make_not_ready(first: Seq<Seq<char>>, second: Seq<Seq<char>>)
    ensures
        pass_verdict(
            seq![
                DetectionResultView::NetworkIssues(first),
                DetectionResultView::NetworkIssues(second),
            ],
        ) == not_ready_verdict(first + second),
{
    let results = seq![
        DetectionResultView::NetworkIssues(first),
        DetectionResultView::NetworkIssues(second),
    ];
    reveal_with_fuel(verdict_from, 3);
    assert(Seq::<Seq<char>>::empty() + first =~= first);
}

/// A pass without strategies, or whose strategies all had nothing to probe,
/// is completed.
pub proof fn nothing_to_probe_is_completed()
    ensures
        pass_verdict(Seq::empty()) == clear_verdict(),
{
}

/// The orchestrator, taking in the results of its two strategies one by one,
/// comes to the verdict of the pass: the first portal ends it, and without a
/// portal its conclusion after both results is the verdict.
pub proof fn orchestrator_follows_the_pass(
    gateway_first: bool,
    first: DetectionResultView,
    second: DetectionResultView,
)
    ensures
        ({
            let begun = OrchestratorView::start(gateway_first);
            let halfway = begun.absorb(first);
            let through = halfway.absorb(second);
            let verdict = pass_verdict(seq![first, second]);
            &&& begun.current() is Some
            &&& first matches DetectionResultView::PortalFound(url) ==> verdict == portal_verdict(
                url,
            )
            &&& !(first is PortalFound) ==> halfway.current() is Some
            &&& !(first is PortalFound) ==> (second matches DetectionResultView::PortalFound(url)
                ==> verdict == portal_verdict(url))
            &&& !(first is PortalFound) && !(second is PortalFound) ==> through.current() is None
                && verdict == through.conclusion()
        }),
{
    reveal_with_fuel(verdict_from, 3);
    match first {
        DetectionResultView::NetworkIssues(list) => {
            assert(Seq::<Seq<char>>::empty() + list =~= list);
        },
        _ => {},
    }
}

} // verus!
