//! One strategy's pass over its targets: outcomes are folded in order into a
//! [`DetectionResult`].

use vstd::prelude::*;
use vstd::string::*;
use crate::classify::{DetectionTarget, Outcome, OutcomeView, TargetView};
use crate::text::{decimal, decimal_string};

verus! {

/// What one strategy found over all its targets.
#[derive(Debug)]
pub enum DetectionResult {
    PortalFound(String),
    NoPortalDetected,
    NetworkIssues(Vec<String>),
}

/// The mathematical value of a [`DetectionResult`].
pub enum DetectionResultView {
    PortalFound(Seq<char>),
    NoPortalDetected,
    NetworkIssues(Seq<Seq<char>>),
}

impl View for DetectionResult {
    type V = DetectionResultView;

    open spec fn view(&self) -> DetectionResultView {
        match self {
            DetectionResult::PortalFound(url) => DetectionResultView::PortalFound(url@),
            DetectionResult::NoPortalDetected => DetectionResultView::NoPortalDetected,
            DetectionResult::NetworkIssues(errors) => DetectionResultView::NetworkIssues(
                errors.deep_view(),
            ),
        }
    }
}

impl DeepView for DetectionResult {
    type V = DetectionResultView;

    open spec fn deep_view(&self) -> DetectionResultView {
        self@
    }
}

/// The diagnostic of a run that was canceled.
pub open spec fn canceled_text() -> Seq<char> {
    seq!['c', 'a', 'n', 'c', 'e', 'l', 'e', 'd']
}

/// The diagnostic of a reply with an unexpected status: the target's name,
/// `": status "`, and the status in decimal.
pub open spec fn mismatch_text(name: Seq<char>, status: u16) -> Seq<char> {
    name + seq![':', ' ', 's', 't', 'a', 't', 'u', 's', ' '] + decimal(status as nat)
}

/// What one target showed: the cancel flag as polled before the probe, and
/// what the probe gave (or would have given).
#[derive(Debug)]
pub struct Observation {
    pub canceled: bool,
    pub outcome: Outcome,
}

/// The mathematical value of an [`Observation`].
pub struct ObservationView {
    pub canceled: bool,
    pub outcome: OutcomeView,
}

impl View for Observation {
    type V = ObservationView;

    open spec fn view(&self) -> ObservationView {
        ObservationView { canceled: self.canceled, outcome: self.outcome@ }
    }
}

impl DeepView for Observation {
    type V = ObservationView;

    open spec fn deep_view(&self) -> ObservationView {
        self@
    }
}

/// The result once no target is left: a healthy endpoint outweighs any
/// diagnostics; without one, diagnostics make the result; with neither, no
/// portal was seen.
pub open spec fn conclusion(errors: Seq<Seq<char>>, saw_expected_ok: bool) -> DetectionResultView {
    if saw_expected_ok {
        DetectionResultView::NoPortalDetected
    } else if errors.len() > 0 {
        DetectionResultView::NetworkIssues(errors)
    } else {
        DetectionResultView::NoPortalDetected
    }
}

/// The result of a pass that stands before target `next` with `errors`
/// collected and `saw_expected_ok` noted, where `seen[i]` is what target `i`
/// shows. There is none where a target is reached of which `seen` says
/// nothing.
pub open spec fn detect_from(
    targets: Seq<TargetView>,
    seen: Seq<ObservationView>,
    next: int,
    errors: Seq<Seq<char>>,
    saw_expected_ok: bool,
) -> Option<DetectionResultView>
    decreases targets.len() - next,
{
    if next < 0 || next >= targets.len() {
        Some(conclusion(errors, saw_expected_ok))
    } else if next >= seen.len() {
        None
    } else if seen[next].canceled {
        Some(DetectionResultView::NetworkIssues(seq![canceled_text()]))
    } else {
        match seen[next].outcome {
            OutcomeView::Portal(url) => Some(DetectionResultView::PortalFound(url)),
            OutcomeView::ExpectedOk => detect_from(targets, seen, next + 1, errors, true),
            OutcomeView::Mismatch(status) => detect_from(
                targets,
                seen,
                next + 1,
                errors.push(mismatch_text(targets[next].name, status)),
                saw_expected_ok,
            ),
            OutcomeView::Issue(message) => detect_from(
                targets,
                seen,
                next + 1,
                errors.push(message),
                saw_expected_ok,
            ),
        }
    }
}

/// The result of one strategy over `targets`, where `seen[i]` is what target
/// `i` shows. Targets are taken in order; the first canceled poll or portal
/// ends the pass, and what later targets would show plays no part.
pub open spec fn detection_result(
    targets: Seq<TargetView>,
    seen: Seq<ObservationView>,
) -> Option<DetectionResultView> {
    detect_from(targets, seen, 0, Seq::empty(), false)
}

/// A pass in progress.
#[derive(Debug)]
pub struct DetectionRun {
    pub targets: Vec<DetectionTarget>,
    /// Index of the target that is probed next.
    pub next: usize,
    /// Diagnostics collected so far.
    pub errors: Vec<String>,
    /// Whether some target confirmed open access.
    pub saw_expected_ok: bool,
}

/// The mathematical value of a [`DetectionRun`].
pub struct RunView {
    pub targets: Seq<TargetView>,
    pub next: nat,
    pub errors: Seq<Seq<char>>,
    pub saw_expected_ok: bool,
}

impl View for DetectionRun {
    type V = RunView;

    open spec fn view(&self) -> RunView {
        RunView {
            targets: self.targets.deep_view(),
            next: self.next as nat,
            errors: self.errors.deep_view(),
            saw_expected_ok: self.saw_expected_ok,
        }
    }
}

/// What a pass asks for next.
#[derive(Debug)]
pub enum RunStep {
    /// Probe this target, the next in order.
    Probe(DetectionTarget),
    /// The pass is over, with this result.
    Done(DetectionResult),
}

/// The mathematical value of a [`RunStep`].
pub enum RunStepView {
    Probe(TargetView),
    Done(DetectionResultView),
}

impl View for RunStep {
    type V = RunStepView;

    open spec fn view(&self) -> RunStepView {
        match self {
            RunStep::Probe(target) => RunStepView::Probe(target@),
            RunStep::Done(result) => RunStepView::Done(result@),
        }
    }
}

impl RunView {
    /// A pass at its start.
    pub open spec fn start(targets: Seq<TargetView>) -> RunView {
        RunView { targets, next: 0, errors: Seq::empty(), saw_expected_ok: false }
    }

    /// Whether a target is left to probe.
    pub open spec fn has_target(self) -> bool {
        self.next < self.targets.len()
    }

    /// What the pass asks for, given the cancel flag as polled now: its
    /// conclusion when no target is left, else the canceled result when the
    /// flag is set, else the next probe.
    pub open spec fn step(self, canceled: bool) -> RunStepView {
        if !self.has_target() {
            RunStepView::Done(conclusion(self.errors, self.saw_expected_ok))
        } else if canceled {
            RunStepView::Done(DetectionResultView::NetworkIssues(seq![canceled_text()]))
        } else {
            RunStepView::Probe(self.targets[self.next as int])
        }
    }

    /// The pass after the outcome of the current target is taken in. A portal
    /// leaves the pass where it is; anything else moves on to the next target.
    /// With no target left the outcome is dropped.
    pub open spec fn record(self, outcome: OutcomeView) -> RunView {
        if !self.has_target() {
            self
        } else {
            match outcome {
                OutcomeView::Portal(_) => self,
                OutcomeView::ExpectedOk => RunView {
                    next: self.next + 1,
                    saw_expected_ok: true,
                    ..self
                },
                OutcomeView::Mismatch(status) => RunView {
                    next: self.next + 1,
                    errors: self.errors.push(
                        mismatch_text(self.targets[self.next as int].name, status),
                    ),
                    ..self
                },
                OutcomeView::Issue(message) => RunView {
                    next: self.next + 1,
                    errors: self.errors.push(message),
                    ..self
                },
            }
        }
    }

    /// The portal address that ends the pass when `outcome` is taken in, if
    /// it does.
    pub open spec fn portal(self, outcome: OutcomeView) -> Option<Seq<char>> {
        match outcome {
            OutcomeView::Portal(url) if self.has_target() => Some(url),
            _ => None,
        }
    }
}

/// The one-item diagnostics of a canceled pass.
pub fn canceled_issues() -> (result: DetectionResult)
    ensures
        result@ == DetectionResultView::NetworkIssues(seq![canceled_text()]),
{
    let mut errors: Vec<String> = Vec::new();
    let text = String::from_str("canceled");
    proof {
        reveal_strlit("canceled");
        assert(text@ =~= canceled_text());
    }
    errors.push(text);
    assert(errors.deep_view() =~= seq![canceled_text()]);
    DetectionResult::NetworkIssues(errors)
}

/// Copies a list of strings.
pub fn clone_strings(list: &Vec<String>) -> (copy: Vec<String>)
    ensures
        copy.deep_view() == list.deep_view(),
{
    let mut copy: Vec<String> = Vec::new();
    let mut i: usize = 0;
    while i < list.len()
        invariant
            i <= list.len(),
            copy.deep_view() == list.deep_view().take(i as int),
        decreases list.len() - i,
    {
        let ghost before = copy.deep_view();
        let item = list[i].clone();
        copy.push(item);
        assert(copy.deep_view() =~= before.push(item@));
        assert(list.deep_view()[i as int] == list[i as int]@);
        assert(before.push(item@) =~= list.deep_view().take(i as int + 1));
        i = i + 1;
    }
    assert(list.deep_view().take(i as int) =~= list.deep_view());
    copy
}

impl DetectionRun {
    /// A pass over `targets`, with nothing probed yet.
    pub fn new(targets: Vec<DetectionTarget>) -> (run: DetectionRun)
        ensures
            run@ == RunView::start(targets.deep_view()),
    {
        let run = DetectionRun { targets, next: 0, errors: Vec::new(), saw_expected_ok: false };
        assert(run.errors.deep_view() =~= Seq::empty());
        run
    }

    /// The target that is probed next, if one is left.
    pub fn current(&self) -> (target: Option<&DetectionTarget>)
        ensures
            target is Some == self@.has_target(),
            target matches Some(t) ==> t@ == self@.targets[self@.next as int],
    {
        if self.next < self.targets.len() {
            Some(&self.targets[self.next])
        } else {
            None
        }
    }

    /// What the pass asks for next; `canceled` is the cancel flag as polled
    /// now.
    pub fn step(&self, canceled: bool) -> (step: RunStep)
        ensures
            step@ == self@.step(canceled),
    {
        if self.next >= self.targets.len() {
            if self.saw_expected_ok {
                RunStep::Done(DetectionResult::NoPortalDetected)
            } else if self.errors.len() > 0 {
                RunStep::Done(DetectionResult::NetworkIssues(clone_strings(&self.errors)))
            } else {
                RunStep::Done(DetectionResult::NoPortalDetected)
            }
        } else if canceled {
            RunStep::Done(canceled_issues())
        } else {
            RunStep::Probe(self.targets[self.next].duplicate())
        }
    }

    /// Takes in the outcome of the current target. Returns the portal address
    /// where the outcome ends the pass.
    pub fn record(&mut self, outcome: Outcome) -> (portal: Option<String>)
        ensures
            final(self)@ == old(self)@.record(outcome@),
            portal.deep_view() == old(self)@.portal(outcome@),
    {
        if self.next >= self.targets.len() {
            return None;
        }
        match outcome {
            Outcome::Portal(url) => Some(url),
            Outcome::ExpectedOk => {
                self.saw_expected_ok = true;
                self.next = self.next + 1;
                None
            },
            Outcome::Mismatch(status) => {
                let mut message = self.targets[self.next].name.clone();
                message.append(": status ");
                let digits = decimal_string(status as u64);
                message.append(digits.as_str());
                proof {
                    reveal_strlit(": status ");
                    assert(message@ =~= mismatch_text(
                        old(self)@.targets[old(self)@.next as int].name,
                        status,
                    ));
                }
                self.errors.push(message);
                self.next = self.next + 1;
                assert(self.errors.deep_view() =~= old(self).errors.deep_view().push(message@));
                None
            },
            Outcome::Issue(message) => {
                self.errors.push(message);
                self.next = self.next + 1;
                assert(self.errors.deep_view() =~= old(self).errors.deep_view().push(message@));
                None
            },
        }
    }
}

/// One strategy's pass over `targets`, replayed from what was recorded:
/// `seen[i]` holds the cancel flag as polled before target `i` and the
/// outcome of its probe. `None` where the pass reaches a target of which
/// `seen` says nothing.
#[verifier::loop_isolation(false)]
pub fn run_detection(targets: Vec<DetectionTarget>, seen: Vec<Observation>) -> (result: Option<
    DetectionResult,
>)
    ensures
        result.deep_view() == detection_result(targets.deep_view(), seen.deep_view()),
        seen.len() >= targets.len() ==> result is Some,
{
    let ghost all = targets.deep_view();
    let ghost shown = seen.deep_view();
    let mut run = DetectionRun::new(targets);
    for observation in it: seen
        invariant
            run@.targets == all,
            run@.next == it.index() || !run@.has_target(),
            run@.next <= it.index(),
            shown.len() == it.seq().len(),
            forall|k: int| 0 <= k < shown.len() ==> shown[k] == it.seq()[k]@,
            detection_result(all, shown) == detect_from(
                all,
                shown,
                run@.next as int,
                run@.errors,
                run@.saw_expected_ok,
            ),
    {
        assert(observation@ == shown[it.index() as int]);
        if run.current().is_some() {
            if observation.canceled {
                return Some(canceled_issues());
            }
            if let Some(url) = run.record(observation.outcome) {
                return Some(DetectionResult::PortalFound(url));
            }
        }
    }
    match run.step(false) {
        RunStep::Done(result) => Some(result),
        RunStep::Probe(_) => None,
    }
}

/// Whether target `k` neither cancels the pass nor shows a portal.
pub open spec fn passes_quietly(seen: Seq<ObservationView>, k: int) -> bool {
    &&& 0 <= k < seen.len()
    &&& !seen[k].canceled
    &&& !(seen[k].outcome is Portal)
}

proof fn lemma_first_stop(
    targets: Seq<TargetView>,
    seen: Seq<ObservationView>,
    next: int,
    errors: Seq<Seq<char>>,
    saw_expected_ok: bool,
    stop: int,
)
    requires
        0 <= next <= stop < targets.len(),
        stop < seen.len(),
        forall|k: int| next <= k < stop ==> passes_quietly(seen, k),
    ensures
        seen[stop].canceled ==> detect_from(targets, seen, next, errors, saw_expected_ok) == Some(
            DetectionResultView::NetworkIssues(seq![canceled_text()]),
        ),
        !seen[stop].canceled ==> (seen[stop].outcome matches OutcomeView::Portal(url)
            ==> detect_from(targets, seen, next, errors, saw_expected_ok) == Some(
            DetectionResultView::PortalFound(url),
        )),
    decreases stop - next,
{
    if next < stop {
        assert(passes_quietly(seen, next));
        match seen[next].outcome {
            OutcomeView::Portal(_) => {},
            OutcomeView::ExpectedOk => {
                lemma_first_stop(targets, seen, next + 1, errors, true, stop);
            },
            OutcomeView::Mismatch(status) => {
                lemma_first_stop(
                    targets,
                    seen,
                    next + 1,
                    errors.push(mismatch_text(targets[next].name, status)),
                    saw_expected_ok,
                    stop,
                );
            },
            OutcomeView::Issue(message) => {
                lemma_first_stop(
                    targets,
                    seen,
                    next + 1,
                    errors.push(message),
                    saw_expected_ok,
                    stop,
                );
            },
        }
    }
}

proof fn lemma_issues_from(
    targets: Seq<TargetView>,
    seen: Seq<ObservationView>,
    next: int,
    errors: Seq<Seq<char>>,
    saw_expected_ok: bool,
)
    ensures
        detect_from(targets, seen, next, errors, saw_expected_ok) matches Some(
            DetectionResultView::NetworkIssues(list),
        ) ==> list.len() > 0,
    decreases targets.len() - next,
{
    if 0 <= next < targets.len() && next < seen.len() && !seen[next].canceled {
        match seen[next].outcome {
            OutcomeView::Portal(_) => {},
            OutcomeView::ExpectedOk => {
                lemma_issues_from(targets, seen, next + 1, errors, true);
            },
            OutcomeView::Mismatch(status) => {
                lemma_issues_from(
                    targets,
                    seen,
                    next + 1,
                    errors.push(mismatch_text(targets[next].name, status)),
                    saw_expected_ok,
                );
            },
            OutcomeView::Issue(message) => {
                lemma_issues_from(targets, seen, next + 1, errors.push(message), saw_expected_ok);
            },
        }
    }
}

proof fn lemma_healthy_from(
    targets: Seq<TargetView>,
    seen: Seq<ObservationView>,
    next: int,
    errors: Seq<Seq<char>>,
    saw_expected_ok: bool,
)
    requires
        0 <= next,
        forall|k: int| next <= k < targets.len() ==> passes_quietly(seen, k),
        saw_expected_ok || exists|k: int|
            next <= k < targets.len() && seen[k].outcome is ExpectedOk,
    ensures
        detect_from(targets, seen, next, errors, saw_expected_ok) == Some(
            DetectionResultView::NoPortalDetected,
        ),
    decreases targets.len() - next,
{
    if next < targets.len() {
        assert(passes_quietly(seen, next));
        match seen[next].outcome {
            OutcomeView::Portal(_) => {},
            OutcomeView::ExpectedOk => {
                lemma_healthy_from(targets, seen, next + 1, errors, true);
            },
            OutcomeView::Mismatch(status) => {
                lemma_healthy_from(
                    targets,
                    seen,
                    next + 1,
                    errors.push(mismatch_text(targets[next].name, status)),
                    saw_expected_ok,
                );
            },
            OutcomeView::Issue(message) => {
                lemma_healthy_from(targets, seen, next + 1, errors.push(message), saw_expected_ok);
            },
        }
    }
}

/// A strategy without targets reports no portal, whatever was recorded.
pub proof fn no_targets_no_portal(seen: Seq<ObservationView>)
    ensures
        detection_result(Seq::empty(), seen) == Some(DetectionResultView::NoPortalDetected),
{
}

/// The first portal that a pass reaches is its result: the targets before it
/// passed quietly, and what the targets after it would show plays no part.
pub proof fn first_portal_is_the_result(
    targets: Seq<TargetView>,
    seen: Seq<ObservationView>,
    at: int,
    url: Seq<char>,
)
    requires
        0 <= at < targets.len(),
        at < seen.len(),
        forall|k: int| 0 <= k < at ==> passes_quietly(seen, k),
        !seen[at].canceled,
        seen[at].outcome == OutcomeView::Portal(url),
    ensures
        detection_result(targets, seen) == Some(DetectionResultView::PortalFound(url)),
{
    lemma_first_stop(targets, seen, 0, Seq::empty(), false, at);
}

/// A cancel flag found set before a target ends the pass with the one
/// diagnostic `"canceled"`, and what was collected before is dropped.
pub proof fn cancellation_ends_the_pass(
    targets: Seq<TargetView>,
    seen: Seq<ObservationView>,
    at: int,
)
    requires
        0 <= at < targets.len(),
        at < seen.len(),
        forall|k: int| 0 <= k < at ==> passes_quietly(seen, k),
        seen[at].canceled,
    ensures
        detection_result(targets, seen) == Some(
            DetectionResultView::NetworkIssues(seq![canceled_text()]),
        ),
{
    lemma_first_stop(targets, seen, 0, Seq::empty(), false, at);
}

/// A pass never reports network issues without a diagnostic.
pub proof fn issues_carry_a_diagnostic(targets: Seq<TargetView>, seen: Seq<ObservationView>)
    ensures
        detection_result(targets, seen) matches Some(DetectionResultView::NetworkIssues(list))
            ==> list.len() > 0,
{
    lemma_issues_from(targets, seen, 0, Seq::empty(), false);
}

/// Where every target was probed without a portal and one of them confirmed
/// open access, the pass reports no portal, whatever the others showed.
pub proof fn healthy_endpoint_outweighs_issues(
    targets: Seq<TargetView>,
    seen: Seq<ObservationView>,
    healthy: int,
)
    requires
        forall|k: int| 0 <= k < targets.len() ==> passes_quietly(seen, k),
        0 <= healthy < targets.len(),
        seen[healthy].outcome is ExpectedOk,
    ensures
        detection_result(targets, seen) == Some(DetectionResultView::NoPortalDetected),
{
    lemma_healthy_from(targets, seen, 0, Seq::empty(), false);
}

/// The result that a pass comes to when it is stepped through what was
/// recorded: before each target the cancel flag is looked at, then the
/// target's outcome is taken in, until the pass is done. There is none where
/// a target is reached of which `seen` says nothing.
pub open spec fn stepped(run: RunView, seen: Seq<ObservationView>) -> Option<DetectionResultView>
    decreases run.targets.len() - run.next,
{
    if !run.has_target() {
        Some(conclusion(run.errors, run.saw_expected_ok))
    } else if run.next >= seen.len() {
        None
    } else {
        let shown = seen[run.next as int];
        match run.step(shown.canceled) {
            RunStepView::Done(result) => Some(result),
            RunStepView::Probe(_) => match run.portal(shown.outcome) {
                Some(url) => Some(DetectionResultView::PortalFound(url)),
                None => stepped(run.record(shown.outcome), seen),
            },
        }
    }
}

/// Stepping a pass through what was recorded comes to the same result as
/// folding the record in one go, from wherever the pass stands.
pub proof fn stepping_follows_the_fold(run: RunView, seen: Seq<ObservationView>)
    ensures
        stepped(run, seen) == detect_from(
            run.targets,
            seen,
            run.next as int,
            run.errors,
            run.saw_expected_ok,
        ),
    decreases run.targets.len() - run.next,
{
    if run.has_target() && run.next < seen.len() {
        let shown = seen[run.next as int];
        if !shown.canceled && run.portal(shown.outcome) is None {
            stepping_follows_the_fold(run.record(shown.outcome), seen);
        }
    }
}

/// A pass stepped from its start comes to the strategy's result.
pub proof fn stepping_from_the_start(targets: Seq<TargetView>, seen: Seq<ObservationView>)
    ensures
        stepped(RunView::start(targets), seen) == detection_result(targets, seen),
{
    stepping_follows_the_fold(RunView::start(targets), seen);
}

} // verus!
