//! The response classifier: one probe's reply, or its failure, becomes an
//! [`Outcome`].

use vstd::prelude::*;
use vstd::string::*;
use crate::pattern::{capture_group, regex_capture};
use crate::text::{
    ascii_lowercase, begins_with, contains_ignoring_ascii_case, decimal, decimal_string,
    occurs_in, starts_with,
};

verus! {

/// One address to probe, with what counts there as an unobstructed reply.
#[derive(Debug, Clone)]
pub struct DetectionTarget {
    pub name: String,
    pub url: String,
    pub expected_status: Option<u16>,
    pub allow_meta_refresh: bool,
}

/// The mathematical value of a [`DetectionTarget`].
pub struct TargetView {
    pub name: Seq<char>,
    pub url: Seq<char>,
    pub expected_status: Option<u16>,
    pub allow_meta_refresh: bool,
}

impl View for DetectionTarget {
    type V = TargetView;

    open spec fn view(&self) -> TargetView {
        TargetView {
            name: self.name@,
            url: self.url@,
            expected_status: self.expected_status,
            allow_meta_refresh: self.allow_meta_refresh,
        }
    }
}

impl DeepView for DetectionTarget {
    type V = TargetView;

    open spec fn deep_view(&self) -> TargetView {
        self@
    }
}

impl DetectionTarget {
    /// A copy of this target.
    pub fn duplicate(&self) -> (copy: DetectionTarget)
        ensures
            copy@ == self@,
    {
        DetectionTarget {
            name: self.name.clone(),
            url: self.url.clone(),
            expected_status: self.expected_status,
            allow_meta_refresh: self.allow_meta_refresh,
        }
    }
}

/// What one probe showed.
#[derive(Debug, Clone)]
pub enum Outcome {
    /// A captive portal answers; this is its entry address.
    Portal(String),
    /// The reply confirms open internet access.
    ExpectedOk,
    /// A reply came, with neither a portal signal nor the expected one.
    Mismatch(u16),
    /// The probe could not be completed.
    Issue(String),
}

/// The mathematical value of an [`Outcome`].
pub enum OutcomeView {
    Portal(Seq<char>),
    ExpectedOk,
    Mismatch(u16),
    Issue(Seq<char>),
}

impl View for Outcome {
    type V = OutcomeView;

    open spec fn view(&self) -> OutcomeView {
        match self {
            Outcome::Portal(url) => OutcomeView::Portal(url@),
            Outcome::ExpectedOk => OutcomeView::ExpectedOk,
            Outcome::Mismatch(status) => OutcomeView::Mismatch(*status),
            Outcome::Issue(message) => OutcomeView::Issue(message@),
        }
    }
}

impl DeepView for Outcome {
    type V = OutcomeView;

    open spec fn deep_view(&self) -> OutcomeView {
        self@
    }
}

/// The head of an HTTP reply, as far as the classifier reads it.
#[derive(Debug)]
pub struct HttpReply {
    /// The status code.
    pub status: u16,
    /// The value of the `Location` header, where the reply has one that is
    /// visible ASCII text.
    pub location: Option<String>,
}

/// The mathematical value of an [`HttpReply`].
pub struct HttpReplyView {
    pub status: u16,
    pub location: Option<Seq<char>>,
}

impl View for HttpReply {
    type V = HttpReplyView;

    open spec fn view(&self) -> HttpReplyView {
        HttpReplyView { status: self.status, location: self.location.deep_view() }
    }
}

impl DeepView for HttpReply {
    type V = HttpReplyView;

    open spec fn deep_view(&self) -> HttpReplyView {
        self@
    }
}

/// What became of a reply's body.
#[derive(Debug)]
pub enum Body {
    /// It was not asked for.
    Unread,
    /// Reading it failed.
    Unreadable,
    /// Its text.
    Text(String),
}

/// The mathematical value of a [`Body`].
pub enum BodyView {
    Unread,
    Unreadable,
    Text(Seq<char>),
}

impl View for Body {
    type V = BodyView;

    open spec fn view(&self) -> BodyView {
        match self {
            Body::Unread => BodyView::Unread,
            Body::Unreadable => BodyView::Unreadable,
            Body::Text(text) => BodyView::Text(text@),
        }
    }
}

impl DeepView for Body {
    type V = BodyView;

    open spec fn deep_view(&self) -> BodyView {
        self@
    }
}

/// Why a request brought no reply.
#[derive(Debug)]
pub enum TransportError {
    /// It ran out of time.
    Timeout,
    /// No connection could be made.
    Connect,
    /// Anything else, in the HTTP client's words.
    Other(String),
}

/// The mathematical value of a [`TransportError`].
pub enum TransportErrorView {
    Timeout,
    Connect,
    Other(Seq<char>),
}

impl View for TransportError {
    type V = TransportErrorView;

    open spec fn view(&self) -> TransportErrorView {
        match self {
            TransportError::Timeout => TransportErrorView::Timeout,
            TransportError::Connect => TransportErrorView::Connect,
            TransportError::Other(text) => TransportErrorView::Other(text@),
        }
    }
}

impl DeepView for TransportError {
    type V = TransportErrorView;

    open spec fn deep_view(&self) -> TransportErrorView {
        self@
    }
}

/// The regular expression that finds a meta-refresh directive, whatever the
/// case of its letters: `content`, `=`, an optional quote, the seconds, `;`,
/// `url`, `=`, and as group 1 the address up to the next quote, blank or `>`.
pub const META_REFRESH_PATTERN: &'static str =
    "(?i)content\\s*=\\s*[\"']?\\d+\\s*;\\s*url\\s*=\\s*([^\"'\\s>]+)";

/// A status from 200 to 299.
pub open spec fn is_success(status: u16) -> bool {
    200 <= status < 300
}

/// A status from 300 to 399.
pub open spec fn is_redirection(status: u16) -> bool {
    300 <= status < 400
}

/// The address that a captured meta-refresh target stands for: the capture
/// itself where it begins with `http`, none otherwise.
pub open spec fn portal_url_of(capture: Option<Seq<char>>) -> Option<Seq<char>> {
    match capture {
        Some(url) => if begins_with(url, "http"@) {
            Some(url)
        } else {
            None
        },
        None => None,
    }
}

/// The portal address that the meta-refresh directive of `body` names, if
/// `body` has such a directive and its target begins with `http`.
pub open spec fn meta_refresh_target(body: Seq<char>) -> Option<Seq<char>> {
    portal_url_of(regex_capture(META_REFRESH_PATTERN@, body, 1))
}

/// `body` holds the word `success`, in any mix of ASCII capitals and small
/// letters.
pub open spec fn mentions_success(body: Seq<char>) -> bool {
    occurs_in(ascii_lowercase(body), "success"@)
}

/// The redirect target of a reply: its `Location`, where the status is a
/// redirection.
pub open spec fn redirect_target(reply: HttpReplyView) -> Option<Seq<char>> {
    if is_redirection(reply.status) {
        reply.location
    } else {
        None
    }
}

/// Whether the body of a reply with this status is worth reading: only a
/// successful reply, and only where a meta-refresh directive or a success
/// marker could still decide.
pub open spec fn body_wanted(target: TargetView, status: u16) -> bool {
    is_success(status) && (target.allow_meta_refresh || target.expected_status is None)
}

/// The classifier's decision over recorded values, where `refresh` is the
/// portal address that a meta-refresh directive in the body names, if there
/// is one. The first rule that applies wins.
///
/// 1. A redirect target makes a portal.
/// 2. The expected status, met exactly, confirms access.
/// 3. Where the target allows it, a meta-refresh directive in the body makes
///    a portal.
/// 4. Where no status is expected, a body that mentions success confirms
///    access.
/// 5. Anything else is a mismatch.
pub open spec fn decision(
    target: TargetView,
    status: u16,
    location: Option<Seq<char>>,
    body: Option<Seq<char>>,
    refresh: Option<Seq<char>>,
) -> OutcomeView {
    if location is Some {
        OutcomeView::Portal(location->0)
    } else if target.expected_status == Some(status) {
        OutcomeView::ExpectedOk
    } else if body is Some && target.allow_meta_refresh && refresh is Some {
        OutcomeView::Portal(refresh->0)
    } else if body is Some && target.expected_status is None && mentions_success(body->0) {
        OutcomeView::ExpectedOk
    } else {
        OutcomeView::Mismatch(status)
    }
}

/// The classifier's decision over recorded values: [`decision`], with the
/// body searched for its meta-refresh directive.
pub open spec fn classification(
    target: TargetView,
    status: u16,
    location: Option<Seq<char>>,
    body: Option<Seq<char>>,
) -> OutcomeView {
    decision(
        target,
        status,
        location,
        body,
        match body {
            Some(text) => meta_refresh_target(text),
            None => None,
        },
    )
}

/// The diagnostic of a body that could not be read.
pub open spec fn unreadable_body_text(name: Seq<char>) -> Seq<char> {
    name + ": failed to read body"@
}

/// The diagnostic of a request that brought no reply.
pub open spec fn transport_error_text(name: Seq<char>, error: TransportErrorView, timeout: u64) -> Seq<
    char,
> {
    match error {
        TransportErrorView::Timeout => name + ": timeout ("@ + decimal(timeout as nat) + "s)"@,
        TransportErrorView::Connect => name + ": connect error"@,
        TransportErrorView::Other(text) => name + ": error "@ + text,
    }
}

/// The classifier's decision over a reply and what became of its body. The
/// body counts only where [`body_wanted`] says so; there an unreadable body
/// is an issue.
pub open spec fn reply_classification(
    target: TargetView,
    reply: HttpReplyView,
    body: BodyView,
) -> OutcomeView {
    if body_wanted(target, reply.status) {
        match body {
            BodyView::Text(text) => classification(
                target,
                reply.status,
                redirect_target(reply),
                Some(text),
            ),
            BodyView::Unreadable => OutcomeView::Issue(unreadable_body_text(target.name)),
            BodyView::Unread => classification(target, reply.status, redirect_target(reply), None),
        }
    } else {
        classification(target, reply.status, redirect_target(reply), None)
    }
}

/// Picks the portal address out of a captured meta-refresh target: the
/// capture itself where it begins with `http`.
pub fn portal_url_from_capture(capture: Option<String>) -> (url: Option<String>)
    ensures
        url.deep_view() == portal_url_of(capture.deep_view()),
{
    match capture {
        Some(found) => {
            if starts_with(found.as_str(), "http") {
                Some(found)
            } else {
                None
            }
        },
        None => None,
    }
}

/// Finds the meta-refresh directive of `html` and returns the address it
/// names, where that begins with `http`.
pub fn extract_meta_refresh(html: &str) -> (url: Option<String>)
    ensures
        url.deep_view() == meta_refresh_target(html@),
{
    portal_url_from_capture(capture_group(META_REFRESH_PATTERN, html, 1))
}

/// The redirect target of `reply`: its `Location`, where the status is a
/// redirection.
pub fn redirect_location_url(reply: &HttpReply) -> (url: Option<String>)
    ensures
        url.deep_view() == redirect_target(reply@),
{
    if 300 <= reply.status && reply.status < 400 {
        match &reply.location {
            Some(location) => Some(location.clone()),
            None => None,
        }
    } else {
        None
    }
}

/// Tells whether the body of a reply with this status is to be read.
pub fn should_parse_body(target: &DetectionTarget, status: u16) -> (wanted: bool)
    ensures
        wanted == body_wanted(target@, status),
{
    200 <= status && status < 300 && (target.allow_meta_refresh
        || target.expected_status.is_none())
}

/// Classifies one probe from recorded values and from what the search for a
/// meta-refresh directive in the body gave.
pub fn classify_with_refresh(
    target: &DetectionTarget,
    status_code: u16,
    location: Option<String>,
    body: Option<String>,
    refresh: Option<String>,
) -> (outcome: Outcome)
    ensures
        outcome@ == decision(
            target@,
            status_code,
            location.deep_view(),
            body.deep_view(),
            refresh.deep_view(),
        ),
{
    if let Some(portal_url) = location {
        return Outcome::Portal(portal_url);
    }
    if let Some(expected) = target.expected_status {
        if status_code == expected {
            return Outcome::ExpectedOk;
        }
    }
    if let Some(text) = body {
        if target.allow_meta_refresh {
            if let Some(url) = refresh {
                return Outcome::Portal(url);
            }
        }
        if target.expected_status.is_none() && contains_ignoring_ascii_case(
            text.as_str(),
            "success",
        ) {
            return Outcome::ExpectedOk;
        }
    }
    Outcome::Mismatch(status_code)
}

/// Classifies one probe from recorded values: the status, the redirect
/// target if there is one, and the body if it was read. The body is searched
/// for a meta-refresh directive only where that can still decide.
pub fn classify_parts(
    target: &DetectionTarget,
    status_code: u16,
    location: Option<String>,
    body: Option<String>,
) -> (outcome: Outcome)
    ensures
        outcome@ == classification(target@, status_code, location.deep_view(), body.deep_view()),
        location matches Some(url) ==> outcome@ == OutcomeView::Portal(url@),
        location is None && target.expected_status == Some(status_code) ==> outcome@
            == OutcomeView::ExpectedOk,
{
    let decided = location.is_some() || match target.expected_status {
        Some(expected) => expected == status_code,
        None => false,
    };
    let refresh = match &body {
        Some(text) => {
            if target.allow_meta_refresh && !decided {
                extract_meta_refresh(text.as_str())
            } else {
                None
            }
        },
        None => None,
    };
    classify_with_refresh(target, status_code, location, body, refresh)
}

/// The diagnostic of a request to `name` that brought no reply within
/// `timeout` seconds.
pub fn error_reason(name: &str, error: &TransportError, timeout: u64) -> (text: String)
    ensures
        text@ == transport_error_text(name@, error@, timeout),
{
    let mut text = String::from_str(name);
    match error {
        TransportError::Timeout => {
            text.append(": timeout (");
            let seconds = decimal_string(timeout);
            text.append(seconds.as_str());
            text.append("s)");
        },
        TransportError::Connect => {
            text.append(": connect error");
        },
        TransportError::Other(detail) => {
            text.append(": error ");
            text.append(detail.as_str());
        },
    }
    text
}

/// Classifies one probe from its reply and what became of the body.
pub fn classify_response(target: &DetectionTarget, reply: &HttpReply, body: Body) -> (outcome:
    Outcome)
    ensures
        outcome@ == reply_classification(target@, reply@, body@),
        is_redirection(reply.status) ==> (reply.location matches Some(url) ==> outcome@
            == OutcomeView::Portal(url@)),
{
    let location = redirect_location_url(reply);
    if should_parse_body(target, reply.status) {
        match body {
            Body::Text(text) => classify_parts(target, reply.status, location, Some(text)),
            Body::Unreadable => {
                let mut message = target.name.clone();
                message.append(": failed to read body");
                Outcome::Issue(message)
            },
            Body::Unread => classify_parts(target, reply.status, location, None),
        }
    } else {
        classify_parts(target, reply.status, location, None)
    }
}

/// A redirect target decides the classification, whatever status is expected
/// and whatever the body holds.
pub proof fn redirect_takes_precedence(
    target: TargetView,
    status: u16,
    url: Seq<char>,
    body: Option<Seq<char>>,
)
    ensures
        classification(target, status, Some(url), body) == OutcomeView::Portal(url),
{
}

/// A redirection with a `Location` is a portal at that address, for every
/// target and whatever became of the body.
pub proof fn redirect_reply_is_a_portal(
    target: TargetView,
    reply: HttpReplyView,
    body: BodyView,
    url: Seq<char>,
)
    requires
        is_redirection(reply.status),
        reply.location == Some(url),
    ensures
        reply_classification(target, reply, body) == OutcomeView::Portal(url),
{
}

/// The expected status, met exactly and without a redirect target, confirms
/// access.
pub proof fn expected_status_confirms_access(
    target: TargetView,
    status: u16,
    body: Option<Seq<char>>,
)
    requires
        target.expected_status == Some(status),
    ensures
        classification(target, status, None, body) == OutcomeView::ExpectedOk,
{
}

/// A reply with the expected status and no `Location` confirms access, unless
/// its body was wanted and could not be read.
pub proof fn expected_reply_confirms_access(
    target: TargetView,
    reply: HttpReplyView,
    body: BodyView,
)
    requires
        target.expected_status == Some(reply.status),
        reply.location is None,
        !(body_wanted(target, reply.status) && body is Unreadable),
    ensures
        reply_classification(target, reply, body) == OutcomeView::ExpectedOk,
{
}

/// Where a target allows it, a meta-refresh directive in the body of a plain
/// 200 reply is a portal at the address it names.
pub proof fn meta_refresh_is_a_portal(target: TargetView, body: Seq<char>, url: Seq<char>)
    requires
        target.allow_meta_refresh,
        target.expected_status != Some(200u16),
        meta_refresh_target(body) == Some(url),
    ensures
        classification(target, 200, None, Some(body)) == OutcomeView::Portal(url),
        forall|location: Option<Seq<char>>|
            reply_classification(
                target,
                HttpReplyView { status: 200, location },
                BodyView::Text(body),
            ) == OutcomeView::Portal(url),
{
}

/// Where no status is expected, a 200 reply whose body mentions success
/// confirms access, unless the target allows meta-refresh and the body holds
/// such a directive.
pub proof fn success_body_confirms_access(target: TargetView, body: Seq<char>)
    requires
        target.expected_status is None,
        mentions_success(body),
        !(target.allow_meta_refresh && meta_refresh_target(body) is Some),
    ensures
        classification(target, 200, None, Some(body)) == OutcomeView::ExpectedOk,
        forall|location: Option<Seq<char>>|
            reply_classification(
                target,
                HttpReplyView { status: 200, location },
                BodyView::Text(body),
            ) == OutcomeView::ExpectedOk,
{
}

/// Classifying twice gives the same outcome: whatever [`classify_response`]
/// returns for one reply and body, it returns for every reply and body of
/// the same values, and so for the same ones again.
pub proof fn classification_is_repeatable(
    target: DetectionTarget,
    reply: HttpReply,
    body: Body,
    first: Outcome,
    same_target: DetectionTarget,
    same_reply: HttpReply,
    same_body: Body,
    second: Outcome,
)
    requires
        target@ == same_target@,
        reply@ == same_reply@,
        body@ == same_body@,
        first@ == reply_classification(target@, reply@, body@),
        second@ == reply_classification(same_target@, same_reply@, same_body@),
    ensures
        first@ == second@,
{
}

} // verus!
