//! Request creation: a request is created only if its URL is not blocked.

use crate::config::{pattern_matches, set_options, sources, Config};
use crate::extract::{extract_wide, wide_text};
use crate::text::{
    contains, lemma_truncated_idempotent, lemma_truncated_within, str_contains, truncate_str,
    truncated,
};
use vstd::utf8::*;
use crate::utils::logging::{
    allowed_line, blocked_line, bumped, debug_line, error_line, log_allowed, log_blocked,
    log_debug, log_error, LogCounters,
};
use vstd::prelude::*;
use vstd::string::*;

verus! {

/// The number of bytes of a URL that are looked at.
pub const MAX_URL_LENGTH: usize = 2048;

/// What the markers say about one URL.
#[derive(Clone, Copy, Debug, PartialEq, Eq, Structural)]
pub struct UrlClassification {
    /// The URL belongs to real-time communication (signaling, presence).
    pub is_discord_rpc: bool,
    /// The URL names the event-ingestion endpoint.
    pub is_gabo: bool,
    /// The URL names the dealer.
    pub is_dealer: bool,
    /// The URL looks like advertising or tracking.
    pub is_ad_related: bool,
}

/// Why a request is created or not.
#[derive(Clone, Copy, Debug, PartialEq, Eq, Structural)]
pub enum Reason {
    /// Real-time communication: allowed, nothing else is looked at.
    DiscordRpc,
    /// A core service: allowed, nothing else is looked at.
    Service,
    /// Advertising by its markers: blocked.
    Advertising,
    /// A match in the deny set: blocked.
    DenyList,
    /// Nothing speaks against it: allowed.
    Unlisted,
}

/// The part of a URL that is looked at.
pub open spec fn processed(url: Seq<char>) -> Seq<char> {
    truncated(url, MAX_URL_LENGTH as nat)
}

/// A marker of real-time communication stands in `url`.
pub open spec fn has_realtime_marker(url: Seq<char>) -> bool {
    ||| contains(url, "discord"@)
    ||| contains(url, "discordapp"@)
    ||| contains(url, "presence"@)
    ||| contains(url, "/presence2/"@)
    ||| contains(url, "connect-state"@)
    ||| contains(url, "rpc"@)
}

/// The name of the event-ingestion endpoint stands in `url`.
pub open spec fn has_gabo_marker(url: Seq<char>) -> bool {
    contains(url, "gabo-receiver-service"@)
}

/// The dealer marker stands in `url`.
pub open spec fn has_dealer_marker(url: Seq<char>) -> bool {
    contains(url, "dealer"@)
}

/// A marker of advertising or tracking stands in `url`. The last three are
/// compound: the first two need both of their parts, in any order, and the
/// last needs its first part without its second.
pub open spec fn has_ad_marker(url: Seq<char>) -> bool {
    ||| contains(url, "/ads/"@)
    ||| contains(url, "ad-logic"@)
    ||| contains(url, "doubleclick"@)
    ||| contains(url, "googleads"@)
    ||| contains(url, "adswizz"@)
    ||| contains(url, "analytics"@)
    ||| contains(url, "sponsor"@)
    ||| contains(url, "partnership"@)
    ||| contains(url, "brand"@)
    ||| contains(url, "whatsapp"@)
    ||| contains(url, "hpto"@)
    ||| contains(url, "promoted"@)
    ||| contains(url, "takeover"@)
    ||| (contains(url, "clientsettings"@) && contains(url, "api"@))
    ||| (contains(url, "track"@) && contains(url, "event"@))
    ||| (contains(url, "ads"@) && !contains(url, "gabo"@))
}

/// What the markers say about the part of `url` that is looked at.
pub open spec fn url_classification(url: Seq<char>) -> UrlClassification {
    let head = processed(url);
    UrlClassification {
        is_discord_rpc: has_realtime_marker(head),
        is_gabo: has_gabo_marker(head),
        is_dealer: has_dealer_marker(head),
        is_ad_related: has_ad_marker(head),
    }
}

/// The order of the rules: real-time communication first, then the core
/// services, then advertising, and the deny set last.
pub open spec fn decision(classification: UrlClassification, denied: bool) -> Reason {
    if classification.is_discord_rpc {
        Reason::DiscordRpc
    } else if classification.is_gabo || classification.is_dealer {
        Reason::Service
    } else if classification.is_ad_related {
        Reason::Advertising
    } else if denied {
        Reason::DenyList
    } else {
        Reason::Unlisted
    }
}

/// The reason that decides `url` under the deny set of `config`.
pub open spec fn url_reason(url: Seq<char>, config: Config) -> Reason {
    decision(url_classification(url), config.denies(processed(url)))
}

impl Reason {
    /// Whether the request is created.
    pub open spec fn allows(self) -> bool {
        self == Reason::DiscordRpc || self == Reason::Service || self == Reason::Unlisted
    }

    /// Whether the request is created.
    pub fn is_allowed(&self) -> (allowed: bool)
        ensures
            allowed == self.allows(),
    {
        match self {
            Reason::DiscordRpc => true,
            Reason::Service => true,
            Reason::Advertising => false,
            Reason::DenyList => false,
            Reason::Unlisted => true,
        }
    }

    /// The label of the reason in a reported line.
    pub open spec fn label_text(self) -> Seq<char> {
        match self {
            Reason::DiscordRpc => "DISCORD RPC"@,
            Reason::Service => "SERVICE"@,
            Reason::Advertising => "BLOCKED AD"@,
            Reason::DenyList => "BLOCKED CONFIG"@,
            Reason::Unlisted => "ALLOWED"@,
        }
    }

    /// The label of the reason in a reported line.
    pub fn label(&self) -> (text: &'static str)
        ensures
            text@ == self.label_text(),
    {
        match self {
            Reason::DiscordRpc => "DISCORD RPC",
            Reason::Service => "SERVICE",
            Reason::Advertising => "BLOCKED AD",
            Reason::DenyList => "BLOCKED CONFIG",
            Reason::Unlisted => "ALLOWED",
        }
    }
}

/// Classifies a URL by its markers. Only the first `MAX_URL_LENGTH` bytes
/// are looked at.
pub fn classify_url(url: &str) -> (classification: UrlClassification)
    ensures
        classification == url_classification(url@),
{
    let url = truncate_str(url, MAX_URL_LENGTH);
    let is_discord_rpc = str_contains(url, "discord")
        || str_contains(url, "discordapp")
        || str_contains(url, "presence")
        || str_contains(url, "/presence2/")
        || str_contains(url, "connect-state")
        || str_contains(url, "rpc");
    let is_gabo = str_contains(url, "gabo-receiver-service");
    let is_dealer = str_contains(url, "dealer");
    let is_ad_related = str_contains(url, "/ads/")
        || str_contains(url, "ad-logic")
        || str_contains(url, "doubleclick")
        || str_contains(url, "googleads")
        || str_contains(url, "adswizz")
        || str_contains(url, "analytics")
        || str_contains(url, "sponsor")
        || str_contains(url, "partnership")
        || str_contains(url, "brand")
        || str_contains(url, "whatsapp")
        || str_contains(url, "hpto")
        || str_contains(url, "promoted")
        || str_contains(url, "takeover")
        || (str_contains(url, "clientsettings") && str_contains(url, "api"))
        || (str_contains(url, "track") && str_contains(url, "event"))
        || (str_contains(url, "ads") && !str_contains(url, "gabo"));
    UrlClassification { is_discord_rpc, is_gabo, is_dealer, is_ad_related }
}

/// Applies the order of the rules to a classification and to what the deny
/// set said.
pub fn decide(classification: &UrlClassification, denied: bool) -> (reason: Reason)
    ensures
        reason == decision(*classification, denied),
{
    if classification.is_discord_rpc {
        Reason::DiscordRpc
    } else if classification.is_gabo || classification.is_dealer {
        Reason::Service
    } else if classification.is_ad_related {
        Reason::Advertising
    } else if denied {
        Reason::DenyList
    } else {
        Reason::Unlisted
    }
}

/// Decides a URL under `config`. The deny set is asked only where the
/// markers leave the matter open, and it sees what the markers saw.
pub fn classify_request(url: &str, config: &Config) -> (reason: Reason)
    ensures
        reason == url_reason(url@, *config),
{
    let classification = classify_url(url);
    if classification.is_discord_rpc || classification.is_gabo || classification.is_dealer
        || classification.is_ad_related {
        decide(&classification, false)
    } else {
        decide(&classification, config.is_denylisted(truncate_str(url, MAX_URL_LENGTH)))
    }
}

/// A URL with a marker of real-time communication in the part that is looked
/// at is allowed, whatever else stands in it and whatever the deny set holds.
pub proof fn lemma_realtime_is_allowed(url: Seq<char>, config: Config)
    requires
        has_realtime_marker(processed(url)),
    ensures
        url_reason(url, config) == Reason::DiscordRpc,
        url_reason(url, config).allows(),
{
}

/// A URL with a core-service marker and no marker of real-time communication
/// is allowed, whatever else stands in it and whatever the deny set holds.
pub proof fn lemma_service_is_allowed(url: Seq<char>, config: Config)
    requires
        has_gabo_marker(processed(url)) || has_dealer_marker(processed(url)),
    ensures
        url_reason(url, config).allows(),
{
}

/// A URL with an advertising marker and no marker of real-time communication
/// or of a core service is blocked, whatever the deny set holds.
pub proof fn lemma_advertising_is_blocked(url: Seq<char>, config: Config)
    requires
        has_ad_marker(processed(url)),
        !has_realtime_marker(processed(url)),
        !has_gabo_marker(processed(url)),
        !has_dealer_marker(processed(url)),
    ensures
        url_reason(url, config) == Reason::Advertising,
        !url_reason(url, config).allows(),
{
}

/// A URL without any marker is decided by the deny set: blocked if one of
/// its patterns matches, allowed if none does.
pub proof fn lemma_unmarked_follows_deny_set(url: Seq<char>, config: Config)
    requires
        !has_realtime_marker(processed(url)),
        !has_gabo_marker(processed(url)),
        !has_dealer_marker(processed(url)),
        !has_ad_marker(processed(url)),
    ensures
        url_reason(url, config).allows() == !config.denies(processed(url)),
        config.denies(processed(url)) ==> url_reason(url, config) == Reason::DenyList,
        !config.denies(processed(url)) ==> url_reason(url, config) == Reason::Unlisted,
{
}

/// The decision on a URL depends on the URL and the deny set alone: two
/// configurations whose deny sets hold the same patterns and were built with
/// the same options decide alike, and so does one configuration asked twice.
pub proof fn lemma_decision_is_repeatable(url: Seq<char>, first: Config, second: Config)
    requires
        first.deny_patterns() == second.deny_patterns(),
        set_options(first.denylist) == set_options(second.denylist),
    ensures
        url_reason(url, first) == url_reason(url, second),
{
}

/// Under a configuration without rules a URL without any marker is allowed.
pub proof fn lemma_no_rules_allow_unmarked(url: Seq<char>, config: Config)
    requires
        config.is_empty(),
        !has_realtime_marker(processed(url)),
        !has_gabo_marker(processed(url)),
        !has_dealer_marker(processed(url)),
        !has_ad_marker(processed(url)),
    ensures
        url_reason(url, config) == Reason::Unlisted,
{
}

/// Under a configuration compiled from lists of sources, a URL without any
/// marker is blocked as soon as one source of the deny list matches the part
/// of it that is looked at.
pub proof fn lemma_deny_source_blocks_unmarked(
    url: Seq<char>,
    config: Config,
    denylist: Seq<String>,
    index: int,
)
    requires
        config.deny_patterns() == sources(denylist),
        config.has_default_options(),
        0 <= index < denylist.len(),
        pattern_matches(0, denylist[index]@, processed(url)),
        !has_realtime_marker(processed(url)),
        !has_gabo_marker(processed(url)),
        !has_dealer_marker(processed(url)),
        !has_ad_marker(processed(url)),
    ensures
        url_reason(url, config) == Reason::DenyList,
        !url_reason(url, config).allows(),
{
    assert(config.deny_patterns()[index] == denylist[index]@);
    assert(pattern_matches(
        set_options(config.denylist),
        config.deny_patterns()[index],
        processed(url),
    ));
}

/// A URL of at most `MAX_URL_LENGTH` bytes is looked at whole.
pub proof fn lemma_short_url_is_whole(url: Seq<char>)
    requires
        encode_utf8(url).len() <= MAX_URL_LENGTH,
    ensures
        processed(url) == url,
{
    lemma_truncated_within(url, MAX_URL_LENGTH as nat);
}

/// A URL is decided as the part of it that is looked at would be.
pub proof fn lemma_decided_on_prefix(url: Seq<char>, config: Config)
    ensures
        url_classification(url) == url_classification(processed(url)),
        url_reason(url, config) == url_reason(processed(url), config),
{
    lemma_truncated_idempotent(url, MAX_URL_LENGTH as nat);
}

/// A buffer that an accessor of the request hands over and that must be
/// given back to the host once its text has been copied out.
#[derive(Clone, Copy, Debug, PartialEq, Eq, Structural)]
pub enum Buffer {
    Url,
    Method,
}

/// One thing for the caller to do, in the order given.
#[derive(Clone, Copy, Debug, PartialEq, Eq, Structural)]
pub enum Step {
    /// Call the URL accessor of the request and report the buffer it gives.
    ReadUrl,
    /// Call the method accessor of the request and report the buffer it
    /// gives, or none if the request has no such accessor.
    ReadMethod,
    /// Give the buffer back through the release function.
    Release(Buffer),
    /// Call the real function with the arguments as they came; what it
    /// returns is what the call returns.
    Forward,
    /// Do not call the real function; the call returns null.
    Suppress,
}

/// Where the handling of one call stands.
#[derive(Debug, PartialEq, Eq)]
pub enum RequestState {
    /// The call came in; nothing has been looked at.
    Validate,
    /// The URL accessor is being called.
    AwaitUrl,
    /// The URL has been copied out, its buffer is still held, and the method
    /// accessor is being called.
    AwaitMethod { url: String },
    /// The call has been decided and every buffer given back.
    Done,
}

/// What the caller reports.
#[derive(Clone, Copy, Debug, PartialEq, Eq)]
pub enum RequestEvent<'a> {
    /// The call came in: whether the request pointer is non-null, and
    /// whether the request has a URL accessor.
    Arrived { request_present: bool, has_url_accessor: bool },
    /// An accessor was called: the units of the buffer it gave, or `None`
    /// for a null handle.
    Buffer(Option<&'a [u16]>),
}

/// The answer to an event.
#[derive(Debug, PartialEq, Eq)]
pub struct Transition {
    pub next: RequestState,
    pub steps: Vec<Step>,
    pub line: Option<String>,
}

/// A state as a plain value.
pub enum StateModel {
    Validate,
    AwaitUrl,
    AwaitMethod(Seq<char>),
    Done,
}

/// An event as a plain value.
pub enum EventModel {
    Arrived { request_present: bool, has_url_accessor: bool },
    Buffer(Option<Seq<u16>>),
}

/// An answer as a plain value.
pub struct TransitionModel {
    pub next: StateModel,
    pub steps: Seq<Step>,
    pub line: Option<Seq<char>>,
}

impl View for RequestState {
    type V = StateModel;

    open spec fn view(&self) -> StateModel {
        match *self {
            RequestState::Validate => StateModel::Validate,
            RequestState::AwaitUrl => StateModel::AwaitUrl,
            RequestState::AwaitMethod { url } => StateModel::AwaitMethod(url@),
            RequestState::Done => StateModel::Done,
        }
    }
}

impl<'a> View for RequestEvent<'a> {
    type V = EventModel;

    open spec fn view(&self) -> EventModel {
        match *self {
            RequestEvent::Arrived { request_present, has_url_accessor } => EventModel::Arrived {
                request_present,
                has_url_accessor,
            },
            RequestEvent::Buffer(Some(units)) => EventModel::Buffer(Some(units@)),
            RequestEvent::Buffer(None) => EventModel::Buffer(None),
        }
    }
}

impl View for Transition {
    type V = TransitionModel;

    open spec fn view(&self) -> TransitionModel {
        TransitionModel {
            next: self.next@,
            steps: self.steps@,
            line: match self.line {
                Some(text) => Some(text@),
                None => None,
            },
        }
    }
}

/// The answer to the arrival of a call. A request that cannot be looked at
/// is handed on as it is: nothing can be said against it.
pub open spec fn validated(request_present: bool, has_url_accessor: bool) -> TransitionModel {
    if !request_present {
        TransitionModel {
            next: StateModel::Done,
            steps: seq![Step::Forward],
            line: Some(error_line("Null request pointer in cef_urlrequest_create"@)),
        }
    } else if !has_url_accessor {
        TransitionModel {
            next: StateModel::Done,
            steps: seq![Step::Forward],
            line: Some(error_line("Missing get_url function in request"@)),
        }
    } else {
        TransitionModel { next: StateModel::AwaitUrl, steps: seq![Step::ReadUrl], line: None }
    }
}

/// The answer to the URL buffer. Without a buffer the call is handed on;
/// with one, its text is copied out and the method is asked for.
pub open spec fn url_received(buffer: Option<Seq<u16>>) -> TransitionModel {
    match buffer {
        None => TransitionModel { next: StateModel::Done, steps: seq![Step::Forward], line: None },
        Some(units) => TransitionModel {
            next: StateModel::AwaitMethod(wide_text(Some(units), Seq::empty())),
            steps: seq![Step::ReadMethod],
            line: None,
        },
    }
}

/// The text of the method buffer.
pub open spec fn method_text(buffer: Option<Seq<u16>>) -> Seq<char> {
    wide_text(buffer, "UNKNOWN"@)
}

/// Whether the real function is called: always in debug mode, else as the
/// reason says.
pub open spec fn forwards(debug_mode: bool, reason: Reason) -> bool {
    debug_mode || reason.allows()
}

/// The line that reports a decided request.
pub open spec fn request_line(
    debug_mode: bool,
    reason: Reason,
    method: Seq<char>,
    url: Seq<char>,
) -> Seq<char> {
    if debug_mode {
        debug_line(method + " "@ + url)
    } else if reason.allows() {
        allowed_line(reason.label_text(), method, url)
    } else {
        blocked_line(reason.label_text(), method, url)
    }
}

/// The steps that end a call: the method buffer, if there is one, goes back
/// at once; the URL buffer goes back after the call was handed on or
/// suppressed.
pub open spec fn closing_steps(method_held: bool, forward: bool) -> Seq<Step> {
    let verdict = if forward {
        Step::Forward
    } else {
        Step::Suppress
    };
    if method_held {
        seq![Step::Release(Buffer::Method), verdict, Step::Release(Buffer::Url)]
    } else {
        seq![verdict, Step::Release(Buffer::Url)]
    }
}

/// The answer to the method buffer: the decision on the call.
pub open spec fn method_received(
    url: Seq<char>,
    buffer: Option<Seq<u16>>,
    debug_mode: bool,
    config: Config,
) -> TransitionModel {
    let reason = url_reason(url, config);
    TransitionModel {
        next: StateModel::Done,
        steps: closing_steps(buffer is Some, forwards(debug_mode, reason)),
        line: Some(request_line(debug_mode, reason, method_text(buffer), url)),
    }
}

/// The answer to an event that the state does not await: nothing happens.
pub open spec fn ignored(state: StateModel) -> TransitionModel {
    TransitionModel { next: state, steps: Seq::empty(), line: None }
}

/// The state machine of one call.
pub open spec fn transition(
    state: StateModel,
    event: EventModel,
    debug_mode: bool,
    config: Config,
) -> TransitionModel {
    match (state, event) {
        (StateModel::Validate, EventModel::Arrived { request_present, has_url_accessor }) => {
            validated(request_present, has_url_accessor)
        },
        (StateModel::AwaitUrl, EventModel::Buffer(buffer)) => url_received(buffer),
        (StateModel::AwaitMethod(url), EventModel::Buffer(buffer)) => method_received(
            url,
            buffer,
            debug_mode,
            config,
        ),
        _ => ignored(state),
    }
}

/// The counters after a decided request: one of them has counted it.
pub open spec fn counted_request(counters: LogCounters, debug_mode: bool, reason: Reason) -> LogCounters {
    if debug_mode {
        LogCounters { debug: bumped(counters.debug), ..counters }
    } else if reason.allows() {
        LogCounters { allowed: bumped(counters.allowed), ..counters }
    } else {
        LogCounters { blocked: bumped(counters.blocked), ..counters }
    }
}

/// The counters after an event: only the decision on a request is counted.
pub open spec fn counted(
    counters: LogCounters,
    state: StateModel,
    event: EventModel,
    debug_mode: bool,
    config: Config,
) -> LogCounters {
    match (state, event) {
        (StateModel::AwaitMethod(url), EventModel::Buffer(_)) => counted_request(
            counters,
            debug_mode,
            url_reason(url, config),
        ),
        _ => counters,
    }
}

/// The steps that hold the one step given.
fn single(step: Step) -> (steps: Vec<Step>)
    ensures
        steps@ == seq![step],
{
    let mut steps: Vec<Step> = Vec::new();
    steps.push(step);
    assert(steps@ =~= seq![step]);
    steps
}

/// Looks at a call that came in.
pub fn validate(request_present: bool, has_url_accessor: bool) -> (t: Transition)
    ensures
        t@ == validated(request_present, has_url_accessor),
{
    if !request_present {
        Transition {
            next: RequestState::Done,
            steps: single(Step::Forward),
            line: Some(log_error("Null request pointer in cef_urlrequest_create")),
        }
    } else if !has_url_accessor {
        Transition {
            next: RequestState::Done,
            steps: single(Step::Forward),
            line: Some(log_error("Missing get_url function in request")),
        }
    } else {
        Transition { next: RequestState::AwaitUrl, steps: single(Step::ReadUrl), line: None }
    }
}

/// Takes the URL buffer.
pub fn url_read(buffer: Option<&[u16]>) -> (t: Transition)
    ensures
        t@ == url_received(
            match buffer {
                Some(units) => Some(units@),
                None => None,
            },
        ),
{
    match buffer {
        None => Transition { next: RequestState::Done, steps: single(Step::Forward), line: None },
        Some(units) => {
            let url = extract_wide(Some(units), "");
            proof {
                reveal_strlit("");
                assert(""@ =~= Seq::<char>::empty());
            }
            Transition {
                next: RequestState::AwaitMethod { url },
                steps: single(Step::ReadMethod),
                line: None,
            }
        },
    }
}

/// Takes the method buffer and decides the call.
pub fn method_read(
    url: &str,
    buffer: Option<&[u16]>,
    config: &Config,
    debug_mode: bool,
    counters: &mut LogCounters,
) -> (t: Transition)
    ensures
        t@ == method_received(
            url@,
            match buffer {
                Some(units) => Some(units@),
                None => None,
            },
            debug_mode,
            *config,
        ),
        *final(counters) == counted_request(*old(counters), debug_mode, url_reason(url@, *config)),
{
    let method = extract_wide(buffer, "UNKNOWN");
    let mut steps: Vec<Step> = Vec::new();
    if buffer.is_some() {
        steps.push(Step::Release(Buffer::Method));
    }
    let line = if debug_mode {
        let mut message = String::from_str(method.as_str());
        message.append(" ");
        message.append(url);
        let line = log_debug(counters, true, message.as_str());
        steps.push(Step::Forward);
        line
    } else {
        let reason = classify_request(url, config);
        if reason.is_allowed() {
            steps.push(Step::Forward);
            Some(log_allowed(counters, reason.label(), method.as_str(), url))
        } else {
            steps.push(Step::Suppress);
            Some(log_blocked(counters, reason.label(), method.as_str(), url))
        }
    };
    steps.push(Step::Release(Buffer::Url));
    proof {
        let held = buffer is Some;
        let forward = forwards(debug_mode, url_reason(url@, *config));
        assert(steps@ =~= closing_steps(held, forward));
    }
    Transition { next: RequestState::Done, steps, line }
}

/// Answers one event in one state. An event that the state does not await
/// changes nothing.
pub fn step(
    state: RequestState,
    event: RequestEvent<'_>,
    config: &Config,
    debug_mode: bool,
    counters: &mut LogCounters,
) -> (t: Transition)
    ensures
        t@ == transition(state@, event@, debug_mode, *config),
        *final(counters) == counted(*old(counters), state@, event@, debug_mode, *config),
{
    match state {
        RequestState::Validate => match event {
            RequestEvent::Arrived { request_present, has_url_accessor } => validate(
                request_present,
                has_url_accessor,
            ),
            RequestEvent::Buffer(_) => Transition {
                next: RequestState::Validate,
                steps: Vec::new(),
                line: None,
            },
        },
        RequestState::AwaitUrl => match event {
            RequestEvent::Buffer(buffer) => url_read(buffer),
            RequestEvent::Arrived { .. } => Transition {
                next: RequestState::AwaitUrl,
                steps: Vec::new(),
                line: None,
            },
        },
        RequestState::AwaitMethod { url } => match event {
            RequestEvent::Buffer(buffer) => method_read(
                url.as_str(),
                buffer,
                config,
                debug_mode,
                counters,
            ),
            RequestEvent::Arrived { .. } => Transition {
                next: RequestState::AwaitMethod { url },
                steps: Vec::new(),
                line: None,
            },
        },
        RequestState::Done => Transition {
            next: RequestState::Done,
            steps: Vec::new(),
            line: None,
        },
    }
}

/// How often `steps` give `buffer` back.
pub open spec fn releases(steps: Seq<Step>, buffer: Buffer) -> nat
    decreases steps.len(),
{
    if steps.len() == 0 {
        0
    } else {
        releases(steps.drop_last(), buffer) + if steps.last() == Step::Release(buffer) {
            1nat
        } else {
            0nat
        }
    }
}

/// How often `steps` settle the call: hand it on or suppress it.
pub open spec fn settlements(steps: Seq<Step>) -> nat
    decreases steps.len(),
{
    if steps.len() == 0 {
        0
    } else {
        settlements(steps.drop_last()) + if steps.last() == Step::Forward || steps.last()
            == Step::Suppress {
            1nat
        } else {
            0nat
        }
    }
}

/// Whether `buffer` is held in `state`: handed over by the host and not yet
/// given back.
pub open spec fn holds(state: StateModel, buffer: Buffer) -> bool {
    state is AwaitMethod && buffer == Buffer::Url
}

/// Whether `event` hands `buffer` over in `state`. A null handle hands
/// nothing over.
pub open spec fn hands_over(state: StateModel, event: EventModel, buffer: Buffer) -> bool {
    match (state, event) {
        (StateModel::AwaitUrl, EventModel::Buffer(Some(_))) => buffer == Buffer::Url,
        (StateModel::AwaitMethod(_), EventModel::Buffer(Some(_))) => buffer == Buffer::Method,
        _ => false,
    }
}

/// One for true, nothing for false.
pub open spec fn one_if(condition: bool) -> nat {
    if condition {
        1
    } else {
        0
    }
}

/// The state after a run of events.
pub open spec fn run_state(
    start: StateModel,
    events: Seq<EventModel>,
    debug_mode: bool,
    config: Config,
) -> StateModel
    decreases events.len(),
{
    if events.len() == 0 {
        start
    } else {
        transition(
            run_state(start, events.drop_last(), debug_mode, config),
            events.last(),
            debug_mode,
            config,
        ).next
    }
}

/// All the steps of a run of events, in their order.
pub open spec fn run_steps(
    start: StateModel,
    events: Seq<EventModel>,
    debug_mode: bool,
    config: Config,
) -> Seq<Step>
    decreases events.len(),
{
    if events.len() == 0 {
        Seq::empty()
    } else {
        run_steps(start, events.drop_last(), debug_mode, config) + transition(
            run_state(start, events.drop_last(), debug_mode, config),
            events.last(),
            debug_mode,
            config,
        ).steps
    }
}

/// How often `buffer` is handed over in a run of events.
pub open spec fn run_handovers(
    start: StateModel,
    events: Seq<EventModel>,
    debug_mode: bool,
    config: Config,
    buffer: Buffer,
) -> nat
    decreases events.len(),
{
    if events.len() == 0 {
        0
    } else {
        run_handovers(start, events.drop_last(), debug_mode, config, buffer) + one_if(
            hands_over(
                run_state(start, events.drop_last(), debug_mode, config),
                events.last(),
                buffer,
            ),
        )
    }
}

proof fn lemma_counts_push(steps: Seq<Step>, step: Step, buffer: Buffer)
    ensures
        releases(steps.push(step), buffer) == releases(steps, buffer) + one_if(
            step == Step::Release(buffer),
        ),
        settlements(steps.push(step)) == settlements(steps) + one_if(
            step == Step::Forward || step == Step::Suppress,
        ),
{
    assert(steps.push(step).drop_last() =~= steps);
}

proof fn lemma_counts_concat(first: Seq<Step>, second: Seq<Step>, buffer: Buffer)
    ensures
        releases(first + second, buffer) == releases(first, buffer) + releases(second, buffer),
        settlements(first + second) == settlements(first) + settlements(second),
    decreases second.len(),
{
    if second.len() == 0 {
        assert(first + second =~= first);
    } else {
        lemma_counts_concat(first, second.drop_last(), buffer);
        assert((first + second).drop_last() =~= first + second.drop_last());
    }
}

proof fn lemma_counts_of_one(step: Step, buffer: Buffer)
    ensures
        releases(seq![step], buffer) == one_if(step == Step::Release(buffer)),
        settlements(seq![step]) == one_if(step == Step::Forward || step == Step::Suppress),
{
    lemma_counts_push(Seq::empty(), step, buffer);
    assert(seq![step] =~= Seq::<Step>::empty().push(step));
}

proof fn lemma_counts_of_closing(method_held: bool, forward: bool, buffer: Buffer)
    ensures
        releases(closing_steps(method_held, forward), buffer) == match buffer {
            Buffer::Url => 1nat,
            Buffer::Method => one_if(method_held),
        },
        settlements(closing_steps(method_held, forward)) == 1,
{
    let verdict = if forward {
        Step::Forward
    } else {
        Step::Suppress
    };
    let none = Seq::<Step>::empty();
    if method_held {
        let one = none.push(Step::Release(Buffer::Method));
        let two = one.push(verdict);
        lemma_counts_push(none, Step::Release(Buffer::Method), buffer);
        lemma_counts_push(one, verdict, buffer);
        lemma_counts_push(two, Step::Release(Buffer::Url), buffer);
        assert(closing_steps(method_held, forward) =~= two.push(Step::Release(Buffer::Url)));
    } else {
        let one = none.push(verdict);
        lemma_counts_push(none, verdict, buffer);
        lemma_counts_push(one, Step::Release(Buffer::Url), buffer);
        assert(closing_steps(method_held, forward) =~= one.push(Step::Release(Buffer::Url)));
    }
}

/// The books of one transition balance. What is given back and what is
/// still held afterwards is what was held before and what the event handed
/// over; and the call is settled by the transition that ends it, once, and
/// by no other.
pub proof fn lemma_transition_balances(
    state: StateModel,
    event: EventModel,
    debug_mode: bool,
    config: Config,
    buffer: Buffer,
)
    ensures
        ({
            let t = transition(state, event, debug_mode, config);
            &&& releases(t.steps, buffer) + one_if(holds(t.next, buffer)) == one_if(
                holds(state, buffer),
            ) + one_if(hands_over(state, event, buffer))
            &&& settlements(t.steps) == one_if(!(state is Done) && t.next is Done)
        }),
{
    let t = transition(state, event, debug_mode, config);
    lemma_counts_of_one(Step::Forward, buffer);
    lemma_counts_of_one(Step::ReadUrl, buffer);
    lemma_counts_of_one(Step::ReadMethod, buffer);
    match (state, event) {
        (StateModel::AwaitMethod(url), EventModel::Buffer(held)) => {
            lemma_counts_of_closing(
                held is Some,
                forwards(debug_mode, url_reason(url, config)),
                buffer,
            );
        },
        _ => {},
    }
}

/// Every buffer that the host hands over in the course of a call is given
/// back exactly once, on every path through the state machine; a null handle
/// is never given back; and a call that has ended was settled exactly once.
/// Stated for every run of events from the arrival of a call: up to any
/// point, a buffer was handed over at most once, and it was given back as
/// often as it was handed over unless it is still held; a run that has
/// reached the end holds nothing.
pub proof fn lemma_buffers_released_once(
    events: Seq<EventModel>,
    debug_mode: bool,
    config: Config,
    buffer: Buffer,
)
    ensures
        ({
            let end = run_state(StateModel::Validate, events, debug_mode, config);
            let steps = run_steps(StateModel::Validate, events, debug_mode, config);
            let handed = run_handovers(StateModel::Validate, events, debug_mode, config, buffer);
            &&& handed <= 1
            &&& releases(steps, buffer) + one_if(holds(end, buffer)) == handed
            &&& end is Done ==> releases(steps, buffer) == handed
            &&& settlements(steps) == one_if(end is Done)
            &&& !(end is Done) ==> handed == one_if(holds(end, buffer))
        }),
    decreases events.len(),
{
    if events.len() > 0 {
        let before = events.drop_last();
        lemma_buffers_released_once(before, debug_mode, config, buffer);
        let state = run_state(StateModel::Validate, before, debug_mode, config);
        lemma_transition_balances(state, events.last(), debug_mode, config, buffer);
        lemma_counts_concat(
            run_steps(StateModel::Validate, before, debug_mode, config),
            transition(state, events.last(), debug_mode, config).steps,
            buffer,
        );
    }
}

/// In debug mode no request is suppressed: the call that is decided is
/// handed on, whatever its URL, and reported as a trace.
pub proof fn lemma_debug_mode_forwards(url: Seq<char>, buffer: Option<Seq<u16>>, config: Config)
    ensures
        method_received(url, buffer, true, config).steps == closing_steps(buffer is Some, true),
        method_received(url, buffer, true, config).line == Some(
            debug_line(method_text(buffer) + " "@ + url),
        ),
{
}

/// In debug mode a decided request is counted as a trace and as nothing
/// else, whatever its URL: the counter of debug lines goes up by one, and
/// the two others stay. Stated for a counter of debug lines below the
/// largest value; at the largest value it starts over at zero.
pub proof fn lemma_debug_mode_counts_a_trace(counters: LogCounters, url: Seq<char>, config: Config)
    requires
        counters.debug < usize::MAX,
    ensures
        counted_request(counters, true, url_reason(url, config)) == (LogCounters {
            debug: (counters.debug + 1) as usize,
            allowed: counters.allowed,
            blocked: counters.blocked,
        }),
        forall|buffer: Option<Seq<u16>>|
            counted(
                counters,
                StateModel::AwaitMethod(url),
                EventModel::Buffer(buffer),
                true,
                config,
            ) == counted_request(counters, true, url_reason(url, config)),
{
}

} // verus!
