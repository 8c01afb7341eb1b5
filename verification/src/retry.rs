//! The fetch of one product page: which address is asked, how long to wait
//! before each attempt, and what follows from the answer to an attempt.
//!
//! The caller waits, sends the request and reports what came back; `scrape`
//! decides whether the fetch is over.

use crate::backoff::{default_backoff, default_backoff_secs};
use crate::errors::{ScrapingErrors, ScrapingErrorsView};
use crate::text::{decimal_text, push_decimal};
use vstd::prelude::*;
use vstd::string::StringExecFns;

verus! {

/// How often a fetch is tried again after its first attempt.
pub const MAX_RETRIES: u32 = 5;

/// The address of a product page, up to the product code.
pub const PRODUCT_PAGE_PREFIX: &'static str = "https://www.amazon.sg/dp/";

/// The address of the page of a product.
pub open spec fn product_uri(amzn_asin: Seq<char>) -> Seq<char> {
    PRODUCT_PAGE_PREFIX@ + amzn_asin
}

/// Whether a status code reports success: the codes from 200 to 299.
pub open spec fn is_success(status: u16) -> bool {
    200 <= status < 300
}

/// The description of a response that reports no success, for a transport
/// that gives none of its own.
pub open spec fn status_failure_text(status: u16, uri: Seq<char>) -> Seq<char> {
    "HTTP status "@ + decimal_text(status as int) + " for url ("@ + uri + ")"@
}

/// What an attempt to fetch the page gave.
#[derive(Debug)]
pub enum FetchEvent {
    /// No response arrived: the connection failed. The text says how.
    TransportFailure(String),
    /// A response arrived, with this status code. Where the transport itself
    /// reports the status as an error, `detail` is its description.
    Response { status: u16, detail: Option<String> },
}

/// An event as a mathematical value.
pub enum FetchEventView {
    TransportFailure(Seq<char>),
    Response { status: u16, detail: Option<Seq<char>> },
}

impl View for FetchEvent {
    type V = FetchEventView;

    open spec fn view(&self) -> FetchEventView {
        match self {
            FetchEvent::TransportFailure(text) => FetchEventView::TransportFailure(text@),
            FetchEvent::Response { status, detail } => FetchEventView::Response {
                status: *status,
                detail: match detail {
                    Some(text) => Some(text@),
                    None => None,
                },
            },
        }
    }
}

/// A fetch in progress: the address asked and the index of the attempt that
/// comes next.
#[derive(Debug)]
pub struct RetryState {
    uri: String,
    attempt: u32,
}

/// What follows an attempt.
#[derive(Debug)]
pub enum RetryStep {
    /// The response is the page: the fetch is over.
    Done,
    /// Another attempt follows, after its delay.
    Retry(RetryState),
    /// The fetch has failed for good.
    GiveUp(ScrapingErrors),
}

/// A step as a mathematical value; of a retry, the index of the next attempt
/// and the address it asks.
pub enum RetryStepView {
    Done,
    Retry { attempt: nat, uri: Seq<char> },
    GiveUp(ScrapingErrorsView),
}

/// The text of the error for a response that reports no success: the
/// transport's description where it gave one.
pub open spec fn status_error_text(status: u16, detail: Option<Seq<char>>, uri: Seq<char>) -> Seq<
    char,
> {
    match detail {
        Some(text) => text,
        None => status_failure_text(status, uri),
    }
}

/// What follows attempt number `attempt` at `uri` once `event` has come back.
/// A failed connection ends the fetch at once. A response that reports no
/// success leads to another attempt, unless this was the last one.
pub open spec fn next_step(attempt: nat, uri: Seq<char>, event: FetchEventView) -> RetryStepView {
    match event {
        FetchEventView::TransportFailure(text) => RetryStepView::GiveUp(
            ScrapingErrorsView::ReqwestError(text),
        ),
        FetchEventView::Response { status, detail } => if is_success(status) {
            RetryStepView::Done
        } else if attempt >= MAX_RETRIES {
            RetryStepView::GiveUp(
                ScrapingErrorsView::ReqwestError(status_error_text(status, detail, uri)),
            )
        } else {
            RetryStepView::Retry { attempt: attempt + 1, uri }
        },
    }
}

impl RetryState {
    #[verifier::type_invariant]
    spec fn within_bound(&self) -> bool {
        self.attempt <= MAX_RETRIES
    }

    /// The index of the attempt that comes next.
    pub closed spec fn attempt_index(&self) -> nat {
        self.attempt as nat
    }

    /// The address asked.
    pub closed spec fn target(&self) -> Seq<char> {
        self.uri@
    }

    /// The fetch of a product's page, before its first attempt.
    pub fn new(amzn_asin: &str) -> (state: RetryState)
        ensures
            state.attempt_index() == 0,
            state.target() == product_uri(amzn_asin@),
    {
        RetryState { uri: request_uri(amzn_asin), attempt: 0 }
    }

    /// The index of the attempt that comes next.
    pub fn attempt(&self) -> (index: u32)
        ensures
            index == self.attempt_index(),
            index <= MAX_RETRIES,
    {
        proof {
            use_type_invariant(self);
        }
        self.attempt
    }

    /// The address asked.
    pub fn uri(&self) -> (uri: &str)
        ensures
            uri@ == self.target(),
    {
        self.uri.as_str()
    }
}

impl View for RetryStep {
    type V = RetryStepView;

    open spec fn view(&self) -> RetryStepView {
        match self {
            RetryStep::Done => RetryStepView::Done,
            RetryStep::Retry(state) => RetryStepView::Retry {
                attempt: state.attempt_index(),
                uri: state.target(),
            },
            RetryStep::GiveUp(error) => RetryStepView::GiveUp(error@),
        }
    }
}

/// The address of the page of a product.
pub fn request_uri(amzn_asin: &str) -> (uri: String)
    ensures
        uri@ == product_uri(amzn_asin@),
{
    String::from_str(PRODUCT_PAGE_PREFIX).concat(amzn_asin)
}

/// The description of a response that reports no success.
pub fn status_failure(status: u16, uri: &str) -> (text: String)
    ensures
        text@ == status_failure_text(status, uri@),
{
    let mut text = String::from_str("HTTP status ");
    push_decimal(&mut text, status as i64);
    text.append(" for url (");
    text.append(uri);
    text.append(")");
    text
}

/// The wait in seconds before attempt number `attempt`: what the policy
/// gives, or the default delay where there is no policy.
pub fn backoff_delay<F: Fn(u32) -> u32>(exponential_backoff_fn: &Option<F>, attempt: u32) -> (delay:
    u32)
    requires
        attempt <= MAX_RETRIES,
        exponential_backoff_fn matches Some(policy) ==> call_requires(policy, (attempt,)),
    ensures
        match exponential_backoff_fn {
            None => delay == default_backoff_secs(attempt as nat),
            Some(policy) => call_ensures(policy, (attempt,), delay),
        },
{
    match exponential_backoff_fn {
        None => default_backoff(attempt),
        Some(policy) => policy(attempt),
    }
}

/// Decides what follows an attempt.
pub fn scrape(state: RetryState, event: FetchEvent) -> (step: RetryStep)
    ensures
        step@ == next_step(state.attempt_index(), state.target(), event@),
{
    proof {
        use_type_invariant(&state);
    }
    match event {
        FetchEvent::TransportFailure(text) => RetryStep::GiveUp(ScrapingErrors::ReqwestError(text)),
        FetchEvent::Response { status, detail } => {
            if 200 <= status && status < 300 {
                RetryStep::Done
            } else if state.attempt >= MAX_RETRIES {
                let text = match detail {
                    Some(text) => text,
                    None => status_failure(status, state.uri.as_str()),
                };
                RetryStep::GiveUp(ScrapingErrors::ReqwestError(text))
            } else {
                RetryStep::Retry(RetryState { uri: state.uri, attempt: state.attempt + 1 })
            }
        },
    }
}

/// How many attempts a fetch makes from attempt number `attempt` on, when
/// `events` is what the attempts give, in order.
pub open spec fn attempts_made(attempt: nat, uri: Seq<char>, events: Seq<FetchEventView>) -> nat
    decreases events.len(),
{
    if events.len() == 0 {
        0
    } else {
        match next_step(attempt, uri, events[0]) {
            RetryStepView::Retry { attempt: next, .. } => 1 + attempts_made(
                next,
                uri,
                events.drop_first(),
            ),
            _ => 1,
        }
    }
}

/// How a fetch ends that starts at attempt number `attempt`, when `events` is
/// what the attempts give, in order; a retry where the events run out before
/// the fetch is over.
pub open spec fn fetch_outcome(attempt: nat, uri: Seq<char>, events: Seq<FetchEventView>) -> RetryStepView
    decreases events.len(),
{
    if events.len() == 0 {
        RetryStepView::Retry { attempt, uri }
    } else {
        match next_step(attempt, uri, events[0]) {
            RetryStepView::Retry { attempt: next, .. } => fetch_outcome(
                next,
                uri,
                events.drop_first(),
            ),
            step => step,
        }
    }
}

/// Whether an event is a response that reports no success.
pub open spec fn is_status_failure(event: FetchEventView) -> bool {
    event matches FetchEventView::Response { status, .. } && !is_success(status)
}

/// A fetch makes at most six attempts, whatever the attempts give.
pub proof fn lemma_at_most_six_attempts(attempt: nat, uri: Seq<char>, events: Seq<FetchEventView>)
    requires
        attempt <= MAX_RETRIES,
    ensures
        attempts_made(attempt, uri, events) <= MAX_RETRIES + 1 - attempt,
    decreases events.len(),
{
    if events.len() > 0 && attempt < MAX_RETRIES {
        lemma_at_most_six_attempts(attempt + 1, uri, events.drop_first());
    }
}

/// While the responses report no success the fetch goes on, one attempt for
/// each event.
pub proof fn lemma_status_failures_are_retried(
    attempt: nat,
    uri: Seq<char>,
    events: Seq<FetchEventView>,
)
    requires
        attempt + events.len() <= MAX_RETRIES,
        forall|i: int| 0 <= i < events.len() ==> is_status_failure(#[trigger] events[i]),
    ensures
        fetch_outcome(attempt, uri, events) == (RetryStepView::Retry {
            attempt: attempt + events.len(),
            uri,
        }),
        attempts_made(attempt, uri, events) == events.len(),
    decreases events.len(),
{
    if events.len() > 0 {
        assert(is_status_failure(events[0]));
        let rest = events.drop_first();
        assert forall|i: int| 0 <= i < rest.len() implies is_status_failure(#[trigger] rest[i]) by {
            assert(rest[i] == events[i + 1]);
        }
        lemma_status_failures_are_retried(attempt + 1, uri, rest);
    }
}

/// Six responses in a row that report no success end the fetch: the sixth is
/// its error, and whatever might follow is never asked for.
pub proof fn lemma_sixth_status_failure_is_final(uri: Seq<char>, events: Seq<FetchEventView>)
    requires
        events.len() >= 6,
        forall|i: int| 0 <= i < 6 ==> is_status_failure(#[trigger] events[i]),
    ensures
        attempts_made(0, uri, events) == 6,
        events[5] matches FetchEventView::Response { status, detail } && fetch_outcome(
            0,
            uri,
            events,
        ) == RetryStepView::GiveUp(
            ScrapingErrorsView::ReqwestError(status_error_text(status, detail, uri)),
        ),
{
    lemma_run_splits(0, uri, events, 5);
    let last = events.subrange(5, events.len() as int);
    assert(last[0] == events[5]);
    assert(is_status_failure(events[5]));
}

/// A run over events is the run over their first `count`, continued over the
/// rest, as long as the first `count` all lead to a retry.
pub proof fn lemma_run_splits(attempt: nat, uri: Seq<char>, events: Seq<FetchEventView>, count: int)
    requires
        0 <= count <= events.len(),
        attempt + count <= MAX_RETRIES,
        forall|i: int| 0 <= i < count ==> is_status_failure(#[trigger] events[i]),
    ensures
        fetch_outcome(attempt, uri, events) == fetch_outcome(
            (attempt + count) as nat,
            uri,
            events.subrange(count, events.len() as int),
        ),
        attempts_made(attempt, uri, events) == count + attempts_made(
            (attempt + count) as nat,
            uri,
            events.subrange(count, events.len() as int),
        ),
    decreases count,
{
    if count == 0 {
        assert(events.subrange(0, events.len() as int) =~= events);
    } else {
        assert(is_status_failure(events[0]));
        let rest = events.drop_first();
        assert forall|i: int| 0 <= i < count - 1 implies is_status_failure(#[trigger] rest[i]) by {
            assert(rest[i] == events[i + 1]);
        }
        lemma_run_splits(attempt + 1, uri, rest, count - 1);
        assert(rest.subrange(count - 1, rest.len() as int) =~= events.subrange(
            count,
            events.len() as int,
        ));
    }
}

/// A failed connection ends the fetch with that attempt, at whatever attempt
/// it happens: no further attempt is made and no further delay is waited for.
pub proof fn lemma_transport_failure_aborts(
    attempt: nat,
    uri: Seq<char>,
    events: Seq<FetchEventView>,
)
    requires
        events.len() > 0,
        events[0] is TransportFailure,
    ensures
        attempts_made(attempt, uri, events) == 1,
        fetch_outcome(attempt, uri, events) == RetryStepView::GiveUp(
            ScrapingErrorsView::ReqwestError(events[0]->TransportFailure_0),
        ),
{
}

/// A response that reports success ends the fetch with that attempt.
pub proof fn lemma_success_ends_fetch(attempt: nat, uri: Seq<char>, events: Seq<FetchEventView>)
    requires
        events.len() > 0,
        events[0] matches FetchEventView::Response { status, .. } && is_success(status),
    ensures
        attempts_made(attempt, uri, events) == 1,
        fetch_outcome(attempt, uri, events) == RetryStepView::Done,
{
}

} // verus!
