//! What is said of each scraped product, and the summary of a batch.

use crate::errors::{error_text, ScrapingErrors, ScrapingErrorsView};
use crate::extract::{product_view, ScrapingResult, ScrapingResultView};
use crate::text::{decimal_text, push_decimal, push_decimal_digits, decimal_digits};
use crate::transport::{
    base64_standard_decoding, decode, request_of, DecodeFailure, PubSubMessage, TransportKind,
};
use crate::wire::AmznScrapingRequest;
use vstd::prelude::*;
use vstd::string::StringExecFns;
use vstd::utf8::encode_utf8;

verus! {

/// The pause in seconds that follows each notice.
pub const SETTLE_DELAY_SECS: u64 = 1;

/// A line to record, and the pause in seconds to keep after it.
#[derive(Debug)]
pub struct Notice {
    pub line: String,
    pub settle_secs: u64,
}

/// What `{:?}` prints for a text: the text between double quotes, with the
/// characters escaped that `str`'s `Debug` escapes.
pub uninterp spec fn debug_form(text: Seq<char>) -> Seq<char>;

/// `str`'s implementation of `std::fmt::Debug`, through `format!`. Only the
/// name of the result is claimed.
#[verifier::external_body]
fn debug_quoted(text: &str) -> (quoted: String)
    ensures
        quoted@ == debug_form(text@),
{
    format!("{:?}", text)
}

/// The line that records a scraped product, given the quoted forms of its
/// name and of its seller.
pub open spec fn success_text(name: Seq<char>, price: int, seller: Seq<char>) -> Seq<char> {
    "Scraping was successful! See details of product: ScrapingResult { name: "@ + name
        + ", price: "@ + decimal_text(price) + ", seller: "@ + seller + " }."@
}

/// The line that records a failure.
pub open spec fn failure_text(error_msg: Seq<char>) -> Seq<char> {
    "Error message encountered: "@ + error_msg + "."@
}

/// The line that records a scraped product, given the quoted forms of its
/// name and of its seller.
pub fn success_line(quoted_name: &str, price: i32, quoted_seller: &str) -> (line: String)
    ensures
        line@ == success_text(quoted_name@, price as int, quoted_seller@),
{
    let mut line = String::from_str(
        "Scraping was successful! See details of product: ScrapingResult { name: ",
    );
    line.append(quoted_name);
    line.append(", price: ");
    push_decimal(&mut line, price as i64);
    line.append(", seller: ");
    line.append(quoted_seller);
    line.append(" }.");
    line
}

/// The notice of a scraped product.
pub fn successful_scrape(scraping_result: &ScrapingResult) -> (notice: Notice)
    ensures
        notice.line@ == success_text(
            debug_form(scraping_result.name@),
            scraping_result.price as int,
            debug_form(scraping_result.seller@),
        ),
        notice.settle_secs == SETTLE_DELAY_SECS,
{
    let name = debug_quoted(scraping_result.name.as_str());
    let seller = debug_quoted(scraping_result.seller.as_str());
    Notice {
        line: success_line(name.as_str(), scraping_result.price, seller.as_str()),
        settle_secs: SETTLE_DELAY_SECS,
    }
}

/// The notice of a failure.
pub fn unsuccessful_scrape(error_msg: &str) -> (notice: Notice)
    ensures
        notice.line@ == failure_text(error_msg@),
        notice.settle_secs == SETTLE_DELAY_SECS,
{
    let mut line = String::from_str("Error message encountered: ");
    line.append(error_msg);
    line.append(".");
    Notice { line, settle_secs: SETTLE_DELAY_SECS }
}

/// How the scraping of one product ended.
#[derive(Debug)]
pub enum ScrapeOutcome {
    /// The product was scraped.
    Success { identifier: String, result: ScrapingResult },
    /// The product was not scraped; the reason says why.
    Failure { identifier: String, reason: String },
}

/// An outcome as a mathematical value.
pub enum ScrapeOutcomeView {
    Success { identifier: Seq<char>, result: ScrapingResultView },
    Failure { identifier: Seq<char>, reason: Seq<char> },
}

impl View for ScrapeOutcome {
    type V = ScrapeOutcomeView;

    open spec fn view(&self) -> ScrapeOutcomeView {
        match self {
            ScrapeOutcome::Success { identifier, result } => ScrapeOutcomeView::Success {
                identifier: identifier@,
                result: result@,
            },
            ScrapeOutcome::Failure { identifier, reason } => ScrapeOutcomeView::Failure {
                identifier: identifier@,
                reason: reason@,
            },
        }
    }
}

/// The outcome for a product, given what its scraping returned. An error
/// never leaves the item: it becomes the reason of a failure.
pub open spec fn outcome_of(
    identifier: Seq<char>,
    scraped: Result<ScrapingResultView, ScrapingErrorsView>,
) -> ScrapeOutcomeView {
    match scraped {
        Ok(result) => ScrapeOutcomeView::Success { identifier, result },
        Err(e) => ScrapeOutcomeView::Failure { identifier, reason: error_text(e) },
    }
}

/// The line that records an outcome.
pub open spec fn outcome_text(outcome: ScrapeOutcomeView) -> Seq<char> {
    match outcome {
        ScrapeOutcomeView::Success { result, .. } => success_text(
            debug_form(result.name),
            result.price,
            debug_form(result.seller),
        ),
        ScrapeOutcomeView::Failure { reason, .. } => failure_text(reason),
    }
}

impl ScrapeOutcome {
    /// The outcome for a product, given what its scraping returned.
    pub fn new(identifier: String, scraped: Result<ScrapingResult, ScrapingErrors>) -> (outcome:
        ScrapeOutcome)
        ensures
            outcome@ == outcome_of(identifier@, product_view(scraped)),
    {
        match scraped {
            Ok(result) => ScrapeOutcome::Success { identifier, result },
            Err(e) => ScrapeOutcome::Failure { identifier, reason: e.message() },
        }
    }

    /// Whether the product counts as scraped.
    pub fn counted(&self) -> (counted: bool)
        ensures
            counted == (self@ is Success),
    {
        match self {
            ScrapeOutcome::Success { .. } => true,
            ScrapeOutcome::Failure { .. } => false,
        }
    }
}

/// What one product of a batch comes to: the notice to give, and whether the
/// product counts as scraped.
#[derive(Debug)]
pub struct ItemReport {
    pub notice: Notice,
    pub counted: bool,
}

/// Turns the outcome of one product into its report: the line that records
/// it, the pause to keep after the line, and whether the product counts.
pub fn report(outcome: &ScrapeOutcome) -> (report: ItemReport)
    ensures
        report.counted == (outcome@ is Success),
        report.notice.settle_secs == SETTLE_DELAY_SECS,
        report.notice.line@ == outcome_text(outcome@),
{
    match outcome {
        ScrapeOutcome::Success { result, .. } => ItemReport {
            notice: successful_scrape(result),
            counted: true,
        },
        ScrapeOutcome::Failure { reason, .. } => ItemReport {
            notice: unsuccessful_scrape(reason.as_str()),
            counted: false,
        },
    }
}

/// How a batch went: how many of its products were scraped, out of how many.
#[derive(Debug, Clone, Copy, PartialEq, Eq, Structural)]
pub struct BatchSummary {
    pub succeeded: usize,
    pub total: usize,
}

/// How many of the signals say that the product was scraped. The count is
/// taken of the signals as a multiset: their order does not matter.
pub open spec fn succeeded_count(signals: Seq<bool>) -> nat {
    signals.to_multiset().count(true)
}

/// Never more products were scraped than the batch holds.
pub proof fn lemma_succeeded_at_most_total(signals: Seq<bool>)
    ensures
        succeeded_count(signals) <= signals.len(),
    decreases signals.len(),
{
    broadcast use vstd::seq_lib::group_to_multiset_ensures;

    if signals.len() == 0 {
    } else {
        let head = signals.drop_last();
        lemma_succeeded_at_most_total(head);
        assert(signals =~= head.push(signals.last()));
    }
}

/// Two batches with the same signals, in whatever order, have the same count.
pub proof fn lemma_succeeded_count_ignores_order(first: Seq<bool>, second: Seq<bool>)
    requires
        first.to_multiset() == second.to_multiset(),
    ensures
        succeeded_count(first) == succeeded_count(second),
        first.len() == second.len(),
{
    first.to_multiset_ensures();
    second.to_multiset_ensures();
}

/// Folds the signals of a batch into its summary.
pub fn summarize(signals: &[bool]) -> (summary: BatchSummary)
    ensures
        summary.succeeded == succeeded_count(signals@),
        summary.total == signals@.len(),
        summary.succeeded <= summary.total,
{
    let mut succeeded: usize = 0;
    let mut i: usize = 0;
    proof {
        broadcast use vstd::seq_lib::group_to_multiset_ensures;

        assert(signals@.subrange(0, 0) =~= Seq::<bool>::empty());
    }
    while i < signals.len()
        invariant
            i <= signals@.len(),
            succeeded <= i,
            succeeded == succeeded_count(signals@.subrange(0, i as int)),
        decreases signals@.len() - i,
    {
        proof {
            broadcast use vstd::seq_lib::group_to_multiset_ensures;

            assert(signals@.subrange(0, i + 1) =~= signals@.subrange(0, i as int).push(
                signals@[i as int],
            ));
        }
        if signals[i] {
            succeeded = succeeded + 1;
        }
        i = i + 1;
    }
    proof {
        assert(signals@.subrange(0, i as int) =~= signals@);
    }
    BatchSummary { succeeded, total: signals.len() }
}

/// The sentence that reports a summary.
pub open spec fn status_text(succeeded: nat, total: nat) -> Seq<char> {
    "Status: "@ + decimal_digits(succeeded) + "/"@ + decimal_digits(total)
        + " requests were successfully scraped."@
}

impl BatchSummary {
    /// The sentence that reports the summary.
    pub fn status_line(&self) -> (line: String)
        ensures
            line@ == status_text(self.succeeded as nat, self.total as nat),
    {
        let mut line = String::from_str("Status: ");
        push_decimal_digits(&mut line, self.succeeded as u64);
        line.append("/");
        push_decimal_digits(&mut line, self.total as u64);
        line.append(" requests were successfully scraped.");
        line
    }
}

/// The reply to a payload that holds no request.
pub const UNDECODABLE_REPLY: &'static str = "Message was received but was unable to be decoded.";

/// The reply to a health check.
pub const HEALTH_REPLY: &'static str = "Hello World!";

/// The reply to a health check.
pub fn hello_world() -> (body: &'static str)
    ensures
        body@ == HEALTH_REPLY@,
{
    HEALTH_REPLY
}

/// What to do with a payload: scrape the products it asks for, or answer at
/// once that it holds no request.
#[derive(Debug)]
pub enum Intake {
    /// The request to scrape.
    Batch(AmznScrapingRequest),
    /// The payload holds no request; the text is the reply.
    Undecodable(String),
}

/// Whether an intake is what the decoding of a payload asks for: the batch
/// that was decoded, or the fixed reply where nothing was.
pub open spec fn intake_matches(intake: Intake, decoded: Result<Seq<Seq<char>>, DecodeFailure>) -> bool {
    match intake {
        Intake::Batch(request) => decoded == Ok::<Seq<Seq<char>>, DecodeFailure>(request@),
        Intake::Undecodable(reply) => decoded is Err && reply@ == UNDECODABLE_REPLY@,
    }
}

/// Takes in a payload that arrived over the given transport. A payload that
/// cannot be decoded is answered, never failed on.
pub fn intake(payload: &[u8], kind: TransportKind) -> (taken: Intake)
    ensures
        intake_matches(taken, request_of(payload@, kind, base64_standard_decoding(payload@))),
{
    match decode(payload, kind) {
        Ok(request) => Intake::Batch(request),
        Err(_) => Intake::Undecodable(UNDECODABLE_REPLY.to_owned()),
    }
}

/// Takes in a push notification.
pub fn amzn_request(request_payload: &PubSubMessage) -> (taken: Intake)
    ensures
        intake_matches(
            taken,
            request_of(
                encode_utf8(request_payload.message.data@),
                TransportKind::EnvelopedPush,
                base64_standard_decoding(encode_utf8(request_payload.message.data@)),
            ),
        ),
{
    intake(request_payload.message.data.as_str().as_bytes(), TransportKind::EnvelopedPush)
}

/// The reply to a batch whose products have all been dealt with.
pub fn batch_reply(signals: &[bool]) -> (reply: String)
    ensures
        reply@ == status_text(succeeded_count(signals@), signals@.len()),
{
    summarize(signals).status_line()
}

} // verus!
