//! What can go wrong while one product is scraped.

use crate::number::IntErrorKind;
use vstd::prelude::*;
use vstd::string::StringExecFns;

verus! {

/// Why the scraping of one product failed.
#[derive(Debug)]
pub enum ScrapingErrors {
    /// The page could not be fetched; the text says why.
    ReqwestError(String),
    /// The selector is no CSS selector; the text says why.
    ScraperError(String),
    /// No element of the page matches the selector.
    MissingCssSelectorElementError { selector_name: String },
    /// The first matching element has no child.
    MissingCssValue,
    /// The first child of the first matching element is no text.
    InvalidCssValue,
    /// The price is no integer.
    ParseIntError(IntErrorKind),
}

/// A scraping error as a mathematical value.
pub enum ScrapingErrorsView {
    ReqwestError(Seq<char>),
    ScraperError(Seq<char>),
    MissingCssSelectorElementError { selector_name: Seq<char> },
    MissingCssValue,
    InvalidCssValue,
    ParseIntError(IntErrorKind),
}

impl View for ScrapingErrors {
    type V = ScrapingErrorsView;

    open spec fn view(&self) -> ScrapingErrorsView {
        match self {
            ScrapingErrors::ReqwestError(text) => ScrapingErrorsView::ReqwestError(text@),
            ScrapingErrors::ScraperError(text) => ScrapingErrorsView::ScraperError(text@),
            ScrapingErrors::MissingCssSelectorElementError { selector_name } => {
                ScrapingErrorsView::MissingCssSelectorElementError {
                    selector_name: selector_name@,
                }
            },
            ScrapingErrors::MissingCssValue => ScrapingErrorsView::MissingCssValue,
            ScrapingErrors::InvalidCssValue => ScrapingErrorsView::InvalidCssValue,
            ScrapingErrors::ParseIntError(kind) => ScrapingErrorsView::ParseIntError(*kind),
        }
    }
}

/// The sentence for each way in which a text is no integer.
pub open spec fn int_error_text(kind: IntErrorKind) -> Seq<char> {
    match kind {
        IntErrorKind::Empty => "cannot parse integer from empty string"@,
        IntErrorKind::InvalidDigit => "invalid digit found in string"@,
        IntErrorKind::PosOverflow => "number too large to fit in target type"@,
        IntErrorKind::NegOverflow => "number too small to fit in target type"@,
    }
}

/// The sentence that describes an error.
pub open spec fn error_text(error: ScrapingErrorsView) -> Seq<char> {
    match error {
        ScrapingErrorsView::ReqwestError(text) => {
            "Error raised by the reqwest package. See error message: "@ + text
        },
        ScrapingErrorsView::ScraperError(text) => {
            "Error raised by the scraper package. See error message: "@ + text
        },
        ScrapingErrorsView::MissingCssSelectorElementError { selector_name } => {
            "Error raised by the CSS selector: "@ + selector_name
        },
        ScrapingErrorsView::MissingCssValue => {
            "Error raised by the CSS selector: 'Value' field of selected element appears to be absent."@
        },
        ScrapingErrorsView::InvalidCssValue => {
            "Error raised by the CSS selector: 'Value' field of selected element appears to be of an incorrect type."@
        },
        ScrapingErrorsView::ParseIntError(kind) => int_error_text(kind),
    }
}

impl IntErrorKind {
    /// The sentence that describes the fault.
    pub fn message(&self) -> (text: &'static str)
        ensures
            text@ == int_error_text(*self),
    {
        match self {
            IntErrorKind::Empty => "cannot parse integer from empty string",
            IntErrorKind::InvalidDigit => "invalid digit found in string",
            IntErrorKind::PosOverflow => "number too large to fit in target type",
            IntErrorKind::NegOverflow => "number too small to fit in target type",
        }
    }
}

impl ScrapingErrors {
    /// The sentence that describes the error.
    pub fn message(&self) -> (text: String)
        ensures
            text@ == error_text(self@),
    {
        match self {
            ScrapingErrors::ReqwestError(detail) => {
                String::from_str("Error raised by the reqwest package. See error message: ").concat(
                    detail.as_str(),
                )
            },
            ScrapingErrors::ScraperError(detail) => {
                String::from_str("Error raised by the scraper package. See error message: ").concat(
                    detail.as_str(),
                )
            },
            ScrapingErrors::MissingCssSelectorElementError { selector_name } => {
                String::from_str("Error raised by the CSS selector: ").concat(
                    selector_name.as_str(),
                )
            },
            ScrapingErrors::MissingCssValue => {
                String::from_str(
                    "Error raised by the CSS selector: 'Value' field of selected element appears to be absent.",
                )
            },
            ScrapingErrors::InvalidCssValue => {
                String::from_str(
                    "Error raised by the CSS selector: 'Value' field of selected element appears to be of an incorrect type.",
                )
            },
            ScrapingErrors::ParseIntError(kind) => String::from_str(kind.message()),
        }
    }
}

} // verus!
