//! The product's fields, read from the markup of its page.
//!
//! A rule names a selector. The value of a rule is the first child of the
//! first element that the selector matches.

use crate::errors::{ScrapingErrors, ScrapingErrorsView};
use crate::number::{lemma_amount_is_not_negative, parse_amount, parsed_amount, IntErrorKind};
use crate::text::{chars_of, strip_separators, trim_bounds, trimmed, without_separators};
use vstd::prelude::*;
use vstd::utf8::encode_utf8;

verus! {

/// What a product page says of the product. The price is the displayed
/// amount, never negative; the seller is always `SELLER`.
#[derive(Debug)]
pub struct ScrapingResult {
    pub name: String,
    pub price: i32,
    pub seller: String,
}

/// A scraping result as a mathematical value.
pub struct ScrapingResultView {
    pub name: Seq<char>,
    pub price: int,
    pub seller: Seq<char>,
}

impl View for ScrapingResult {
    type V = ScrapingResultView;

    open spec fn view(&self) -> ScrapingResultView {
        ScrapingResultView { name: self.name@, price: self.price as int, seller: self.seller@ }
    }
}

/// A node of the markup, as far as the rules read it.
#[derive(Debug)]
pub enum Node {
    /// A text node and its text.
    Text(String),
    /// A node of any other kind.
    Other,
}

/// A node as a mathematical value.
pub enum NodeView {
    Text(Seq<char>),
    Other,
}

impl View for Node {
    type V = NodeView;

    open spec fn view(&self) -> NodeView {
        match self {
            Node::Text(text) => NodeView::Text(text@),
            Node::Other => NodeView::Other,
        }
    }
}

/// What running a selector over a document found.
#[derive(Debug)]
pub enum Lookup {
    /// The selector is no CSS selector; the text says why.
    BadSelector(String),
    /// No element matches.
    NoElement,
    /// The first matching element has no child.
    NoChild,
    /// The first child of the first matching element.
    Child(Node),
}

/// A lookup as a mathematical value.
pub enum LookupView {
    BadSelector(Seq<char>),
    NoElement,
    NoChild,
    Child(NodeView),
}

impl View for Lookup {
    type V = LookupView;

    open spec fn view(&self) -> LookupView {
        match self {
            Lookup::BadSelector(text) => LookupView::BadSelector(text@),
            Lookup::NoElement => LookupView::NoElement,
            Lookup::NoChild => LookupView::NoChild,
            Lookup::Child(node) => LookupView::Child(node@),
        }
    }
}

/// The selector of the product's title.
pub const PRODUCT_TITLE_SELECTOR: &'static str = "#productTitle";

/// The selector of the product's price.
pub const PRODUCT_PRICE_SELECTOR: &'static str =
    "span.a-price:nth-child(2) > span:nth-child(2) > span:nth-child(2)";

/// The seller of every product of the site.
pub const SELLER: &'static str = "Amazon";

/// The longest document, in bytes, that is handed to the markup parser. The
/// parser keeps text in buffers of at most 2^31 bytes, and a text can grow to
/// three times its length in the document: each NUL byte may become a
/// replacement character of three bytes.
pub const MAX_DOCUMENT_BYTES: usize = 0x2aaa_aaaa;

/// The longest selector, in characters, that is handed to the selector
/// parser. The parser calls itself once for each `:not(` that stands inside
/// another, so the length bounds the depth: 25 levels at most.
pub const MAX_SELECTOR_CHARS: usize = 128;

/// Whether a document is short enough for the markup parser.
pub open spec fn fits_parser(document: Seq<char>) -> bool {
    encode_utf8(document).len() <= MAX_DOCUMENT_BYTES
}

/// Whether a selector is short enough for the selector parser.
pub open spec fn selector_fits_parser(selector: Seq<char>) -> bool {
    selector.len() <= MAX_SELECTOR_CHARS
}

/// Whether a document is short enough for the markup parser.
pub fn document_fits(document: &str) -> (fits: bool)
    ensures
        fits == fits_parser(document@),
{
    document.as_bytes().len() <= MAX_DOCUMENT_BYTES
}

/// Whether a selector is short enough for the selector parser.
pub fn selector_fits(selector: &str) -> (fits: bool)
    ensures
        fits == selector_fits_parser(selector@),
{
    selector.unicode_len() <= MAX_SELECTOR_CHARS
}

/// What scraper finds when `Selector::parse` reads the selector,
/// `Html::parse_document` reads the document, and `Html::select` is asked for
/// its first element and that element for its first child. Where the selector
/// is refused, the lookup holds the error in its `Debug` form.
pub uninterp spec fn first_child_lookup(document: Seq<char>, selector: Seq<char>) -> LookupView;

/// Runs scraper: `Selector::parse` on the selector; `Html::parse_document` on
/// the document; the first item of `Html::select`; that element's
/// `first_child` and its `value`. Only the name of the result is claimed.
///
/// The selector's error is kept in its derived `Debug` form: its `Display`
/// cannot render every token that an error may hold. Documents above
/// `MAX_DOCUMENT_BYTES` and selectors above `MAX_SELECTOR_CHARS` are left
/// out: the parsers' buffers and the stack hold no more.
#[verifier::external_body]
fn lookup_first_child(document: &str, selector: &str) -> (found: Lookup)
    requires
        fits_parser(document@),
        selector_fits_parser(selector@),
    ensures
        found@ == first_child_lookup(document@, selector@),
{
    let parsed = match scraper::Selector::parse(selector) {
        Ok(parsed) => parsed,
        Err(e) => return Lookup::BadSelector(format!("{:?}", e)),
    };
    let tree = scraper::Html::parse_document(document);
    let child = match tree.select(&parsed).next() {
        Some(element) => element.first_child(),
        None => return Lookup::NoElement,
    };
    match child.map(|node| node.value()) {
        None => Lookup::NoChild,
        Some(scraper::Node::Text(text)) => Lookup::Child(Node::Text(text.to_string())),
        Some(_) => Lookup::Child(Node::Other),
    }
}

/// The value of a rule, given what its selector found.
pub open spec fn selection_of(found: LookupView, selector: Seq<char>) -> Result<
    NodeView,
    ScrapingErrorsView,
> {
    match found {
        LookupView::BadSelector(text) => Err(ScrapingErrorsView::ScraperError(text)),
        LookupView::NoElement => Err(
            ScrapingErrorsView::MissingCssSelectorElementError { selector_name: selector },
        ),
        LookupView::NoChild => Err(ScrapingErrorsView::MissingCssValue),
        LookupView::Child(node) => Ok(node),
    }
}

/// A selection as a mathematical value.
pub open spec fn selection_view(selection: Result<Node, ScrapingErrors>) -> Result<
    NodeView,
    ScrapingErrorsView,
> {
    match selection {
        Err(e) => Err(e@),
        Ok(node) => Ok(node@),
    }
}

/// The value of a rule, given what its selector found: the node, or the error
/// that says what is missing.
pub fn select_node(found: Lookup, selector_str: &str) -> (r: Result<Node, ScrapingErrors>)
    ensures
        selection_view(r) == selection_of(found@, selector_str@),
{
    match found {
        Lookup::BadSelector(text) => Err(ScrapingErrors::ScraperError(text)),
        Lookup::NoElement => Err(
            ScrapingErrors::MissingCssSelectorElementError { selector_name: selector_str.to_owned() },
        ),
        Lookup::NoChild => Err(ScrapingErrors::MissingCssValue),
        Lookup::Child(node) => Ok(node),
    }
}

/// Runs a selector over a document and returns the first child of the first
/// element that matches.
pub fn css_selection(document: &str, selector_str: &str) -> (r: Result<Node, ScrapingErrors>)
    requires
        fits_parser(document@),
        selector_fits_parser(selector_str@),
    ensures
        selection_view(r) == selection_of(
            first_child_lookup(document@, selector_str@),
            selector_str@,
        ),
{
    select_node(lookup_first_child(document, selector_str), selector_str)
}

/// The product's name, given what the title selector found: the text of the
/// node, trimmed.
pub open spec fn title_of(found: LookupView) -> Result<Seq<char>, ScrapingErrorsView> {
    match selection_of(found, PRODUCT_TITLE_SELECTOR@) {
        Err(e) => Err(e),
        Ok(NodeView::Other) => Err(ScrapingErrorsView::InvalidCssValue),
        Ok(NodeView::Text(text)) => Ok(trimmed(text)),
    }
}

/// The amount that a displayed price stands for: the text is trimmed, its
/// thousands separators are taken out, and what is left is read as an integer
/// without a minus sign.
pub open spec fn displayed_price(text: Seq<char>) -> Result<int, IntErrorKind> {
    parsed_amount(without_separators(trimmed(text)))
}

/// The product's price, given what the price selector found.
pub open spec fn price_of(found: LookupView) -> Result<int, ScrapingErrorsView> {
    match selection_of(found, PRODUCT_PRICE_SELECTOR@) {
        Err(e) => Err(e),
        Ok(NodeView::Other) => Err(ScrapingErrorsView::InvalidCssValue),
        Ok(NodeView::Text(text)) => match displayed_price(text) {
            Err(kind) => Err(ScrapingErrorsView::ParseIntError(kind)),
            Ok(price) => Ok(price),
        },
    }
}

/// The product, given what the two selectors found. A fault of the title
/// comes before a fault of the price.
pub open spec fn product_of(title: LookupView, price: LookupView) -> Result<
    ScrapingResultView,
    ScrapingErrorsView,
> {
    match title_of(title) {
        Err(e) => Err(e),
        Ok(name) => match price_of(price) {
            Err(e) => Err(e),
            Ok(amount) => Ok(ScrapingResultView { name, price: amount, seller: SELLER@ }),
        },
    }
}

/// The outcome of an extraction as a mathematical value.
pub open spec fn product_view(product: Result<ScrapingResult, ScrapingErrors>) -> Result<
    ScrapingResultView,
    ScrapingErrorsView,
> {
    match product {
        Err(e) => Err(e@),
        Ok(found) => Ok(found@),
    }
}

/// The text without the white space around it.
pub fn trim(text: &str) -> (kept: String)
    ensures
        kept@ == trimmed(text@),
{
    let chars = chars_of(text);
    let (start, end) = trim_bounds(chars.as_slice());
    text.substring_char(start, end).to_owned()
}

/// Reads a displayed price.
pub fn parse_price(text: &str) -> (r: Result<i32, IntErrorKind>)
    ensures
        match r {
            Err(kind) => displayed_price(text@) == Err::<int, IntErrorKind>(kind),
            Ok(price) => displayed_price(text@) == Ok::<int, IntErrorKind>(price as int) && price
                >= 0,
        },
{
    let chars = chars_of(text);
    let (start, end) = trim_bounds(chars.as_slice());
    let digits = strip_separators(vstd::slice::slice_subrange(chars.as_slice(), start, end));
    parse_amount(digits.as_slice())
}

/// The product's name, given what the title selector found.
pub fn product_name(found: Lookup) -> (r: Result<String, ScrapingErrors>)
    ensures
        match r {
            Err(e) => title_of(found@) == Err::<Seq<char>, ScrapingErrorsView>(e@),
            Ok(name) => title_of(found@) == Ok::<Seq<char>, ScrapingErrorsView>(name@),
        },
{
    match select_node(found, PRODUCT_TITLE_SELECTOR) {
        Err(e) => Err(e),
        Ok(Node::Other) => Err(ScrapingErrors::InvalidCssValue),
        Ok(Node::Text(text)) => Ok(trim(text.as_str())),
    }
}

/// The product's price, given what the price selector found.
pub fn product_price(found: Lookup) -> (r: Result<i32, ScrapingErrors>)
    ensures
        match r {
            Err(e) => price_of(found@) == Err::<int, ScrapingErrorsView>(e@),
            Ok(price) => price_of(found@) == Ok::<int, ScrapingErrorsView>(price as int) && price
                >= 0,
        },
{
    match select_node(found, PRODUCT_PRICE_SELECTOR) {
        Err(e) => Err(e),
        Ok(Node::Other) => Err(ScrapingErrors::InvalidCssValue),
        Ok(Node::Text(text)) => match parse_price(text.as_str()) {
            Err(kind) => Err(ScrapingErrors::ParseIntError(kind)),
            Ok(price) => Ok(price),
        },
    }
}

/// The product, given what the title selector and the price selector found.
pub fn extract_product(title: Lookup, price: Lookup) -> (r: Result<ScrapingResult, ScrapingErrors>)
    ensures
        product_view(r) == product_of(title@, price@),
        r matches Ok(product) ==> product.price >= 0 && product.seller@ == SELLER@,
{
    let name = match product_name(title) {
        Err(e) => {
            return Err(e);
        },
        Ok(name) => name,
    };
    let amount = match product_price(price) {
        Err(e) => {
            return Err(e);
        },
        Ok(amount) => amount,
    };
    Ok(ScrapingResult { name, price: amount, seller: SELLER.to_owned() })
}

/// The price of a product is never negative, and its seller is the one
/// seller of the site.
pub proof fn lemma_product_price_is_not_negative(title: LookupView, price: LookupView)
    ensures
        product_of(title, price) matches Ok(product) ==> 0 <= product.price <= i32::MAX
            && product.seller == SELLER@,
{
    if let Ok(NodeView::Text(text)) = selection_of(price, PRODUCT_PRICE_SELECTOR@) {
        lemma_amount_is_not_negative(without_separators(trimmed(text)));
    }
}

/// Reads the product from the body of its page.
pub fn parse_response(body: &str) -> (r: Result<ScrapingResult, ScrapingErrors>)
    requires
        fits_parser(body@),
    ensures
        product_view(r) == product_of(
            first_child_lookup(body@, PRODUCT_TITLE_SELECTOR@),
            first_child_lookup(body@, PRODUCT_PRICE_SELECTOR@),
        ),
        r matches Ok(product) ==> product.price >= 0 && product.seller@ == SELLER@,
{
    proof {
        reveal_strlit("#productTitle");
        reveal_strlit("span.a-price:nth-child(2) > span:nth-child(2) > span:nth-child(2)");
    }
    extract_product(
        lookup_first_child(body, PRODUCT_TITLE_SELECTOR),
        lookup_first_child(body, PRODUCT_PRICE_SELECTOR),
    )
}

} // verus!
